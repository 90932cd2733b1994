use music_uploader::error::MusicUploaderClientError;
use music_uploader::parts::{num_parts, part_range, remaining_parts, PartSpan};

#[test]
fn num_parts_exact_multiple() {
    assert_eq!(num_parts(10_000_000, 1_000_000).unwrap(), 10);
}

#[test]
fn num_parts_one_byte_over() {
    assert_eq!(num_parts(10_000_001, 1_000_000).unwrap(), 11);
}

#[test]
fn num_parts_of_empty_file() {
    assert_eq!(num_parts(0, 1).unwrap(), 0);
}

#[test]
fn num_parts_at_the_limit() {
    assert_eq!(num_parts(255, 1).unwrap(), 255);
    assert_eq!(num_parts(u32::MAX, u32::MAX).unwrap(), 1);
}

#[test]
fn num_parts_too_many() {
    assert!(matches!(num_parts(256, 1), Err(MusicUploaderClientError::TooManyParts(256))));
    assert!(matches!(
        num_parts(10_000_000, 100),
        Err(MusicUploaderClientError::TooManyParts(100_000))
    ));
}

#[test]
fn part_ranges_of_two_and_a_half_parts() {
    assert_eq!(part_range(0, 1_000_000, 2_500_000).unwrap(), (0, 1_000_000));
    assert_eq!(part_range(1, 1_000_000, 2_500_000).unwrap(), (1_000_000, 2_000_000));
    assert_eq!(part_range(2, 1_000_000, 2_500_000).unwrap(), (2_000_000, 2_500_000));
}

#[test]
fn part_range_past_the_end_is_empty() {
    assert!(matches!(
        part_range(3, 1_000_000, 2_500_000),
        Err(MusicUploaderClientError::EmptyPart(3))
    ));
}

#[test]
fn part_range_of_zero_part_size_is_empty() {
    assert!(matches!(part_range(0, 0, 100), Err(MusicUploaderClientError::EmptyPart(0))));
}

#[test]
fn part_range_of_largest_index() {
    assert_eq!(part_range(255, 1, 256).unwrap(), (255, 256));
}

#[test]
fn remaining_parts_skips_received() {
    let plan = remaining_parts(2_500_000, 1_000_000, &vec![0, 2]).unwrap();
    assert_eq!(plan, vec![PartSpan { index: 1, start: 1_000_000, end: 2_000_000 }]);
}

#[test]
fn remaining_parts_with_nothing_received() {
    let plan = remaining_parts(2_500_000, 1_000_000, &vec![]).unwrap();
    assert_eq!(
        plan,
        vec![
            PartSpan { index: 0, start: 0, end: 1_000_000 },
            PartSpan { index: 1, start: 1_000_000, end: 2_000_000 },
            PartSpan { index: 2, start: 2_000_000, end: 2_500_000 },
        ]
    );
}

#[test]
fn remaining_parts_ignores_repeats_and_unknown_indices() {
    let plan = remaining_parts(30, 10, &vec![2, 2, 200, 0]).unwrap();
    assert_eq!(plan, vec![PartSpan { index: 1, start: 10, end: 20 }]);
}

#[test]
fn remaining_parts_all_received() {
    let plan = remaining_parts(30, 10, &vec![0, 1, 2]).unwrap();
    assert!(plan.is_empty());
}

#[test]
fn remaining_parts_zero_part_size() {
    assert!(matches!(
        remaining_parts(30, 0, &vec![]),
        Err(MusicUploaderClientError::EmptyPart(0))
    ));
}

#[test]
fn remaining_parts_too_many() {
    assert!(matches!(
        remaining_parts(256, 1, &vec![]),
        Err(MusicUploaderClientError::TooManyParts(256))
    ));
}
