use music_uploader::config::MusicUploaderClientConfig;
use music_uploader::error::MusicUploaderClientError;
use music_uploader::upload::{
    DeclareUploadResponse, Song, UploadAction, UploadEvent, UploadState,
};

fn config(max: u32) -> MusicUploaderClientConfig {
    MusicUploaderClientConfig {
        user: "user".to_string(),
        password: "pass".to_string(),
        server_url: "http://localhost:8000".to_string(),
        max_upload_part_size: max,
    }
}

fn upload(max: u32, len: usize) -> UploadState {
    let data: Vec<u8> = (0..len).map(|i| (i % 251) as u8).collect();
    UploadState::with_hash(
        config(max),
        "album".to_string(),
        "artist".to_string(),
        Song { song_name: "song.mp3".to_string(), path: "/music/song.mp3".to_string() },
        data,
        "hash".to_string(),
    )
}

fn incomplete(part_size: u32, declared: u32, received: Vec<u8>) -> UploadEvent {
    UploadEvent::Declared(Ok(DeclareUploadResponse::Incomplete {
        key: "session".to_string(),
        declared_size: declared,
        part_size,
        received_parts: received,
    }))
}

fn assert_declare(action: &UploadAction, part_size: u32, declared: u32) {
    match action {
        UploadAction::Declare { part_size: p, declared_size: d } => {
            assert_eq!((*p, *d), (part_size, declared))
        }
        other => panic!("expected a declare, got {:?}", other),
    }
}

fn assert_part(state: &UploadState, action: &UploadAction, index: u8, start: usize, end: usize) {
    match action {
        UploadAction::UploadPart { key, index: i, bytes } => {
            assert_eq!(key, "session");
            assert_eq!(*i, index);
            assert_eq!(bytes.as_slice(), &state.data[start..end]);
        }
        other => panic!("expected a part, got {:?}", other),
    }
}

#[test]
fn file_of_exactly_max_part_size_goes_whole() {
    let mut state = upload(100, 100);
    assert!(!state.should_upload_in_parts());
    assert!(matches!(state.step(UploadEvent::Start), UploadAction::SendWhole));
}

#[test]
fn file_one_byte_over_max_part_size_goes_in_parts() {
    let mut state = upload(100, 101);
    assert!(state.should_upload_in_parts());
    let action = state.step(UploadEvent::Start);
    assert_declare(&action, 100, 101);
}

#[test]
fn empty_file_goes_whole() {
    let mut state = upload(0, 0);
    assert!(matches!(state.step(UploadEvent::Start), UploadAction::SendWhole));
}

#[test]
fn whole_send_result_is_the_upload_result() {
    let mut state = upload(100, 10);
    state.step(UploadEvent::Start);
    let done = state.step(UploadEvent::WholeSent(Ok("stored".to_string())));
    assert!(matches!(done, UploadAction::Done(Ok(ref m)) if m == "stored"));
    let mut failing = upload(100, 10);
    failing.step(UploadEvent::Start);
    let done = failing.step(UploadEvent::WholeSent(Err(MusicUploaderClientError::UnhappyResponse(
        500,
        "boom".to_string(),
    ))));
    assert!(matches!(
        done,
        UploadAction::Done(Err(MusicUploaderClientError::UnhappyResponse(500, ref b))) if b == "boom"
    ));
}

#[test]
fn resumption_sends_only_missing_parts() {
    let mut state = upload(10, 25);
    assert_declare(&state.step(UploadEvent::Start), 10, 25);
    let action = state.step(incomplete(10, 25, vec![0, 2]));
    assert_part(&state, &action, 1, 10, 20);
    let action = state.step(UploadEvent::PartSent(Ok("part stored".to_string())));
    assert_declare(&action, 10, 25);
    let done = state.step(UploadEvent::Declared(Ok(DeclareUploadResponse::Complete)));
    assert!(matches!(
        done,
        UploadAction::Done(Ok(ref m)) if m == "Succeeded multipart upload on 1 attempt"
    ));
}

#[test]
fn parts_follow_the_servers_part_size() {
    let mut state = upload(10, 25);
    state.step(UploadEvent::Start);
    let action = state.step(incomplete(20, 25, vec![]));
    assert_part(&state, &action, 0, 0, 20);
    let action = state.step(UploadEvent::PartSent(Ok(String::new())));
    assert_part(&state, &action, 1, 20, 25);
}

#[test]
fn first_declare_complete_means_already_present() {
    let mut state = upload(10, 25);
    state.step(UploadEvent::Start);
    let done = state.step(UploadEvent::Declared(Ok(DeclareUploadResponse::Complete)));
    assert!(matches!(done, UploadAction::Done(Ok(ref m)) if m == "Song already present"));
}

#[test]
fn attempts_are_exhausted_after_two() {
    let mut state = upload(10, 25);
    assert_declare(&state.step(UploadEvent::Start), 10, 25);
    let action = state.step(incomplete(10, 25, vec![0, 1]));
    assert_part(&state, &action, 2, 20, 25);
    assert_declare(&state.step(UploadEvent::PartSent(Ok(String::new()))), 10, 25);
    let action = state.step(incomplete(10, 25, vec![0, 1]));
    assert_part(&state, &action, 2, 20, 25);
    let done = state.step(UploadEvent::PartSent(Ok(String::new())));
    assert!(matches!(
        done,
        UploadAction::Done(Err(MusicUploaderClientError::AlbumUploadFailure(ref m)))
            if m == "Could not upload after 2 attempts"
    ));
    assert!(!state.expects(&UploadEvent::Declared(Ok(DeclareUploadResponse::Complete))));
}

#[test]
fn incomplete_with_nothing_missing_uses_an_attempt() {
    let mut state = upload(10, 25);
    state.step(UploadEvent::Start);
    assert_declare(&state.step(incomplete(10, 25, vec![0, 1, 2])), 10, 25);
    let done = state.step(incomplete(10, 25, vec![0, 1, 2]));
    assert!(matches!(
        done,
        UploadAction::Done(Err(MusicUploaderClientError::AlbumUploadFailure(ref m)))
            if m == "Could not upload after 2 attempts"
    ));
}

#[test]
fn too_many_parts_sends_no_part() {
    let mut state = upload(1, 300);
    assert_declare(&state.step(UploadEvent::Start), 1, 300);
    let done = state.step(incomplete(1, 300, vec![]));
    assert!(matches!(done, UploadAction::Done(Err(MusicUploaderClientError::TooManyParts(300)))));
}

#[test]
fn failed_part_retries_then_fails_with_its_error() {
    let mut state = upload(10, 25);
    state.step(UploadEvent::Start);
    state.step(incomplete(10, 25, vec![]));
    let action = state.step(UploadEvent::PartSent(Err(MusicUploaderClientError::ErrorFromServer(
        "timeout".to_string(),
    ))));
    assert_declare(&action, 10, 25);
    let action = state.step(incomplete(10, 25, vec![0]));
    assert_part(&state, &action, 1, 10, 20);
    let done = state.step(UploadEvent::PartSent(Err(MusicUploaderClientError::ErrorFromServer(
        "timeout".to_string(),
    ))));
    assert!(matches!(
        done,
        UploadAction::Done(Err(MusicUploaderClientError::ErrorFromServer(ref m))) if m == "timeout"
    ));
}

#[test]
fn failed_declare_ends_the_upload() {
    let mut state = upload(10, 25);
    state.step(UploadEvent::Start);
    let done = state.step(UploadEvent::Declared(Err(
        MusicUploaderClientError::ParseServerResponseFailure("bad json".to_string()),
    )));
    assert!(matches!(
        done,
        UploadAction::Done(Err(MusicUploaderClientError::ParseServerResponseFailure(_)))
    ));
}

#[test]
fn zero_part_size_aborts_each_attempt() {
    let mut state = upload(10, 25);
    state.step(UploadEvent::Start);
    assert_declare(&state.step(incomplete(0, 25, vec![])), 10, 25);
    let done = state.step(incomplete(0, 25, vec![]));
    assert!(matches!(done, UploadAction::Done(Err(MusicUploaderClientError::EmptyPart(0)))));
}

#[test]
fn expects_only_the_awaited_outcome() {
    let mut state = upload(10, 25);
    assert!(state.expects(&UploadEvent::Start));
    assert!(!state.expects(&UploadEvent::PartSent(Ok(String::new()))));
    state.step(UploadEvent::Start);
    assert!(state.expects(&UploadEvent::Declared(Ok(DeclareUploadResponse::Complete))));
    assert!(!state.expects(&UploadEvent::Start));
}

#[test]
fn new_upload_hashes_the_bytes() {
    let state = UploadState::new(
        config(10),
        "album".to_string(),
        "artist".to_string(),
        Song { song_name: "a".to_string(), path: "b".to_string() },
        b"abc".to_vec(),
    );
    assert_eq!(state.hash, "ba7816bf8f01cfea414140de5dae2223b00361a396177a9cb410ff61f20015ad");
    assert_eq!(state.data, b"abc".to_vec());
}
