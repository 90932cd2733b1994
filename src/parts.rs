//! Part slicing: how many parts a file has, which bytes each part holds, and
//! which parts are still to be sent.

use vstd::prelude::*;
use crate::error::MusicUploaderClientError;

verus! {

/// The largest number of parts a file may have: a part index is a `u8`.
pub const MAX_PARTS: u32 = 255;

/// `ceil(total / part_size)`.
pub open spec fn ceil_div(total: nat, part_size: nat) -> nat
    recommends
        part_size > 0,
{
    if total % part_size == 0 {
        total / part_size
    } else {
        total / part_size + 1
    }
}

/// The first byte of part `index`.
pub open spec fn part_start(index: nat, part_size: nat) -> nat {
    index * part_size
}

/// One past the last byte of part `index`.
pub open spec fn part_end(index: nat, part_size: nat, total: nat) -> nat {
    if (index + 1) * part_size < total {
        (index + 1) * part_size
    } else {
        total
    }
}

/// The number of parts of `total` bytes cut into parts of `part_size` bytes.
pub fn num_parts(total_bytes: u32, part_size: u32) -> (r: Result<u8, MusicUploaderClientError>)
    requires
        part_size > 0,
    ensures
        ceil_div(total_bytes as nat, part_size as nat) <= MAX_PARTS ==> r == Ok::<
            u8,
            MusicUploaderClientError,
        >(ceil_div(total_bytes as nat, part_size as nat) as u8),
        ceil_div(total_bytes as nat, part_size as nat) > MAX_PARTS ==> r
            == Err::<u8, MusicUploaderClientError>(
            MusicUploaderClientError::TooManyParts(
                ceil_div(total_bytes as nat, part_size as nat) as u32,
            ),
        ),
{
    let whole = total_bytes / part_size;
    let rem = total_bytes % part_size;
    let count: u32 = if rem == 0 {
        whole
    } else {
        proof {
            assert(whole < total_bytes) by (nonlinear_arith)
                requires
                    whole == total_bytes / part_size,
                    rem == total_bytes % part_size,
                    rem != 0,
                    part_size > 0,
            ;
        }
        whole + 1
    };
    if count > MAX_PARTS {
        Err(MusicUploaderClientError::TooManyParts(count))
    } else {
        Ok(count as u8)
    }
}

/// The byte range `[start, end)` of part `index`.
pub fn part_range(index: u8, part_size: u32, total_bytes: u32) -> (r: Result<
    (u32, u32),
    MusicUploaderClientError,
>)
    ensures
        part_end(index as nat, part_size as nat, total_bytes as nat) <= part_start(
            index as nat,
            part_size as nat,
        ) ==> r == Err::<(u32, u32), MusicUploaderClientError>(
            MusicUploaderClientError::EmptyPart(index),
        ),
        part_end(index as nat, part_size as nat, total_bytes as nat) > part_start(
            index as nat,
            part_size as nat,
        ) ==> r == Ok::<(u32, u32), MusicUploaderClientError>(
            (
                part_start(index as nat, part_size as nat) as u32,
                part_end(index as nat, part_size as nat, total_bytes as nat) as u32,
            ),
        ),
{
    proof {
        assert((index as nat + 1) * (part_size as nat) <= 256 * 0x1_0000_0000) by (nonlinear_arith)
            requires
                index < 256,
                part_size < 0x1_0000_0000,
        ;
        assert(index as nat * (part_size as nat) <= (index as nat + 1) * (part_size as nat))
            by (nonlinear_arith);
    }
    let start: u64 = index as u64 * part_size as u64;
    let next: u64 = (index as u64 + 1) * part_size as u64;
    let end: u64 = if next < total_bytes as u64 {
        next
    } else {
        total_bytes as u64
    };
    if end <= start {
        Err(MusicUploaderClientError::EmptyPart(index))
    } else {
        Ok((start as u32, end as u32))
    }
}


/// One part to send: its index and its byte range `[start, end)`.
#[derive(Clone, Copy, Debug, PartialEq, Eq, Structural)]
pub struct PartSpan {
    pub index: u8,
    pub start: u32,
    pub end: u32,
}

/// The span of part `index`.
pub open spec fn span_of(index: nat, part_size: nat, total: nat) -> PartSpan {
    PartSpan {
        index: index as u8,
        start: part_start(index, part_size) as u32,
        end: part_end(index, part_size, total) as u32,
    }
}

/// The spans, in ascending index order, of the parts below `k` whose index is
/// not in `received`.
pub open spec fn missing_spans(k: nat, part_size: nat, total: nat, received: Seq<u8>) -> Seq<
    PartSpan,
>
    decreases k,
{
    if k == 0 {
        seq![]
    } else {
        let earlier = missing_spans((k - 1) as nat, part_size, total, received);
        if received.contains((k - 1) as u8) {
            earlier
        } else {
            earlier.push(span_of((k - 1) as nat, part_size, total))
        }
    }
}

/// What is left to send of `total` bytes in parts of `part_size` bytes, when
/// the server already holds the parts whose indices are in `received`.
pub open spec fn remaining_spans(total: nat, part_size: nat, received: Seq<u8>) -> Result<
    Seq<PartSpan>,
    MusicUploaderClientError,
> {
    if part_size == 0 {
        Err(MusicUploaderClientError::EmptyPart(0))
    } else if ceil_div(total, part_size) > MAX_PARTS {
        Err(MusicUploaderClientError::TooManyParts(ceil_div(total, part_size) as u32))
    } else {
        Ok(missing_spans(ceil_div(total, part_size), part_size, total, received))
    }
}

/// Every index below the part count names a part that holds at least one byte.
pub proof fn lemma_part_below_count_is_nonempty(index: nat, part_size: nat, total: nat)
    requires
        part_size > 0,
        index < ceil_div(total, part_size),
    ensures
        part_start(index, part_size) < part_end(index, part_size, total),
        part_end(index, part_size, total) <= total,
{
    let q = total / part_size;
    let r = total % part_size;
    assert(total == q * part_size + r && 0 <= r < part_size) by {
        vstd::arithmetic::div_mod::lemma_fundamental_div_mod(total as int, part_size as int);
    }
    assert(index * part_size < total) by (nonlinear_arith)
        requires
            total == q * part_size + r,
            0 <= r < part_size,
            part_size > 0,
            r == 0 ==> index < q,
            r != 0 ==> index <= q,
    ;
    assert(index * part_size < (index + 1) * part_size) by (nonlinear_arith)
        requires
            part_size > 0,
    ;
}

/// `spans` names exactly the parts below `count` that are not in `received`,
/// each once, in ascending order, each with its own byte range.
pub open spec fn plan_is_exact(
    spans: Seq<PartSpan>,
    count: nat,
    part_size: nat,
    total: nat,
    received: Seq<u8>,
) -> bool {
    &&& forall|i: u8|
        (exists|j: int| 0 <= j < spans.len() && spans[j].index == i) <==> ((i as nat) < count
            && !received.contains(i))
    &&& forall|j: int, l: int| 0 <= j < l < spans.len() ==> spans[j].index < spans[l].index
    &&& forall|j: int|
        0 <= j < spans.len() ==> spans[j] == span_of(spans[j].index as nat, part_size, total)
}

/// The spans below `k` form an exact plan for the first `k` parts.
proof fn lemma_missing_spans_shape(k: nat, part_size: nat, total: nat, received: Seq<u8>)
    requires
        k <= 256,
    ensures
        plan_is_exact(missing_spans(k, part_size, total, received), k, part_size, total, received),
        forall|j: int|
            0 <= j < missing_spans(k, part_size, total, received).len() ==> (missing_spans(
                k,
                part_size,
                total,
                received,
            )[j].index as nat) < k,
    decreases k,
{
    if k > 0 {
        let km = (k - 1) as nat;
        lemma_missing_spans_shape(km, part_size, total, received);
        let earlier = missing_spans(km, part_size, total, received);
        let spans = missing_spans(k, part_size, total, received);
        assert(km as u8 as nat == km);
        if received.contains(km as u8) {
            assert forall|i: u8|
                (exists|j: int| 0 <= j < spans.len() && spans[j].index == i) <==> ((i as nat) < k
                    && !received.contains(i)) by {
                if (i as nat) < k && !received.contains(i) {
                    assert((i as nat) < km);
                }
            }
        } else {
            let last = span_of(km, part_size, total);
            assert(spans == earlier.push(last));
            assert forall|i: u8|
                (exists|j: int| 0 <= j < spans.len() && spans[j].index == i) <==> ((i as nat) < k
                    && !received.contains(i)) by {
                if i as nat == km {
                    assert(spans[earlier.len() as int].index == i);
                } else if (i as nat) < k && !received.contains(i) {
                    let j = choose|j: int| 0 <= j < earlier.len() && earlier[j].index == i;
                    assert(spans[j].index == i);
                }
                if exists|j: int| 0 <= j < spans.len() && spans[j].index == i {
                    let j = choose|j: int| 0 <= j < spans.len() && spans[j].index == i;
                    if j < earlier.len() {
                        assert(earlier[j].index == i);
                    }
                }
            }
        }
    }
}

/// Resuming an upload sends exactly the parts that the server lacks: an index
/// is planned if and only if it is below the part count and was not reported
/// as received; no index is planned twice; indices ascend; and each planned
/// part carries its own byte range.
pub proof fn lemma_resume_sends_exactly_missing(total: nat, part_size: nat, received: Seq<u8>)
    requires
        part_size > 0,
        ceil_div(total, part_size) <= MAX_PARTS,
    ensures
        remaining_spans(total, part_size, received) is Ok,
        plan_is_exact(
            remaining_spans(total, part_size, received)->Ok_0,
            ceil_div(total, part_size),
            part_size,
            total,
            received,
        ),
{
    lemma_missing_spans_shape(ceil_div(total, part_size), part_size, total, received);
}

/// Every part of `parts` holds at least one byte and lies in a file of
/// `len` bytes.
pub open spec fn parts_in_file(parts: Seq<PartSpan>, len: nat) -> bool {
    forall|j: int| #![trigger parts[j]] 0 <= j < parts.len() ==> parts[j].start < parts[j].end <= len
}

/// Every planned part of a file that fits in a `u32` length holds at least
/// one byte and lies inside the file.
pub proof fn lemma_planned_parts_in_bounds(total: nat, part_size: nat, received: Seq<u8>)
    requires
        total <= u32::MAX,
        remaining_spans(total, part_size, received) is Ok,
    ensures
        parts_in_file(remaining_spans(total, part_size, received)->Ok_0, total),
{
    let n = ceil_div(total, part_size);
    lemma_resume_sends_exactly_missing(total, part_size, received);
    lemma_missing_spans_shape(n, part_size, total, received);
    let spans = remaining_spans(total, part_size, received)->Ok_0;
    assert(spans == missing_spans(n, part_size, total, received));
    assert forall|j: int| #![trigger spans[j]] 0 <= j < spans.len() implies spans[j].start
        < spans[j].end <= total by {
        let i = spans[j].index;
        assert((i as nat) < n);
        lemma_part_below_count_is_nonempty(i as nat, part_size, total);
        assert(part_end(i as nat, part_size, total) <= u32::MAX);
    }
}

/// A part count above `MAX_PARTS` fails the whole plan with `TooManyParts`,
/// so no part is sent.
pub proof fn lemma_too_many_parts_plans_nothing(total: nat, part_size: nat, received: Seq<u8>)
    requires
        part_size > 0,
        ceil_div(total, part_size) > MAX_PARTS,
    ensures
        remaining_spans(total, part_size, received) == Err::<Seq<PartSpan>, MusicUploaderClientError>(
            MusicUploaderClientError::TooManyParts(ceil_div(total, part_size) as u32),
        ),
{
}

/// The parts still to send, in ascending index order, with their byte ranges.
/// A zero part size is an inconsistent answer from the server and gives
/// `EmptyPart(0)`; more than `MAX_PARTS` parts give `TooManyParts`.
pub fn remaining_parts(total_bytes: u32, part_size: u32, received_parts: &Vec<u8>) -> (r: Result<
    Vec<PartSpan>,
    MusicUploaderClientError,
>)
    ensures
        match (r, remaining_spans(total_bytes as nat, part_size as nat, received_parts@)) {
            (Ok(v), Ok(s)) => v@ == s,
            (Err(a), Err(b)) => a == b,
            _ => false,
        },
{
    if part_size == 0 {
        return Err(MusicUploaderClientError::EmptyPart(0));
    }
    let count = match num_parts(total_bytes, part_size) {
        Ok(n) => n,
        Err(e) => return Err(e),
    };
    // the set of received indices, one flag per possible index
    let mut seen: Vec<bool> = Vec::new();
    let mut v: usize = 0;
    while v < 256
        invariant
            v <= 256,
            seen.len() == v,
            forall|k: int| 0 <= k < v ==> !seen@[k],
        decreases 256 - v,
    {
        seen.push(false);
        v = v + 1;
    }
    let mut j: usize = 0;
    while j < received_parts.len()
        invariant
            j <= received_parts.len(),
            seen.len() == 256,
            forall|k: int|
                0 <= k < 256 ==> seen@[k] == received_parts@.subrange(0, j as int).contains(
                    k as u8,
                ),
        decreases received_parts.len() - j,
    {
        let idx = received_parts[j];
        seen.set(idx as usize, true);
        proof {
            let before = received_parts@.subrange(0, j as int);
            let after = received_parts@.subrange(0, j as int + 1);
            assert(after == before.push(idx));
            assert forall|k: int| 0 <= k < 256 implies seen@[k] == after.contains(k as u8) by {
                if k == idx as int {
                    assert(after[j as int] == idx);
                } else {
                    if after.contains(k as u8) {
                        let w = choose|w: int| 0 <= w < after.len() && after[w] == k as u8;
                        assert(before[w] == k as u8);
                    }
                    if before.contains(k as u8) {
                        let w = choose|w: int| 0 <= w < before.len() && before[w] == k as u8;
                        assert(after[w] == k as u8);
                    }
                }
            }
        }
        j = j + 1;
    }
    proof {
        assert(received_parts@.subrange(0, received_parts@.len() as int) == received_parts@);
    }
    let ghost n = ceil_div(total_bytes as nat, part_size as nat);
    let mut spans: Vec<PartSpan> = Vec::new();
    let mut i: u8 = 0;
    while i < count
        invariant
            count as nat == n,
            n == ceil_div(total_bytes as nat, part_size as nat),
            n <= MAX_PARTS,
            i <= count,
            part_size > 0,
            seen.len() == 256,
            forall|k: int| 0 <= k < 256 ==> seen@[k] == received_parts@.contains(k as u8),
            spans@ == missing_spans(i as nat, part_size as nat, total_bytes as nat, received_parts@),
        decreases count - i,
    {
        if !seen[i as usize] {
            proof {
                lemma_part_below_count_is_nonempty(i as nat, part_size as nat, total_bytes as nat);
            }
            match part_range(i, part_size, total_bytes) {
                Ok((start, end)) => {
                    spans.push(PartSpan { index: i, start, end });
                },
                Err(e) => {
                    return Err(e);
                },
            }
        }
        proof {
            assert(((i as nat + 1) - 1) as u8 == i);
        }
        i = i + 1;
    }
    Ok(spans)
}

} // verus!
