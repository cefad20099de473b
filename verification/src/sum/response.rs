//! The layout shared by Sum Read and Sum Read/Write responses: one 8-byte
//! header (error code, returned length) per request, then the returned data
//! of all requests back to back.

use vstd::prelude::*;
use crate::bytes::{seq_u32, u32_from_le};
use crate::return_codes::{ads_return_code_of, AdsReturnCode};

verus! {

/// The error code in the header of item `i`.
pub open spec fn sum_item_code(b: Seq<u8>, i: int) -> AdsReturnCode {
    ads_return_code_of(seq_u32(b, 8 * i))
}

/// The returned data length in the header of item `i`.
pub open spec fn sum_item_len(b: Seq<u8>, i: int) -> int {
    seq_u32(b, 8 * i + 4) as int
}

/// Where the data of item `i` starts: after all `count` headers and the data
/// of the items before it.
pub open spec fn sum_data_start(b: Seq<u8>, count: int, i: int) -> int
    decreases i,
{
    if i <= 0 {
        8 * count
    } else {
        sum_data_start(b, count, i - 1) + sum_item_len(b, i - 1)
    }
}

/// True when the buffer holds all `count` headers and all their data.
pub open spec fn sum_response_complete(b: Seq<u8>, count: int) -> bool {
    8 * count <= b.len() && sum_data_start(b, count, count) <= b.len()
}

/// True when the next item, `idx`, can be read with its data at `offset`
/// (or when no item is left).
pub open spec fn sum_next_in_bounds(b: Seq<u8>, count: int, idx: int, offset: int) -> bool {
    idx < count ==> (8 * idx + 8 <= b.len() && offset + sum_item_len(b, idx) <= b.len())
}

/// The data start moves forward item by item.
pub proof fn lemma_sum_data_start_monotone(b: Seq<u8>, count: int, i: int, j: int)
    requires
        0 <= i <= j,
    ensures
        sum_data_start(b, count, i) <= sum_data_start(b, count, j),
    decreases j - i,
{
    if i < j {
        lemma_sum_data_start_monotone(b, count, i, j - 1);
    }
}

/// In a complete response every item can be read in turn: item `i`, with its
/// data at its data start, is in bounds.
pub proof fn lemma_sum_response_item_in_bounds(b: Seq<u8>, count: int, i: int)
    requires
        sum_response_complete(b, count),
        0 <= i,
    ensures
        sum_next_in_bounds(b, count, i, sum_data_start(b, count, i)),
{
    if i < count {
        lemma_sum_data_start_monotone(b, count, i + 1, count);
    }
}

/// Item `i` of a response: its data, at its data start, when its error code
/// is `NoError`; else the code.
pub open spec fn sum_item(b: Seq<u8>, count: int, i: int) -> Result<Seq<u8>, AdsReturnCode> {
    if sum_item_code(b, i) == AdsReturnCode::NoError {
        Ok(b.subrange(sum_data_start(b, count, i), sum_data_start(b, count, i) + sum_item_len(b, i)))
    } else {
        Err(sum_item_code(b, i))
    }
}

/// A yielded item as the item it stands for.
pub open spec fn sum_item_matches(r: Result<&[u8], AdsReturnCode>, s: Result<Seq<u8>, AdsReturnCode>) -> bool {
    match s {
        Ok(d) => r matches Ok(x) && x@ == d,
        Err(c) => r == Err::<&[u8], AdsReturnCode>(c),
    }
}

/// Walking a complete response item by item: with the cursor at item `k` and
/// at that item's data start, the next step is in bounds and leaves the
/// cursor at item `k + 1` and its data start; the data starts stay within the
/// buffer.
pub proof fn lemma_sum_response_step(b: Seq<u8>, count: int, k: int)
    requires
        sum_response_complete(b, count),
        0 <= k <= count,
    ensures
        sum_next_in_bounds(b, count, k, sum_data_start(b, count, k)),
        k < count ==> sum_data_start(b, count, k) + sum_item_len(b, k) == sum_data_start(b, count, k + 1),
        8 * count <= sum_data_start(b, count, k) <= b.len(),
{
    lemma_sum_response_item_in_bounds(b, count, k);
    lemma_sum_data_start_monotone(b, count, k, count);
    lemma_sum_data_start_monotone(b, count, 0, k);
}

/// Reads the next item of a Sum Read or Sum Read/Write response and advances
/// the cursor: `Ok` with the item's data when its error code is `NoError`,
/// `Err` with the code otherwise, `None` when every item has been read.
pub fn parse_next_response<'a>(
    buffer: &'a [u8],
    request_count: usize,
    current_idx: &mut usize,
    data_offset: &mut usize,
) -> (r: Option<Result<&'a [u8], AdsReturnCode>>)
    requires
        sum_next_in_bounds(buffer@, request_count as int, *old(current_idx) as int, *old(data_offset) as int),
    ensures
        *old(current_idx) >= request_count ==> r is None && *final(current_idx) == *old(current_idx)
            && *final(data_offset) == *old(data_offset),
        *old(current_idx) < request_count ==> {
            let i = *old(current_idx) as int;
            let start = *old(data_offset) as int;
            let len = sum_item_len(buffer@, i);
            &&& *final(current_idx) == i + 1
            &&& *final(data_offset) == start + len
            &&& sum_item_code(buffer@, i) == AdsReturnCode::NoError ==> (r matches Some(Ok(d)) && d@
                == buffer@.subrange(start, start + len))
            &&& sum_item_code(buffer@, i) != AdsReturnCode::NoError ==> r == Some(
                Err::<&[u8], AdsReturnCode>(sum_item_code(buffer@, i)),
            )
        },
{
    if *current_idx >= request_count {
        return None;
    }
    let n = buffer.len();
    assert(8 * *current_idx + 8 <= n);
    let err_offset = *current_idx * 8;
    let err_code = AdsReturnCode::from_bytes(
        [buffer[err_offset], buffer[err_offset + 1], buffer[err_offset + 2], buffer[err_offset + 3]],
    );
    let returned_len = u32_from_le(
        [buffer[err_offset + 4], buffer[err_offset + 5], buffer[err_offset + 6], buffer[err_offset + 7]],
    ) as usize;
    let start = *data_offset;
    let chunk = &buffer[start..start + returned_len];
    *data_offset = start + returned_len;
    *current_idx = *current_idx + 1;
    match err_code {
        AdsReturnCode::NoError => Some(Ok(chunk)),
        _ => Some(Err(err_code)),
    }
}

} // verus!
