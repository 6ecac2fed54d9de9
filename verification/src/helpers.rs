//! Buffer helpers shared by the indicators.

use vstd::prelude::*;
use crate::sample::{is_nan, NAN_BITS};

verus! {

/// The series `values` with its first `count` positions replaced by the
/// undefined sentinel; positions from `count` on are kept.
pub open spec fn masked(values: Seq<u64>, count: int) -> Seq<u64> {
    Seq::new(values.len(), |i: int| if i < count { NAN_BITS } else { values[i] })
}

/// Overwrites the first `count` positions of `buffer` with the undefined
/// sentinel, or all of them where the buffer is shorter than `count`.
pub fn fill_nan(buffer: &mut [u64], count: usize)
    ensures
        final(buffer)@ == masked(old(buffer)@, count as int),
{
    let n: usize = buffer.len();
    let limit: usize = if count < n { count } else { n };
    let mut i: usize = 0;
    while i < limit
        invariant
            limit <= n,
            limit <= count,
            limit == n || limit == count,
            i <= limit,
            buffer@.len() == n,
            old(buffer)@.len() == n,
            forall|j: int| 0 <= j < i ==> buffer@[j] == NAN_BITS,
            forall|j: int| i <= j < n ==> buffer@[j] == old(buffer)@[j],
        decreases limit - i,
    {
        buffer[i] = NAN_BITS;
        i += 1;
    }
    assert(buffer@ =~= masked(old(buffer)@, count as int));
}

/// Masking keeps the length, leaves the sentinel at every position before
/// `count`, and keeps every later position as it was: such a position is
/// undefined only where the value supplied for it was.
pub proof fn lemma_masked_warmup(values: Seq<u64>, count: int)
    ensures
        masked(values, count).len() == values.len(),
        forall|i: int|
            0 <= i < values.len() && i < count ==> #[trigger] masked(values, count)[i] == NAN_BITS
                && is_nan(masked(values, count)[i]),
        forall|i: int|
            0 <= i < values.len() && count <= i ==> #[trigger] masked(values, count)[i]
                == values[i] && is_nan(masked(values, count)[i]) == is_nan(values[i]),
{
}

} // verus!
