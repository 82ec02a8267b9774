//! The memory-cost protocol of the column builders.

use vstd::prelude::*;

verus! {

/// A byte count as a `usize` can hold it: counts past `usize::MAX` are
/// reported as `usize::MAX`.
pub open spec fn saturated(bytes: nat) -> usize {
    if bytes <= usize::MAX {
        bytes as usize
    } else {
        usize::MAX
    }
}

/// What a value keeps in its buffers.
pub trait MemUsage {
    /// The bytes that the value's buffers hold.
    spec fn bytes(&self) -> nat;

    /// The bytes that the value's buffers hold, saturated.
    fn mem_usage(&self) -> (n: usize)
        ensures
            n == saturated(self.bytes()),
    ;
}

/// The product of two counts, saturated.
pub fn saturating_product(a: usize, b: usize) -> (n: usize)
    ensures
        n == saturated((a * b) as nat),
{
    match a.checked_mul(b) {
        Some(n) => n,
        None => usize::MAX,
    }
}

/// Adding saturated counts gives the saturated sum.
pub proof fn lemma_saturated_add(a: nat, b: nat)
    ensures
        saturated((saturated(a) + saturated(b)) as nat) == saturated(a + b),
{
}

} // verus!
