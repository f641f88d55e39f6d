//! Client-side encoding layer for a liquidity-locking program: instruction
//! builders that produce byte-exact call descriptors, and state readers that
//! validate and decode raw account memory into typed records.

use vstd::prelude::*;

pub mod descriptor;
pub mod instructions;
pub mod states;

verus! {

/// A 32-byte account identity.
pub type Pubkey = [u8; 32];

/// The locking program's own identity: every call descriptor targets it, and
/// every record this crate reads must be owned by it.
pub const ID: Pubkey = [
    5, 18, 190, 171, 44, 232, 223, 74, 228, 223, 62, 241, 201, 145, 37, 113, 91, 164, 37, 151, 9,
    37, 235, 181, 220, 6, 46, 111, 211, 75, 182, 129,
];

/// Copies `source` into `destination` starting at `start`, leaving every other
/// byte of `destination` unchanged.
pub fn write_bytes(destination: &mut Vec<u8>, start: usize, source: &[u8])
    requires
        old(destination)@.len() >= start + source@.len(),
    ensures
        final(destination)@.len() == old(destination)@.len(),
        final(destination)@.subrange(start as int, start + source@.len()) == source@,
        forall|i: int|
            0 <= i < final(destination)@.len() && !(start <= i < start + source@.len())
                ==> final(destination)@[i] == old(destination)@[i],
{
    let dlen: usize = destination.len();
    let mut i: usize = 0;
    while i < source.len()
        invariant
            0 <= i <= source@.len(),
            destination@.len() == old(destination)@.len(),
            destination@.len() == dlen,
            destination@.len() >= start + source@.len(),
            forall|j: int| 0 <= j < i ==> destination@[start + j] == source@[j],
            forall|j: int|
                0 <= j < destination@.len() && !(start <= j < start + source@.len())
                    ==> destination@[j] == old(destination)@[j],
        decreases source@.len() - i,
    {
        destination[start + i] = source[i];
        i = i + 1;
    }
    assert(destination@.subrange(start as int, start + source@.len()) =~= source@);
}

} // verus!
