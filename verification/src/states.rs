//! State readers: validated, typed views of the fixed-layout records the
//! locking program writes into accounts it owns. An account is decoded only
//! after its exact byte length and its owner identity have been checked.

use vstd::prelude::*;
use vstd::bytes::{
    spec_u128_from_le_bytes, spec_u64_from_le_bytes, u128_from_le_bytes, u64_from_le_bytes,
};
use vstd::slice::slice_subrange;
use crate::Pubkey;

pub mod locked_clmm_position_state;
pub mod locked_cp_liquidity_state;

verus! {

/// Why a read of a record was refused.
#[derive(Clone, Copy, Debug, PartialEq, Eq, Structural)]
pub enum StateError {
    /// The account's byte length does not equal the record's fixed size.
    InvalidAccountData,
    /// The account is not owned by the locking program.
    InvalidAccountOwner,
}

/// The observable state of an account as the runtime presents it: its owner
/// identity and a snapshot of its raw data bytes. Readers validate a value
/// of this type before trusting any byte of `data`.
#[derive(Clone, Debug)]
pub struct RawAccount {
    pub owner: Pubkey,
    pub data: Vec<u8>,
}

/// Reads the 8-byte little-endian unsigned integer at `offset`.
pub fn read_u64_le(bytes: &[u8], offset: usize) -> (x: u64)
    requires
        offset + 8 <= bytes@.len(),
    ensures
        x == spec_u64_from_le_bytes(bytes@.subrange(offset as int, offset + 8)),
{
    // Anchors the slice length so `offset + 8` is known to fit in usize.
    let _n: usize = bytes.len();
    let field = slice_subrange(bytes, offset, offset + 8);
    u64_from_le_bytes(field)
}

/// Reads the 16-byte little-endian unsigned integer at `offset`.
pub fn read_u128_le(bytes: &[u8], offset: usize) -> (x: u128)
    requires
        offset + 16 <= bytes@.len(),
    ensures
        x == spec_u128_from_le_bytes(bytes@.subrange(offset as int, offset + 16)),
{
    // Anchors the slice length so `offset + 16` is known to fit in usize.
    let _n: usize = bytes.len();
    let field = slice_subrange(bytes, offset, offset + 16);
    u128_from_le_bytes(field)
}

/// Reads the 32-byte identity at `offset`.
pub fn read_pubkey(bytes: &[u8], offset: usize) -> (k: Pubkey)
    requires
        offset + 32 <= bytes@.len(),
    ensures
        k@ == bytes@.subrange(offset as int, offset + 32),
{
    let n: usize = bytes.len();
    let mut k: Pubkey = [0u8; 32];
    let mut i: usize = 0;
    while i < 32
        invariant
            0 <= i <= 32,
            offset + 32 <= n == bytes@.len(),
            forall|j: int| 0 <= j < i ==> k@[j] == bytes@[offset + j],
        decreases 32 - i,
    {
        k[i] = *vstd::slice::slice_index_get(bytes, offset + i);
        i = i + 1;
    }
    assert(k@ =~= bytes@.subrange(offset as int, offset + 32));
    k
}

/// True exactly when the two identities hold the same 32 bytes.
pub fn pubkey_eq(a: &Pubkey, b: &Pubkey) -> (r: bool)
    ensures
        r <==> (a@ == b@),
{
    let mut i: usize = 0;
    while i < 32
        invariant
            0 <= i <= 32,
            forall|j: int| 0 <= j < i ==> a@[j] == b@[j],
        decreases 32 - i,
    {
        if a[i] != b[i] {
            assert(a@[i as int] != b@[i as int]);
            return false;
        }
        i = i + 1;
    }
    assert(a@ =~= b@);
    true
}

} // verus!
