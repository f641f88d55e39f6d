//! The call descriptor produced by every instruction builder: a target
//! program identity, an ordered account access list, and the encoded
//! argument bytes.

use vstd::prelude::*;
use crate::Pubkey;

verus! {

/// One entry of a call's ordered account access list: an account identity
/// together with the access the call requires of it.
#[derive(Clone, Copy, Debug, PartialEq, Eq)]
pub struct AccountMeta {
    pub pubkey: Pubkey,
    pub is_writable: bool,
    pub is_signer: bool,
}

/// The entry `readonly` builds: not writable, not a signer.
pub open spec fn spec_readonly(pubkey: Pubkey) -> AccountMeta {
    AccountMeta { pubkey, is_writable: false, is_signer: false }
}

/// The entry `writable` builds: writable, not a signer.
pub open spec fn spec_writable(pubkey: Pubkey) -> AccountMeta {
    AccountMeta { pubkey, is_writable: true, is_signer: false }
}

/// The entry `readonly_signer` builds: not writable, a signer.
pub open spec fn spec_readonly_signer(pubkey: Pubkey) -> AccountMeta {
    AccountMeta { pubkey, is_writable: false, is_signer: true }
}

/// The entry `writable_signer` builds: writable and a signer.
pub open spec fn spec_writable_signer(pubkey: Pubkey) -> AccountMeta {
    AccountMeta { pubkey, is_writable: true, is_signer: true }
}

impl AccountMeta {
    /// A read-only, non-signing account entry.
    pub fn readonly(pubkey: &Pubkey) -> (m: AccountMeta)
        ensures
            m == spec_readonly(*pubkey),
    {
        AccountMeta { pubkey: *pubkey, is_writable: false, is_signer: false }
    }

    /// A writable, non-signing account entry.
    pub fn writable(pubkey: &Pubkey) -> (m: AccountMeta)
        ensures
            m == spec_writable(*pubkey),
    {
        AccountMeta { pubkey: *pubkey, is_writable: true, is_signer: false }
    }

    /// A read-only account entry that must sign the call.
    pub fn readonly_signer(pubkey: &Pubkey) -> (m: AccountMeta)
        ensures
            m == spec_readonly_signer(*pubkey),
    {
        AccountMeta { pubkey: *pubkey, is_writable: false, is_signer: true }
    }

    /// A writable account entry that must sign the call.
    pub fn writable_signer(pubkey: &Pubkey) -> (m: AccountMeta)
        ensures
            m == spec_writable_signer(*pubkey),
    {
        AccountMeta { pubkey: *pubkey, is_writable: true, is_signer: true }
    }
}

/// A fully-formed cross-program call: the program to invoke, the ordered,
/// access-qualified list of participating accounts, and the encoded
/// argument bytes (an 8-byte discriminator followed by the scalar
/// arguments in declaration order).
#[derive(Clone, Debug, PartialEq, Eq)]
pub struct CallDescriptor {
    pub program_id: Pubkey,
    pub accounts: Vec<AccountMeta>,
    pub data: Vec<u8>,
}

/// The single byte a boolean argument encodes to: 1 for true, 0 for false.
pub open spec fn spec_bool_byte(b: bool) -> u8 {
    if b {
        1u8
    } else {
        0u8
    }
}

/// Encodes a boolean argument as one byte, 1 for true and 0 for false.
pub fn bool_byte(b: bool) -> (r: u8)
    ensures
        r == spec_bool_byte(b),
{
    if b {
        1u8
    } else {
        0u8
    }
}

} // verus!
