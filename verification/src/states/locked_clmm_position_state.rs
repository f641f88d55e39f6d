//! The locked-position record: written by the locking program when a
//! concentrated-liquidity position is locked, read-only here.

use vstd::prelude::*;
use vstd::bytes::spec_u64_from_le_bytes;
use vstd::slice::slice_subrange;
use crate::{Pubkey, ID};
use crate::states::{pubkey_eq, read_pubkey, read_u64_le, RawAccount, StateError};

verus! {

/// Seed for deriving a locked-position record's address.
pub const LOCKED_POSITION_SEED: &'static str = "locked_position";

/// Seed for deriving the locking program's authority address.
pub const LOCK_CLMM_AUTH_SEED: &'static str = "program_authority_seed";

/// Total on-chain size of a locked-position account: an 8-byte leading tag
/// followed by the 233-byte record payload.
pub const LOCKED_CLMM_POSITION_LEN: usize = 241;

/// A locked-position record. Field widths and order are the payload's exact
/// byte layout: bump at offset 0, five 32-byte identities at offsets 1, 33,
/// 65, 97 and 129, `recent_epoch` as a little-endian u64 at offset 161, and
/// 64 reserved bytes at offset 169.
#[derive(Clone, Copy, Debug, PartialEq)]
pub struct LockedClmmPositionState {
    pub bump: [u8; 1],
    pub position_owner: Pubkey,
    pub pool_id: Pubkey,
    pub position_id: Pubkey,
    pub locked_nft_account: Pubkey,
    pub fee_nft_mint: Pubkey,
    pub recent_epoch: u64,
    pub padding: [u64; 8],
}

/// `s` holds exactly the field values encoded in `payload` (the account's
/// bytes after the 8-byte tag) at their documented offsets.
pub open spec fn is_decoded_locked_clmm_position(
    s: LockedClmmPositionState,
    payload: Seq<u8>,
) -> bool {
    &&& s.bump@ == payload.subrange(0, 1)
    &&& s.position_owner@ == payload.subrange(1, 33)
    &&& s.pool_id@ == payload.subrange(33, 65)
    &&& s.position_id@ == payload.subrange(65, 97)
    &&& s.locked_nft_account@ == payload.subrange(97, 129)
    &&& s.fee_nft_mint@ == payload.subrange(129, 161)
    &&& s.recent_epoch == spec_u64_from_le_bytes(payload.subrange(161, 169))
    &&& forall|k: int|
        0 <= k < 8 ==> s.padding[k] == spec_u64_from_le_bytes(
            payload.subrange(169 + 8 * k, 177 + 8 * k),
        )
}

impl LockedClmmPositionState {
    /// Decodes the record from its payload bytes (everything after the
    /// 8-byte tag), reading each field at its fixed offset.
    pub fn from_bytes(bytes: &[u8]) -> (s: Self)
        requires
            bytes@.len() >= 233,
        ensures
            is_decoded_locked_clmm_position(s, bytes@.subrange(0, 233)),
    {
        let s = LockedClmmPositionState {
            bump: [*vstd::slice::slice_index_get(bytes, 0)],
            position_owner: read_pubkey(bytes, 1),
            pool_id: read_pubkey(bytes, 33),
            position_id: read_pubkey(bytes, 65),
            locked_nft_account: read_pubkey(bytes, 97),
            fee_nft_mint: read_pubkey(bytes, 129),
            recent_epoch: read_u64_le(bytes, 161),
            padding: [
                read_u64_le(bytes, 169),
                read_u64_le(bytes, 177),
                read_u64_le(bytes, 185),
                read_u64_le(bytes, 193),
                read_u64_le(bytes, 201),
                read_u64_le(bytes, 209),
                read_u64_le(bytes, 217),
                read_u64_le(bytes, 225),
            ],
        };
        proof {
            let payload = bytes@.subrange(0, 233);
            assert(s.bump@ =~= payload.subrange(0, 1));
            assert(s.position_owner@ =~= payload.subrange(1, 33));
            assert(s.pool_id@ =~= payload.subrange(33, 65));
            assert(s.position_id@ =~= payload.subrange(65, 97));
            assert(s.locked_nft_account@ =~= payload.subrange(97, 129));
            assert(s.fee_nft_mint@ =~= payload.subrange(129, 161));
            assert(bytes@.subrange(161, 169) =~= payload.subrange(161, 169));
            assert forall|k: int| 0 <= k < 8 implies s.padding[k] == spec_u64_from_le_bytes(
                payload.subrange(169 + 8 * k, 177 + 8 * k),
            ) by {
                assert(bytes@.subrange(169 + 8 * k, 177 + 8 * k) =~= payload.subrange(
                    169 + 8 * k,
                    177 + 8 * k,
                ));
            }
        }
        s
    }

    /// Reads a locked-position record from an account's observable state:
    /// refuses an account whose length is not exactly 241 bytes with
    /// `InvalidAccountData`, then one not owned by the locking program with
    /// `InvalidAccountOwner`; otherwise decodes the payload after the tag.
    pub fn from_account_info(account_info: &RawAccount) -> (r: Result<Self, StateError>)
        ensures
            account_info.data@.len() != LOCKED_CLMM_POSITION_LEN ==> r == Err::<
                Self,
                StateError,
            >(StateError::InvalidAccountData),
            account_info.data@.len() == LOCKED_CLMM_POSITION_LEN && account_info.owner@ != ID@
                ==> r == Err::<Self, StateError>(StateError::InvalidAccountOwner),
            account_info.data@.len() == LOCKED_CLMM_POSITION_LEN && account_info.owner@ == ID@
                ==> r is Ok && is_decoded_locked_clmm_position(
                r->Ok_0,
                account_info.data@.subrange(8, 241),
            ),
    {
        if account_info.data.len() != LOCKED_CLMM_POSITION_LEN {
            return Err(StateError::InvalidAccountData);
        }
        if !pubkey_eq(&account_info.owner, &ID) {
            return Err(StateError::InvalidAccountOwner);
        }
        let payload = slice_subrange(account_info.data.as_slice(), 8, 241);
        let s = Self::from_bytes(payload);
        proof {
            assert(payload@.subrange(0, 233) =~= account_info.data@.subrange(8, 241));
        }
        Ok(s)
    }

    /// Same validation and decoding as `from_account_info`. This variant
    /// exists for call sites that have already established exclusive access
    /// to the account's memory; it skips borrow-tracking overhead, never the
    /// size and ownership checks.
    pub fn from_account_info_unchecked(account_info: &RawAccount) -> (r: Result<
        Self,
        StateError,
    >)
        ensures
            account_info.data@.len() != LOCKED_CLMM_POSITION_LEN ==> r == Err::<
                Self,
                StateError,
            >(StateError::InvalidAccountData),
            account_info.data@.len() == LOCKED_CLMM_POSITION_LEN && account_info.owner@ != ID@
                ==> r == Err::<Self, StateError>(StateError::InvalidAccountOwner),
            account_info.data@.len() == LOCKED_CLMM_POSITION_LEN && account_info.owner@ == ID@
                ==> r is Ok && is_decoded_locked_clmm_position(
                r->Ok_0,
                account_info.data@.subrange(8, 241),
            ),
    {
        Self::from_account_info(account_info)
    }
}

} // verus!
