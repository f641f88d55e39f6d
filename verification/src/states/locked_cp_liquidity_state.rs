//! The locked-liquidity record: written by the locking program when
//! constant-product LP tokens are locked, read-only here.

use vstd::prelude::*;
use vstd::bytes::{spec_u128_from_le_bytes, spec_u64_from_le_bytes};
use vstd::slice::slice_subrange;
use crate::{Pubkey, ID};
use crate::states::{pubkey_eq, read_pubkey, read_u128_le, read_u64_le, RawAccount, StateError};

verus! {

/// Seed for deriving a locked-liquidity record's address.
pub const LOCKED_LIQUIDITY_SEED: &'static str = "locked_liquidity";

/// Seed for deriving the locking program's constant-product authority
/// address.
pub const LOCK_CP_AUTH_SEED: &'static str = "lock_cp_authority_seed";

/// Total on-chain size of a locked-liquidity account: an 8-byte leading tag
/// followed by the 248-byte record payload.
pub const LOCKED_CP_LIQUIDITY_LEN: usize = 256;

/// A locked-liquidity record. Field widths and order are the payload's exact
/// byte layout: four little-endian u64 amounts at offsets 0, 8, 16 and 24,
/// `last_k` as a little-endian u128 at offset 32, `recent_epoch` at offset
/// 48, four 32-byte identities at offsets 56, 88, 120 and 152, and 64
/// reserved bytes at offset 184.
#[derive(Clone, Copy, Debug, PartialEq)]
pub struct LockedCpLiquidityState {
    pub locked_lp_amount: u64,
    pub claimed_lp_amount: u64,
    pub unclaimed_lp_amount: u64,
    pub last_lp: u64,
    pub last_k: u128,
    pub recent_epoch: u64,
    pub pool_id: Pubkey,
    pub fee_nft_mint: Pubkey,
    pub locked_owner: Pubkey,
    pub locked_lp_mint: Pubkey,
    pub padding: [u64; 8],
}

/// `s` holds exactly the field values encoded in `payload` (the account's
/// bytes after the 8-byte tag) at their documented offsets.
pub open spec fn is_decoded_locked_cp_liquidity(
    s: LockedCpLiquidityState,
    payload: Seq<u8>,
) -> bool {
    &&& s.locked_lp_amount == spec_u64_from_le_bytes(payload.subrange(0, 8))
    &&& s.claimed_lp_amount == spec_u64_from_le_bytes(payload.subrange(8, 16))
    &&& s.unclaimed_lp_amount == spec_u64_from_le_bytes(payload.subrange(16, 24))
    &&& s.last_lp == spec_u64_from_le_bytes(payload.subrange(24, 32))
    &&& s.last_k == spec_u128_from_le_bytes(payload.subrange(32, 48))
    &&& s.recent_epoch == spec_u64_from_le_bytes(payload.subrange(48, 56))
    &&& s.pool_id@ == payload.subrange(56, 88)
    &&& s.fee_nft_mint@ == payload.subrange(88, 120)
    &&& s.locked_owner@ == payload.subrange(120, 152)
    &&& s.locked_lp_mint@ == payload.subrange(152, 184)
    &&& forall|k: int|
        0 <= k < 8 ==> s.padding[k] == spec_u64_from_le_bytes(
            payload.subrange(184 + 8 * k, 192 + 8 * k),
        )
}

impl LockedCpLiquidityState {
    /// Decodes the record from its payload bytes (everything after the
    /// 8-byte tag), reading each field at its fixed offset.
    pub fn from_bytes(bytes: &[u8]) -> (s: Self)
        requires
            bytes@.len() >= 248,
        ensures
            is_decoded_locked_cp_liquidity(s, bytes@.subrange(0, 248)),
    {
        let s = LockedCpLiquidityState {
            locked_lp_amount: read_u64_le(bytes, 0),
            claimed_lp_amount: read_u64_le(bytes, 8),
            unclaimed_lp_amount: read_u64_le(bytes, 16),
            last_lp: read_u64_le(bytes, 24),
            last_k: read_u128_le(bytes, 32),
            recent_epoch: read_u64_le(bytes, 48),
            pool_id: read_pubkey(bytes, 56),
            fee_nft_mint: read_pubkey(bytes, 88),
            locked_owner: read_pubkey(bytes, 120),
            locked_lp_mint: read_pubkey(bytes, 152),
            padding: [
                read_u64_le(bytes, 184),
                read_u64_le(bytes, 192),
                read_u64_le(bytes, 200),
                read_u64_le(bytes, 208),
                read_u64_le(bytes, 216),
                read_u64_le(bytes, 224),
                read_u64_le(bytes, 232),
                read_u64_le(bytes, 240),
            ],
        };
        proof {
            let payload = bytes@.subrange(0, 248);
            assert(bytes@.subrange(0, 8) =~= payload.subrange(0, 8));
            assert(bytes@.subrange(8, 16) =~= payload.subrange(8, 16));
            assert(bytes@.subrange(16, 24) =~= payload.subrange(16, 24));
            assert(bytes@.subrange(24, 32) =~= payload.subrange(24, 32));
            assert(bytes@.subrange(32, 48) =~= payload.subrange(32, 48));
            assert(bytes@.subrange(48, 56) =~= payload.subrange(48, 56));
            assert(s.pool_id@ =~= payload.subrange(56, 88));
            assert(s.fee_nft_mint@ =~= payload.subrange(88, 120));
            assert(s.locked_owner@ =~= payload.subrange(120, 152));
            assert(s.locked_lp_mint@ =~= payload.subrange(152, 184));
            assert forall|k: int| 0 <= k < 8 implies s.padding[k] == spec_u64_from_le_bytes(
                payload.subrange(184 + 8 * k, 192 + 8 * k),
            ) by {
                assert(bytes@.subrange(184 + 8 * k, 192 + 8 * k) =~= payload.subrange(
                    184 + 8 * k,
                    192 + 8 * k,
                ));
            }
        }
        s
    }

    /// Reads a locked-liquidity record from an account's observable state:
    /// refuses an account whose length is not exactly 256 bytes with
    /// `InvalidAccountData`, then one not owned by the locking program with
    /// `InvalidAccountOwner`; otherwise decodes the payload after the tag.
    pub fn from_account_info(account_info: &RawAccount) -> (r: Result<Self, StateError>)
        ensures
            account_info.data@.len() != LOCKED_CP_LIQUIDITY_LEN ==> r == Err::<
                Self,
                StateError,
            >(StateError::InvalidAccountData),
            account_info.data@.len() == LOCKED_CP_LIQUIDITY_LEN && account_info.owner@ != ID@
                ==> r == Err::<Self, StateError>(StateError::InvalidAccountOwner),
            account_info.data@.len() == LOCKED_CP_LIQUIDITY_LEN && account_info.owner@ == ID@
                ==> r is Ok && is_decoded_locked_cp_liquidity(
                r->Ok_0,
                account_info.data@.subrange(8, 256),
            ),
    {
        if account_info.data.len() != LOCKED_CP_LIQUIDITY_LEN {
            return Err(StateError::InvalidAccountData);
        }
        if !pubkey_eq(&account_info.owner, &ID) {
            return Err(StateError::InvalidAccountOwner);
        }
        let payload = slice_subrange(account_info.data.as_slice(), 8, 256);
        let s = Self::from_bytes(payload);
        proof {
            assert(payload@.subrange(0, 248) =~= account_info.data@.subrange(8, 256));
        }
        Ok(s)
    }

    /// Same validation and decoding as `from_account_info`. This variant
    /// exists for call sites that have already established exclusive access
    /// to the account's memory; it skips borrow-tracking overhead, never the
    /// size and ownership checks.
    pub fn from_account_info_unchecked(account_info: &RawAccount) -> (r: Result<
        Self,
        StateError,
    >)
        ensures
            account_info.data@.len() != LOCKED_CP_LIQUIDITY_LEN ==> r == Err::<
                Self,
                StateError,
            >(StateError::InvalidAccountData),
            account_info.data@.len() == LOCKED_CP_LIQUIDITY_LEN && account_info.owner@ != ID@
                ==> r == Err::<Self, StateError>(StateError::InvalidAccountOwner),
            account_info.data@.len() == LOCKED_CP_LIQUIDITY_LEN && account_info.owner@ == ID@
                ==> r is Ok && is_decoded_locked_cp_liquidity(
                r->Ok_0,
                account_info.data@.subrange(8, 256),
            ),
    {
        Self::from_account_info(account_info)
    }
}

} // verus!
