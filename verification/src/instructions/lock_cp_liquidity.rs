//! Builder for the lock-cp-liquidity operation.

use vstd::prelude::*;
use vstd::array::array_as_slice;
use vstd::bytes::{lemma_auto_spec_u64_to_from_le_bytes, spec_u64_to_le_bytes, u64_to_le_bytes};
use crate::{write_bytes, Pubkey, ID};
use crate::descriptor::{
    AccountMeta, CallDescriptor, bool_byte, spec_bool_byte, spec_readonly, spec_readonly_signer,
    spec_writable, spec_writable_signer,
};

verus! {

/// Accounts and arguments of a lock-cp-liquidity call. Each field's access
/// requirement (writable, signer) is fixed by the wire contract and is
/// asserted by `produce_call`, never derived from runtime state.
#[derive(Clone, Copy, Debug)]
pub struct LockCpLiquidity {
    pub authority: Pubkey,
    pub payer: Pubkey,
    pub liquidity_owner: Pubkey,
    pub fee_nft_owner: Pubkey,
    pub fee_nft_mint: Pubkey,
    pub fee_nft_account: Pubkey,
    pub pool_state: Pubkey,
    pub locked_liquidity: Pubkey,
    pub lp_mint: Pubkey,
    pub liquidity_owner_lp: Pubkey,
    pub locked_lp_vault: Pubkey,
    pub token_0_vault: Pubkey,
    pub token_1_vault: Pubkey,
    pub metadata_account: Pubkey,
    pub rent: Pubkey,
    pub system_program: Pubkey,
    pub token_program: Pubkey,
    pub associated_token_program: Pubkey,
    pub metadata_program: Pubkey,
    pub lp_amount: u64,
    pub with_metadata: bool,
}

/// The 8-byte discriminator identifying the lock-cp-liquidity operation.
pub open spec fn lock_cp_liquidity_discriminator() -> Seq<u8> {
    seq![0xd8u8, 0x9du8, 0x1du8, 0x4eu8, 0x26u8, 0x33u8, 0x1fu8, 0x1au8]
}

/// The exact account access list of a lock-cp-liquidity call: 19 entries,
/// in the order and with the flags the locking program trusts positionally.
pub open spec fn lock_cp_liquidity_accounts(b: LockCpLiquidity) -> Seq<AccountMeta> {
    seq![
        spec_readonly(b.authority),
        spec_writable_signer(b.payer),
        spec_readonly_signer(b.liquidity_owner),
        spec_readonly(b.fee_nft_owner),
        spec_writable(b.fee_nft_mint),
        spec_writable(b.fee_nft_account),
        spec_readonly(b.pool_state),
        spec_writable(b.locked_liquidity),
        spec_writable(b.lp_mint),
        spec_writable(b.liquidity_owner_lp),
        spec_writable(b.locked_lp_vault),
        spec_writable(b.token_0_vault),
        spec_writable(b.token_1_vault),
        spec_writable(b.metadata_account),
        spec_readonly(b.rent),
        spec_readonly(b.system_program),
        spec_readonly(b.token_program),
        spec_readonly(b.associated_token_program),
        spec_readonly(b.metadata_program),
    ]
}

/// The exact argument bytes of a lock-cp-liquidity call: the discriminator,
/// then `lp_amount` as 8 little-endian bytes, then `with_metadata` as one
/// byte; 17 bytes in all.
pub open spec fn lock_cp_liquidity_data(lp_amount: u64, with_metadata: bool) -> Seq<u8> {
    lock_cp_liquidity_discriminator() + spec_u64_to_le_bytes(lp_amount)
        + seq![spec_bool_byte(with_metadata)]
}

impl LockCpLiquidity {
    /// Constructs the call descriptor: target identity, the 19-entry account
    /// access list in wire order, and the 17 argument bytes.
    pub fn produce_call(&self) -> (d: CallDescriptor)
        ensures
            d.program_id == ID,
            d.accounts@ == lock_cp_liquidity_accounts(*self),
            d.accounts@.len() == 19,
            d.data@ == lock_cp_liquidity_data(self.lp_amount, self.with_metadata),
            d.data@.len() == 17,
            d.data@.subrange(0, 8) == lock_cp_liquidity_discriminator(),
    {
        let mut accounts: Vec<AccountMeta> = Vec::new();
        accounts.push(AccountMeta::readonly(&self.authority));
        accounts.push(AccountMeta::writable_signer(&self.payer));
        accounts.push(AccountMeta::readonly_signer(&self.liquidity_owner));
        accounts.push(AccountMeta::readonly(&self.fee_nft_owner));
        accounts.push(AccountMeta::writable(&self.fee_nft_mint));
        accounts.push(AccountMeta::writable(&self.fee_nft_account));
        accounts.push(AccountMeta::readonly(&self.pool_state));
        accounts.push(AccountMeta::writable(&self.locked_liquidity));
        accounts.push(AccountMeta::writable(&self.lp_mint));
        accounts.push(AccountMeta::writable(&self.liquidity_owner_lp));
        accounts.push(AccountMeta::writable(&self.locked_lp_vault));
        accounts.push(AccountMeta::writable(&self.token_0_vault));
        accounts.push(AccountMeta::writable(&self.token_1_vault));
        accounts.push(AccountMeta::writable(&self.metadata_account));
        accounts.push(AccountMeta::readonly(&self.rent));
        accounts.push(AccountMeta::readonly(&self.system_program));
        accounts.push(AccountMeta::readonly(&self.token_program));
        accounts.push(AccountMeta::readonly(&self.associated_token_program));
        accounts.push(AccountMeta::readonly(&self.metadata_program));

        // Argument bytes: [0..8) discriminator, [8..16) lp_amount, [16] flag.
        let mut data: Vec<u8> = vec![0u8; 17];
        let discriminator: [u8; 8] = [0xd8, 0x9d, 0x1d, 0x4e, 0x26, 0x33, 0x1f, 0x1a];
        write_bytes(&mut data, 0, array_as_slice(&discriminator));
        let amount_bytes = u64_to_le_bytes(self.lp_amount);
        write_bytes(&mut data, 8, amount_bytes.as_slice());
        let flag: [u8; 1] = [bool_byte(self.with_metadata)];
        write_bytes(&mut data, 16, array_as_slice(&flag));

        proof {
            lemma_auto_spec_u64_to_from_le_bytes();
            assert(accounts@ =~= lock_cp_liquidity_accounts(*self));
            assert(data@ =~= lock_cp_liquidity_data(self.lp_amount, self.with_metadata));
            assert(data@.subrange(0, 8) =~= lock_cp_liquidity_discriminator());
        }
        CallDescriptor { program_id: ID, accounts, data }
    }
}

/// Law: producing the call twice from identical inputs yields byte-identical
/// descriptors. Any two results that meet `produce_call`'s contract for the
/// same builder agree on the target, the account list, and the data bytes.
pub proof fn lemma_lock_cp_liquidity_deterministic(
    b1: LockCpLiquidity,
    b2: LockCpLiquidity,
    d1: CallDescriptor,
    d2: CallDescriptor,
)
    requires
        b1 == b2,
        d1.program_id == ID,
        d1.accounts@ == lock_cp_liquidity_accounts(b1),
        d1.data@ == lock_cp_liquidity_data(b1.lp_amount, b1.with_metadata),
        d2.program_id == ID,
        d2.accounts@ == lock_cp_liquidity_accounts(b2),
        d2.data@ == lock_cp_liquidity_data(b2.lp_amount, b2.with_metadata),
    ensures
        d1.program_id == d2.program_id,
        d1.accounts@ == d2.accounts@,
        d1.data@ == d2.data@,
{
}

} // verus!
