//! Builder for the collect-cp-fee-and-reward operation.

use vstd::prelude::*;
use vstd::array::array_as_slice;
use vstd::bytes::{lemma_auto_spec_u64_to_from_le_bytes, spec_u64_to_le_bytes, u64_to_le_bytes};
use crate::{write_bytes, Pubkey, ID};
use crate::descriptor::{
    AccountMeta, CallDescriptor, spec_readonly, spec_readonly_signer, spec_writable,
};

verus! {

/// Accounts and arguments of a collect-cp-fee-and-reward call. Each field's
/// access requirement (writable, signer) is fixed by the wire contract and
/// is asserted by `produce_call`, never derived from runtime state.
#[derive(Clone, Copy, Debug)]
pub struct CollectCpFee {
    pub authority: Pubkey,
    pub fee_nft_owner: Pubkey,
    pub fee_nft_account: Pubkey,
    pub locked_liquidity: Pubkey,
    pub cpmm_program: Pubkey,
    pub cp_authority: Pubkey,
    pub pool_state: Pubkey,
    pub lp_mint: Pubkey,
    pub recipient_token_0_account: Pubkey,
    pub recipient_token_1_account: Pubkey,
    pub token_0_vault: Pubkey,
    pub token_1_vault: Pubkey,
    pub vault_0_mint: Pubkey,
    pub vault_1_mint: Pubkey,
    pub locked_lp_vault: Pubkey,
    pub token_program: Pubkey,
    pub token_program_2022: Pubkey,
    pub memo_program: Pubkey,
    pub fee_lp_amount: u64,
}

/// The 8-byte discriminator identifying the collect-cp-fee-and-reward
/// operation.
pub open spec fn collect_cp_fee_discriminator() -> Seq<u8> {
    seq![0x08u8, 0x1eu8, 0x33u8, 0xc7u8, 0xd1u8, 0xb8u8, 0xf7u8, 0x85u8]
}

/// The exact account access list of a collect-cp-fee-and-reward call: 18
/// entries, in the order and with the flags the locking program trusts
/// positionally.
pub open spec fn collect_cp_fee_accounts(b: CollectCpFee) -> Seq<AccountMeta> {
    seq![
        spec_readonly(b.authority),
        spec_readonly_signer(b.fee_nft_owner),
        spec_readonly(b.fee_nft_account),
        spec_writable(b.locked_liquidity),
        spec_readonly(b.cpmm_program),
        spec_readonly(b.cp_authority),
        spec_writable(b.pool_state),
        spec_writable(b.lp_mint),
        spec_writable(b.recipient_token_0_account),
        spec_writable(b.recipient_token_1_account),
        spec_writable(b.token_0_vault),
        spec_writable(b.token_1_vault),
        spec_readonly(b.vault_0_mint),
        spec_readonly(b.vault_1_mint),
        spec_writable(b.locked_lp_vault),
        spec_readonly(b.token_program),
        spec_readonly(b.token_program_2022),
        spec_readonly(b.memo_program),
    ]
}

/// The exact argument bytes of a collect-cp-fee-and-reward call: the
/// discriminator, then `fee_lp_amount` as 8 little-endian bytes; 16 bytes
/// in all.
pub open spec fn collect_cp_fee_data(fee_lp_amount: u64) -> Seq<u8> {
    collect_cp_fee_discriminator() + spec_u64_to_le_bytes(fee_lp_amount)
}

impl CollectCpFee {
    /// Constructs the call descriptor: target identity, the 18-entry account
    /// access list in wire order, and the 16 argument bytes.
    pub fn produce_call(&self) -> (d: CallDescriptor)
        ensures
            d.program_id == ID,
            d.accounts@ == collect_cp_fee_accounts(*self),
            d.accounts@.len() == 18,
            d.data@ == collect_cp_fee_data(self.fee_lp_amount),
            d.data@.len() == 16,
            d.data@.subrange(0, 8) == collect_cp_fee_discriminator(),
    {
        let mut accounts: Vec<AccountMeta> = Vec::new();
        accounts.push(AccountMeta::readonly(&self.authority));
        accounts.push(AccountMeta::readonly_signer(&self.fee_nft_owner));
        accounts.push(AccountMeta::readonly(&self.fee_nft_account));
        accounts.push(AccountMeta::writable(&self.locked_liquidity));
        accounts.push(AccountMeta::readonly(&self.cpmm_program));
        accounts.push(AccountMeta::readonly(&self.cp_authority));
        accounts.push(AccountMeta::writable(&self.pool_state));
        accounts.push(AccountMeta::writable(&self.lp_mint));
        accounts.push(AccountMeta::writable(&self.recipient_token_0_account));
        accounts.push(AccountMeta::writable(&self.recipient_token_1_account));
        accounts.push(AccountMeta::writable(&self.token_0_vault));
        accounts.push(AccountMeta::writable(&self.token_1_vault));
        accounts.push(AccountMeta::readonly(&self.vault_0_mint));
        accounts.push(AccountMeta::readonly(&self.vault_1_mint));
        accounts.push(AccountMeta::writable(&self.locked_lp_vault));
        accounts.push(AccountMeta::readonly(&self.token_program));
        accounts.push(AccountMeta::readonly(&self.token_program_2022));
        accounts.push(AccountMeta::readonly(&self.memo_program));

        // Argument bytes: [0..8) discriminator, [8..16) fee_lp_amount.
        let mut data: Vec<u8> = vec![0u8; 16];
        let discriminator: [u8; 8] = [0x08, 0x1e, 0x33, 0xc7, 0xd1, 0xb8, 0xf7, 0x85];
        write_bytes(&mut data, 0, array_as_slice(&discriminator));
        let amount_bytes = u64_to_le_bytes(self.fee_lp_amount);
        write_bytes(&mut data, 8, amount_bytes.as_slice());

        proof {
            lemma_auto_spec_u64_to_from_le_bytes();
            assert(accounts@ =~= collect_cp_fee_accounts(*self));
            assert(data@ =~= collect_cp_fee_data(self.fee_lp_amount));
            assert(data@.subrange(0, 8) =~= collect_cp_fee_discriminator());
        }
        CallDescriptor { program_id: ID, accounts, data }
    }
}

/// Law: producing the call twice from identical inputs yields byte-identical
/// descriptors. Any two results that meet `produce_call`'s contract for the
/// same builder agree on the target, the account list, and the data bytes.
pub proof fn lemma_collect_cp_fee_deterministic(
    b1: CollectCpFee,
    b2: CollectCpFee,
    d1: CallDescriptor,
    d2: CallDescriptor,
)
    requires
        b1 == b2,
        d1.program_id == ID,
        d1.accounts@ == collect_cp_fee_accounts(b1),
        d1.data@ == collect_cp_fee_data(b1.fee_lp_amount),
        d2.program_id == ID,
        d2.accounts@ == collect_cp_fee_accounts(b2),
        d2.data@ == collect_cp_fee_data(b2.fee_lp_amount),
    ensures
        d1.program_id == d2.program_id,
        d1.accounts@ == d2.accounts@,
        d1.data@ == d2.data@,
{
}

} // verus!
