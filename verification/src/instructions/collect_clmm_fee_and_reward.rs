//! Builder for the collect-clmm-fee-and-reward operation.

use vstd::prelude::*;
use vstd::array::array_as_slice;
use crate::{write_bytes, Pubkey, ID};
use crate::descriptor::{
    AccountMeta, CallDescriptor, spec_readonly, spec_readonly_signer, spec_writable,
};

verus! {

/// Accounts of a collect-clmm-fee-and-reward call. Each field's access
/// requirement (writable, signer) is fixed by the wire contract and is
/// asserted by `produce_call`, never derived from runtime state.
#[derive(Clone, Copy, Debug)]
pub struct CollectClmmFeeAndReward {
    pub authority: Pubkey,
    pub fee_nft_owner: Pubkey,
    pub fee_nft_account: Pubkey,
    pub locked_position: Pubkey,
    pub clmm_program: Pubkey,
    pub locked_nft_account: Pubkey,
    pub personal_position: Pubkey,
    pub pool_state: Pubkey,
    pub protocol_position: Pubkey,
    pub token_0_vault: Pubkey,
    pub token_1_vault: Pubkey,
    pub tick_array_lower: Pubkey,
    pub tick_array_upper: Pubkey,
    pub recipient_token_0_account: Pubkey,
    pub recipient_token_1_account: Pubkey,
    pub token_program: Pubkey,
    pub token_program_2022: Pubkey,
    pub memo_program: Pubkey,
    pub vault_0_mint: Pubkey,
    pub vault_1_mint: Pubkey,
}

/// The 8-byte discriminator identifying the collect-clmm-fee-and-reward
/// operation.
pub open spec fn collect_clmm_fee_discriminator() -> Seq<u8> {
    seq![0x95u8, 0xcbu8, 0xccu8, 0x11u8, 0x2du8, 0x7au8, 0x96u8, 0x9au8]
}

/// The exact account access list of a collect-clmm-fee-and-reward call: 20
/// entries, in the order and with the flags the locking program trusts
/// positionally.
pub open spec fn collect_clmm_fee_accounts(b: CollectClmmFeeAndReward) -> Seq<AccountMeta> {
    seq![
        spec_readonly(b.authority),
        spec_readonly_signer(b.fee_nft_owner),
        spec_readonly(b.fee_nft_account),
        spec_readonly(b.locked_position),
        spec_readonly(b.clmm_program),
        spec_writable(b.locked_nft_account),
        spec_writable(b.personal_position),
        spec_writable(b.pool_state),
        spec_writable(b.protocol_position),
        spec_writable(b.token_0_vault),
        spec_writable(b.token_1_vault),
        spec_writable(b.tick_array_lower),
        spec_writable(b.tick_array_upper),
        spec_writable(b.recipient_token_0_account),
        spec_writable(b.recipient_token_1_account),
        spec_readonly(b.token_program),
        spec_readonly(b.token_program_2022),
        spec_readonly(b.memo_program),
        spec_readonly(b.vault_0_mint),
        spec_readonly(b.vault_1_mint),
    ]
}

/// The exact argument bytes of a collect-clmm-fee-and-reward call: the
/// discriminator alone; 8 bytes in all.
pub open spec fn collect_clmm_fee_data() -> Seq<u8> {
    collect_clmm_fee_discriminator()
}

impl CollectClmmFeeAndReward {
    /// Constructs the call descriptor: target identity, the 20-entry account
    /// access list in wire order, and the 8 argument bytes.
    pub fn produce_call(&self) -> (d: CallDescriptor)
        ensures
            d.program_id == ID,
            d.accounts@ == collect_clmm_fee_accounts(*self),
            d.accounts@.len() == 20,
            d.data@ == collect_clmm_fee_data(),
            d.data@.len() == 8,
            d.data@.subrange(0, 8) == collect_clmm_fee_discriminator(),
    {
        let mut accounts: Vec<AccountMeta> = Vec::new();
        accounts.push(AccountMeta::readonly(&self.authority));
        accounts.push(AccountMeta::readonly_signer(&self.fee_nft_owner));
        accounts.push(AccountMeta::readonly(&self.fee_nft_account));
        accounts.push(AccountMeta::readonly(&self.locked_position));
        accounts.push(AccountMeta::readonly(&self.clmm_program));
        accounts.push(AccountMeta::writable(&self.locked_nft_account));
        accounts.push(AccountMeta::writable(&self.personal_position));
        accounts.push(AccountMeta::writable(&self.pool_state));
        accounts.push(AccountMeta::writable(&self.protocol_position));
        accounts.push(AccountMeta::writable(&self.token_0_vault));
        accounts.push(AccountMeta::writable(&self.token_1_vault));
        accounts.push(AccountMeta::writable(&self.tick_array_lower));
        accounts.push(AccountMeta::writable(&self.tick_array_upper));
        accounts.push(AccountMeta::writable(&self.recipient_token_0_account));
        accounts.push(AccountMeta::writable(&self.recipient_token_1_account));
        accounts.push(AccountMeta::readonly(&self.token_program));
        accounts.push(AccountMeta::readonly(&self.token_program_2022));
        accounts.push(AccountMeta::readonly(&self.memo_program));
        accounts.push(AccountMeta::readonly(&self.vault_0_mint));
        accounts.push(AccountMeta::readonly(&self.vault_1_mint));

        // Argument bytes: the discriminator alone.
        let mut data: Vec<u8> = vec![0u8; 8];
        let discriminator: [u8; 8] = [0x95, 0xcb, 0xcc, 0x11, 0x2d, 0x7a, 0x96, 0x9a];
        write_bytes(&mut data, 0, array_as_slice(&discriminator));

        proof {
            assert(accounts@ =~= collect_clmm_fee_accounts(*self));
            assert(data@ =~= collect_clmm_fee_data());
            assert(data@.subrange(0, 8) =~= collect_clmm_fee_discriminator());
        }
        CallDescriptor { program_id: ID, accounts, data }
    }
}

/// Law: producing the call twice from identical inputs yields byte-identical
/// descriptors. Any two results that meet `produce_call`'s contract for the
/// same builder agree on the target, the account list, and the data bytes.
pub proof fn lemma_collect_clmm_fee_deterministic(
    b1: CollectClmmFeeAndReward,
    b2: CollectClmmFeeAndReward,
    d1: CallDescriptor,
    d2: CallDescriptor,
)
    requires
        b1 == b2,
        d1.program_id == ID,
        d1.accounts@ == collect_clmm_fee_accounts(b1),
        d1.data@ == collect_clmm_fee_data(),
        d2.program_id == ID,
        d2.accounts@ == collect_clmm_fee_accounts(b2),
        d2.data@ == collect_clmm_fee_data(),
    ensures
        d1.program_id == d2.program_id,
        d1.accounts@ == d2.accounts@,
        d1.data@ == d2.data@,
{
}

} // verus!
