//! Builder for the lock-clmm-position operation.

use vstd::prelude::*;
use vstd::array::array_as_slice;
use crate::{write_bytes, Pubkey, ID};
use crate::descriptor::{
    AccountMeta, CallDescriptor, bool_byte, spec_bool_byte, spec_readonly, spec_readonly_signer,
    spec_writable, spec_writable_signer,
};

verus! {

/// Accounts and arguments of a lock-clmm-position call. Each field's access
/// requirement (writable, signer) is fixed by the wire contract and is
/// asserted by `produce_call`, never derived from runtime state.
#[derive(Clone, Copy, Debug)]
pub struct LockClmmPosition {
    pub authority: Pubkey,
    pub payer: Pubkey,
    pub position_nft_owner: Pubkey,
    pub fee_nft_owner: Pubkey,
    pub position_nft_account: Pubkey,
    pub personal_position: Pubkey,
    pub position_nft_mint: Pubkey,
    pub locked_nft_account: Pubkey,
    pub locked_position: Pubkey,
    pub fee_nft_mint: Pubkey,
    pub fee_nft_account: Pubkey,
    pub metadata_account: Pubkey,
    pub metadata_program: Pubkey,
    pub associated_token_program: Pubkey,
    pub rent: Pubkey,
    pub fee_nft_token_program: Pubkey,
    pub locked_nft_token_program: Pubkey,
    pub system_program: Pubkey,
    pub with_metadata: bool,
}

/// The 8-byte discriminator identifying the lock-clmm-position operation.
pub open spec fn lock_clmm_position_discriminator() -> Seq<u8> {
    seq![0xbcu8, 0x25u8, 0xb3u8, 0x83u8, 0x52u8, 0x96u8, 0x54u8, 0x49u8]
}

/// The exact account access list of a lock-clmm-position call: 18 entries,
/// in the order and with the flags the locking program trusts positionally.
pub open spec fn lock_clmm_position_accounts(b: LockClmmPosition) -> Seq<AccountMeta> {
    seq![
        spec_readonly(b.authority),
        spec_writable_signer(b.payer),
        spec_readonly_signer(b.position_nft_owner),
        spec_readonly(b.fee_nft_owner),
        spec_writable(b.position_nft_account),
        spec_readonly(b.personal_position),
        spec_readonly(b.position_nft_mint),
        spec_writable(b.locked_nft_account),
        spec_writable(b.locked_position),
        spec_writable(b.fee_nft_mint),
        spec_writable(b.fee_nft_account),
        spec_writable(b.metadata_account),
        spec_readonly(b.metadata_program),
        spec_readonly(b.associated_token_program),
        spec_readonly(b.rent),
        spec_readonly(b.fee_nft_token_program),
        spec_readonly(b.locked_nft_token_program),
        spec_readonly(b.system_program),
    ]
}

/// The exact argument bytes of a lock-clmm-position call: the discriminator,
/// then `with_metadata` as one byte; 9 bytes in all.
pub open spec fn lock_clmm_position_data(with_metadata: bool) -> Seq<u8> {
    lock_clmm_position_discriminator() + seq![spec_bool_byte(with_metadata)]
}

impl LockClmmPosition {
    /// Constructs the call descriptor: target identity, the 18-entry account
    /// access list in wire order, and the 9 argument bytes.
    pub fn produce_call(&self) -> (d: CallDescriptor)
        ensures
            d.program_id == ID,
            d.accounts@ == lock_clmm_position_accounts(*self),
            d.accounts@.len() == 18,
            d.data@ == lock_clmm_position_data(self.with_metadata),
            d.data@.len() == 9,
            d.data@.subrange(0, 8) == lock_clmm_position_discriminator(),
    {
        let mut accounts: Vec<AccountMeta> = Vec::new();
        accounts.push(AccountMeta::readonly(&self.authority));
        accounts.push(AccountMeta::writable_signer(&self.payer));
        accounts.push(AccountMeta::readonly_signer(&self.position_nft_owner));
        accounts.push(AccountMeta::readonly(&self.fee_nft_owner));
        accounts.push(AccountMeta::writable(&self.position_nft_account));
        accounts.push(AccountMeta::readonly(&self.personal_position));
        accounts.push(AccountMeta::readonly(&self.position_nft_mint));
        accounts.push(AccountMeta::writable(&self.locked_nft_account));
        accounts.push(AccountMeta::writable(&self.locked_position));
        accounts.push(AccountMeta::writable(&self.fee_nft_mint));
        accounts.push(AccountMeta::writable(&self.fee_nft_account));
        accounts.push(AccountMeta::writable(&self.metadata_account));
        accounts.push(AccountMeta::readonly(&self.metadata_program));
        accounts.push(AccountMeta::readonly(&self.associated_token_program));
        accounts.push(AccountMeta::readonly(&self.rent));
        accounts.push(AccountMeta::readonly(&self.fee_nft_token_program));
        accounts.push(AccountMeta::readonly(&self.locked_nft_token_program));
        accounts.push(AccountMeta::readonly(&self.system_program));

        // Argument bytes: [0..8) discriminator, [8] flag.
        let mut data: Vec<u8> = vec![0u8; 9];
        let discriminator: [u8; 8] = [0xbc, 0x25, 0xb3, 0x83, 0x52, 0x96, 0x54, 0x49];
        write_bytes(&mut data, 0, array_as_slice(&discriminator));
        let flag: [u8; 1] = [bool_byte(self.with_metadata)];
        write_bytes(&mut data, 8, array_as_slice(&flag));

        proof {
            assert(accounts@ =~= lock_clmm_position_accounts(*self));
            assert(data@ =~= lock_clmm_position_data(self.with_metadata));
            assert(data@.subrange(0, 8) =~= lock_clmm_position_discriminator());
        }
        CallDescriptor { program_id: ID, accounts, data }
    }
}

/// Law: producing the call twice from identical inputs yields byte-identical
/// descriptors. Any two results that meet `produce_call`'s contract for the
/// same builder agree on the target, the account list, and the data bytes.
pub proof fn lemma_lock_clmm_position_deterministic(
    b1: LockClmmPosition,
    b2: LockClmmPosition,
    d1: CallDescriptor,
    d2: CallDescriptor,
)
    requires
        b1 == b2,
        d1.program_id == ID,
        d1.accounts@ == lock_clmm_position_accounts(b1),
        d1.data@ == lock_clmm_position_data(b1.with_metadata),
        d2.program_id == ID,
        d2.accounts@ == lock_clmm_position_accounts(b2),
        d2.data@ == lock_clmm_position_data(b2.with_metadata),
    ensures
        d1.program_id == d2.program_id,
        d1.accounts@ == d2.accounts@,
        d1.data@ == d2.data@,
{
}

} // verus!
