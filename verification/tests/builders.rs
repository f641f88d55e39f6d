use lock_client::descriptor::CallDescriptor;
use lock_client::instructions::collect_clmm_fee_and_reward::CollectClmmFeeAndReward;
use lock_client::instructions::collect_cp_fee_and_reward::CollectCpFee;
use lock_client::instructions::lock_clmm_position::LockClmmPosition;
use lock_client::instructions::lock_cp_liquidity::LockCpLiquidity;
use lock_client::write_bytes;
use lock_client::ID;

fn k(n: u8) -> [u8; 32] {
    [n; 32]
}

fn sample_lock_cp(lp_amount: u64, with_metadata: bool) -> LockCpLiquidity {
    LockCpLiquidity {
        authority: k(1),
        payer: k(2),
        liquidity_owner: k(3),
        fee_nft_owner: k(4),
        fee_nft_mint: k(5),
        fee_nft_account: k(6),
        pool_state: k(7),
        locked_liquidity: k(8),
        lp_mint: k(9),
        liquidity_owner_lp: k(10),
        locked_lp_vault: k(11),
        token_0_vault: k(12),
        token_1_vault: k(13),
        metadata_account: k(14),
        rent: k(15),
        system_program: k(16),
        token_program: k(17),
        associated_token_program: k(18),
        metadata_program: k(19),
        lp_amount,
        with_metadata,
    }
}

fn sample_collect_cp(fee_lp_amount: u64) -> CollectCpFee {
    CollectCpFee {
        authority: k(21),
        fee_nft_owner: k(22),
        fee_nft_account: k(23),
        locked_liquidity: k(24),
        cpmm_program: k(25),
        cp_authority: k(26),
        pool_state: k(27),
        lp_mint: k(28),
        recipient_token_0_account: k(29),
        recipient_token_1_account: k(30),
        token_0_vault: k(31),
        token_1_vault: k(32),
        vault_0_mint: k(33),
        vault_1_mint: k(34),
        locked_lp_vault: k(35),
        token_program: k(36),
        token_program_2022: k(37),
        memo_program: k(38),
        fee_lp_amount,
    }
}

fn sample_lock_clmm(with_metadata: bool) -> LockClmmPosition {
    LockClmmPosition {
        authority: k(41),
        payer: k(42),
        position_nft_owner: k(43),
        fee_nft_owner: k(44),
        position_nft_account: k(45),
        personal_position: k(46),
        position_nft_mint: k(47),
        locked_nft_account: k(48),
        locked_position: k(49),
        fee_nft_mint: k(50),
        fee_nft_account: k(51),
        metadata_account: k(52),
        metadata_program: k(53),
        associated_token_program: k(54),
        rent: k(55),
        fee_nft_token_program: k(56),
        locked_nft_token_program: k(57),
        system_program: k(58),
        with_metadata,
    }
}

fn sample_collect_clmm() -> CollectClmmFeeAndReward {
    CollectClmmFeeAndReward {
        authority: k(61),
        fee_nft_owner: k(62),
        fee_nft_account: k(63),
        locked_position: k(64),
        clmm_program: k(65),
        locked_nft_account: k(66),
        personal_position: k(67),
        pool_state: k(68),
        protocol_position: k(69),
        token_0_vault: k(70),
        token_1_vault: k(71),
        tick_array_lower: k(72),
        tick_array_upper: k(73),
        recipient_token_0_account: k(74),
        recipient_token_1_account: k(75),
        token_program: k(76),
        token_program_2022: k(77),
        memo_program: k(78),
        vault_0_mint: k(79),
        vault_1_mint: k(80),
    }
}

fn assert_accounts(d: &CallDescriptor, expected: &[([u8; 32], bool, bool)]) {
    assert_eq!(d.accounts.len(), expected.len());
    for (i, (pubkey, is_writable, is_signer)) in expected.iter().enumerate() {
        assert_eq!(d.accounts[i].pubkey, *pubkey, "pubkey at {}", i);
        assert_eq!(d.accounts[i].is_writable, *is_writable, "is_writable at {}", i);
        assert_eq!(d.accounts[i].is_signer, *is_signer, "is_signer at {}", i);
    }
}

#[test]
fn lock_cp_liquidity_encodes_amount_and_flag() {
    let d = sample_lock_cp(123456789, true).produce_call();
    let mut expected = vec![0xd8u8, 0x9d, 0x1d, 0x4e, 0x26, 0x33, 0x1f, 0x1a];
    expected.extend_from_slice(&123456789u64.to_le_bytes());
    expected.push(0x01);
    assert_eq!(d.data.len(), 17);
    assert_eq!(d.data, expected);
    assert_eq!(d.program_id, ID);
}

#[test]
fn lock_cp_liquidity_flag_false_encodes_zero() {
    let d = sample_lock_cp(0, false).produce_call();
    assert_eq!(d.data.len(), 17);
    assert_eq!(&d.data[8..16], &[0u8; 8]);
    assert_eq!(d.data[16], 0x00);
}

#[test]
fn lock_cp_liquidity_account_order_and_flags() {
    let d = sample_lock_cp(5, false).produce_call();
    assert_accounts(
        &d,
        &[
            (k(1), false, false),
            (k(2), true, true),
            (k(3), false, true),
            (k(4), false, false),
            (k(5), true, false),
            (k(6), true, false),
            (k(7), false, false),
            (k(8), true, false),
            (k(9), true, false),
            (k(10), true, false),
            (k(11), true, false),
            (k(12), true, false),
            (k(13), true, false),
            (k(14), true, false),
            (k(15), false, false),
            (k(16), false, false),
            (k(17), false, false),
            (k(18), false, false),
            (k(19), false, false),
        ],
    );
}

#[test]
fn collect_cp_fee_zero_amount_encodes_zero_bytes() {
    let d = sample_collect_cp(0).produce_call();
    let mut expected = vec![0x08u8, 0x1e, 0x33, 0xc7, 0xd1, 0xb8, 0xf7, 0x85];
    expected.extend_from_slice(&[0u8; 8]);
    assert_eq!(d.data.len(), 16);
    assert_eq!(d.data, expected);
    assert_eq!(d.program_id, ID);
}

#[test]
fn collect_cp_fee_account_order_and_flags() {
    let d = sample_collect_cp(77).produce_call();
    assert_accounts(
        &d,
        &[
            (k(21), false, false),
            (k(22), false, true),
            (k(23), false, false),
            (k(24), true, false),
            (k(25), false, false),
            (k(26), false, false),
            (k(27), true, false),
            (k(28), true, false),
            (k(29), true, false),
            (k(30), true, false),
            (k(31), true, false),
            (k(32), true, false),
            (k(33), false, false),
            (k(34), false, false),
            (k(35), true, false),
            (k(36), false, false),
            (k(37), false, false),
            (k(38), false, false),
        ],
    );
}

#[test]
fn lock_clmm_position_encodes_flag() {
    let d = sample_lock_clmm(true).produce_call();
    assert_eq!(d.data.len(), 9);
    assert_eq!(&d.data[0..8], &[0xbcu8, 0x25, 0xb3, 0x83, 0x52, 0x96, 0x54, 0x49]);
    assert_eq!(d.data[8], 0x01);
    let d = sample_lock_clmm(false).produce_call();
    assert_eq!(d.data[8], 0x00);
    assert_eq!(d.program_id, ID);
}

#[test]
fn lock_clmm_position_account_order_and_flags() {
    let d = sample_lock_clmm(false).produce_call();
    assert_accounts(
        &d,
        &[
            (k(41), false, false),
            (k(42), true, true),
            (k(43), false, true),
            (k(44), false, false),
            (k(45), true, false),
            (k(46), false, false),
            (k(47), false, false),
            (k(48), true, false),
            (k(49), true, false),
            (k(50), true, false),
            (k(51), true, false),
            (k(52), true, false),
            (k(53), false, false),
            (k(54), false, false),
            (k(55), false, false),
            (k(56), false, false),
            (k(57), false, false),
            (k(58), false, false),
        ],
    );
}

#[test]
fn collect_clmm_fee_encodes_discriminator_only() {
    let d = sample_collect_clmm().produce_call();
    assert_eq!(d.data, vec![0x95u8, 0xcb, 0xcc, 0x11, 0x2d, 0x7a, 0x96, 0x9a]);
    assert_eq!(d.program_id, ID);
}

#[test]
fn collect_clmm_fee_account_order_and_flags() {
    let d = sample_collect_clmm().produce_call();
    assert_accounts(
        &d,
        &[
            (k(61), false, false),
            (k(62), false, true),
            (k(63), false, false),
            (k(64), false, false),
            (k(65), false, false),
            (k(66), true, false),
            (k(67), true, false),
            (k(68), true, false),
            (k(69), true, false),
            (k(70), true, false),
            (k(71), true, false),
            (k(72), true, false),
            (k(73), true, false),
            (k(74), true, false),
            (k(75), true, false),
            (k(76), false, false),
            (k(77), false, false),
            (k(78), false, false),
            (k(79), false, false),
            (k(80), false, false),
        ],
    );
}

#[test]
fn produce_call_is_idempotent() {
    let b = sample_lock_cp(987654321, true);
    assert_eq!(b.produce_call(), b.produce_call());
    let b = sample_collect_cp(55);
    assert_eq!(b.produce_call(), b.produce_call());
    let b = sample_lock_clmm(true);
    assert_eq!(b.produce_call(), b.produce_call());
    let b = sample_collect_clmm();
    assert_eq!(b.produce_call(), b.produce_call());
}

#[test]
fn write_bytes_copies_range_only() {
    let mut destination = vec![9u8; 10];
    write_bytes(&mut destination, 4, &[1, 2, 3]);
    assert_eq!(destination, vec![9, 9, 9, 9, 1, 2, 3, 9, 9, 9]);
}

#[test]
fn write_bytes_full_buffer() {
    let mut destination = vec![0u8; 4];
    write_bytes(&mut destination, 0, &[7, 8, 9, 10]);
    assert_eq!(destination, vec![7, 8, 9, 10]);
}
