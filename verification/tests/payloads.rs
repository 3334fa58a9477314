use lock_cli::lock_utils::CollectClmmFeesInstruction;
use lock_cli::lock_utils::CollectCpFeeInstruction;
use lock_cli::lock_utils::LockClmmPositionInstruction;
use lock_cli::lock_utils::LockCpLiquidityInstruction;
use lock_cli::lock_utils::COLLECT_CLMM_FEES_INS;
use lock_cli::lock_utils::COLLECT_CP_FEES_INS;
use lock_cli::lock_utils::LOCK_CLMM_POSITION_INS;
use lock_cli::lock_utils::LOCK_CP_LIQUIDITY_INS;
use lock_cli::wire::put_le;
use lock_cli::wire::put_u64;
use lock_cli::wire::read_le;
use lock_cli::wire::read_u64;

#[test]
fn lock_cp_liquidity_payload_is_tag_amount_flag() {
    let bytes = LockCpLiquidityInstruction::serialize_ix(1_000_000, true);
    assert_eq!(
        bytes,
        vec![216, 157, 29, 78, 38, 51, 31, 26, 64, 66, 15, 0, 0, 0, 0, 0, 1]
    );
    let bytes = LockCpLiquidityInstruction::serialize_ix(0x0102030405060708, false);
    assert_eq!(
        bytes,
        vec![216, 157, 29, 78, 38, 51, 31, 26, 8, 7, 6, 5, 4, 3, 2, 1, 0]
    );
}

#[test]
fn collect_cp_fee_payload_is_tag_amount() {
    let bytes = CollectCpFeeInstruction::serialize_ix(u64::MAX);
    assert_eq!(
        bytes,
        vec![8, 30, 51, 199, 209, 184, 247, 133, 255, 255, 255, 255, 255, 255, 255, 255]
    );
    let bytes = CollectCpFeeInstruction::serialize_ix(0);
    assert_eq!(
        bytes,
        vec![8, 30, 51, 199, 209, 184, 247, 133, 0, 0, 0, 0, 0, 0, 0, 0]
    );
    let bytes = CollectCpFeeInstruction::serialize_ix(256);
    assert_eq!(
        bytes,
        vec![8, 30, 51, 199, 209, 184, 247, 133, 0, 1, 0, 0, 0, 0, 0, 0]
    );
}

#[test]
fn lock_clmm_position_payload_is_tag_flag() {
    assert_eq!(
        LockClmmPositionInstruction::serialize_ix(true),
        vec![188, 37, 179, 131, 82, 150, 84, 73, 1]
    );
    assert_eq!(
        LockClmmPositionInstruction::serialize_ix(false),
        vec![188, 37, 179, 131, 82, 150, 84, 73, 0]
    );
}

#[test]
fn collect_clmm_fees_payload_is_the_tag_alone() {
    assert_eq!(
        CollectClmmFeesInstruction::serialize_ix(),
        vec![16, 72, 250, 198, 14, 162, 212, 19]
    );
}

#[test]
fn payload_lengths_are_eight_plus_field_widths() {
    for amount in [0u64, 1, 255, 256, 1_000_000, u64::MAX] {
        for flag in [false, true] {
            let lock = LockCpLiquidityInstruction::serialize_ix(amount, flag);
            assert_eq!(lock.len(), 8 + 8 + 1);
            assert_eq!(&lock[..8], &LOCK_CP_LIQUIDITY_INS);
            let collect = CollectCpFeeInstruction::serialize_ix(amount);
            assert_eq!(collect.len(), 8 + 8);
            assert_eq!(&collect[..8], &COLLECT_CP_FEES_INS);
            let position = LockClmmPositionInstruction::serialize_ix(flag);
            assert_eq!(position.len(), 8 + 1);
            assert_eq!(&position[..8], &LOCK_CLMM_POSITION_INS);
        }
    }
    let fees = CollectClmmFeesInstruction::serialize_ix();
    assert_eq!(fees.len(), 8);
    assert_eq!(&fees[..8], &COLLECT_CLMM_FEES_INS);
}

#[test]
fn payloads_agree_with_borsh() {
    for amount in [0u64, 7, 1_000_000, 0xfedc_ba98_7654_3210, u64::MAX] {
        for flag in [false, true] {
            assert_eq!(
                LockCpLiquidityInstruction::serialize_ix(amount, flag),
                borsh::to_vec(&(LOCK_CP_LIQUIDITY_INS, amount, flag)).unwrap()
            );
            assert_eq!(
                CollectCpFeeInstruction::serialize_ix(amount),
                borsh::to_vec(&(COLLECT_CP_FEES_INS, amount)).unwrap()
            );
            assert_eq!(
                LockClmmPositionInstruction::serialize_ix(flag),
                borsh::to_vec(&(LOCK_CLMM_POSITION_INS, flag)).unwrap()
            );
        }
    }
    assert_eq!(
        CollectClmmFeesInstruction::serialize_ix(),
        borsh::to_vec(&COLLECT_CLMM_FEES_INS).unwrap()
    );
}

#[test]
fn the_tags_are_the_protocol_values() {
    assert_eq!(LOCK_CLMM_POSITION_INS, [188, 37, 179, 131, 82, 150, 84, 73]);
    assert_eq!(COLLECT_CLMM_FEES_INS, [16, 72, 250, 198, 14, 162, 212, 19]);
    assert_eq!(LOCK_CP_LIQUIDITY_INS, [216, 157, 29, 78, 38, 51, 31, 26]);
    assert_eq!(COLLECT_CP_FEES_INS, [8, 30, 51, 199, 209, 184, 247, 133]);
}

#[test]
fn put_le_appends_the_low_bytes_first() {
    let mut out = vec![9u8];
    put_le(&mut out, 0x0102_0304, 4);
    assert_eq!(out, vec![9, 4, 3, 2, 1]);
    put_le(&mut out, 0x0102_0304, 2);
    assert_eq!(out, vec![9, 4, 3, 2, 1, 4, 3]);
    put_le(&mut out, 77, 0);
    assert_eq!(out, vec![9, 4, 3, 2, 1, 4, 3]);
    let mut long = Vec::new();
    put_le(&mut long, u128::MAX, 18);
    let mut expected = vec![255u8; 16];
    expected.extend_from_slice(&[0, 0]);
    assert_eq!(long, expected);
    let mut wide = Vec::new();
    put_le(&mut wide, u128::MAX - 1, 16);
    assert_eq!(wide, (u128::MAX - 1).to_le_bytes().to_vec());
    let mut word = Vec::new();
    put_u64(&mut word, 0x1122_3344_5566_7788);
    assert_eq!(word, 0x1122_3344_5566_7788u64.to_le_bytes().to_vec());
}

#[test]
fn read_le_reads_back_what_put_le_wrote() {
    let data = [0xaau8, 1, 2, 3, 4, 5, 6, 7, 8, 9, 10, 11, 12, 13, 14, 15, 16, 0xbb];
    assert_eq!(read_le(&data, 1, 0), 0);
    assert_eq!(read_le(&data, 1, 1), 1);
    assert_eq!(read_le(&data, 1, 2), 0x0201);
    assert_eq!(read_le(&data, 1, 16), 0x100f_0e0d_0c0b_0a09_0807_0605_0403_0201);
    assert_eq!(read_u64(&data, 1), 0x0807_0605_0403_0201);
    assert_eq!(read_u64(&data, 10), 0xbb10_0f0e_0d0c_0b0a);
    for value in [0u128, 1, 255, 256, 65_535, u64::MAX as u128, u128::MAX] {
        let mut out = Vec::new();
        put_le(&mut out, value, 16);
        assert_eq!(read_le(&out, 0, 16), value);
    }
}
