use lock_cli::address::Address;
use lock_cli::lock_utils::CollectCpFeeInstruction;
use lock_cli::lock_utils::DecodeError;
use lock_cli::lock_utils::LockCpLiquidityInstruction;
use lock_cli::lock_utils::LockedClmmPositionState;
use lock_cli::lock_utils::LockedCpLiquidityState;

fn liquidity_blob() -> Vec<u8> {
    let mut data = vec![25u8, 10, 238, 197, 207, 234, 73, 22];
    data.extend_from_slice(&1_000_000u64.to_le_bytes());
    data.extend_from_slice(&2u64.to_le_bytes());
    data.extend_from_slice(&0x0102_0304_0506_0708u64.to_le_bytes());
    data.extend_from_slice(&u64::MAX.to_le_bytes());
    data.extend_from_slice(&0x0102_0304_0506_0708_090a_0b0c_0d0e_0f10u128.to_le_bytes());
    data.extend_from_slice(&777u64.to_le_bytes());
    data.extend_from_slice(&[11u8; 32]);
    data.extend_from_slice(&[12u8; 32]);
    data.extend_from_slice(&[13u8; 32]);
    let mut mint = [14u8; 32];
    mint[0] = 1;
    mint[31] = 2;
    data.extend_from_slice(&mint);
    for word in 0u64..8 {
        data.extend_from_slice(&(word * 0x0101_0101_0101 + 5).to_le_bytes());
    }
    data
}

fn position_blob() -> Vec<u8> {
    let mut data = vec![52u8, 23, 5, 7, 170, 90, 108, 213];
    data.push(254);
    data.extend_from_slice(&[21u8; 32]);
    data.extend_from_slice(&[22u8; 32]);
    data.extend_from_slice(&[23u8; 32]);
    data.extend_from_slice(&[24u8; 32]);
    data.extend_from_slice(&[25u8; 32]);
    data.extend_from_slice(&0xfedc_ba98_7654_3210u64.to_le_bytes());
    for word in 0u64..8 {
        data.extend_from_slice(&(u64::MAX - word).to_le_bytes());
    }
    data
}

#[test]
fn record_lengths_and_tags_are_the_protocol_values() {
    assert_eq!(LockedCpLiquidityState::LEN, 256);
    assert_eq!(LockedCpLiquidityState::LEN, 8 + 4 * 8 + 16 + 8 + 32 * 4 + 8 * 8);
    assert_eq!(
        LockedCpLiquidityState::DISCRIMINATOR,
        [25, 10, 238, 197, 207, 234, 73, 22]
    );
    assert_eq!(LockedClmmPositionState::LEN, 241);
    assert_eq!(LockedClmmPositionState::LEN, 8 + 1 + 32 * 5 + 8 + 8 * 8);
    assert_eq!(
        LockedClmmPositionState::DISCRIMINATOR,
        [52, 23, 5, 7, 170, 90, 108, 213]
    );
}

#[test]
fn liquidity_record_decodes_to_the_fields_written() {
    let data = liquidity_blob();
    assert_eq!(data.len(), LockedCpLiquidityState::LEN);
    let state = LockedCpLiquidityState::deserialize_account(&data).unwrap();
    assert_eq!(state.locked_lp_amount, 1_000_000);
    assert_eq!(state.claimed_lp_amount, 2);
    assert_eq!(state.unclaimed_lp_amount, 0x0102_0304_0506_0708);
    assert_eq!(state.last_lp, u64::MAX);
    assert_eq!(state.last_k, 0x0102_0304_0506_0708_090a_0b0c_0d0e_0f10);
    assert_eq!(state.recent_epoch, 777);
    assert_eq!(state.pool_id, Address([11u8; 32]));
    assert_eq!(state.fee_nft_mint, Address([12u8; 32]));
    assert_eq!(state.locked_owner, Address([13u8; 32]));
    let mut mint = [14u8; 32];
    mint[0] = 1;
    mint[31] = 2;
    assert_eq!(state.locked_lp_mint, Address(mint));
    for word in 0u64..8 {
        assert_eq!(state.padding[word as usize], word * 0x0101_0101_0101 + 5);
    }
}

#[test]
fn liquidity_record_round_trips_through_borsh() {
    let cases: [(u64, u64, u64, u64, u128, u64); 4] = [
        (0, 0, 0, 0, 0, 0),
        (1, 2, 3, 4, 5, 6),
        (u64::MAX, u64::MAX - 1, 1 << 63, 255, u128::MAX, 256),
        (0x8000_0000_0000_0001, 65_536, 7, 9, 1 << 127, u64::MAX),
    ];
    for (n, case) in cases.iter().enumerate() {
        let pool = [n as u8; 32];
        let mint = [n as u8 + 50; 32];
        let owner = [n as u8 + 100; 32];
        let lp = [n as u8 + 150; 32];
        let padding = [n as u64, 1, u64::MAX, 3, 4, 5, 6, u64::MAX - n as u64];
        let mut data = LockedCpLiquidityState::DISCRIMINATOR.to_vec();
        data.extend(borsh::to_vec(&(case.0, case.1, case.2, case.3, case.4, case.5)).unwrap());
        data.extend(borsh::to_vec(&(pool, mint, owner, lp, padding)).unwrap());
        let state = LockedCpLiquidityState::deserialize_account(&data).unwrap();
        assert_eq!(
            (
                state.locked_lp_amount,
                state.claimed_lp_amount,
                state.unclaimed_lp_amount,
                state.last_lp,
                state.last_k,
                state.recent_epoch
            ),
            *case
        );
        assert_eq!(state.pool_id.0, pool);
        assert_eq!(state.fee_nft_mint.0, mint);
        assert_eq!(state.locked_owner.0, owner);
        assert_eq!(state.locked_lp_mint.0, lp);
        assert_eq!(state.padding, padding);
    }
}

#[test]
fn position_record_decodes_to_the_fields_written() {
    let data = position_blob();
    assert_eq!(data.len(), LockedClmmPositionState::LEN);
    let state = LockedClmmPositionState::deserialize_account(&data).unwrap();
    assert_eq!(state.bump, [254]);
    assert_eq!(state.position_owner, Address([21u8; 32]));
    assert_eq!(state.pool_id, Address([22u8; 32]));
    assert_eq!(state.position_id, Address([23u8; 32]));
    assert_eq!(state.locked_nft_account, Address([24u8; 32]));
    assert_eq!(state.fee_nft_mint, Address([25u8; 32]));
    assert_eq!(state.recent_epoch, 0xfedc_ba98_7654_3210);
    for word in 0u64..8 {
        assert_eq!(state.padding[word as usize], u64::MAX - word);
    }
}

#[test]
fn position_record_one_byte_short_is_a_length_mismatch() {
    let mut data = position_blob();
    data.pop();
    assert_eq!(data.len(), LockedClmmPositionState::LEN - 1);
    assert_eq!(
        LockedClmmPositionState::deserialize_account(&data).unwrap_err(),
        DecodeError::LengthMismatch
    );
}

#[test]
fn records_of_any_other_length_are_length_mismatches() {
    let liquidity = liquidity_blob();
    let position = position_blob();
    for len in [0usize, 1, 7, 8, 9, 240, 241, 242, 255, 257, 512] {
        let mut data = liquidity.clone();
        data.resize(len, 0);
        if len != 256 {
            assert_eq!(
                LockedCpLiquidityState::deserialize_account(&data).unwrap_err(),
                DecodeError::LengthMismatch
            );
        }
        let mut data = position.clone();
        data.resize(len, 0);
        if len != 241 {
            assert_eq!(
                LockedClmmPositionState::deserialize_account(&data).unwrap_err(),
                DecodeError::LengthMismatch
            );
        }
    }
    // The length is checked before the tag: a wrong tag at a wrong length is a length mismatch.
    assert_eq!(
        LockedCpLiquidityState::deserialize_account(&[0u8; 255]).unwrap_err(),
        DecodeError::LengthMismatch
    );
}

#[test]
fn zero_tag_is_a_kind_mismatch_for_both_records() {
    let mut data = liquidity_blob();
    for byte in data.iter_mut().take(8) {
        *byte = 0;
    }
    assert_eq!(
        LockedCpLiquidityState::deserialize_account(&data).unwrap_err(),
        DecodeError::KindMismatch
    );
    let mut data = position_blob();
    for byte in data.iter_mut().take(8) {
        *byte = 0;
    }
    assert_eq!(
        LockedClmmPositionState::deserialize_account(&data).unwrap_err(),
        DecodeError::KindMismatch
    );
    assert_eq!(
        LockedCpLiquidityState::deserialize_account(&[0u8; 256]).unwrap_err(),
        DecodeError::KindMismatch
    );
    assert_eq!(
        LockedClmmPositionState::deserialize_account(&[0u8; 241]).unwrap_err(),
        DecodeError::KindMismatch
    );
}

#[test]
fn one_wrong_tag_byte_is_a_kind_mismatch() {
    for at in 0..8 {
        let mut data = liquidity_blob();
        data[at] ^= 1;
        assert_eq!(
            LockedCpLiquidityState::deserialize_account(&data).unwrap_err(),
            DecodeError::KindMismatch
        );
        let mut data = position_blob();
        data[at] = data[at].wrapping_add(1);
        assert_eq!(
            LockedClmmPositionState::deserialize_account(&data).unwrap_err(),
            DecodeError::KindMismatch
        );
    }
}

#[test]
fn bytes_of_another_kind_are_kind_mismatches_when_the_length_coincides() {
    // A locked-position record stretched to the liquidity record's length, and the reverse.
    let mut data = position_blob();
    data.resize(LockedCpLiquidityState::LEN, 0);
    assert_eq!(
        LockedCpLiquidityState::deserialize_account(&data).unwrap_err(),
        DecodeError::KindMismatch
    );
    let mut data = liquidity_blob();
    data.truncate(LockedClmmPositionState::LEN);
    assert_eq!(
        LockedClmmPositionState::deserialize_account(&data).unwrap_err(),
        DecodeError::KindMismatch
    );
    // Instruction payloads, as they are and padded to each record's length.
    let payloads = [
        LockCpLiquidityInstruction::serialize_ix(1_000_000, true),
        CollectCpFeeInstruction::serialize_ix(u64::MAX),
    ];
    for payload in payloads.iter() {
        assert_eq!(
            LockedCpLiquidityState::deserialize_account(payload).unwrap_err(),
            DecodeError::LengthMismatch
        );
        assert_eq!(
            LockedClmmPositionState::deserialize_account(payload).unwrap_err(),
            DecodeError::LengthMismatch
        );
        let mut data = payload.clone();
        data.resize(LockedCpLiquidityState::LEN, 0);
        assert_eq!(
            LockedCpLiquidityState::deserialize_account(&data).unwrap_err(),
            DecodeError::KindMismatch
        );
        data.resize(LockedClmmPositionState::LEN, 0);
        assert_eq!(
            LockedClmmPositionState::deserialize_account(&data).unwrap_err(),
            DecodeError::KindMismatch
        );
    }
}

#[test]
fn default_records_are_all_zero() {
    let state = LockedCpLiquidityState::default();
    assert_eq!(state.locked_lp_amount, 0);
    assert_eq!(state.last_k, 0);
    assert_eq!(state.pool_id, Address([0u8; 32]));
    assert_eq!(state.padding, [0u64; 8]);
    let state = LockedClmmPositionState::default();
    assert_eq!(state.bump, [0]);
    assert_eq!(state.recent_epoch, 0);
    assert_eq!(state.fee_nft_mint, Address::default());
    assert_eq!(state.padding, [0u64; 8]);
}
