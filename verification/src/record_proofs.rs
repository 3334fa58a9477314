//! What holds of the layouts for every value: a record's encoding decodes
//! to the fields that were written, a decoded record accounts for every
//! byte, and bytes that start with another kind's tag are never taken for
//! a record.

use crate::lock_utils::words_at;
use crate::lock_utils::words_bytes;
use crate::lock_utils::CollectClmmFeesInstruction;
use crate::lock_utils::CollectCpFeeInstruction;
use crate::lock_utils::DecodeError;
use crate::lock_utils::LockClmmPositionInstruction;
use crate::lock_utils::LockCpLiquidityInstruction;
use crate::lock_utils::LockedClmmPositionFields;
use crate::lock_utils::LockedClmmPositionState;
use crate::lock_utils::LockedCpLiquidityFields;
use crate::lock_utils::LockedCpLiquidityState;
use crate::lock_utils::COLLECT_CLMM_FEES_INS;
use crate::lock_utils::COLLECT_CP_FEES_INS;
use crate::lock_utils::LOCK_CLMM_POSITION_INS;
use crate::lock_utils::LOCK_CP_LIQUIDITY_INS;
use crate::wire::le_bytes;
use crate::wire::le_value;
use crate::wire::lemma_bytes_of_value;
use crate::wire::lemma_pow256_values;
use crate::wire::lemma_value_of_bytes_exact;
use vstd::prelude::*;

verus! {

/// The bytes of reserved words are read back as the words.
pub proof fn lemma_words_round_trip(data: Seq<u8>, at: int, words: Seq<u64>)
    requires
        0 <= at,
        at + 8 * words.len() <= data.len(),
        data.subrange(at, at + 8 * words.len()) == words_bytes(words),
    ensures
        words_at(data, at, words.len()) == words,
{
    let read = words_at(data, at, words.len());
    assert forall|i: int| 0 <= i < words.len() implies read[i] == words[i] by {
        let run = data.subrange(at + 8 * i, at + 8 * i + 8);
        let all = data.subrange(at, at + 8 * words.len());
        assert forall|k: int| 0 <= k < 8 implies run[k] == le_bytes(words[i] as nat, 8)[k] by {
            assert(run[k] == all[8 * i + k]);
            assert((8 * i + k) / 8 == i);
            assert((8 * i + k) % 8 == k);
        }
        assert(run =~= le_bytes(words[i] as nat, 8));
        lemma_pow256_values();
        lemma_value_of_bytes_exact(words[i] as nat, 8);
    }
    assert(read =~= words);
}

/// Words that were read from bytes are written as those bytes.
pub proof fn lemma_words_cover_bytes(data: Seq<u8>, at: int, count: nat)
    requires
        0 <= at,
        at + 8 * count <= data.len(),
    ensures
        words_bytes(words_at(data, at, count)) == data.subrange(at, at + 8 * count),
{
    let words = words_at(data, at, count);
    let written = words_bytes(words);
    let all = data.subrange(at, at + 8 * count);
    assert forall|j: int| 0 <= j < 8 * count implies written[j] == all[j] by {
        let i = j / 8;
        let k = j % 8;
        let run = data.subrange(at + 8 * i, at + 8 * i + 8);
        lemma_bytes_of_value(run);
        lemma_u64_from_bytes(run);
        assert(run[k] == all[j]);
    }
    assert(written =~= all);
}

/// Eight bytes spell a number that a `u64` holds.
proof fn lemma_u64_from_bytes(run: Seq<u8>)
    requires
        run.len() == 8,
    ensures
        (le_value(run) as u64) as nat == le_value(run),
{
    crate::wire::lemma_le_value_bound(run);
    lemma_pow256_values();
}

/// Sixteen bytes spell a number that a `u128` holds.
proof fn lemma_u128_from_bytes(run: Seq<u8>)
    requires
        run.len() == 16,
    ensures
        (le_value(run) as u128) as nat == le_value(run),
{
    crate::wire::lemma_le_value_bound(run);
    lemma_pow256_values();
}

/// A locked-liquidity record that is written and read back is unchanged:
/// its encoding has the fixed length and decodes to the same fields.
pub proof fn lemma_liquidity_round_trip(fields: LockedCpLiquidityFields)
    requires
        fields.well_formed(),
    ensures
        fields.encoding().len() == LockedCpLiquidityState::LEN,
        LockedCpLiquidityState::spec_decode(fields.encoding()) == Ok::<
            LockedCpLiquidityFields,
            DecodeError,
        >(fields),
{
    let data = fields.encoding();
    let read = LockedCpLiquidityState::fields_of(data);
    lemma_pow256_values();
    assert(data.len() == 256);
    assert(data.subrange(0, 8) =~= LockedCpLiquidityState::DISCRIMINATOR@);
    assert(data.subrange(8, 16) =~= le_bytes(fields.locked_lp_amount as nat, 8));
    lemma_value_of_bytes_exact(fields.locked_lp_amount as nat, 8);
    assert(data.subrange(16, 24) =~= le_bytes(fields.claimed_lp_amount as nat, 8));
    lemma_value_of_bytes_exact(fields.claimed_lp_amount as nat, 8);
    assert(data.subrange(24, 32) =~= le_bytes(fields.unclaimed_lp_amount as nat, 8));
    lemma_value_of_bytes_exact(fields.unclaimed_lp_amount as nat, 8);
    assert(data.subrange(32, 40) =~= le_bytes(fields.last_lp as nat, 8));
    lemma_value_of_bytes_exact(fields.last_lp as nat, 8);
    assert(data.subrange(40, 56) =~= le_bytes(fields.last_k as nat, 16));
    lemma_value_of_bytes_exact(fields.last_k as nat, 16);
    assert(data.subrange(56, 64) =~= le_bytes(fields.recent_epoch as nat, 8));
    lemma_value_of_bytes_exact(fields.recent_epoch as nat, 8);
    assert(read.pool_id =~= fields.pool_id);
    assert(read.fee_nft_mint =~= fields.fee_nft_mint);
    assert(read.locked_owner =~= fields.locked_owner);
    assert(read.locked_lp_mint =~= fields.locked_lp_mint);
    assert(data.subrange(192, 256) =~= words_bytes(fields.padding));
    lemma_words_round_trip(data, 192, fields.padding);
}

/// A decoded locked-liquidity record accounts for every byte: writing the
/// fields that were read gives the account data back.
pub proof fn lemma_liquidity_decode_is_exact(data: Seq<u8>)
    requires
        LockedCpLiquidityState::spec_decode(data) is Ok,
    ensures
        LockedCpLiquidityState::fields_of(data).well_formed(),
        LockedCpLiquidityState::fields_of(data).encoding() == data,
{
    let fields = LockedCpLiquidityState::fields_of(data);
    lemma_u64_from_bytes(data.subrange(8, 16));
    lemma_bytes_of_value(data.subrange(8, 16));
    lemma_u64_from_bytes(data.subrange(16, 24));
    lemma_bytes_of_value(data.subrange(16, 24));
    lemma_u64_from_bytes(data.subrange(24, 32));
    lemma_bytes_of_value(data.subrange(24, 32));
    lemma_u64_from_bytes(data.subrange(32, 40));
    lemma_bytes_of_value(data.subrange(32, 40));
    lemma_u128_from_bytes(data.subrange(40, 56));
    lemma_bytes_of_value(data.subrange(40, 56));
    lemma_u64_from_bytes(data.subrange(56, 64));
    lemma_bytes_of_value(data.subrange(56, 64));
    lemma_words_cover_bytes(data, 192, 8);
    assert(fields.encoding() =~= data);
}

/// A locked-position record that is written and read back is unchanged:
/// its encoding has the fixed length and decodes to the same fields.
pub proof fn lemma_position_round_trip(fields: LockedClmmPositionFields)
    requires
        fields.well_formed(),
    ensures
        fields.encoding().len() == LockedClmmPositionState::LEN,
        LockedClmmPositionState::spec_decode(fields.encoding()) == Ok::<
            LockedClmmPositionFields,
            DecodeError,
        >(fields),
{
    let data = fields.encoding();
    let read = LockedClmmPositionState::fields_of(data);
    lemma_pow256_values();
    assert(data.len() == 241);
    assert(data.subrange(0, 8) =~= LockedClmmPositionState::DISCRIMINATOR@);
    assert(read.bump =~= fields.bump);
    assert(read.position_owner =~= fields.position_owner);
    assert(read.pool_id =~= fields.pool_id);
    assert(read.position_id =~= fields.position_id);
    assert(read.locked_nft_account =~= fields.locked_nft_account);
    assert(read.fee_nft_mint =~= fields.fee_nft_mint);
    assert(data.subrange(169, 177) =~= le_bytes(fields.recent_epoch as nat, 8));
    lemma_value_of_bytes_exact(fields.recent_epoch as nat, 8);
    assert(data.subrange(177, 241) =~= words_bytes(fields.padding));
    lemma_words_round_trip(data, 177, fields.padding);
}

/// A decoded locked-position record accounts for every byte: writing the
/// fields that were read gives the account data back.
pub proof fn lemma_position_decode_is_exact(data: Seq<u8>)
    requires
        LockedClmmPositionState::spec_decode(data) is Ok,
    ensures
        LockedClmmPositionState::fields_of(data).well_formed(),
        LockedClmmPositionState::fields_of(data).encoding() == data,
{
    let fields = LockedClmmPositionState::fields_of(data);
    lemma_u64_from_bytes(data.subrange(169, 177));
    lemma_bytes_of_value(data.subrange(169, 177));
    lemma_words_cover_bytes(data, 177, 8);
    assert(fields.encoding() =~= data);
}

/// Whether `data` starts with the tag of one of the four instructions.
pub open spec fn starts_with_instruction_tag(data: Seq<u8>) -> bool {
    data.len() >= 8 && {
        let head = data.subrange(0, 8);
        ||| head == LOCK_CLMM_POSITION_INS@
        ||| head == COLLECT_CLMM_FEES_INS@
        ||| head == LOCK_CP_LIQUIDITY_INS@
        ||| head == COLLECT_CP_FEES_INS@
    }
}

/// Every payload starts with the tag of its instruction.
pub proof fn lemma_payloads_start_with_tag(amount: u64, flag: bool)
    ensures
        starts_with_instruction_tag(LockCpLiquidityInstruction::payload(amount, flag)),
        starts_with_instruction_tag(CollectCpFeeInstruction::payload(amount)),
        starts_with_instruction_tag(LockClmmPositionInstruction::payload(flag)),
        starts_with_instruction_tag(CollectClmmFeesInstruction::payload()),
{
    assert(LockCpLiquidityInstruction::payload(amount, flag).subrange(0, 8)
        =~= LOCK_CP_LIQUIDITY_INS@);
    assert(CollectCpFeeInstruction::payload(amount).subrange(0, 8) =~= COLLECT_CP_FEES_INS@);
    assert(LockClmmPositionInstruction::payload(flag).subrange(0, 8) =~= LOCK_CLMM_POSITION_INS@);
    assert(CollectClmmFeesInstruction::payload().subrange(0, 8) =~= COLLECT_CLMM_FEES_INS@);
}

/// Bytes of another kind are never taken for a locked-liquidity record:
/// whatever starts with an instruction's tag or with the locked-position
/// tag is rejected, as a kind mismatch when the length happens to be the
/// record's, and as a length mismatch otherwise.
pub proof fn lemma_liquidity_rejects_other_kinds(data: Seq<u8>)
    requires
        data.len() >= 8,
        starts_with_instruction_tag(data) || data.subrange(0, 8)
            == LockedClmmPositionState::DISCRIMINATOR@,
    ensures
        LockedCpLiquidityState::spec_decode(data) is Err,
        data.len() == LockedCpLiquidityState::LEN ==> LockedCpLiquidityState::spec_decode(data)
            == Err::<LockedCpLiquidityFields, DecodeError>(DecodeError::KindMismatch),
        data.len() != LockedCpLiquidityState::LEN ==> LockedCpLiquidityState::spec_decode(data)
            == Err::<LockedCpLiquidityFields, DecodeError>(DecodeError::LengthMismatch),
{
    let head = data.subrange(0, 8);
    let own = LockedCpLiquidityState::DISCRIMINATOR@;
    if head == own {
        assert(head[0] == own[0]);
        assert(head[1] == own[1]);
    }
}

/// Bytes of another kind are never taken for a locked-position record:
/// whatever starts with an instruction's tag or with the locked-liquidity
/// tag is rejected, as a kind mismatch when the length happens to be the
/// record's, and as a length mismatch otherwise.
pub proof fn lemma_position_rejects_other_kinds(data: Seq<u8>)
    requires
        data.len() >= 8,
        starts_with_instruction_tag(data) || data.subrange(0, 8)
            == LockedCpLiquidityState::DISCRIMINATOR@,
    ensures
        LockedClmmPositionState::spec_decode(data) is Err,
        data.len() == LockedClmmPositionState::LEN ==> LockedClmmPositionState::spec_decode(data)
            == Err::<LockedClmmPositionFields, DecodeError>(DecodeError::KindMismatch),
        data.len() != LockedClmmPositionState::LEN ==> LockedClmmPositionState::spec_decode(data)
            == Err::<LockedClmmPositionFields, DecodeError>(DecodeError::LengthMismatch),
{
    let head = data.subrange(0, 8);
    let own = LockedClmmPositionState::DISCRIMINATOR@;
    if head == own {
        assert(head[0] == own[0]);
        assert(head[1] == own[1]);
    }
}

} // verus!
