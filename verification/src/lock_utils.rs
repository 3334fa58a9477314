//! The locking program's wire formats: seeds and type tags, the payload of
//! each instruction, and the two account records it keeps.
//!
//! Every layout is an 8-byte discriminator followed by fixed-width fields in
//! declaration order, integers little-endian, a boolean as one byte, with no
//! lengths and no padding between fields.

use crate::address::zero_bytes;
use crate::address::Address;
use crate::wire::le_bytes;
use crate::wire::le_value;
use crate::wire::put_u64;
use crate::wire::read_le;
use crate::wire::read_u64;
use vstd::prelude::*;
use vstd::string::StringSliceAdditionalSpecFns;

verus! {

/// Seed of the authority that holds locked positions.
pub const LOCK_CLMM_AUTH_SEED: &'static str = "program_authority_seed";

/// Seed of the authority that holds locked pool liquidity.
pub const LOCK_CP_AUTH_SEED: &'static str = "lock_cp_authority_seed";

/// Seed prefix of a locked-liquidity record's address.
pub const LOCKED_LIQUIDITY_SEED: &'static str = "locked_liquidity";

/// Seed prefix of a locked-position record's address.
pub const LOCKED_POSITION_SEED: &'static str = "locked_position";

/// Tag of the instruction that locks a position.
pub const LOCK_CLMM_POSITION_INS: [u8; 8] = [188, 37, 179, 131, 82, 150, 84, 73];

/// Tag of the instruction that collects the fees of a locked position.
pub const COLLECT_CLMM_FEES_INS: [u8; 8] = [16, 72, 250, 198, 14, 162, 212, 19];

/// Tag of the instruction that locks pool liquidity.
pub const LOCK_CP_LIQUIDITY_INS: [u8; 8] = [216, 157, 29, 78, 38, 51, 31, 26];

/// Tag of the instruction that collects the fees of locked pool liquidity.
pub const COLLECT_CP_FEES_INS: [u8; 8] = [8, 30, 51, 199, 209, 184, 247, 133];

/// The seeds are ASCII: each is hashed as the bytes of its characters.
pub proof fn lemma_seed_bytes()
    ensures
        LOCK_CLMM_AUTH_SEED.spec_bytes() == seq![
            112u8, 114, 111, 103, 114, 97, 109, 95, 97, 117, 116, 104, 111, 114, 105, 116, 121, 95,
            115, 101, 101, 100,
        ],
        LOCK_CP_AUTH_SEED.spec_bytes() == seq![
            108u8, 111, 99, 107, 95, 99, 112, 95, 97, 117, 116, 104, 111, 114, 105, 116, 121, 95,
            115, 101, 101, 100,
        ],
        LOCKED_LIQUIDITY_SEED.spec_bytes() == seq![
            108u8, 111, 99, 107, 101, 100, 95, 108, 105, 113, 117, 105, 100, 105, 116, 121,
        ],
        LOCKED_POSITION_SEED.spec_bytes() == seq![
            108u8, 111, 99, 107, 101, 100, 95, 112, 111, 115, 105, 116, 105, 111, 110,
        ],
{
    reveal_strlit("program_authority_seed");
    reveal_strlit("lock_cp_authority_seed");
    reveal_strlit("locked_liquidity");
    reveal_strlit("locked_position");
    vstd::utf8::is_ascii_chars_encode_utf8(LOCK_CLMM_AUTH_SEED@);
    vstd::utf8::is_ascii_chars_encode_utf8(LOCK_CP_AUTH_SEED@);
    vstd::utf8::is_ascii_chars_encode_utf8(LOCKED_LIQUIDITY_SEED@);
    vstd::utf8::is_ascii_chars_encode_utf8(LOCKED_POSITION_SEED@);
    assert(LOCK_CLMM_AUTH_SEED.spec_bytes() =~= seq![
        112u8, 114, 111, 103, 114, 97, 109, 95, 97, 117, 116, 104, 111, 114, 105, 116, 121, 95,
        115, 101, 101, 100,
    ]);
    assert(LOCK_CP_AUTH_SEED.spec_bytes() =~= seq![
        108u8, 111, 99, 107, 95, 99, 112, 95, 97, 117, 116, 104, 111, 114, 105, 116, 121, 95,
        115, 101, 101, 100,
    ]);
    assert(LOCKED_LIQUIDITY_SEED.spec_bytes() =~= seq![
        108u8, 111, 99, 107, 101, 100, 95, 108, 105, 113, 117, 105, 100, 105, 116, 121,
    ]);
    assert(LOCKED_POSITION_SEED.spec_bytes() =~= seq![
        108u8, 111, 99, 107, 101, 100, 95, 112, 111, 115, 105, 116, 105, 111, 110,
    ]);
}

/// The byte that stands for a boolean.
pub open spec fn bool_byte(flag: bool) -> u8 {
    if flag {
        1
    } else {
        0
    }
}

/// A payload: the tag, then the argument bytes.
pub open spec fn tagged(tag: Seq<u8>, fields: Seq<u8>) -> Seq<u8> {
    tag + fields
}

/// Starts a payload or a record with its tag.
fn start_with_tag(tag: &[u8; 8]) -> (out: Vec<u8>)
    ensures
        out@ == tag@,
{
    let mut out: Vec<u8> = Vec::new();
    let mut i: usize = 0;
    while i < 8
        invariant
            i <= 8,
            out@ == tag@.subrange(0, i as int),
        decreases 8 - i,
    {
        out.push(tag[i]);
        assert(tag@.subrange(0, i as int).push(tag@[i as int]) =~= tag@.subrange(0, i + 1));
        i = i + 1;
    }
    assert(tag@.subrange(0, 8) =~= tag@);
    out
}

/// Arguments of the instruction that locks pool liquidity.
pub struct LockCpLiquidityInstruction {
    pub discriminator: [u8; 8],
    pub lp_amount: u64,
    pub with_metadata: bool,
}

impl LockCpLiquidityInstruction {
    /// The payload that locks `lp_amount` of liquidity.
    pub open spec fn payload(lp_amount: u64, with_metadata: bool) -> Seq<u8> {
        tagged(
            LOCK_CP_LIQUIDITY_INS@,
            le_bytes(lp_amount as nat, 8) + seq![bool_byte(with_metadata)],
        )
    }

    /// Encodes the call: tag, amount, metadata flag; 17 bytes.
    pub fn serialize_ix(lp_amount: u64, with_metadata: bool) -> (out: Vec<u8>)
        ensures
            out@ == Self::payload(lp_amount, with_metadata),
            out@.len() == 8 + 8 + 1,
            out@.subrange(0, 8) == LOCK_CP_LIQUIDITY_INS@,
    {
        let ix = LockCpLiquidityInstruction {
            discriminator: LOCK_CP_LIQUIDITY_INS,
            lp_amount,
            with_metadata,
        };
        let mut out = start_with_tag(&ix.discriminator);
        put_u64(&mut out, ix.lp_amount);
        out.push(if ix.with_metadata { 1u8 } else { 0u8 });
        proof {
            let tag = LOCK_CP_LIQUIDITY_INS@;
            let fields = le_bytes(lp_amount as nat, 8) + seq![bool_byte(with_metadata)];
            assert(out@ =~= tagged(tag, fields));
            assert(out@.subrange(0, 8) =~= tag);
        }
        out
    }
}

/// Arguments of the instruction that collects the fees of locked pool
/// liquidity.
pub struct CollectCpFeeInstruction {
    pub discriminator: [u8; 8],
    pub fee_lp_amount: u64,
}

impl CollectCpFeeInstruction {
    /// The payload that collects up to `fee_lp_amount` of fees.
    pub open spec fn payload(fee_lp_amount: u64) -> Seq<u8> {
        tagged(COLLECT_CP_FEES_INS@, le_bytes(fee_lp_amount as nat, 8))
    }

    /// Encodes the call: tag, amount; 16 bytes.
    pub fn serialize_ix(fee_lp_amount: u64) -> (out: Vec<u8>)
        ensures
            out@ == Self::payload(fee_lp_amount),
            out@.len() == 8 + 8,
            out@.subrange(0, 8) == COLLECT_CP_FEES_INS@,
    {
        let ix = CollectCpFeeInstruction { discriminator: COLLECT_CP_FEES_INS, fee_lp_amount };
        let mut out = start_with_tag(&ix.discriminator);
        put_u64(&mut out, ix.fee_lp_amount);
        proof {
            assert(out@.subrange(0, 8) =~= COLLECT_CP_FEES_INS@);
        }
        out
    }
}

/// Arguments of the instruction that locks a position.
pub struct LockClmmPositionInstruction {
    pub discriminator: [u8; 8],
    pub with_metadata: bool,
}

impl LockClmmPositionInstruction {
    /// The payload that locks a position.
    pub open spec fn payload(with_metadata: bool) -> Seq<u8> {
        tagged(LOCK_CLMM_POSITION_INS@, seq![bool_byte(with_metadata)])
    }

    /// Encodes the call: tag, metadata flag; 9 bytes.
    pub fn serialize_ix(with_metadata: bool) -> (out: Vec<u8>)
        ensures
            out@ == Self::payload(with_metadata),
            out@.len() == 8 + 1,
            out@.subrange(0, 8) == LOCK_CLMM_POSITION_INS@,
    {
        let ix = LockClmmPositionInstruction {
            discriminator: LOCK_CLMM_POSITION_INS,
            with_metadata,
        };
        let mut out = start_with_tag(&ix.discriminator);
        out.push(if ix.with_metadata { 1u8 } else { 0u8 });
        proof {
            assert(out@ =~= tagged(LOCK_CLMM_POSITION_INS@, seq![bool_byte(with_metadata)]));
            assert(out@.subrange(0, 8) =~= LOCK_CLMM_POSITION_INS@);
        }
        out
    }
}

/// Arguments of the instruction that collects the fees of a locked
/// position: none.
pub struct CollectClmmFeesInstruction {
    pub discriminator: [u8; 8],
}

impl CollectClmmFeesInstruction {
    /// The payload that collects a locked position's fees.
    pub open spec fn payload() -> Seq<u8> {
        tagged(COLLECT_CLMM_FEES_INS@, Seq::empty())
    }

    /// Encodes the call: the tag alone; 8 bytes.
    pub fn serialize_ix() -> (out: Vec<u8>)
        ensures
            out@ == Self::payload(),
            out@.len() == 8,
            out@.subrange(0, 8) == COLLECT_CLMM_FEES_INS@,
    {
        let ix = CollectClmmFeesInstruction { discriminator: COLLECT_CLMM_FEES_INS };
        let out = start_with_tag(&ix.discriminator);
        proof {
            assert(out@ =~= tagged(COLLECT_CLMM_FEES_INS@, Seq::empty()));
            assert(out@.subrange(0, 8) =~= COLLECT_CLMM_FEES_INS@);
        }
        out
    }
}

/// Why bytes are not a record of the expected kind.
#[derive(Clone, Copy, Debug, PartialEq, Eq, Structural)]
pub enum DecodeError {
    /// The blob does not have the kind's fixed length.
    LengthMismatch,
    /// The blob has the right length but does not start with the kind's tag.
    KindMismatch,
}

/// The `u64` that the eight bytes of `data` from `at` spell.
pub open spec fn u64_at(data: Seq<u8>, at: int) -> u64 {
    le_value(data.subrange(at, at + 8)) as u64
}

/// The `u128` that the sixteen bytes of `data` from `at` spell.
pub open spec fn u128_at(data: Seq<u8>, at: int) -> u128 {
    le_value(data.subrange(at, at + 16)) as u128
}

/// The `count` consecutive `u64` words of `data` from `at`.
pub open spec fn words_at(data: Seq<u8>, at: int, count: nat) -> Seq<u64> {
    Seq::new(count, |i: int| u64_at(data, at + 8 * i))
}

/// The bytes of consecutive `u64` words, eight for each.
pub open spec fn words_bytes(words: Seq<u64>) -> Seq<u8> {
    Seq::new(8 * words.len(), |j: int| le_bytes(words[j / 8] as nat, 8)[j % 8])
}

/// Whether `data` starts with the eight bytes of `tag`.
fn starts_with_tag(data: &[u8], tag: &[u8; 8]) -> (yes: bool)
    requires
        data@.len() >= 8,
    ensures
        yes == (data@.subrange(0, 8) == tag@),
{
    let mut i: usize = 0;
    while i < 8
        invariant
            i <= 8 <= data@.len(),
            forall|j: int| 0 <= j < i ==> data@[j] == tag@[j],
        decreases 8 - i,
    {
        if data[i] != tag[i] {
            assert(data@.subrange(0, 8)[i as int] != tag@[i as int]);
            return false;
        }
        i = i + 1;
    }
    assert(data@.subrange(0, 8) =~= tag@);
    true
}

/// Reads the 32 bytes of `data` from `start` as an address.
fn read_address(data: &[u8], start: usize) -> (address: Address)
    requires
        start + 32 <= data@.len(),
    ensures
        address@ == data@.subrange(start as int, start + 32),
{
    let total: usize = data.len();
    let mut bytes: [u8; 32] = [0u8; 32];
    let mut i: usize = 0;
    while i < 32
        invariant
            i <= 32,
            start + 32 <= data@.len() == total,
            forall|j: int| 0 <= j < i ==> bytes@[j] == data@[start + j],
        decreases 32 - i,
    {
        bytes[i] = data[start + i];
        i = i + 1;
    }
    assert(bytes@ =~= data@.subrange(start as int, start + 32));
    Address(bytes)
}

/// Reads the sixteen bytes of `data` from `start` as a little-endian `u128`.
fn read_u128(data: &[u8], start: usize) -> (v: u128)
    requires
        start + 16 <= data@.len(),
    ensures
        v == u128_at(data@, start as int),
{
    read_le(data, start, 16)
}

/// Reads eight consecutive `u64` words of `data` from `start`.
fn read_words(data: &[u8], start: usize) -> (words: [u64; 8])
    requires
        start + 64 <= data@.len(),
    ensures
        words@ == words_at(data@, start as int, 8),
{
    let total: usize = data.len();
    let mut words: [u64; 8] = [0u64; 8];
    let mut i: usize = 0;
    while i < 8
        invariant
            i <= 8,
            start + 64 <= data@.len() == total,
            forall|j: int| 0 <= j < i ==> words@[j] == u64_at(data@, start + 8 * j),
        decreases 8 - i,
    {
        words[i] = read_u64(data, start + 8 * i);
        i = i + 1;
    }
    assert(words@ =~= words_at(data@, start as int, 8));
    words
}

/// What a locked-liquidity record holds, as plain values.
pub struct LockedCpLiquidityFields {
    pub locked_lp_amount: u64,
    pub claimed_lp_amount: u64,
    pub unclaimed_lp_amount: u64,
    pub last_lp: u64,
    pub last_k: u128,
    pub recent_epoch: u64,
    pub pool_id: Seq<u8>,
    pub fee_nft_mint: Seq<u8>,
    pub locked_owner: Seq<u8>,
    pub locked_lp_mint: Seq<u8>,
    pub padding: Seq<u64>,
}

/// The record of one lock of pool liquidity.
#[derive(Clone, Copy, Debug, PartialEq, Eq)]
pub struct LockedCpLiquidityState {
    /// Locked liquidity, not counting fees already claimed.
    pub locked_lp_amount: u64,
    /// Fees claimed so far, in liquidity.
    pub claimed_lp_amount: u64,
    /// Fees not yet claimed, in liquidity.
    pub unclaimed_lp_amount: u64,
    /// The pool's total liquidity supply when the record was last updated.
    pub last_lp: u64,
    /// The pool's invariant value when the record was last updated.
    pub last_k: u128,
    /// The epoch of the last update.
    pub recent_epoch: u64,
    /// The pool that the liquidity belongs to.
    pub pool_id: Address,
    /// The asset whose holder may collect the fees.
    pub fee_nft_mint: Address,
    /// Who locked the liquidity.
    pub locked_owner: Address,
    /// The asset that the locked liquidity is counted in.
    pub locked_lp_mint: Address,
    /// Reserved; read and kept, never interpreted.
    pub padding: [u64; 8],
}

impl View for LockedCpLiquidityState {
    type V = LockedCpLiquidityFields;

    open spec fn view(&self) -> LockedCpLiquidityFields {
        LockedCpLiquidityFields {
            locked_lp_amount: self.locked_lp_amount,
            claimed_lp_amount: self.claimed_lp_amount,
            unclaimed_lp_amount: self.unclaimed_lp_amount,
            last_lp: self.last_lp,
            last_k: self.last_k,
            recent_epoch: self.recent_epoch,
            pool_id: self.pool_id@,
            fee_nft_mint: self.fee_nft_mint@,
            locked_owner: self.locked_owner@,
            locked_lp_mint: self.locked_lp_mint@,
            padding: self.padding@,
        }
    }
}

impl Default for LockedCpLiquidityState {
    /// The record with every amount zero and every address all zero bytes.
    fn default() -> (state: LockedCpLiquidityState)
        ensures
            state@ == (LockedCpLiquidityFields {
                locked_lp_amount: 0,
                claimed_lp_amount: 0,
                unclaimed_lp_amount: 0,
                last_lp: 0,
                last_k: 0,
                recent_epoch: 0,
                pool_id: zero_bytes(),
                fee_nft_mint: zero_bytes(),
                locked_owner: zero_bytes(),
                locked_lp_mint: zero_bytes(),
                padding: Seq::new(8, |i: int| 0u64),
            }),
    {
        let padding: [u64; 8] = [0u64; 8];
        assert(padding@ =~= Seq::new(8, |i: int| 0u64));
        LockedCpLiquidityState {
            locked_lp_amount: 0,
            claimed_lp_amount: 0,
            unclaimed_lp_amount: 0,
            last_lp: 0,
            last_k: 0,
            recent_epoch: 0,
            pool_id: Address::default(),
            fee_nft_mint: Address::default(),
            locked_owner: Address::default(),
            locked_lp_mint: Address::default(),
            padding,
        }
    }
}

impl LockedCpLiquidityFields {
    /// Whether the addresses and the reserved words have their fixed sizes.
    pub open spec fn well_formed(self) -> bool {
        &&& self.pool_id.len() == 32
        &&& self.fee_nft_mint.len() == 32
        &&& self.locked_owner.len() == 32
        &&& self.locked_lp_mint.len() == 32
        &&& self.padding.len() == 8
    }

    /// The record's bytes: the tag, then each field in declaration order.
    pub open spec fn encoding(self) -> Seq<u8> {
        LockedCpLiquidityState::DISCRIMINATOR@ + le_bytes(self.locked_lp_amount as nat, 8)
            + le_bytes(self.claimed_lp_amount as nat, 8) + le_bytes(
            self.unclaimed_lp_amount as nat,
            8,
        ) + le_bytes(self.last_lp as nat, 8) + le_bytes(self.last_k as nat, 16) + le_bytes(
            self.recent_epoch as nat,
            8,
        ) + self.pool_id + self.fee_nft_mint + self.locked_owner + self.locked_lp_mint
            + words_bytes(self.padding)
    }
}

impl LockedCpLiquidityState {
    /// The fixed length of the record in bytes.
    pub const LEN: usize = 8 + 4 * 8 + 16 + 8 + 32 * 4 + 8 * 8;

    /// The tag that the record starts with.
    pub const DISCRIMINATOR: [u8; 8] = [25, 10, 238, 197, 207, 234, 73, 22];

    /// The fields that a blob of the right length and tag holds.
    pub open spec fn fields_of(data: Seq<u8>) -> LockedCpLiquidityFields {
        LockedCpLiquidityFields {
            locked_lp_amount: u64_at(data, 8),
            claimed_lp_amount: u64_at(data, 16),
            unclaimed_lp_amount: u64_at(data, 24),
            last_lp: u64_at(data, 32),
            last_k: u128_at(data, 40),
            recent_epoch: u64_at(data, 56),
            pool_id: data.subrange(64, 96),
            fee_nft_mint: data.subrange(96, 128),
            locked_owner: data.subrange(128, 160),
            locked_lp_mint: data.subrange(160, 192),
            padding: words_at(data, 192, 8),
        }
    }

    /// What decoding `data` as a locked-liquidity record yields: the length
    /// is checked first, then the tag, then every field is read.
    pub open spec fn spec_decode(data: Seq<u8>) -> Result<LockedCpLiquidityFields, DecodeError> {
        if data.len() != Self::LEN {
            Err(DecodeError::LengthMismatch)
        } else if data.subrange(0, 8) != Self::DISCRIMINATOR@ {
            Err(DecodeError::KindMismatch)
        } else {
            Ok(Self::fields_of(data))
        }
    }

    /// A decoding outcome with the record taken as its field values.
    pub open spec fn decoded_fields(r: Result<LockedCpLiquidityState, DecodeError>) -> Result<
        LockedCpLiquidityFields,
        DecodeError,
    > {
        match r {
            Ok(state) => Ok(state@),
            Err(e) => Err(e),
        }
    }

    /// Decodes an account's data as a locked-liquidity record.
    ///
    /// Fails with `LengthMismatch` unless the data is exactly `LEN` bytes,
    /// and with `KindMismatch` if it is but does not start with
    /// `DISCRIMINATOR`. Otherwise every field is read at its fixed offset.
    pub fn deserialize_account(account_data: &[u8]) -> (r: Result<
        LockedCpLiquidityState,
        DecodeError,
    >)
        ensures
            Self::decoded_fields(r) == Self::spec_decode(account_data@),
    {
        if account_data.len() != Self::LEN {
            return Err(DecodeError::LengthMismatch);
        }
        if !starts_with_tag(account_data, &Self::DISCRIMINATOR) {
            return Err(DecodeError::KindMismatch);
        }
        let state = LockedCpLiquidityState {
            locked_lp_amount: read_u64(account_data, 8),
            claimed_lp_amount: read_u64(account_data, 16),
            unclaimed_lp_amount: read_u64(account_data, 24),
            last_lp: read_u64(account_data, 32),
            last_k: read_u128(account_data, 40),
            recent_epoch: read_u64(account_data, 56),
            pool_id: read_address(account_data, 64),
            fee_nft_mint: read_address(account_data, 96),
            locked_owner: read_address(account_data, 128),
            locked_lp_mint: read_address(account_data, 160),
            padding: read_words(account_data, 192),
        };
        Ok(state)
    }
}

/// What a locked-position record holds, as plain values.
pub struct LockedClmmPositionFields {
    pub bump: Seq<u8>,
    pub position_owner: Seq<u8>,
    pub pool_id: Seq<u8>,
    pub position_id: Seq<u8>,
    pub locked_nft_account: Seq<u8>,
    pub fee_nft_mint: Seq<u8>,
    pub recent_epoch: u64,
    pub padding: Seq<u64>,
}

/// The record of one locked position.
#[derive(Clone, Copy, Debug, PartialEq, Eq)]
pub struct LockedClmmPositionState {
    /// The bump of the record's own address.
    pub bump: [u8; 1],
    /// Who locked the position.
    pub position_owner: Address,
    /// The pool that the position belongs to.
    pub pool_id: Address,
    /// The position.
    pub position_id: Address,
    /// The account that holds the locked position asset.
    pub locked_nft_account: Address,
    /// The asset whose holder may collect the fees.
    pub fee_nft_mint: Address,
    /// The epoch of the last update.
    pub recent_epoch: u64,
    /// Reserved; read and kept, never interpreted.
    pub padding: [u64; 8],
}

impl View for LockedClmmPositionState {
    type V = LockedClmmPositionFields;

    open spec fn view(&self) -> LockedClmmPositionFields {
        LockedClmmPositionFields {
            bump: self.bump@,
            position_owner: self.position_owner@,
            pool_id: self.pool_id@,
            position_id: self.position_id@,
            locked_nft_account: self.locked_nft_account@,
            fee_nft_mint: self.fee_nft_mint@,
            recent_epoch: self.recent_epoch,
            padding: self.padding@,
        }
    }
}

impl Default for LockedClmmPositionState {
    /// The record with bump and epoch zero and every address all zero bytes.
    fn default() -> (state: LockedClmmPositionState)
        ensures
            state@ == (LockedClmmPositionFields {
                bump: seq![0u8],
                position_owner: zero_bytes(),
                pool_id: zero_bytes(),
                position_id: zero_bytes(),
                locked_nft_account: zero_bytes(),
                fee_nft_mint: zero_bytes(),
                recent_epoch: 0,
                padding: Seq::new(8, |i: int| 0u64),
            }),
    {
        let bump: [u8; 1] = [0u8];
        let padding: [u64; 8] = [0u64; 8];
        assert(bump@ =~= seq![0u8]);
        assert(padding@ =~= Seq::new(8, |i: int| 0u64));
        LockedClmmPositionState {
            bump,
            position_owner: Address::default(),
            pool_id: Address::default(),
            position_id: Address::default(),
            locked_nft_account: Address::default(),
            fee_nft_mint: Address::default(),
            recent_epoch: 0,
            padding,
        }
    }
}

impl LockedClmmPositionFields {
    /// Whether the bump, the addresses and the reserved words have their
    /// fixed sizes.
    pub open spec fn well_formed(self) -> bool {
        &&& self.bump.len() == 1
        &&& self.position_owner.len() == 32
        &&& self.pool_id.len() == 32
        &&& self.position_id.len() == 32
        &&& self.locked_nft_account.len() == 32
        &&& self.fee_nft_mint.len() == 32
        &&& self.padding.len() == 8
    }

    /// The record's bytes: the tag, then each field in declaration order.
    pub open spec fn encoding(self) -> Seq<u8> {
        LockedClmmPositionState::DISCRIMINATOR@ + self.bump + self.position_owner + self.pool_id
            + self.position_id + self.locked_nft_account + self.fee_nft_mint + le_bytes(
            self.recent_epoch as nat,
            8,
        ) + words_bytes(self.padding)
    }
}

impl LockedClmmPositionState {
    /// The fixed length of the record in bytes.
    pub const LEN: usize = 8 + 1 + 32 * 5 + 8 + 8 * 8;

    /// The tag that the record starts with.
    pub const DISCRIMINATOR: [u8; 8] = [52, 23, 5, 7, 170, 90, 108, 213];

    /// The fields that a blob of the right length and tag holds.
    pub open spec fn fields_of(data: Seq<u8>) -> LockedClmmPositionFields {
        LockedClmmPositionFields {
            bump: data.subrange(8, 9),
            position_owner: data.subrange(9, 41),
            pool_id: data.subrange(41, 73),
            position_id: data.subrange(73, 105),
            locked_nft_account: data.subrange(105, 137),
            fee_nft_mint: data.subrange(137, 169),
            recent_epoch: u64_at(data, 169),
            padding: words_at(data, 177, 8),
        }
    }

    /// What decoding `data` as a locked-position record yields: the length
    /// is checked first, then the tag, then every field is read.
    pub open spec fn spec_decode(data: Seq<u8>) -> Result<LockedClmmPositionFields, DecodeError> {
        if data.len() != Self::LEN {
            Err(DecodeError::LengthMismatch)
        } else if data.subrange(0, 8) != Self::DISCRIMINATOR@ {
            Err(DecodeError::KindMismatch)
        } else {
            Ok(Self::fields_of(data))
        }
    }

    /// A decoding outcome with the record taken as its field values.
    pub open spec fn decoded_fields(r: Result<LockedClmmPositionState, DecodeError>) -> Result<
        LockedClmmPositionFields,
        DecodeError,
    > {
        match r {
            Ok(state) => Ok(state@),
            Err(e) => Err(e),
        }
    }

    /// Decodes an account's data as a locked-position record.
    ///
    /// Fails with `LengthMismatch` unless the data is exactly `LEN` bytes,
    /// and with `KindMismatch` if it is but does not start with
    /// `DISCRIMINATOR`. Otherwise every field is read at its fixed offset.
    pub fn deserialize_account(account_data: &[u8]) -> (r: Result<
        LockedClmmPositionState,
        DecodeError,
    >)
        ensures
            Self::decoded_fields(r) == Self::spec_decode(account_data@),
    {
        if account_data.len() != Self::LEN {
            return Err(DecodeError::LengthMismatch);
        }
        if !starts_with_tag(account_data, &Self::DISCRIMINATOR) {
            return Err(DecodeError::KindMismatch);
        }
        let bump: [u8; 1] = [account_data[8]];
        proof {
            assert(bump@ =~= account_data@.subrange(8, 9));
        }
        let state = LockedClmmPositionState {
            bump,
            position_owner: read_address(account_data, 9),
            pool_id: read_address(account_data, 41),
            position_id: read_address(account_data, 73),
            locked_nft_account: read_address(account_data, 105),
            fee_nft_mint: read_address(account_data, 137),
            recent_epoch: read_u64(account_data, 169),
            padding: read_words(account_data, 177),
        };
        Ok(state)
    }
}

} // verus!
