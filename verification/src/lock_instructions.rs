//! Assembly of the locking program's calls.
//!
//! Each builder derives the addresses that the program expects, lists every
//! account in the program's order with its signer and writable flags, and
//! attaches the encoded arguments. The order and the flags are the
//! program's interface: they are stated in full in each contract.

use crate::address::address_bytes;
use crate::address::derive_holding_address;
use crate::address::seed_bytes;
use crate::address::seeds_fit;
use crate::address::spec_derive;
use crate::address::spec_holding_address;
use crate::address::with_bump;
use crate::address::Address;
use crate::address::DerivationError;
use crate::address::MAX_SEED_LEN;
use crate::lock_utils::lemma_seed_bytes;
use crate::lock_utils::CollectCpFeeInstruction;
use crate::lock_utils::LockClmmPositionInstruction;
use crate::lock_utils::LockCpLiquidityInstruction;
use crate::lock_utils::LOCKED_LIQUIDITY_SEED;
use crate::lock_utils::LOCKED_POSITION_SEED;
use crate::lock_utils::LOCK_CLMM_AUTH_SEED;
use crate::lock_utils::LOCK_CP_AUTH_SEED;
use vstd::prelude::*;
use vstd::string::StringSliceAdditionalSpecFns;

verus! {

/// Seed prefix of an asset's metadata record under the metadata program.
pub const METADATA_PREFIX: &'static str = "metadata";

/// The metadata prefix is hashed as the bytes of its characters.
pub proof fn lemma_metadata_prefix_bytes()
    ensures
        METADATA_PREFIX.spec_bytes() == seq![109u8, 101, 116, 97, 100, 97, 116, 97],
{
    reveal_strlit("metadata");
    vstd::utf8::is_ascii_chars_encode_utf8(METADATA_PREFIX@);
    assert(METADATA_PREFIX.spec_bytes() =~= seq![109u8, 101, 116, 97, 100, 97, 116, 97]);
}

/// The programs and well-known accounts that the calls refer to.
#[derive(Clone, Debug, PartialEq, Eq)]
pub struct LockConfig {
    /// The locking program: the target of every call.
    pub lock_program: Address,
    /// The pool program of pooled liquidity.
    pub cp_program: Address,
    /// The seed of the pool program's own authority.
    pub cp_auth_seed: Vec<u8>,
    /// The program under which position locks are derived.
    pub clmm_program: Address,
    /// The program that keeps asset holdings.
    pub token_program: Address,
    /// The later generation of the holdings program.
    pub token_2022_program: Address,
    /// The program that assigns holding addresses.
    pub associated_token_program: Address,
    /// The program that keeps asset metadata.
    pub metadata_program: Address,
    /// The memo program.
    pub memo_program: Address,
    /// The system program.
    pub system_program: Address,
    /// The rent system account.
    pub rent_sysvar: Address,
}

/// One account of a call, as plain values.
pub struct AccountRef {
    pub address: Seq<u8>,
    pub is_signer: bool,
    pub is_writable: bool,
}

/// An account that the call may write to.
pub open spec fn writable(address: Seq<u8>, is_signer: bool) -> AccountRef {
    AccountRef { address, is_signer, is_writable: true }
}

/// An account that the call only reads.
pub open spec fn readonly(address: Seq<u8>, is_signer: bool) -> AccountRef {
    AccountRef { address, is_signer, is_writable: false }
}

/// One account of a call: its address, whether it must sign, and whether
/// the call may write to it.
#[derive(Clone, Copy, Debug, PartialEq, Eq)]
pub struct AccountMeta {
    pub pubkey: Address,
    pub is_signer: bool,
    pub is_writable: bool,
}

impl View for AccountMeta {
    type V = AccountRef;

    open spec fn view(&self) -> AccountRef {
        AccountRef {
            address: self.pubkey@,
            is_signer: self.is_signer,
            is_writable: self.is_writable,
        }
    }
}

impl AccountMeta {
    /// A writable account.
    pub fn new(pubkey: Address, is_signer: bool) -> (meta: AccountMeta)
        ensures
            meta@ == writable(pubkey@, is_signer),
            meta.pubkey == pubkey,
    {
        AccountMeta { pubkey, is_signer, is_writable: true }
    }

    /// A read-only account.
    pub fn new_readonly(pubkey: Address, is_signer: bool) -> (meta: AccountMeta)
        ensures
            meta@ == readonly(pubkey@, is_signer),
            meta.pubkey == pubkey,
    {
        AccountMeta { pubkey, is_signer, is_writable: false }
    }
}

/// The accounts of a call, as plain values.
pub open spec fn account_refs(accounts: Seq<AccountMeta>) -> Seq<AccountRef> {
    Seq::new(accounts.len(), |i: int| accounts[i]@)
}

/// A call, as plain values: the target program, its accounts in order, and
/// the payload.
pub struct CallDescriptor {
    pub program_id: Seq<u8>,
    pub accounts: Seq<AccountRef>,
    pub data: Seq<u8>,
}

/// A call that is ready to be signed and submitted.
#[derive(Clone, Debug, PartialEq, Eq)]
pub struct Instruction {
    pub program_id: Address,
    pub accounts: Vec<AccountMeta>,
    pub data: Vec<u8>,
}

impl View for Instruction {
    type V = CallDescriptor;

    open spec fn view(&self) -> CallDescriptor {
        CallDescriptor {
            program_id: self.program_id@,
            accounts: account_refs(self.accounts@),
            data: self.data@,
        }
    }
}

/// The outcome of a builder, as plain values: the one call that it built,
/// or why it built none.
pub open spec fn built(r: Result<Vec<Instruction>, DerivationError>) -> Result<
    CallDescriptor,
    DerivationError,
> {
    match r {
        Ok(calls) => Ok(calls@[0]@),
        Err(e) => Err(e),
    }
}

/// The program address of `seeds` under `program`, without its bump.
pub open spec fn spec_program_address(seeds: Seq<Seq<u8>>, program: Seq<u8>) -> Result<
    Seq<u8>,
    DerivationError,
> {
    match spec_derive(seeds, program) {
        Ok((address, _)) => Ok(address),
        Err(e) => Err(e),
    }
}

/// Derives a program address and drops its bump.
fn program_address_of(seeds: &[&[u8]], program: &Address) -> (r: Result<Address, DerivationError>)
    ensures
        address_bytes(r) == spec_program_address(seed_bytes(seeds@), program@),
        seeds_fit(with_bump(seed_bytes(seeds@), 255)) && r is Err ==> r->Err_0
            == DerivationError::NoViableBump,
{
    match crate::address::derive(seeds, program) {
        Ok((address, _)) => Ok(address),
        Err(e) => Err(e),
    }
}

/// The address of the authority that holds locked pool liquidity.
pub open spec fn spec_cp_authority(config: LockConfig) -> Result<Seq<u8>, DerivationError> {
    spec_program_address(seq![LOCK_CP_AUTH_SEED.spec_bytes()], config.lock_program@)
}

/// Derives the address of the authority that holds locked pool liquidity.
pub fn cp_authority_address(config: &LockConfig) -> (r: Result<Address, DerivationError>)
    ensures
        address_bytes(r) == spec_cp_authority(*config),
        r is Err ==> r->Err_0 == DerivationError::NoViableBump,
{
    let seeds: [&[u8]; 1] = [LOCK_CP_AUTH_SEED.as_bytes()];
    proof {
        lemma_seed_bytes();
        assert(seed_bytes(seeds@) =~= seq![LOCK_CP_AUTH_SEED.spec_bytes()]);
    }
    program_address_of(seeds.as_slice(), &config.lock_program)
}

/// The address of the pool program's own authority.
pub open spec fn spec_cp_program_authority(config: LockConfig) -> Result<Seq<u8>, DerivationError> {
    spec_program_address(seq![config.cp_auth_seed@], config.cp_program@)
}

/// Derives the address of the pool program's own authority, under the pool
/// program and not the locking program.
pub fn cp_program_authority_address(config: &LockConfig) -> (r: Result<Address, DerivationError>)
    ensures
        address_bytes(r) == spec_cp_program_authority(*config),
        config.cp_auth_seed@.len() <= MAX_SEED_LEN && r is Err ==> r->Err_0
            == DerivationError::NoViableBump,
{
    let seeds: [&[u8]; 1] = [config.cp_auth_seed.as_slice()];
    proof {
        assert(seed_bytes(seeds@) =~= seq![config.cp_auth_seed@]);
    }
    program_address_of(seeds.as_slice(), &config.cp_program)
}

/// The address of the locked-liquidity record of a fee asset.
pub open spec fn spec_locked_liquidity(config: LockConfig, fee_nft_mint: Seq<u8>) -> Result<
    Seq<u8>,
    DerivationError,
> {
    spec_program_address(
        seq![LOCKED_LIQUIDITY_SEED.spec_bytes(), fee_nft_mint],
        config.lock_program@,
    )
}

/// Derives the address of the locked-liquidity record of a fee asset: the
/// account to read before its fees are collected.
pub fn locked_liquidity_address(config: &LockConfig, fee_nft_mint: &Address) -> (r: Result<
    Address,
    DerivationError,
>)
    ensures
        address_bytes(r) == spec_locked_liquidity(*config, fee_nft_mint@),
        r is Err ==> r->Err_0 == DerivationError::NoViableBump,
{
    let seeds: [&[u8]; 2] = [LOCKED_LIQUIDITY_SEED.as_bytes(), fee_nft_mint.0.as_slice()];
    proof {
        lemma_seed_bytes();
        assert(seed_bytes(seeds@) =~= seq![LOCKED_LIQUIDITY_SEED.spec_bytes(), fee_nft_mint@]);
    }
    program_address_of(seeds.as_slice(), &config.lock_program)
}

/// The address of the authority that holds locked positions.
pub open spec fn spec_clmm_authority(config: LockConfig) -> Result<Seq<u8>, DerivationError> {
    spec_program_address(seq![LOCK_CLMM_AUTH_SEED.spec_bytes()], config.clmm_program@)
}

/// Derives the address of the authority that holds locked positions.
pub fn clmm_authority_address(config: &LockConfig) -> (r: Result<Address, DerivationError>)
    ensures
        address_bytes(r) == spec_clmm_authority(*config),
        r is Err ==> r->Err_0 == DerivationError::NoViableBump,
{
    let seeds: [&[u8]; 1] = [LOCK_CLMM_AUTH_SEED.as_bytes()];
    proof {
        lemma_seed_bytes();
        assert(seed_bytes(seeds@) =~= seq![LOCK_CLMM_AUTH_SEED.spec_bytes()]);
    }
    program_address_of(seeds.as_slice(), &config.clmm_program)
}

/// The address of the locked-position record of a fee asset.
pub open spec fn spec_locked_position(config: LockConfig, fee_nft_mint: Seq<u8>) -> Result<
    Seq<u8>,
    DerivationError,
> {
    spec_program_address(
        seq![LOCKED_POSITION_SEED.spec_bytes(), fee_nft_mint],
        config.clmm_program@,
    )
}

/// Derives the address of the locked-position record of a fee asset.
pub fn locked_position_address(config: &LockConfig, fee_nft_mint: &Address) -> (r: Result<
    Address,
    DerivationError,
>)
    ensures
        address_bytes(r) == spec_locked_position(*config, fee_nft_mint@),
        r is Err ==> r->Err_0 == DerivationError::NoViableBump,
{
    let seeds: [&[u8]; 2] = [LOCKED_POSITION_SEED.as_bytes(), fee_nft_mint.0.as_slice()];
    proof {
        lemma_seed_bytes();
        assert(seed_bytes(seeds@) =~= seq![LOCKED_POSITION_SEED.spec_bytes(), fee_nft_mint@]);
    }
    program_address_of(seeds.as_slice(), &config.clmm_program)
}

/// The address of the metadata record of a fee asset.
pub open spec fn spec_metadata_account(config: LockConfig, fee_nft_mint: Seq<u8>) -> Result<
    Seq<u8>,
    DerivationError,
> {
    spec_program_address(
        seq![METADATA_PREFIX.spec_bytes(), config.metadata_program@, fee_nft_mint],
        config.metadata_program@,
    )
}

/// Derives the address of the metadata record of a fee asset, under the
/// metadata program, from the prefix, that program's own address and the
/// asset.
pub fn metadata_address(config: &LockConfig, fee_nft_mint: &Address) -> (r: Result<
    Address,
    DerivationError,
>)
    ensures
        address_bytes(r) == spec_metadata_account(*config, fee_nft_mint@),
        r is Err ==> r->Err_0 == DerivationError::NoViableBump,
{
    let seeds: [&[u8]; 3] = [
        METADATA_PREFIX.as_bytes(),
        config.metadata_program.0.as_slice(),
        fee_nft_mint.0.as_slice(),
    ];
    proof {
        lemma_metadata_prefix_bytes();
        assert(seed_bytes(seeds@) =~= seq![
            METADATA_PREFIX.spec_bytes(),
            config.metadata_program@,
            fee_nft_mint@,
        ]);
    }
    program_address_of(seeds.as_slice(), &config.metadata_program)
}

/// The address at which `owner` holds `asset` under the holdings program.
pub open spec fn spec_token_account(config: LockConfig, owner: Seq<u8>, asset: Seq<u8>) -> Result<
    Seq<u8>,
    DerivationError,
> {
    spec_holding_address(owner, asset, config.token_program@, config.associated_token_program@)
}

/// Derives the address at which `owner` holds `asset` under the holdings
/// program.
pub fn token_account_address(config: &LockConfig, owner: &Address, asset: &Address) -> (r: Result<
    Address,
    DerivationError,
>)
    ensures
        address_bytes(r) == spec_token_account(*config, owner@, asset@),
        r is Err ==> r->Err_0 == DerivationError::NoViableBump,
{
    derive_holding_address(owner, asset, &config.token_program, &config.associated_token_program)
}

/// The call that locks pool liquidity, or the failure of the first
/// derivation that fails.
///
/// The 18 accounts are, in order: the locking authority; the caller three
/// times, as payer, as owner of the liquidity, and read-only as owner of
/// the fee asset; the fee asset and the caller's holding of it; the pool;
/// the lock record; the liquidity asset, the caller's holding of it and the
/// authority's; the pool's two reserves; the fee asset's metadata record;
/// then the rent account and the system, holdings and metadata programs.
///
/// Exactly two entries carry the signer flag: the caller's first entry and
/// the fee asset. The caller's second entry is writable and not flagged.
pub open spec fn spec_lock_cp_liquidity(
    config: LockConfig,
    wallet: Seq<u8>,
    user_lp_token: Seq<u8>,
    fee_nft_mint: Seq<u8>,
    pool_id: Seq<u8>,
    lp_mint: Seq<u8>,
    token_0_vault: Seq<u8>,
    token_1_vault: Seq<u8>,
    lp_amount: u64,
    with_metadata: bool,
) -> Result<CallDescriptor, DerivationError> {
    match spec_cp_authority(config) {
        Err(e) => Err(e),
        Ok(authority) => match spec_locked_liquidity(config, fee_nft_mint) {
            Err(e) => Err(e),
            Ok(locked_liquidity) => match spec_metadata_account(config, fee_nft_mint) {
                Err(e) => Err(e),
                Ok(metadata_account) => match spec_token_account(config, wallet, fee_nft_mint) {
                    Err(e) => Err(e),
                    Ok(fee_nft_account) => match spec_token_account(config, authority, lp_mint) {
                        Err(e) => Err(e),
                        Ok(locked_lp_vault) => Ok(
                            CallDescriptor {
                                program_id: config.lock_program@,
                                accounts: seq![
                                    readonly(authority, false),
                                    writable(wallet, true),
                                    writable(wallet, false),
                                    readonly(wallet, false),
                                    writable(fee_nft_mint, true),
                                    writable(fee_nft_account, false),
                                    writable(pool_id, false),
                                    writable(locked_liquidity, false),
                                    writable(lp_mint, false),
                                    writable(user_lp_token, false),
                                    writable(locked_lp_vault, false),
                                    writable(token_0_vault, false),
                                    writable(token_1_vault, false),
                                    writable(metadata_account, false),
                                    readonly(config.rent_sysvar@, false),
                                    readonly(config.system_program@, false),
                                    readonly(config.token_program@, false),
                                    readonly(config.metadata_program@, false),
                                ],
                                data: LockCpLiquidityInstruction::payload(lp_amount, with_metadata),
                            },
                        ),
                    },
                },
            },
        },
    }
}

/// Builds the call that locks `lp_amount` of a pool's liquidity for the
/// caller `wallet`, with `fee_nft_mint` as the new fee asset.
///
/// Returns exactly one call, with 18 accounts, of which exactly two carry
/// the signer flag: one entry of the caller and the fee asset. It fails
/// only where a derivation fails, with that derivation's error.
pub fn lock_cp_liquidity_instruction(
    config: &LockConfig,
    wallet: Address,
    user_lp_token: Address,
    fee_nft_mint: Address,
    pool_id: Address,
    lp_mint: Address,
    token_0_vault: Address,
    token_1_vault: Address,
    lp_amount: u64,
    with_metadata: bool,
) -> (r: Result<Vec<Instruction>, DerivationError>)
    ensures
        r is Ok ==> r->Ok_0@.len() == 1,
        r matches Ok(calls) ==> {
            &&& calls@[0]@.accounts.len() == 18
            &&& signer_entries(calls@[0]@.accounts) == 2
            &&& signed_by(calls@[0]@, wallet@, fee_nft_mint@)
        },
        r is Err ==> r->Err_0 == DerivationError::NoViableBump,
        built(r) == spec_lock_cp_liquidity(
            *config,
            wallet@,
            user_lp_token@,
            fee_nft_mint@,
            pool_id@,
            lp_mint@,
            token_0_vault@,
            token_1_vault@,
            lp_amount,
            with_metadata,
        ),
{
    let program_lock_cp_authority = cp_authority_address(config)?;
    let locked_liquidity = locked_liquidity_address(config, &fee_nft_mint)?;
    let metadata_account_key = metadata_address(config, &fee_nft_mint)?;
    let fee_nft_account = token_account_address(config, &wallet, &fee_nft_mint)?;
    let locked_lp_vault = token_account_address(config, &program_lock_cp_authority, &lp_mint)?;

    let instruction_data = LockCpLiquidityInstruction::serialize_ix(lp_amount, with_metadata);
    let accounts = vec![
        AccountMeta::new_readonly(program_lock_cp_authority, false),
        AccountMeta::new(wallet, true),
        AccountMeta::new(wallet, false),
        AccountMeta::new_readonly(wallet, false),
        AccountMeta::new(fee_nft_mint, true),
        AccountMeta::new(fee_nft_account, false),
        AccountMeta::new(pool_id, false),
        AccountMeta::new(locked_liquidity, false),
        AccountMeta::new(lp_mint, false),
        AccountMeta::new(user_lp_token, false),
        AccountMeta::new(locked_lp_vault, false),
        AccountMeta::new(token_0_vault, false),
        AccountMeta::new(token_1_vault, false),
        AccountMeta::new(metadata_account_key, false),
        AccountMeta::new_readonly(config.rent_sysvar, false),
        AccountMeta::new_readonly(config.system_program, false),
        AccountMeta::new_readonly(config.token_program, false),
        AccountMeta::new_readonly(config.metadata_program, false),
    ];
    let instruction = Instruction {
        program_id: config.lock_program,
        accounts,
        data: instruction_data,
    };
    proof {
        let expected = spec_lock_cp_liquidity(
            *config,
            wallet@,
            user_lp_token@,
            fee_nft_mint@,
            pool_id@,
            lp_mint@,
            token_0_vault@,
            token_1_vault@,
            lp_amount,
            with_metadata,
        );
        lemma_lock_cp_liquidity_shape(
            *config,
            wallet@,
            user_lp_token@,
            fee_nft_mint@,
            pool_id@,
            lp_mint@,
            token_0_vault@,
            token_1_vault@,
            lp_amount,
            with_metadata,
        );
        assert(expected is Ok);
        assert(instruction@.accounts =~= expected->Ok_0.accounts);
    }
    Ok(vec![instruction])
}

/// The call that collects the fees of locked pool liquidity, or the
/// failure of the first derivation that fails.
///
/// The 21 accounts are, in order: the locking authority; the caller three
/// times, as payer, as owner of the fee asset, and once more read-only; the
/// fee asset and the holding of it; the lock record; the pool program and
/// its authority; the pool; the liquidity asset; the caller's holdings of
/// the two pooled assets; the pool's two reserves; the two pooled assets;
/// the authority's holding of the liquidity asset; then the holdings
/// program, its later generation, and the memo program.
///
/// Exactly two entries carry the signer flag: the caller's first entry and
/// the fee asset. The caller's second entry is writable and not flagged.
pub open spec fn spec_collect_cp_fees(
    config: LockConfig,
    wallet: Seq<u8>,
    fee_nft_mint: Seq<u8>,
    fee_nft_account: Seq<u8>,
    pool_id: Seq<u8>,
    lp_mint: Seq<u8>,
    token_0_vault: Seq<u8>,
    token_1_vault: Seq<u8>,
    vault_0_mint: Seq<u8>,
    vault_1_mint: Seq<u8>,
    user_token_0: Seq<u8>,
    user_token_1: Seq<u8>,
    fee_lp_amount: u64,
) -> Result<CallDescriptor, DerivationError> {
    match spec_cp_authority(config) {
        Err(e) => Err(e),
        Ok(authority) => match spec_cp_program_authority(config) {
            Err(e) => Err(e),
            Ok(cp_program_authority) => match spec_locked_liquidity(config, fee_nft_mint) {
                Err(e) => Err(e),
                Ok(locked_liquidity) => match spec_token_account(config, authority, lp_mint) {
                    Err(e) => Err(e),
                    Ok(locked_lp_vault) => Ok(
                        CallDescriptor {
                            program_id: config.lock_program@,
                            accounts: seq![
                                readonly(authority, false),
                                writable(wallet, true),
                                writable(wallet, false),
                                readonly(wallet, false),
                                writable(fee_nft_mint, true),
                                writable(fee_nft_account, false),
                                writable(locked_liquidity, false),
                                writable(config.cp_program@, false),
                                writable(cp_program_authority, false),
                                writable(pool_id, false),
                                writable(lp_mint, false),
                                writable(user_token_0, false),
                                writable(user_token_1, false),
                                writable(token_0_vault, false),
                                writable(token_1_vault, false),
                                readonly(vault_0_mint, false),
                                readonly(vault_1_mint, false),
                                writable(locked_lp_vault, false),
                                readonly(config.token_program@, false),
                                readonly(config.token_2022_program@, false),
                                readonly(config.memo_program@, false),
                            ],
                            data: CollectCpFeeInstruction::payload(fee_lp_amount),
                        },
                    ),
                },
            },
        },
    }
}

/// Builds the call that collects up to `fee_lp_amount` of the fees of the
/// lock that `fee_nft_mint` stands for, to the caller `wallet`.
///
/// Returns exactly one call, with 21 accounts, of which exactly two carry
/// the signer flag: one entry of the caller and the fee asset. It fails
/// only where a derivation fails, with that derivation's error.
pub fn collect_cp_fees_instruction(
    config: &LockConfig,
    wallet: Address,
    fee_nft_mint: Address,
    fee_nft_account: Address,
    pool_id: Address,
    lp_mint: Address,
    token_0_vault: Address,
    token_1_vault: Address,
    vault_0_mint: Address,
    vault_1_mint: Address,
    user_token_0: Address,
    user_token_1: Address,
    fee_lp_amount: u64,
) -> (r: Result<Vec<Instruction>, DerivationError>)
    ensures
        r is Ok ==> r->Ok_0@.len() == 1,
        r matches Ok(calls) ==> {
            &&& calls@[0]@.accounts.len() == 21
            &&& signer_entries(calls@[0]@.accounts) == 2
            &&& signed_by(calls@[0]@, wallet@, fee_nft_mint@)
        },
        config.cp_auth_seed@.len() <= MAX_SEED_LEN && r is Err ==> r->Err_0
            == DerivationError::NoViableBump,
        built(r) == spec_collect_cp_fees(
            *config,
            wallet@,
            fee_nft_mint@,
            fee_nft_account@,
            pool_id@,
            lp_mint@,
            token_0_vault@,
            token_1_vault@,
            vault_0_mint@,
            vault_1_mint@,
            user_token_0@,
            user_token_1@,
            fee_lp_amount,
        ),
{
    let program_lock_cp_authority = cp_authority_address(config)?;
    let cp_program_authority = cp_program_authority_address(config)?;
    let locked_liquidity = locked_liquidity_address(config, &fee_nft_mint)?;
    let locked_lp_vault = token_account_address(config, &program_lock_cp_authority, &lp_mint)?;

    let instruction_data = CollectCpFeeInstruction::serialize_ix(fee_lp_amount);
    let accounts = vec![
        AccountMeta::new_readonly(program_lock_cp_authority, false),
        AccountMeta::new(wallet, true),
        AccountMeta::new(wallet, false),
        AccountMeta::new_readonly(wallet, false),
        AccountMeta::new(fee_nft_mint, true),
        AccountMeta::new(fee_nft_account, false),
        AccountMeta::new(locked_liquidity, false),
        AccountMeta::new(config.cp_program, false),
        AccountMeta::new(cp_program_authority, false),
        AccountMeta::new(pool_id, false),
        AccountMeta::new(lp_mint, false),
        AccountMeta::new(user_token_0, false),
        AccountMeta::new(user_token_1, false),
        AccountMeta::new(token_0_vault, false),
        AccountMeta::new(token_1_vault, false),
        AccountMeta::new_readonly(vault_0_mint, false),
        AccountMeta::new_readonly(vault_1_mint, false),
        AccountMeta::new(locked_lp_vault, false),
        AccountMeta::new_readonly(config.token_program, false),
        AccountMeta::new_readonly(config.token_2022_program, false),
        AccountMeta::new_readonly(config.memo_program, false),
    ];
    let instruction = Instruction {
        program_id: config.lock_program,
        accounts,
        data: instruction_data,
    };
    proof {
        let expected = spec_collect_cp_fees(
            *config,
            wallet@,
            fee_nft_mint@,
            fee_nft_account@,
            pool_id@,
            lp_mint@,
            token_0_vault@,
            token_1_vault@,
            vault_0_mint@,
            vault_1_mint@,
            user_token_0@,
            user_token_1@,
            fee_lp_amount,
        );
        lemma_collect_cp_fees_shape(
            *config,
            wallet@,
            fee_nft_mint@,
            fee_nft_account@,
            pool_id@,
            lp_mint@,
            token_0_vault@,
            token_1_vault@,
            vault_0_mint@,
            vault_1_mint@,
            user_token_0@,
            user_token_1@,
            fee_lp_amount,
        );
        assert(expected is Ok);
        assert(instruction@.accounts =~= expected->Ok_0.accounts);
    }
    Ok(vec![instruction])
}

/// The call that locks a position, or the failure of the first derivation
/// that fails.
///
/// The 16 accounts are, in order: the locking authority for positions; the
/// caller twice, as payer and read-only as owner of the fee asset; the
/// caller's holding of the position asset; the position; the position
/// asset; the authority's holding of it; the lock record; the fee asset and
/// the caller's holding of it; the fee asset's metadata record; then the
/// metadata program, the program that assigns holding addresses, the rent
/// account, and the holdings and system programs.
///
/// The caller has no entry of its own as owner of the position: the list
/// leaves that entry out, and the caller's first entry, which pays and
/// signs, is the only writable one of the caller. Exactly two entries carry
/// the signer flag: that entry and the fee asset.
pub open spec fn spec_lock_clmm_position(
    config: LockConfig,
    wallet: Seq<u8>,
    position_nft_account: Seq<u8>,
    position_nft_mint: Seq<u8>,
    fee_nft_mint: Seq<u8>,
    personal_position: Seq<u8>,
    with_metadata: bool,
) -> Result<CallDescriptor, DerivationError> {
    match spec_clmm_authority(config) {
        Err(e) => Err(e),
        Ok(authority) => match spec_locked_position(config, fee_nft_mint) {
            Err(e) => Err(e),
            Ok(locked_position) => match spec_metadata_account(config, fee_nft_mint) {
                Err(e) => Err(e),
                Ok(metadata_account) => match spec_token_account(config, wallet, fee_nft_mint) {
                    Err(e) => Err(e),
                    Ok(fee_nft_account) => match spec_token_account(
                        config,
                        authority,
                        position_nft_mint,
                    ) {
                        Err(e) => Err(e),
                        Ok(locked_nft_account) => Ok(
                            CallDescriptor {
                                program_id: config.lock_program@,
                                accounts: seq![
                                    readonly(authority, false),
                                    writable(wallet, true),
                                    readonly(wallet, false),
                                    writable(position_nft_account, false),
                                    writable(personal_position, false),
                                    writable(position_nft_mint, false),
                                    writable(locked_nft_account, false),
                                    writable(locked_position, false),
                                    writable(fee_nft_mint, true),
                                    writable(fee_nft_account, false),
                                    writable(metadata_account, false),
                                    readonly(config.metadata_program@, false),
                                    readonly(config.associated_token_program@, false),
                                    readonly(config.rent_sysvar@, false),
                                    readonly(config.token_program@, false),
                                    readonly(config.system_program@, false),
                                ],
                                data: LockClmmPositionInstruction::payload(with_metadata),
                            },
                        ),
                    },
                },
            },
        },
    }
}

/// Builds the call that locks the position whose asset is
/// `position_nft_mint` for the caller `wallet`, with `fee_nft_mint` as the
/// new fee asset.
///
/// Returns exactly one call, with 16 accounts, of which exactly two carry
/// the signer flag: one entry of the caller and the fee asset. The caller
/// is listed as payer and as owner of the fee asset, and has no entry of
/// its own as owner of the position. It fails only where a derivation
/// fails, with that derivation's error.
pub fn lock_clmm_position_instruction(
    config: &LockConfig,
    wallet: Address,
    position_nft_account: Address,
    position_nft_mint: Address,
    fee_nft_mint: Address,
    personal_position: Address,
    with_metadata: bool,
) -> (r: Result<Vec<Instruction>, DerivationError>)
    ensures
        r is Ok ==> r->Ok_0@.len() == 1,
        r matches Ok(calls) ==> {
            &&& calls@[0]@.accounts.len() == 16
            &&& signer_entries(calls@[0]@.accounts) == 2
            &&& signed_by(calls@[0]@, wallet@, fee_nft_mint@)
        },
        r is Err ==> r->Err_0 == DerivationError::NoViableBump,
        built(r) == spec_lock_clmm_position(
            *config,
            wallet@,
            position_nft_account@,
            position_nft_mint@,
            fee_nft_mint@,
            personal_position@,
            with_metadata,
        ),
{
    let program_lock_clmm_authority = clmm_authority_address(config)?;
    let locked_position = locked_position_address(config, &fee_nft_mint)?;
    let metadata_account_key = metadata_address(config, &fee_nft_mint)?;
    let fee_nft_account = token_account_address(config, &wallet, &fee_nft_mint)?;
    let locked_nft_account = token_account_address(
        config,
        &program_lock_clmm_authority,
        &position_nft_mint,
    )?;

    let instruction_data = LockClmmPositionInstruction::serialize_ix(with_metadata);
    let accounts = vec![
        AccountMeta::new_readonly(program_lock_clmm_authority, false),
        AccountMeta::new(wallet, true),
        AccountMeta::new_readonly(wallet, false),
        AccountMeta::new(position_nft_account, false),
        AccountMeta::new(personal_position, false),
        AccountMeta::new(position_nft_mint, false),
        AccountMeta::new(locked_nft_account, false),
        AccountMeta::new(locked_position, false),
        AccountMeta::new(fee_nft_mint, true),
        AccountMeta::new(fee_nft_account, false),
        AccountMeta::new(metadata_account_key, false),
        AccountMeta::new_readonly(config.metadata_program, false),
        AccountMeta::new_readonly(config.associated_token_program, false),
        AccountMeta::new_readonly(config.rent_sysvar, false),
        AccountMeta::new_readonly(config.token_program, false),
        AccountMeta::new_readonly(config.system_program, false),
    ];
    let instruction = Instruction {
        program_id: config.lock_program,
        accounts,
        data: instruction_data,
    };
    proof {
        let expected = spec_lock_clmm_position(
            *config,
            wallet@,
            position_nft_account@,
            position_nft_mint@,
            fee_nft_mint@,
            personal_position@,
            with_metadata,
        );
        lemma_lock_clmm_position_shape(
            *config,
            wallet@,
            position_nft_account@,
            position_nft_mint@,
            fee_nft_mint@,
            personal_position@,
            with_metadata,
        );
        assert(expected is Ok);
        assert(instruction@.accounts =~= expected->Ok_0.accounts);
    }
    Ok(vec![instruction])
}

/// Whether the entries at places `i` and `j` are the only ones of a call
/// that carry the signer flag, the one a writable entry of `first` and the
/// other a writable entry of `second`.
pub open spec fn flagged_at(
    call: CallDescriptor,
    i: int,
    j: int,
    first: Seq<u8>,
    second: Seq<u8>,
) -> bool {
    &&& 0 <= i < call.accounts.len()
    &&& 0 <= j < call.accounts.len()
    &&& i != j
    &&& call.accounts[i] == writable(first, true)
    &&& call.accounts[j] == writable(second, true)
    &&& forall|k: int|
        0 <= k < call.accounts.len() && (#[trigger] call.accounts[k]).is_signer ==> k == i || k
            == j
}

/// Whether exactly two entries of a call carry the signer flag: one entry
/// of `first` and one entry of `second`, both writable.
pub open spec fn signed_by(call: CallDescriptor, first: Seq<u8>, second: Seq<u8>) -> bool {
    exists|i: int, j: int| #[trigger] flagged_at(call, i, j, first, second)
}

/// The number of entries that carry the signer flag.
pub open spec fn signer_entries(accounts: Seq<AccountRef>) -> nat
    decreases accounts.len(),
{
    if accounts.len() == 0 {
        0
    } else if accounts.last().is_signer {
        signer_entries(accounts.drop_last()) + 1
    } else {
        signer_entries(accounts.drop_last())
    }
}

/// Where the signer flag stands at the places `i` and `j` and nowhere else,
/// the flagged entries are as many as those two places that lie in the list.
proof fn lemma_signer_entries_at(accounts: Seq<AccountRef>, i: int, j: int)
    requires
        i != j,
        forall|k: int|
            0 <= k < accounts.len() ==> ((#[trigger] accounts[k]).is_signer <==> k == i || k == j),
    ensures
        signer_entries(accounts) == (if 0 <= i < accounts.len() {
            1nat
        } else {
            0nat
        }) + (if 0 <= j < accounts.len() {
            1nat
        } else {
            0nat
        }),
    decreases accounts.len(),
{
    if accounts.len() > 0 {
        let front = accounts.drop_last();
        assert forall|k: int| 0 <= k < front.len() implies ((#[trigger] front[k]).is_signer <==> k
            == i || k == j) by {
            assert(front[k] == accounts[k]);
        }
        lemma_signer_entries_at(front, i, j);
        assert(accounts.last() == accounts[accounts.len() - 1]);
    }
}

/// A call of which exactly two entries carry the signer flag has two
/// flagged entries when they are counted.
pub proof fn lemma_two_signer_entries(call: CallDescriptor, first: Seq<u8>, second: Seq<u8>)
    requires
        signed_by(call, first, second),
    ensures
        signer_entries(call.accounts) == 2,
{
    let (i, j) = choose|i: int, j: int| #[trigger] flagged_at(call, i, j, first, second);
    lemma_signer_entries_at(call.accounts, i, j);
}

/// Every call that locks pool liquidity goes to the locking program with
/// 18 accounts and a 17-byte payload, and exactly two of its entries carry
/// the signer flag: one entry of the caller and the fee asset.
pub proof fn lemma_lock_cp_liquidity_shape(
    config: LockConfig,
    wallet: Seq<u8>,
    user_lp_token: Seq<u8>,
    fee_nft_mint: Seq<u8>,
    pool_id: Seq<u8>,
    lp_mint: Seq<u8>,
    token_0_vault: Seq<u8>,
    token_1_vault: Seq<u8>,
    lp_amount: u64,
    with_metadata: bool,
)
    ensures
        spec_lock_cp_liquidity(
            config,
            wallet,
            user_lp_token,
            fee_nft_mint,
            pool_id,
            lp_mint,
            token_0_vault,
            token_1_vault,
            lp_amount,
            with_metadata,
        ) matches Ok(call) ==> {
            &&& call.program_id == config.lock_program@
            &&& call.accounts.len() == 18
            &&& call.data.len() == 17
            &&& signed_by(call, wallet, fee_nft_mint)
            &&& signer_entries(call.accounts) == 2
        },
{
    let built = spec_lock_cp_liquidity(
        config,
        wallet,
        user_lp_token,
        fee_nft_mint,
        pool_id,
        lp_mint,
        token_0_vault,
        token_1_vault,
        lp_amount,
        with_metadata,
    );
    if let Ok(call) = built {
        assert(flagged_at(call, 1, 4, wallet, fee_nft_mint));
        lemma_two_signer_entries(call, wallet, fee_nft_mint);
    }
}

/// Every call that collects the fees of locked pool liquidity goes to the
/// locking program with 21 accounts and a 16-byte payload, and exactly two
/// of its entries carry the signer flag: one entry of the caller and the
/// fee asset.
pub proof fn lemma_collect_cp_fees_shape(
    config: LockConfig,
    wallet: Seq<u8>,
    fee_nft_mint: Seq<u8>,
    fee_nft_account: Seq<u8>,
    pool_id: Seq<u8>,
    lp_mint: Seq<u8>,
    token_0_vault: Seq<u8>,
    token_1_vault: Seq<u8>,
    vault_0_mint: Seq<u8>,
    vault_1_mint: Seq<u8>,
    user_token_0: Seq<u8>,
    user_token_1: Seq<u8>,
    fee_lp_amount: u64,
)
    ensures
        spec_collect_cp_fees(
            config,
            wallet,
            fee_nft_mint,
            fee_nft_account,
            pool_id,
            lp_mint,
            token_0_vault,
            token_1_vault,
            vault_0_mint,
            vault_1_mint,
            user_token_0,
            user_token_1,
            fee_lp_amount,
        ) matches Ok(call) ==> {
            &&& call.program_id == config.lock_program@
            &&& call.accounts.len() == 21
            &&& call.data.len() == 16
            &&& signed_by(call, wallet, fee_nft_mint)
            &&& signer_entries(call.accounts) == 2
        },
{
    let built = spec_collect_cp_fees(
        config,
        wallet,
        fee_nft_mint,
        fee_nft_account,
        pool_id,
        lp_mint,
        token_0_vault,
        token_1_vault,
        vault_0_mint,
        vault_1_mint,
        user_token_0,
        user_token_1,
        fee_lp_amount,
    );
    if let Ok(call) = built {
        assert(flagged_at(call, 1, 4, wallet, fee_nft_mint));
        lemma_two_signer_entries(call, wallet, fee_nft_mint);
    }
}

/// Every call that locks a position goes to the locking program with 16
/// accounts and a 9-byte payload, and exactly two of its entries carry the
/// signer flag: one entry of the caller and the fee asset.
pub proof fn lemma_lock_clmm_position_shape(
    config: LockConfig,
    wallet: Seq<u8>,
    position_nft_account: Seq<u8>,
    position_nft_mint: Seq<u8>,
    fee_nft_mint: Seq<u8>,
    personal_position: Seq<u8>,
    with_metadata: bool,
)
    ensures
        spec_lock_clmm_position(
            config,
            wallet,
            position_nft_account,
            position_nft_mint,
            fee_nft_mint,
            personal_position,
            with_metadata,
        ) matches Ok(call) ==> {
            &&& call.program_id == config.lock_program@
            &&& call.accounts.len() == 16
            &&& call.data.len() == 9
            &&& signed_by(call, wallet, fee_nft_mint)
            &&& signer_entries(call.accounts) == 2
        },
{
    let built = spec_lock_clmm_position(
        config,
        wallet,
        position_nft_account,
        position_nft_mint,
        fee_nft_mint,
        personal_position,
        with_metadata,
    );
    if let Ok(call) = built {
        assert(flagged_at(call, 1, 8, wallet, fee_nft_mint));
        lemma_two_signer_entries(call, wallet, fee_nft_mint);
    }
}

} // verus!
