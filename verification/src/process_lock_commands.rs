//! Carrying one command from the user's intent to a call.
//!
//! A command needs facts that only the chain or the key store can give: a
//! pool's accounts, a fresh identity for the fee asset, the asset of a
//! holding, the bytes of a lock record. This module decides; it never reads
//! or generates anything. Each step takes the state of the command and the
//! fact that arrived, and returns the next state with the one thing to do
//! next: what to fetch, the call to submit, or why the command ends. It
//! also returns the signers that the step introduces; merging them into a
//! list is left to the caller, and no list is written behind its back.

use crate::address::address_of;
use crate::address::lemma_address_of_bytes;
use crate::address::derive_holding_address;
use crate::address::spec_holding_address;
use crate::address::Address;
use crate::address::DerivationError;
use crate::lock_instructions::collect_cp_fees_instruction;
use crate::lock_instructions::lemma_lock_cp_liquidity_shape;
use crate::lock_instructions::lock_cp_liquidity_instruction;
use crate::lock_instructions::signed_by;
use crate::lock_instructions::spec_collect_cp_fees;
use crate::lock_instructions::spec_lock_cp_liquidity;
use crate::lock_instructions::spec_locked_liquidity;
use crate::lock_instructions::CallDescriptor;
use crate::lock_instructions::Instruction;
use crate::lock_instructions::LockConfig;
use crate::lock_utils::DecodeError;
use crate::lock_utils::LockedCpLiquidityState;
use vstd::prelude::*;

verus! {

/// What the user asks for.
#[derive(Clone, Copy, Debug, PartialEq, Eq)]
pub enum LockCommands {
    /// Lock `lp_amount` of a pool's liquidity, held in `lp_token_account`.
    LockCpLiquidity { pool_id: Address, lp_token_account: Address, lp_amount: u64, with_metadata: bool },
    /// Collect everything owed to the holder of a fee asset.
    CollectCpFee { fee_nft_account: Address },
}

/// The accounts of a pool that the calls refer to.
#[derive(Clone, Copy, Debug, PartialEq, Eq)]
pub struct PoolAccounts {
    pub lp_mint: Address,
    pub token_0_vault: Address,
    pub token_1_vault: Address,
    pub token_0_mint: Address,
    pub token_1_mint: Address,
    pub token_0_program: Address,
    pub token_1_program: Address,
}

/// Why a command ended without a call.
#[derive(Clone, Copy, Debug, PartialEq, Eq)]
pub enum CommandError {
    /// An address could not be derived.
    Derivation(DerivationError),
    /// The lock record's bytes are not a locked-liquidity record.
    Decode(DecodeError),
    /// The lock record belongs to another fee asset than the holding.
    FeeAssetMismatch,
    /// The fact that arrived is not the one that the command waited for.
    UnexpectedEvent,
}

/// How far a command has come.
#[derive(Clone, Copy, Debug, PartialEq, Eq)]
pub enum CommandState {
    /// Nothing has been done yet.
    Start { command: LockCommands },
    /// A lock waits for its pool's accounts.
    LockNeedsPool { pool_id: Address, lp_token_account: Address, lp_amount: u64, with_metadata: bool },
    /// A lock waits for the fresh identity of its fee asset.
    LockNeedsFeeAsset {
        pool_id: Address,
        lp_token_account: Address,
        lp_amount: u64,
        with_metadata: bool,
        pool: PoolAccounts,
    },
    /// A collection waits for the asset of the fee holding.
    CollectNeedsFeeAsset { fee_nft_account: Address },
    /// A collection waits for the bytes of the lock record.
    CollectNeedsRecord { fee_nft_account: Address, fee_nft_mint: Address },
    /// A collection waits for its pool's accounts.
    CollectNeedsPool { fee_nft_account: Address, fee_nft_mint: Address, pool_id: Address },
    /// The command has ended, with a call or with an error.
    Done,
}

/// A fact that arrived from outside.
#[derive(Clone, Debug, PartialEq, Eq)]
pub enum Event {
    /// The command may begin.
    Begin,
    /// The accounts of the pool that was asked for.
    Pool(PoolAccounts),
    /// The address of a freshly generated identity.
    FreshIdentity(Address),
    /// The asset of the holding that was asked for.
    HoldingAsset(Address),
    /// The bytes of the account that was asked for.
    AccountData(Vec<u8>),
}

/// The one thing to do next.
#[derive(Clone, Debug, PartialEq, Eq)]
pub enum Request {
    /// Fetch the accounts of this pool.
    ReadPool(Address),
    /// Generate a fresh identity and keep its key for signing.
    GenerateIdentity,
    /// Fetch this holding and report its asset.
    ReadHoldingAsset(Address),
    /// Fetch the bytes of this account.
    ReadAccount(Address),
    /// Sign and submit this call.
    Submit(Vec<Instruction>),
    /// Give up.
    Abort(CommandError),
}

/// A request as plain values.
pub enum RequestView {
    ReadPool(Seq<u8>),
    GenerateIdentity,
    ReadHoldingAsset(Seq<u8>),
    ReadAccount(Seq<u8>),
    Submit(CallDescriptor),
    Abort(CommandError),
}

impl View for Request {
    type V = RequestView;

    open spec fn view(&self) -> RequestView {
        match *self {
            Request::ReadPool(pool_id) => RequestView::ReadPool(pool_id@),
            Request::GenerateIdentity => RequestView::GenerateIdentity,
            Request::ReadHoldingAsset(address) => RequestView::ReadHoldingAsset(address@),
            Request::ReadAccount(address) => RequestView::ReadAccount(address@),
            Request::Submit(calls) => RequestView::Submit(calls@[0]@),
            Request::Abort(e) => RequestView::Abort(e),
        }
    }
}

/// The signers that a step introduces: a command that begins introduces
/// the caller, a lock that receives its fee asset's identity introduces
/// that identity, and no other step introduces any.
pub open spec fn spec_signers(state: CommandState, event: Event, wallet: Address) -> Seq<Address> {
    match (state, event) {
        (CommandState::Start { .. }, Event::Begin) => seq![wallet],
        (CommandState::LockNeedsFeeAsset { .. }, Event::FreshIdentity(fee_nft_mint)) => seq![
            fee_nft_mint,
        ],
        _ => Seq::empty(),
    }
}

/// Lists the signers that a step introduces.
fn introduced_signers(state: &CommandState, event: &Event, wallet: Address) -> (signers: Vec<
    Address,
>)
    ensures
        signers@ == spec_signers(*state, *event, wallet),
{
    let mut signers: Vec<Address> = Vec::new();
    match (state, event) {
        (CommandState::Start { .. }, Event::Begin) => {
            signers.push(wallet);
        },
        (CommandState::LockNeedsFeeAsset { .. }, Event::FreshIdentity(fee_nft_mint)) => {
            signers.push(*fee_nft_mint);
        },
        _ => {},
    }
    assert(signers@ =~= spec_signers(*state, *event, wallet));
    signers
}

/// The end of a command: the call if there is one, else the reason.
pub open spec fn finish(built: Result<CallDescriptor, DerivationError>) -> (
    CommandState,
    RequestView,
) {
    match built {
        Ok(call) => (CommandState::Done, RequestView::Submit(call)),
        Err(e) => (CommandState::Done, RequestView::Abort(CommandError::Derivation(e))),
    }
}

/// The end of a command for a reason.
pub open spec fn abort(e: CommandError) -> (CommandState, RequestView) {
    (CommandState::Done, RequestView::Abort(e))
}

/// What a collection does once the lock record's bytes are there: the
/// record must decode and belong to the fee asset; its pool is read next.
pub open spec fn spec_after_record(
    fee_nft_account: Address,
    fee_nft_mint: Address,
    data: Seq<u8>,
) -> (CommandState, RequestView) {
    match LockedCpLiquidityState::spec_decode(data) {
        Err(e) => abort(CommandError::Decode(e)),
        Ok(fields) => if fields.fee_nft_mint != fee_nft_mint@ {
            abort(CommandError::FeeAssetMismatch)
        } else {
            (
                CommandState::CollectNeedsPool {
                    fee_nft_account,
                    fee_nft_mint,
                    pool_id: address_of(fields.pool_id),
                },
                RequestView::ReadPool(fields.pool_id),
            )
        },
    }
}

/// What a collection does once its pool's accounts are there: the caller's
/// holdings of the two pooled assets are derived, each under the program
/// that keeps that asset, and everything owed is claimed.
pub open spec fn spec_after_collect_pool(
    config: LockConfig,
    wallet: Address,
    fee_nft_account: Address,
    fee_nft_mint: Address,
    pool_id: Address,
    pool: PoolAccounts,
) -> (CommandState, RequestView) {
    match spec_holding_address(
        wallet@,
        pool.token_0_mint@,
        pool.token_0_program@,
        config.associated_token_program@,
    ) {
        Err(e) => abort(CommandError::Derivation(e)),
        Ok(user_token_0) => match spec_holding_address(
            wallet@,
            pool.token_1_mint@,
            pool.token_1_program@,
            config.associated_token_program@,
        ) {
            Err(e) => abort(CommandError::Derivation(e)),
            Ok(user_token_1) => finish(
                spec_collect_cp_fees(
                    config,
                    wallet@,
                    fee_nft_mint@,
                    fee_nft_account@,
                    pool_id@,
                    pool.lp_mint@,
                    pool.token_0_vault@,
                    pool.token_1_vault@,
                    pool.token_0_mint@,
                    pool.token_1_mint@,
                    user_token_0,
                    user_token_1,
                    u64::MAX,
                ),
            ),
        },
    }
}

/// The next state of a command and the request that goes with it.
pub open spec fn spec_process(
    state: CommandState,
    event: Event,
    config: LockConfig,
    wallet: Address,
) -> (CommandState, RequestView) {
    match (state, event) {
        (
            CommandState::Start {
                command: LockCommands::LockCpLiquidity {
                    pool_id,
                    lp_token_account,
                    lp_amount,
                    with_metadata,
                },
            },
            Event::Begin,
        ) => (
            CommandState::LockNeedsPool { pool_id, lp_token_account, lp_amount, with_metadata },
            RequestView::ReadPool(pool_id@),
        ),
        (
            CommandState::Start { command: LockCommands::CollectCpFee { fee_nft_account } },
            Event::Begin,
        ) => (
            CommandState::CollectNeedsFeeAsset { fee_nft_account },
            RequestView::ReadHoldingAsset(fee_nft_account@),
        ),
        (
            CommandState::LockNeedsPool { pool_id, lp_token_account, lp_amount, with_metadata },
            Event::Pool(pool),
        ) => (
            CommandState::LockNeedsFeeAsset {
                pool_id,
                lp_token_account,
                lp_amount,
                with_metadata,
                pool,
            },
            RequestView::GenerateIdentity,
        ),
        (
            CommandState::LockNeedsFeeAsset {
                pool_id,
                lp_token_account,
                lp_amount,
                with_metadata,
                pool,
            },
            Event::FreshIdentity(fee_nft_mint),
        ) => finish(
            spec_lock_cp_liquidity(
                config,
                wallet@,
                lp_token_account@,
                fee_nft_mint@,
                pool_id@,
                pool.lp_mint@,
                pool.token_0_vault@,
                pool.token_1_vault@,
                lp_amount,
                with_metadata,
            ),
        ),
        (
            CommandState::CollectNeedsFeeAsset { fee_nft_account },
            Event::HoldingAsset(fee_nft_mint),
        ) => match spec_locked_liquidity(config, fee_nft_mint@) {
            Err(e) => abort(CommandError::Derivation(e)),
            Ok(record) => (
                CommandState::CollectNeedsRecord { fee_nft_account, fee_nft_mint },
                RequestView::ReadAccount(record),
            ),
        },
        (
            CommandState::CollectNeedsRecord { fee_nft_account, fee_nft_mint },
            Event::AccountData(data),
        ) => spec_after_record(fee_nft_account, fee_nft_mint, data@),
        (
            CommandState::CollectNeedsPool { fee_nft_account, fee_nft_mint, pool_id },
            Event::Pool(pool),
        ) => spec_after_collect_pool(config, wallet, fee_nft_account, fee_nft_mint, pool_id, pool),
        _ => abort(CommandError::UnexpectedEvent),
    }
}

/// How many facts a command may still wait for.
pub open spec fn steps_left(state: CommandState) -> nat {
    match state {
        CommandState::Start { .. } => 4,
        CommandState::CollectNeedsFeeAsset { .. } => 3,
        CommandState::LockNeedsPool { .. } => 2,
        CommandState::CollectNeedsRecord { .. } => 2,
        CommandState::LockNeedsFeeAsset { .. } => 1,
        CommandState::CollectNeedsPool { .. } => 1,
        CommandState::Done => 0,
    }
}

/// Whether a request ends the command.
pub open spec fn is_final(request: RequestView) -> bool {
    request is Submit || request is Abort
}

/// Every command ends: whatever arrives, a step brings a command that has
/// not ended closer to its end, so that no command takes more than four
/// steps; a command has ended exactly when the request is a call to submit
/// or a reason to give up; and a command that has ended stays so.
pub proof fn lemma_every_command_ends(
    state: CommandState,
    event: Event,
    config: LockConfig,
    wallet: Address,
)
    ensures
        !(state is Done) ==> steps_left(spec_process(state, event, config, wallet).0) < steps_left(
            state,
        ),
        state is Done ==> spec_process(state, event, config, wallet) == abort(
            CommandError::UnexpectedEvent,
        ),
        spec_process(state, event, config, wallet).0 is Done <==> is_final(
            spec_process(state, event, config, wallet).1,
        ),
{
}

/// The signers that a lock introduces are the ones whose entries carry the
/// signer flag in the call that it submits: the caller, introduced when the
/// command begins, and the fee asset, introduced when its identity arrives.
pub proof fn lemma_lock_signers_are_flagged(
    state: CommandState,
    fee_nft_mint: Address,
    config: LockConfig,
    wallet: Address,
)
    requires
        state is LockNeedsFeeAsset,
    ensures
        spec_signers(state, Event::FreshIdentity(fee_nft_mint), wallet) == seq![fee_nft_mint],
        spec_process(state, Event::FreshIdentity(fee_nft_mint), config, wallet).1 matches RequestView::Submit(
            call,
        ) ==> signed_by(call, wallet@, fee_nft_mint@) && call.accounts.len() == 18,
{
    match state {
        CommandState::LockNeedsFeeAsset {
            pool_id,
            lp_token_account,
            lp_amount,
            with_metadata,
            pool,
        } => {
            lemma_lock_cp_liquidity_shape(
                config,
                wallet@,
                lp_token_account@,
                fee_nft_mint@,
                pool_id@,
                pool.lp_mint@,
                pool.token_0_vault@,
                pool.token_1_vault@,
                lp_amount,
                with_metadata,
            );
        },
        _ => {},
    }
}

/// Ends a command with the call that was built, or with the reason why
/// none was.
fn finish_with(built: Result<Vec<Instruction>, DerivationError>) -> (next: (CommandState, Request))
    requires
        built is Ok ==> built->Ok_0@.len() == 1,
    ensures
        (next.0, next.1@) == finish(crate::lock_instructions::built(built)),
        next.1 matches Request::Submit(calls) ==> calls@.len() == 1,
{
    match built {
        Ok(calls) => (CommandState::Done, Request::Submit(calls)),
        Err(e) => (CommandState::Done, Request::Abort(CommandError::Derivation(e))),
    }
}

/// Decides the next state of a command and the request that goes with it.
fn decide(state: CommandState, event: Event, config: &LockConfig, wallet: Address) -> (next: (
    CommandState,
    Request,
))
    ensures
        (next.0, next.1@) == spec_process(state, event, *config, wallet),
        next.1 matches Request::Submit(calls) ==> calls@.len() == 1,
{
    match (state, event) {
        (
            CommandState::Start {
                command: LockCommands::LockCpLiquidity {
                    pool_id,
                    lp_token_account,
                    lp_amount,
                    with_metadata,
                },
            },
            Event::Begin,
        ) => {
            (
                CommandState::LockNeedsPool { pool_id, lp_token_account, lp_amount, with_metadata },
                Request::ReadPool(pool_id),
            )
        },
        (
            CommandState::Start { command: LockCommands::CollectCpFee { fee_nft_account } },
            Event::Begin,
        ) => {
            (
                CommandState::CollectNeedsFeeAsset { fee_nft_account },
                Request::ReadHoldingAsset(fee_nft_account),
            )
        },
        (
            CommandState::LockNeedsPool { pool_id, lp_token_account, lp_amount, with_metadata },
            Event::Pool(pool),
        ) => (
            CommandState::LockNeedsFeeAsset {
                pool_id,
                lp_token_account,
                lp_amount,
                with_metadata,
                pool,
            },
            Request::GenerateIdentity,
        ),
        (
            CommandState::LockNeedsFeeAsset {
                pool_id,
                lp_token_account,
                lp_amount,
                with_metadata,
                pool,
            },
            Event::FreshIdentity(fee_nft_mint),
        ) => {
            finish_with(
                lock_cp_liquidity_instruction(
                    config,
                    wallet,
                    lp_token_account,
                    fee_nft_mint,
                    pool_id,
                    pool.lp_mint,
                    pool.token_0_vault,
                    pool.token_1_vault,
                    lp_amount,
                    with_metadata,
                ),
            )
        },
        (
            CommandState::CollectNeedsFeeAsset { fee_nft_account },
            Event::HoldingAsset(fee_nft_mint),
        ) => {
            match crate::lock_instructions::locked_liquidity_address(config, &fee_nft_mint) {
                Err(e) => (CommandState::Done, Request::Abort(CommandError::Derivation(e))),
                Ok(record) => (
                    CommandState::CollectNeedsRecord { fee_nft_account, fee_nft_mint },
                    Request::ReadAccount(record),
                ),
            }
        },
        (
            CommandState::CollectNeedsRecord { fee_nft_account, fee_nft_mint },
            Event::AccountData(data),
        ) => {
            match LockedCpLiquidityState::deserialize_account(data.as_slice()) {
                Err(e) => (CommandState::Done, Request::Abort(CommandError::Decode(e))),
                Ok(record) => {
                    if record.fee_nft_mint != fee_nft_mint {
                        (CommandState::Done, Request::Abort(CommandError::FeeAssetMismatch))
                    } else {
                        proof {
                            lemma_address_of_bytes(record.pool_id);
                        }
                        (
                            CommandState::CollectNeedsPool {
                                fee_nft_account,
                                fee_nft_mint,
                                pool_id: record.pool_id,
                            },
                            Request::ReadPool(record.pool_id),
                        )
                    }
                },
            }
        },
        (
            CommandState::CollectNeedsPool { fee_nft_account, fee_nft_mint, pool_id },
            Event::Pool(pool),
        ) => {
            let user_token_0 = match derive_holding_address(
                &wallet,
                &pool.token_0_mint,
                &pool.token_0_program,
                &config.associated_token_program,
            ) {
                Ok(address) => address,
                Err(e) => {
                    return (CommandState::Done, Request::Abort(CommandError::Derivation(e)));
                },
            };
            let user_token_1 = match derive_holding_address(
                &wallet,
                &pool.token_1_mint,
                &pool.token_1_program,
                &config.associated_token_program,
            ) {
                Ok(address) => address,
                Err(e) => {
                    return (CommandState::Done, Request::Abort(CommandError::Derivation(e)));
                },
            };
            finish_with(
                collect_cp_fees_instruction(
                    config,
                    wallet,
                    fee_nft_mint,
                    fee_nft_account,
                    pool_id,
                    pool.lp_mint,
                    pool.token_0_vault,
                    pool.token_1_vault,
                    pool.token_0_mint,
                    pool.token_1_mint,
                    user_token_0,
                    user_token_1,
                    u64::MAX,
                ),
            )
        },
        _ => (CommandState::Done, Request::Abort(CommandError::UnexpectedEvent)),
    }
}

/// Takes a command one step further.
///
/// The step is decided by the state and the event alone: a command that
/// begins asks for its first fact; each fact that arrives in turn leads to
/// the next request, and the last one to the call or to the reason why
/// there is none. An event that the state did not wait for ends the command
/// with `UnexpectedEvent`.
///
/// Beside the next state and the request, the step returns the signers that
/// it introduces, for the caller to merge into its own list: the caller of
/// the command when it begins, a lock's fresh fee asset when its identity
/// arrives, and none at any other step. Nothing is written anywhere else.
pub fn process_lock_commands(
    state: CommandState,
    event: Event,
    config: &LockConfig,
    wallet: Address,
) -> (next: (CommandState, Request, Vec<Address>))
    ensures
        (next.0, next.1@) == spec_process(state, event, *config, wallet),
        next.1 matches Request::Submit(calls) ==> calls@.len() == 1,
        next.2@ == spec_signers(state, event, wallet),
{
    let signers = introduced_signers(&state, &event, wallet);
    let (after, request) = decide(state, event, config, wallet);
    (after, request, signers)
}

} // verus!
