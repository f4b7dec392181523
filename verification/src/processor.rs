//! The `Init` instruction as a sequence of decisions. Each call of `init` looks at the
//! accounts as they are now and at how the last request ended, and says what to do next.
//! The ledger discards every effect of an invocation that does not end in `Done`.

use vstd::prelude::*;
use vstd::pervasive::unreached;
use crate::account::{
    rent_exempt_minimum, rent_in_range, resolve, spec_resolve, AccountContext, AccountInfo,
    DST_MINT, DST_TOKEN, DST_WALLET, IN_TOKEN, OUT_TOKEN, PAYER, PAYER_TOKEN, RENT, SRC_MINT,
    STAMP, SYSTEM_PROGRAM, WALLET,
};
use crate::address::Address;
use crate::cpi::{Invocation, InvocationView};
use crate::error::{ProgramError, ProgramResult};
use crate::instruction::{decoded, CardInstruction, CardInstructionView, InitArgsView, InitCardArgs};
use crate::payment::{pay, spec_payment, Payment, PaymentView};
use crate::receipt::{base58_decoded, mark, register, spec_mark, spec_register};
use crate::state::FLAG_ACCOUNT_SIZE;
use crate::utils::{calls_view};

verus! {

/// The payments of an invocation, in the order in which they are made.
#[derive(Clone, Copy, Debug, PartialEq, Eq, Structural)]
pub enum Leg {
    /// The platform's fee, in the destination asset; made only if the arguments name one.
    PlatformFee,
    /// The referrer's fee, in the destination asset; made only if the arguments name one.
    ReferrerFee,
    /// The principal, in the destination asset.
    Principal,
    /// The network fee back to the payer, in the source asset.
    NetworkFee,
}

/// How far an invocation has come.
#[derive(Clone, Copy, Debug, PartialEq, Eq, Structural)]
pub enum Progress {
    /// Nothing has been requested yet.
    Resolving,
    /// The payment of this leg has been requested.
    Paying(Leg),
    /// The creation of the receipt's account has been requested.
    CreatingReceipt,
    /// The writing of the receipt's record has been requested.
    MarkingReceipt,
    /// The receipt is written: the invocation has done what it was asked to do.
    Done,
    /// The invocation has failed, for this reason.
    Aborted(ProgramError),
}

/// The stages of an invocation.
#[derive(Clone, Copy, Debug, PartialEq, Eq, Structural)]
pub enum Stage {
    Resolving,
    DistributingFees,
    PayingPrincipal,
    PayingNetworkFee,
    RegisteringReceipt,
    Done,
    Aborted,
}

impl Progress {
    /// The stage that the invocation is in.
    pub open spec fn spec_stage(self) -> Stage {
        match self {
            Progress::Resolving => Stage::Resolving,
            Progress::Paying(Leg::PlatformFee) => Stage::DistributingFees,
            Progress::Paying(Leg::ReferrerFee) => Stage::DistributingFees,
            Progress::Paying(Leg::Principal) => Stage::PayingPrincipal,
            Progress::Paying(Leg::NetworkFee) => Stage::PayingNetworkFee,
            Progress::CreatingReceipt => Stage::RegisteringReceipt,
            Progress::MarkingReceipt => Stage::RegisteringReceipt,
            Progress::Done => Stage::Done,
            Progress::Aborted(_) => Stage::Aborted,
        }
    }

    /// The stage that the invocation is in.
    pub fn stage(&self) -> (stage: Stage)
        ensures
            stage == self.spec_stage(),
    {
        match self {
            Progress::Resolving => Stage::Resolving,
            Progress::Paying(Leg::PlatformFee) => Stage::DistributingFees,
            Progress::Paying(Leg::ReferrerFee) => Stage::DistributingFees,
            Progress::Paying(Leg::Principal) => Stage::PayingPrincipal,
            Progress::Paying(Leg::NetworkFee) => Stage::PayingNetworkFee,
            Progress::CreatingReceipt => Stage::RegisteringReceipt,
            Progress::MarkingReceipt => Stage::RegisteringReceipt,
            Progress::Done => Stage::Done,
            Progress::Aborted(_) => Stage::Aborted,
        }
    }

    /// Whether the invocation has ended.
    pub open spec fn spec_is_final(self) -> bool {
        self is Done || self is Aborted
    }

    /// Whether the invocation has ended.
    pub fn is_final(&self) -> (ended: bool)
        ensures
            ended == self.spec_is_final(),
    {
        match self {
            Progress::Done => true,
            Progress::Aborted(_) => true,
            _ => false,
        }
    }
}

/// What the driver of an invocation is to do next.
#[derive(Debug, PartialEq, Eq)]
pub enum Action {
    /// Perform the requests of this payment, in order, and report the first failure.
    Pay { leg: Leg, payment: Payment },
    /// Perform the requests that create the receipt's account, in order, and report the
    /// first failure.
    CreateReceipt { calls: Vec<Invocation> },
    /// Store these bytes as the data of the account at this address.
    StoreReceipt { account: Address, data: Vec<u8> },
    /// Stop: the invocation has ended with this result.
    Finish(ProgramResult),
}

/// What an `Action` stands for.
pub enum ActionView {
    Pay { leg: Leg, payment: PaymentView },
    CreateReceipt { calls: Seq<InvocationView> },
    StoreReceipt { account: Seq<u8>, data: Seq<u8> },
    Finish(ProgramResult),
}

impl View for Action {
    type V = ActionView;

    open spec fn view(&self) -> ActionView {
        match *self {
            Action::Pay { leg, payment } => ActionView::Pay { leg, payment: payment@ },
            Action::CreateReceipt { calls } => ActionView::CreateReceipt {
                calls: calls_view(calls@),
            },
            Action::StoreReceipt { account, data } => ActionView::StoreReceipt {
                account: account@,
                data: data@,
            },
            Action::Finish(result) => ActionView::Finish(result),
        }
    }
}

/// The amount of a leg, if the leg is due: the fees only when the arguments name them.
pub open spec fn leg_amount(args: InitArgsView, leg: Leg) -> Option<u64> {
    match leg {
        Leg::PlatformFee => args.platform_fee,
        Leg::ReferrerFee => args.referrer_fee,
        Leg::Principal => Some(args.amount),
        Leg::NetworkFee => Some(args.network_fee),
    }
}

/// The leg that follows `leg` in the order of payment.
pub open spec fn successor(leg: Leg) -> Option<Leg> {
    match leg {
        Leg::PlatformFee => Some(Leg::ReferrerFee),
        Leg::ReferrerFee => Some(Leg::Principal),
        Leg::Principal => Some(Leg::NetworkFee),
        Leg::NetworkFee => None,
    }
}

/// The first leg that is due, starting from `leg`.
pub open spec fn first_due(args: InitArgsView, leg: Leg) -> Leg {
    match leg {
        Leg::PlatformFee => if args.platform_fee is Some {
            Leg::PlatformFee
        } else if args.referrer_fee is Some {
            Leg::ReferrerFee
        } else {
            Leg::Principal
        },
        Leg::ReferrerFee => if args.referrer_fee is Some {
            Leg::ReferrerFee
        } else {
            Leg::Principal
        },
        Leg::Principal => Leg::Principal,
        Leg::NetworkFee => Leg::NetworkFee,
    }
}

/// The leg to pay after `done`, or first of all; `None` when every leg has been paid.
pub open spec fn next_leg(args: InitArgsView, done: Option<Leg>) -> Option<Leg> {
    match done {
        None => Some(first_due(args, Leg::PlatformFee)),
        Some(leg) => match successor(leg) {
            None => None,
            Some(next) => Some(first_due(args, next)),
        },
    }
}

/// The payment of one leg that is due, on a list of accounts of the shape `ctx`. The fees
/// and the principal are paid in the destination asset, out of the wallet's outbound
/// holding account; the network fee is paid to the payer in the source asset, out of the
/// wallet's inbound holding account.
pub open spec fn leg_payment(
    accounts: Seq<AccountInfo>,
    ctx: AccountContext,
    args: InitArgsView,
    leg: Leg,
) -> Result<PaymentView, ProgramError> {
    match leg {
        Leg::PlatformFee => spec_payment(
            accounts[DST_MINT as int],
            accounts[WALLET as int],
            accounts[OUT_TOKEN as int],
            accounts[ctx.platform->Some_0.wallet as int],
            accounts[ctx.platform->Some_0.token as int],
            accounts[PAYER as int],
            accounts[RENT as int],
            args.platform_fee->Some_0,
        ),
        Leg::ReferrerFee => spec_payment(
            accounts[DST_MINT as int],
            accounts[WALLET as int],
            accounts[OUT_TOKEN as int],
            accounts[ctx.referrer->Some_0.wallet as int],
            accounts[ctx.referrer->Some_0.token as int],
            accounts[PAYER as int],
            accounts[RENT as int],
            args.referrer_fee->Some_0,
        ),
        Leg::Principal => spec_payment(
            accounts[DST_MINT as int],
            accounts[WALLET as int],
            accounts[OUT_TOKEN as int],
            accounts[DST_WALLET as int],
            accounts[DST_TOKEN as int],
            accounts[PAYER as int],
            accounts[RENT as int],
            args.amount,
        ),
        Leg::NetworkFee => spec_payment(
            accounts[SRC_MINT as int],
            accounts[WALLET as int],
            accounts[IN_TOKEN as int],
            accounts[PAYER as int],
            accounts[PAYER_TOKEN as int],
            accounts[PAYER as int],
            accounts[RENT as int],
            args.network_fee,
        ),
    }
}

/// What `pay_leg` returns: the failure to find the accounts, nothing for a leg that is not
/// due, or what planning the leg's payment gives.
pub open spec fn spec_pay_leg(accounts: Seq<AccountInfo>, args: InitArgsView, leg: Leg) -> Result<
    Option<PaymentView>,
    ProgramError,
> {
    match spec_resolve(accounts.len(), args.platform_fee is Some, args.referrer_fee is Some) {
        Err(e) => Err(e),
        Ok(ctx) => if leg_amount(args, leg) is None {
            Ok(None)
        } else {
            match leg_payment(accounts, ctx, args, leg) {
                Err(e) => Err(e),
                Ok(payment) => Ok(Some(payment)),
            }
        },
    }
}

/// The view of what `pay_leg` returns.
pub open spec fn pay_leg_view(r: Result<Option<Payment>, ProgramError>) -> Result<
    Option<PaymentView>,
    ProgramError,
> {
    match r {
        Ok(Some(payment)) => Ok(Some(payment@)),
        Ok(None) => Ok(None),
        Err(e) => Err(e),
    }
}

/// Plans the payment of one leg on the accounts as they are now, if the leg is due.
pub fn pay_leg(accounts: &[AccountInfo], args: &InitCardArgs, leg: Leg) -> (r: Result<
    Option<Payment>,
    ProgramError,
>)
    ensures
        pay_leg_view(r) == spec_pay_leg(accounts@, args@, leg),
{
    let ctx = match resolve(accounts, args) {
        Err(e) => {
            return Err(e);
        },
        Ok(ctx) => ctx,
    };
    let planned = match leg {
        Leg::PlatformFee => {
            let (fee, slots) = match (args.platform_fee, ctx.platform) {
                (Some(fee), Some(slots)) => (fee, slots),
                _ => {
                    return Ok(None);
                },
            };
            pay(
                &accounts[DST_MINT],
                &accounts[WALLET],
                &accounts[OUT_TOKEN],
                &accounts[slots.wallet],
                &accounts[slots.token],
                &accounts[PAYER],
                &accounts[RENT],
                fee,
            )
        },
        Leg::ReferrerFee => {
            let (fee, slots) = match (args.referrer_fee, ctx.referrer) {
                (Some(fee), Some(slots)) => (fee, slots),
                _ => {
                    return Ok(None);
                },
            };
            pay(
                &accounts[DST_MINT],
                &accounts[WALLET],
                &accounts[OUT_TOKEN],
                &accounts[slots.wallet],
                &accounts[slots.token],
                &accounts[PAYER],
                &accounts[RENT],
                fee,
            )
        },
        Leg::Principal => pay(
            &accounts[DST_MINT],
            &accounts[WALLET],
            &accounts[OUT_TOKEN],
            &accounts[DST_WALLET],
            &accounts[DST_TOKEN],
            &accounts[PAYER],
            &accounts[RENT],
            args.amount,
        ),
        Leg::NetworkFee => pay(
            &accounts[SRC_MINT],
            &accounts[WALLET],
            &accounts[IN_TOKEN],
            &accounts[PAYER],
            &accounts[PAYER_TOKEN],
            &accounts[PAYER],
            &accounts[RENT],
            args.network_fee,
        ),
    };
    match planned {
        Err(e) => Err(e),
        Ok(payment) => Ok(Some(payment)),
    }
}

/// The end of an invocation that fails for the reason `e`.
pub open spec fn abort(e: ProgramError) -> (Progress, ActionView) {
    (Progress::Aborted(e), ActionView::Finish(Err(e)))
}

/// What registering the receipt asks for on the accounts as they are now.
pub open spec fn registration(program_id: Seq<u8>, accounts: Seq<AccountInfo>, args: InitArgsView) -> Result<
    Seq<InvocationView>,
    ProgramError,
> {
    spec_register(
        program_id,
        accounts[STAMP as int],
        accounts[PAYER as int].key@,
        accounts[SYSTEM_PROGRAM as int].key@,
        args.bump,
        base58_decoded(args.reference),
        rent_exempt_minimum(
            accounts[RENT as int].key@,
            accounts[RENT as int].data@,
            FLAG_ACCOUNT_SIZE,
        ),
    )
}

/// The step that follows the payment of `done`: the payment of the next leg that is due, or
/// the creation of the receipt when every leg has been paid.
pub open spec fn proceed(
    program_id: Seq<u8>,
    accounts: Seq<AccountInfo>,
    ctx: AccountContext,
    args: InitArgsView,
    done: Option<Leg>,
) -> (Progress, ActionView) {
    match next_leg(args, done) {
        Some(leg) => match leg_payment(accounts, ctx, args, leg) {
            Err(e) => abort(e),
            Ok(payment) => (Progress::Paying(leg), ActionView::Pay { leg, payment }),
        },
        None => match registration(program_id, accounts, args) {
            Err(e) => abort(e),
            Ok(calls) => (Progress::CreatingReceipt, ActionView::CreateReceipt { calls }),
        },
    }
}

/// One step of `Init`: from how far the invocation has come, the accounts as they are now
/// and how the last request ended, to how far it has come then and what to do next.
///
/// An invocation that has ended stays as it is. A request that failed ends the invocation
/// with that failure, and so does an account list that is too short for the arguments.
/// Otherwise the payments that are due follow each other, then the receipt is created, then
/// it is marked, and then the invocation is done.
pub open spec fn spec_init(
    program_id: Seq<u8>,
    accounts: Seq<AccountInfo>,
    args: InitArgsView,
    progress: Progress,
    outcome: ProgramResult,
) -> (Progress, ActionView) {
    match progress {
        Progress::Done => (Progress::Done, ActionView::Finish(Ok(()))),
        Progress::Aborted(e) => abort(e),
        _ => match outcome {
            Err(e) => abort(e),
            Ok(()) => match spec_resolve(
                accounts.len(),
                args.platform_fee is Some,
                args.referrer_fee is Some,
            ) {
                Err(e) => abort(e),
                Ok(ctx) => match progress {
                    Progress::Resolving => proceed(program_id, accounts, ctx, args, None),
                    Progress::Paying(leg) => proceed(program_id, accounts, ctx, args, Some(leg)),
                    Progress::CreatingReceipt => match spec_mark(accounts[STAMP as int].data@) {
                        Err(e) => abort(e),
                        Ok(data) => (
                            Progress::MarkingReceipt,
                            ActionView::StoreReceipt { account: accounts[STAMP as int].key@, data },
                        ),
                    },
                    _ => (Progress::Done, ActionView::Finish(Ok(()))),
                },
            },
        },
    }
}

/// The view of a step's result.
pub open spec fn step_view(step: (Progress, Action)) -> (Progress, ActionView) {
    (step.0, step.1@)
}

/// The rent parameters among the accounts, if they are there, price the receipt within
/// sixty-four bits.
pub open spec fn rent_priced(accounts: Seq<AccountInfo>) -> bool {
    accounts.len() > RENT ==> rent_in_range(accounts[RENT as int].data@, FLAG_ACCOUNT_SIZE)
}

fn fail(e: ProgramError) -> (step: (Progress, Action))
    ensures
        step_view(step) == abort(e),
{
    (Progress::Aborted(e), Action::Finish(Err(e)))
}

fn go_on(program_id: &Address, accounts: &[AccountInfo], args: &InitCardArgs, done: Option<Leg>) -> (step: (
    Progress,
    Action,
))
    requires
        rent_priced(accounts@),
        spec_resolve(accounts@.len(), args.platform_fee is Some, args.referrer_fee is Some) is Ok,
    ensures
        step_view(step) == proceed(
            program_id@,
            accounts@,
            spec_resolve(accounts@.len(), args.platform_fee is Some, args.referrer_fee is Some)->Ok_0,
            args@,
            done,
        ),
{
    let mut leg = match done {
        None => Some(Leg::PlatformFee),
        Some(Leg::PlatformFee) => Some(Leg::ReferrerFee),
        Some(Leg::ReferrerFee) => Some(Leg::Principal),
        Some(Leg::Principal) => Some(Leg::NetworkFee),
        Some(Leg::NetworkFee) => None,
    };
    if leg == Some(Leg::PlatformFee) && args.platform_fee.is_none() {
        leg = Some(Leg::ReferrerFee);
    }
    if leg == Some(Leg::ReferrerFee) && args.referrer_fee.is_none() {
        leg = Some(Leg::Principal);
    }
    assert(leg == next_leg(args@, done));
    match leg {
        Some(leg) => match pay_leg(accounts, args, leg) {
            Err(e) => fail(e),
            Ok(None) => unreached(),
            Ok(Some(payment)) => (Progress::Paying(leg), Action::Pay { leg, payment }),
        },
        None => match register(
            program_id,
            &accounts[STAMP],
            &accounts[RENT],
            &accounts[PAYER],
            &accounts[SYSTEM_PROGRAM],
            args.reference.as_str(),
            args.bump,
        ) {
            Err(e) => fail(e),
            Ok(calls) => (Progress::CreatingReceipt, Action::CreateReceipt { calls }),
        },
    }
}

/// Processes `Init`, one step at a time. The driver starts with `Progress::Resolving`, does
/// what the returned action says, and calls again with the accounts as they are then and
/// the outcome of what it did, until the action is `Finish`.
///
/// The rent parameters must price the receipt within sixty-four bits.
pub fn init(
    program_id: &Address,
    accounts: &[AccountInfo],
    args: &InitCardArgs,
    progress: Progress,
    outcome: ProgramResult,
) -> (step: (Progress, Action))
    requires
        rent_priced(accounts@),
    ensures
        step_view(step) == spec_init(program_id@, accounts@, args@, progress, outcome),
{
    match progress {
        Progress::Done => {
            return (Progress::Done, Action::Finish(Ok(())));
        },
        Progress::Aborted(e) => {
            return fail(e);
        },
        _ => {},
    }
    match outcome {
        Err(e) => {
            return fail(e);
        },
        Ok(()) => {},
    }
    match resolve(accounts, args) {
        Err(e) => {
            return fail(e);
        },
        Ok(_) => {},
    }
    match progress {
        Progress::Resolving => go_on(program_id, accounts, args, None),
        Progress::Paying(leg) => go_on(program_id, accounts, args, Some(leg)),
        Progress::CreatingReceipt => match mark(&accounts[STAMP]) {
            Err(e) => fail(e),
            Ok(data) => (
                Progress::MarkingReceipt,
                Action::StoreReceipt { account: accounts[STAMP].key, data },
            ),
        },
        _ => (Progress::Done, Action::Finish(Ok(()))),
    }
}

/// What one step of the program does on an instruction's bytes: bytes that encode no
/// instruction end the invocation with `DecodeFailure`; those of `Init` make the step of
/// `Init`.
pub open spec fn spec_process(
    program_id: Seq<u8>,
    accounts: Seq<AccountInfo>,
    instruction_data: Seq<u8>,
    progress: Progress,
    outcome: ProgramResult,
) -> (Progress, ActionView) {
    match decoded(instruction_data) {
        None => abort(ProgramError::DecodeFailure),
        Some(CardInstructionView::Init(args)) => spec_init(
            program_id,
            accounts,
            args,
            progress,
            outcome,
        ),
    }
}

/// The program's entry: it decodes the instruction and makes its next step.
pub struct Processor;

impl Processor {
    /// Decodes the instruction and makes one step of it; see `init`.
    pub fn process(
        program_id: &Address,
        accounts: &[AccountInfo],
        instruction_data: &[u8],
        progress: Progress,
        outcome: ProgramResult,
    ) -> (step: (Progress, Action))
        requires
            rent_priced(accounts@),
        ensures
            step_view(step) == spec_process(program_id@, accounts@, instruction_data@, progress, outcome),
    {
        let instruction = match CardInstruction::try_from_slice(instruction_data) {
            Err(e) => {
                return fail(e);
            },
            Ok(instruction) => instruction,
        };
        match instruction {
            CardInstruction::Init(args) => init(program_id, accounts, &args, progress, outcome),
        }
    }
}

} // verus!
