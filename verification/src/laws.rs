//! What holds of every invocation, whatever the accounts hold and however the requests end.

use vstd::prelude::*;
use crate::account::{spec_resolve, AccountInfo, STAMP};
use crate::address::{native_mint_bytes, token_program_bytes};
use crate::error::{ProgramError, ProgramResult};
use crate::instruction::InitArgsView;
use crate::payment::{spec_ensure, spec_payment};
use crate::processor::{
    abort, leg_amount, leg_payment, spec_init, ActionView, Leg, Progress,
};
use crate::receipt::{base58_decoded, receipt_used, spec_mark};
use crate::state::{packed, Stamp};
use crate::token::{token_account_record, TokenAccountView};

verus! {

/// What the driver reports with one call of `init`: the accounts as they are at that moment
/// and how the last request ended.
pub struct Event {
    pub accounts: Seq<AccountInfo>,
    pub outcome: ProgramResult,
}

/// An invocation that starts at `Resolving` and is driven through `events`: how far it has
/// come, and the actions it has asked for, in order.
pub open spec fn run(program_id: Seq<u8>, args: InitArgsView, events: Seq<Event>) -> (
    Progress,
    Seq<ActionView>,
)
    decreases events.len(),
{
    if events.len() == 0 {
        (Progress::Resolving, Seq::empty())
    } else {
        let before = run(program_id, args, events.drop_last());
        let step = spec_init(
            program_id,
            events.last().accounts,
            args,
            before.0,
            events.last().outcome,
        );
        (step.0, before.1.push(step.1))
    }
}

/// The actions whose effects the ledger keeps: all of them if the invocation is done, and
/// none otherwise.
pub open spec fn committed(outcome: (Progress, Seq<ActionView>)) -> Seq<ActionView> {
    if outcome.0 is Done {
        outcome.1
    } else {
        Seq::empty()
    }
}

/// What an action takes out of the wallet for the leg `leg`.
pub open spec fn withdrawal(action: ActionView, leg: Leg) -> int {
    match action {
        ActionView::Pay { leg: paid, payment } => if paid == leg {
            payment.amount as int
        } else {
            0
        },
        _ => 0,
    }
}

/// What the actions take out of the wallet for the leg `leg`, in all.
pub open spec fn paid(actions: Seq<ActionView>, leg: Leg) -> int
    decreases actions.len(),
{
    if actions.len() == 0 {
        0
    } else {
        paid(actions.drop_last(), leg) + withdrawal(actions.last(), leg)
    }
}

/// The amount of a leg; zero for a fee that the arguments do not name.
pub open spec fn due(args: InitArgsView, leg: Leg) -> int {
    match leg_amount(args, leg) {
        Some(amount) => amount as int,
        None => 0,
    }
}

/// The place of a leg in the order of payment.
pub open spec fn rank(leg: Leg) -> int {
    match leg {
        Leg::PlatformFee => 0,
        Leg::ReferrerFee => 1,
        Leg::Principal => 2,
        Leg::NetworkFee => 3,
    }
}

/// Whether an invocation that has come as far as `progress` has asked for the payment of
/// `leg`, if that leg is due.
pub open spec fn reached(progress: Progress, leg: Leg) -> bool {
    match progress {
        Progress::Resolving => false,
        Progress::Paying(current) => rank(leg) <= rank(current),
        Progress::CreatingReceipt => true,
        Progress::MarkingReceipt => true,
        Progress::Done => true,
        Progress::Aborted(_) => false,
    }
}

/// What an invocation that has come as far as `progress` has taken out of the wallet for
/// `leg`.
pub open spec fn settled(progress: Progress, args: InitArgsView, leg: Leg) -> int {
    if reached(progress, leg) {
        due(args, leg)
    } else {
        0
    }
}

/// The asset in which a leg is paid: the source asset for the network fee, the destination
/// asset for the others.
pub open spec fn governing_asset(accounts: Seq<AccountInfo>, leg: Leg) -> AccountInfo {
    match leg {
        Leg::NetworkFee => accounts[crate::account::SRC_MINT as int],
        _ => accounts[crate::account::DST_MINT as int],
    }
}

/// A planned payment moves exactly the amount asked for, and moves native value if and only
/// if its asset is the wrapped native asset.
pub proof fn lemma_path_selection(
    asset: AccountInfo,
    wallet: AccountInfo,
    source_holding: AccountInfo,
    recipient: AccountInfo,
    recipient_holding: AccountInfo,
    payer: AccountInfo,
    rent: AccountInfo,
    amount: u64,
)
    ensures
        spec_payment(asset, wallet, source_holding, recipient, recipient_holding, payer, rent, amount) matches Ok(payment) ==> {
            &&& payment.amount == amount
            &&& payment.native <==> asset.key@ == native_mint_bytes()
        },
{
}

/// The payment of any leg takes the native path if and only if the leg's governing asset is
/// the wrapped native asset, and it moves the leg's amount.
pub proof fn lemma_leg_path(accounts: Seq<AccountInfo>, args: InitArgsView, leg: Leg)
    requires
        spec_resolve(accounts.len(), args.platform_fee is Some, args.referrer_fee is Some) is Ok,
        leg_amount(args, leg) is Some,
    ensures
        leg_payment(
            accounts,
            spec_resolve(accounts.len(), args.platform_fee is Some, args.referrer_fee is Some)->Ok_0,
            args,
            leg,
        ) matches Ok(payment) ==> {
            &&& payment.amount == due(args, leg)
            &&& payment.native <==> governing_asset(accounts, leg).key@ == native_mint_bytes()
        },
{
}

/// A holding account that exists already, is initialized, belongs to the wallet and is owned
/// by the token service is left alone: nothing is created and nothing fails, however often
/// the provisioner is asked. One that belongs to another wallet fails with `IllegalOwner`.
pub proof fn lemma_provisioning(
    wallet: AccountInfo,
    asset: AccountInfo,
    candidate: AccountInfo,
    payer: AccountInfo,
    rent: AccountInfo,
    record: TokenAccountView,
)
    requires
        candidate.lamports > 0,
        token_account_record(candidate.data@) == Ok::<TokenAccountView, u64>(record),
        record.is_initialized,
    ensures
        record.owner == wallet.key@ && candidate.owner@ == token_program_bytes() ==> spec_ensure(
            wallet,
            asset,
            candidate,
            payer,
            rent,
        ) == Ok::<Option<crate::cpi::InvocationView>, ProgramError>(None),
        record.owner != wallet.key@ ==> spec_ensure(wallet, asset, candidate, payer, rent) == Err::<
            Option<crate::cpi::InvocationView>,
            ProgramError,
        >(ProgramError::IllegalOwner),
{
}

/// One step adds to what has left the wallet for a leg exactly what the step's action
/// takes out for it, unless the invocation fails.
pub proof fn lemma_step_settles(
    program_id: Seq<u8>,
    accounts: Seq<AccountInfo>,
    args: InitArgsView,
    progress: Progress,
    outcome: ProgramResult,
    leg: Leg,
)
    requires
        !(progress is Aborted),
    ensures
        ({
            let step = spec_init(program_id, accounts, args, progress, outcome);
            !(step.0 is Aborted) ==> settled(step.0, args, leg) == settled(progress, args, leg)
                + withdrawal(step.1, leg)
        }),
{
}

/// As long as an invocation has not failed, what it has taken out of the wallet for each
/// leg is the leg's amount if the leg has been reached, and nothing otherwise.
pub proof fn lemma_paid_so_far(program_id: Seq<u8>, args: InitArgsView, events: Seq<Event>, leg: Leg)
    ensures
        ({
            let outcome = run(program_id, args, events);
            !(outcome.0 is Aborted) ==> paid(outcome.1, leg) == settled(outcome.0, args, leg)
        }),
    decreases events.len(),
{
    if events.len() > 0 {
        let before = run(program_id, args, events.drop_last());
        lemma_paid_so_far(program_id, args, events.drop_last(), leg);
        let step = spec_init(
            program_id,
            events.last().accounts,
            args,
            before.0,
            events.last().outcome,
        );
        if !(before.0 is Aborted) {
            lemma_step_settles(
                program_id,
                events.last().accounts,
                args,
                before.0,
                events.last().outcome,
                leg,
            );
        }
        assert(before.1.push(step.1).drop_last() == before.1);
    }
}

/// Conservation: an invocation that is done has taken out of the wallet the platform fee
/// and the referrer fee, where the arguments name them, the principal and the network fee,
/// each once; in all, their sum.
pub proof fn lemma_conservation(program_id: Seq<u8>, args: InitArgsView, events: Seq<Event>)
    requires
        run(program_id, args, events).0 is Done,
    ensures
        ({
            let actions = run(program_id, args, events).1;
            &&& paid(actions, Leg::PlatformFee) == due(args, Leg::PlatformFee)
            &&& paid(actions, Leg::ReferrerFee) == due(args, Leg::ReferrerFee)
            &&& paid(actions, Leg::Principal) == args.amount
            &&& paid(actions, Leg::NetworkFee) == args.network_fee
            &&& paid(actions, Leg::PlatformFee) + paid(actions, Leg::ReferrerFee) + paid(
                actions,
                Leg::Principal,
            ) + paid(actions, Leg::NetworkFee) == args.amount + args.network_fee + due(
                args,
                Leg::PlatformFee,
            ) + due(args, Leg::ReferrerFee)
        }),
{
    lemma_paid_so_far(program_id, args, events, Leg::PlatformFee);
    lemma_paid_so_far(program_id, args, events, Leg::ReferrerFee);
    lemma_paid_so_far(program_id, args, events, Leg::Principal);
    lemma_paid_so_far(program_id, args, events, Leg::NetworkFee);
}

/// Whether the invocation has not gone past its payments.
pub open spec fn before_receipt(progress: Progress) -> bool {
    progress is Resolving || progress is Paying || progress is Aborted
}

/// Once every payment has been made, a receipt whose address has been used ends the
/// invocation with `AlreadyInitialized`, before anything is allocated.
pub proof fn lemma_used_receipt_is_refused(
    program_id: Seq<u8>,
    accounts: Seq<AccountInfo>,
    args: InitArgsView,
)
    requires
        spec_resolve(accounts.len(), args.platform_fee is Some, args.referrer_fee is Some) is Ok,
        receipt_used(accounts[STAMP as int]),
    ensures
        spec_init(program_id, accounts, args, Progress::Paying(Leg::NetworkFee), Ok(())) == abort(
            ProgramError::AlreadyInitialized,
        ),
{
}

/// What a successful invocation stores in the receipt makes the receipt's address a used
/// one.
pub proof fn lemma_receipt_marks_used(data: Seq<u8>)
    ensures
        spec_mark(data) matches Ok(stored) ==> stored.len() > 0 && spec_mark(stored) == Err::<
            Seq<u8>,
            ProgramError,
        >(ProgramError::AlreadyInitialized),
{
}

/// Idempotency: while the receipt's address is a used one, no invocation gets past its
/// payments, so none is ever done and the ledger keeps none of its effects.
pub proof fn lemma_no_second_init(program_id: Seq<u8>, args: InitArgsView, events: Seq<Event>)
    requires
        forall|i: int|
            0 <= i < events.len() && events[i].accounts.len() > STAMP ==> receipt_used(
                #[trigger] events[i].accounts[STAMP as int],
            ),
    ensures
        before_receipt(run(program_id, args, events).0),
        committed(run(program_id, args, events)) == Seq::<ActionView>::empty(),
    decreases events.len(),
{
    if events.len() > 0 {
        let earlier = events.drop_last();
        assert forall|i: int|
            0 <= i < earlier.len() && earlier[i].accounts.len() > STAMP implies receipt_used(
            #[trigger] earlier[i].accounts[STAMP as int],
        ) by {
            assert(earlier[i] == events[i]);
        }
        lemma_no_second_init(program_id, args, earlier);
        let last = events.last();
        assert(last == events[events.len() - 1]);
        assert(last.accounts.len() > STAMP ==> receipt_used(last.accounts[STAMP as int]));
    }
}

/// Once every payment has been made, a reference that is not base58 ends the invocation
/// with `InvalidArgument`, unless the receipt's address has been used.
pub proof fn lemma_invalid_reference_is_refused(
    program_id: Seq<u8>,
    accounts: Seq<AccountInfo>,
    args: InitArgsView,
)
    requires
        spec_resolve(accounts.len(), args.platform_fee is Some, args.referrer_fee is Some) is Ok,
        !receipt_used(accounts[STAMP as int]),
        base58_decoded(args.reference) is None,
    ensures
        spec_init(program_id, accounts, args, Progress::Paying(Leg::NetworkFee), Ok(())) == abort(
            ProgramError::InvalidArgument,
        ),
{
}

/// Argument validation: an invocation whose reference is not base58 never gets past its
/// payments, so it is never done and the ledger keeps none of its transfers.
pub proof fn lemma_invalid_reference(program_id: Seq<u8>, args: InitArgsView, events: Seq<Event>)
    requires
        base58_decoded(args.reference) is None,
    ensures
        before_receipt(run(program_id, args, events).0),
        committed(run(program_id, args, events)) == Seq::<ActionView>::empty(),
    decreases events.len(),
{
    if events.len() > 0 {
        lemma_invalid_reference(program_id, args, events.drop_last());
    }
}

/// Whether some action stores the initialized record in the account at `account`.
pub open spec fn stores_receipt(actions: Seq<ActionView>, account: Seq<u8>) -> bool {
    exists|i: int|
        0 <= i < actions.len() && #[trigger] actions[i] == (ActionView::StoreReceipt {
            account,
            data: packed(Stamp { is_initialized: true }),
        })
}

/// Whether the receipt stands at the same address in every report of the driver.
pub open spec fn one_receipt(events: Seq<Event>, account: Seq<u8>) -> bool {
    forall|i: int|
        0 <= i < events.len() && events[i].accounts.len() > STAMP ==> (
        #[trigger] events[i].accounts[STAMP as int]).key@ == account
}

/// An invocation that is done has stored the initialized record in the receipt's account.
pub proof fn lemma_done_has_receipt(
    program_id: Seq<u8>,
    args: InitArgsView,
    events: Seq<Event>,
    account: Seq<u8>,
)
    requires
        one_receipt(events, account),
    ensures
        ({
            let outcome = run(program_id, args, events);
            outcome.0 is Done || outcome.0 is MarkingReceipt ==> stores_receipt(outcome.1, account)
        }),
    decreases events.len(),
{
    if events.len() > 0 {
        let earlier = events.drop_last();
        assert forall|i: int|
            0 <= i < earlier.len() && earlier[i].accounts.len() > STAMP implies (
        #[trigger] earlier[i].accounts[STAMP as int]).key@ == account by {
            assert(earlier[i] == events[i]);
        }
        lemma_done_has_receipt(program_id, args, earlier, account);
        let before = run(program_id, args, earlier);
        let last = events.last();
        assert(last == events[events.len() - 1]);
        let step = spec_init(program_id, last.accounts, args, before.0, last.outcome);
        let actions = before.1.push(step.1);
        if stores_receipt(before.1, account) {
            let i = choose|i: int|
                0 <= i < before.1.len() && #[trigger] before.1[i] == (ActionView::StoreReceipt {
                    account,
                    data: packed(Stamp { is_initialized: true }),
                });
            assert(actions[i] == before.1[i]);
        } else if step.0 is MarkingReceipt {
            assert(actions[actions.len() - 1] == step.1);
        }
    }
}

} // verus!
