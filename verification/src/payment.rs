//! One payment out of the wallet: the holding account it needs and the transfer itself.

use vstd::prelude::*;
use crate::account::AccountInfo;
use crate::address::{cmp_pubkeys, native_mint, native_mint_bytes, token_program, token_program_bytes};
use crate::cpi::{seeds_view, Invocation, InvocationView};
use crate::error::{ProgramError, ProgramResult};
use crate::token::{mint_decimals, record_view, token_account_record, unpack_mint_decimals, unpack_token_account, TokenAccount, TokenAccountView};
use crate::utils::{
    account_exists, assert_owned_by, assert_token_owned_by, calls_view,
    check_initialized, create_associated_token_account_raw, create_holding_call,
    native_transfer, native_transfer_call, spec_initialized, spl_token_transfer,
    token_transfer_call,
};

verus! {

/// What `check_holding` makes of the decoded record of a holding account that exists: the
/// record must be initialized, belong to `wallet`, and the account must be owned by the
/// token service.
pub open spec fn spec_check_holding(
    record: Result<TokenAccountView, u64>,
    holding_owner: Seq<u8>,
    wallet: Seq<u8>,
) -> ProgramResult {
    match spec_initialized(record) {
        Err(e) => Err(e),
        Ok(account) => if account.owner != wallet {
            Err(ProgramError::IllegalOwner)
        } else if holding_owner != token_program_bytes() {
            Err(ProgramError::IllegalOwner)
        } else {
            Ok(())
        },
    }
}

/// Validates a holding account that exists already, given its decoded record.
pub fn check_holding(
    record: Result<TokenAccount, u64>,
    holding: &AccountInfo,
    wallet: &AccountInfo,
) -> (r: ProgramResult)
    ensures
        r == spec_check_holding(record_view(record), holding.owner@, wallet.key@),
{
    let account = match check_initialized(record) {
        Err(e) => {
            return Err(e);
        },
        Ok(account) => account,
    };
    match assert_token_owned_by(&account, &wallet.key) {
        Err(e) => {
            return Err(e);
        },
        Ok(()) => {},
    }
    let service = token_program();
    assert_owned_by(holding, &service)
}

/// What the provisioner does for the holding account `candidate` of `wallet`: nothing if it
/// exists and is valid, a failure if it exists and is not, and its creation if it does not
/// exist.
pub open spec fn spec_ensure(
    wallet: AccountInfo,
    asset: AccountInfo,
    candidate: AccountInfo,
    payer: AccountInfo,
    rent: AccountInfo,
) -> Result<Option<InvocationView>, ProgramError> {
    if candidate.lamports > 0 {
        match spec_check_holding(token_account_record(candidate.data@), candidate.owner@, wallet.key@) {
            Err(e) => Err(e),
            Ok(()) => Ok(None),
        }
    } else {
        Ok(
            Some(
                create_holding_call(
                    payer.key@,
                    candidate.key@,
                    wallet.key@,
                    asset.key@,
                    rent.key@,
                    token_program_bytes(),
                ),
            ),
        )
    }
}

/// The view of what the provisioner returns.
pub open spec fn ensure_view(r: Result<Option<Invocation>, ProgramError>) -> Result<
    Option<InvocationView>,
    ProgramError,
> {
    match r {
        Ok(Some(call)) => Ok(Some(call@)),
        Ok(None) => Ok(None),
        Err(e) => Err(e),
    }
}

/// Makes sure that `wallet` has the holding account `candidate` for `asset`. An account that
/// holds a balance exists already: it is checked and left alone. Otherwise the request that
/// creates it, paid for by `payer`, is returned.
pub fn ensure_holding(
    wallet: &AccountInfo,
    asset: &AccountInfo,
    candidate: &AccountInfo,
    payer: &AccountInfo,
    rent: &AccountInfo,
) -> (r: Result<Option<Invocation>, ProgramError>)
    ensures
        ensure_view(r) == spec_ensure(*wallet, *asset, *candidate, *payer, *rent),
{
    let present = match account_exists(candidate) {
        Err(e) => {
            return Err(e);
        },
        Ok(present) => present,
    };
    if present {
        let record = unpack_token_account(candidate.data.as_slice());
        match check_holding(record, candidate, wallet) {
            Err(e) => Err(e),
            Ok(()) => Ok(None),
        }
    } else {
        let service = token_program();
        Ok(Some(create_associated_token_account_raw(payer, candidate, wallet, asset, rent, &service)))
    }
}

/// A payment that has been planned: the requests that carry it out, in order.
#[derive(Clone, Debug, PartialEq, Eq)]
pub struct Payment {
    /// Whether native value moves, rather than a token.
    pub native: bool,
    /// Whether the recipient's holding account is created first.
    pub provisioned: bool,
    /// The amount that leaves the wallet.
    pub amount: u64,
    /// The requests to perform, in order.
    pub calls: Vec<Invocation>,
}

/// What a `Payment` stands for.
pub struct PaymentView {
    pub native: bool,
    pub provisioned: bool,
    pub amount: u64,
    pub calls: Seq<InvocationView>,
}

impl View for Payment {
    type V = PaymentView;

    open spec fn view(&self) -> PaymentView {
        PaymentView {
            native: self.native,
            provisioned: self.provisioned,
            amount: self.amount,
            calls: calls_view(self.calls@),
        }
    }
}

/// The view of a payment that may have been refused.
pub open spec fn payment_view(r: Result<Payment, ProgramError>) -> Result<PaymentView, ProgramError> {
    match r {
        Ok(payment) => Ok(payment@),
        Err(e) => Err(e),
    }
}

/// The native payment of `amount` from the wallet to the recipient's wallet.
pub open spec fn native_payment(wallet: Seq<u8>, recipient: Seq<u8>, amount: u64) -> PaymentView {
    PaymentView {
        native: true,
        provisioned: false,
        amount,
        calls: seq![native_transfer_call(wallet, recipient, amount, Seq::empty())],
    }
}

/// What `token_payment` makes of the provisioner's answer and of the asset's decoded number
/// of decimals: the first failure, or the creation of the holding account, if any, followed
/// by the checked transfer.
pub open spec fn spec_token_payment(
    asset: Seq<u8>,
    wallet: Seq<u8>,
    source_holding: Seq<u8>,
    recipient_holding: Seq<u8>,
    amount: u64,
    provision: Result<Option<InvocationView>, ProgramError>,
    decimals: Result<u8, u64>,
) -> Result<PaymentView, ProgramError> {
    match provision {
        Err(e) => Err(e),
        Ok(creation) => match decimals {
            Err(code) => Err(ProgramError::spec_from_code(code)),
            Ok(decimals) => match token_transfer_call(
                source_holding,
                recipient_holding,
                wallet,
                asset,
                token_program_bytes(),
                amount,
                decimals,
                Seq::empty(),
            ) {
                Err(e) => Err(e),
                Ok(transfer) => Ok(
                    PaymentView {
                        native: false,
                        provisioned: creation is Some,
                        amount,
                        calls: match creation {
                            Some(call) => seq![call, transfer],
                            None => seq![transfer],
                        },
                    },
                ),
            },
        },
    }
}

/// Plans a token payment from the provisioner's answer and the asset's decoded number of
/// decimals.
pub fn token_payment(
    asset: &AccountInfo,
    wallet: &AccountInfo,
    source_holding: &AccountInfo,
    recipient_holding: &AccountInfo,
    amount: u64,
    provision: Result<Option<Invocation>, ProgramError>,
    decimals: Result<u8, u64>,
) -> (r: Result<Payment, ProgramError>)
    ensures
        payment_view(r) == spec_token_payment(asset.key@, wallet.key@, source_holding.key@, recipient_holding.key@, amount, ensure_view(provision), decimals),
{
    let creation = match provision {
        Err(e) => {
            return Err(e);
        },
        Ok(creation) => creation,
    };
    let decimals = match decimals {
        Err(code) => {
            return Err(ProgramError::from_code(code));
        },
        Ok(decimals) => decimals,
    };
    let service = token_program();
    let no_seeds: Vec<Vec<u8>> = Vec::new();
    assert(seeds_view(no_seeds@) =~= Seq::<Seq<u8>>::empty());
    let transfer = match spl_token_transfer(
        source_holding,
        recipient_holding,
        wallet,
        asset,
        &service,
        amount,
        decimals,
        &no_seeds,
    ) {
        Err(e) => {
            return Err(e);
        },
        Ok(transfer) => transfer,
    };
    let mut calls: Vec<Invocation> = Vec::new();
    let provisioned = creation.is_some();
    let ghost transfer_view = transfer@;
    match creation {
        Some(call) => {
            let ghost creation_view = call@;
            calls.push(call);
            calls.push(transfer);
            assert(calls_view(calls@) =~= seq![creation_view, transfer_view]);
        },
        None => {
            calls.push(transfer);
            assert(calls_view(calls@) =~= seq![transfer_view]);
        },
    }
    Ok(Payment { native: false, provisioned, amount, calls })
}

/// The payment of `amount` of `asset` out of the wallet: in native value if and only if the
/// asset is the wrapped native asset, and else as a token transfer between holding accounts,
/// after the recipient's holding account has been provided for.
pub open spec fn spec_payment(
    asset: AccountInfo,
    wallet: AccountInfo,
    source_holding: AccountInfo,
    recipient: AccountInfo,
    recipient_holding: AccountInfo,
    payer: AccountInfo,
    rent: AccountInfo,
    amount: u64,
) -> Result<PaymentView, ProgramError> {
    if asset.key@ == native_mint_bytes() {
        Ok(native_payment(wallet.key@, recipient.key@, amount))
    } else {
        spec_token_payment(
            asset.key@,
            wallet.key@,
            source_holding.key@,
            recipient_holding.key@,
            amount,
            spec_ensure(recipient, asset, recipient_holding, payer, rent),
            mint_decimals(asset.data@),
        )
    }
}

/// Plans one payment of `amount` of `asset` from the wallet to `recipient`. An amount of
/// zero is planned like any other.
pub fn pay(
    asset: &AccountInfo,
    wallet: &AccountInfo,
    source_holding: &AccountInfo,
    recipient: &AccountInfo,
    recipient_holding: &AccountInfo,
    payer: &AccountInfo,
    rent: &AccountInfo,
    amount: u64,
) -> (r: Result<Payment, ProgramError>)
    ensures
        payment_view(r) == spec_payment(*asset, *wallet, *source_holding, *recipient, *recipient_holding, *payer, *rent, amount),
        r matches Ok(payment) ==> payment.amount == amount && (payment.native <==> asset.key@ == native_mint_bytes()),
{
    let native = native_mint();
    if cmp_pubkeys(&asset.key, &native) {
        let no_seeds: Vec<Vec<u8>> = Vec::new();
        assert(seeds_view(no_seeds@) =~= Seq::<Seq<u8>>::empty());
        let transfer = native_transfer(wallet, recipient, amount, &no_seeds);
        let ghost transfer_view = transfer@;
        let mut calls: Vec<Invocation> = Vec::new();
        calls.push(transfer);
        assert(calls_view(calls@) =~= seq![transfer_view]);
        Ok(Payment { native: true, provisioned: false, amount, calls })
    } else {
        let provision = ensure_holding(recipient, asset, recipient_holding, payer, rent);
        let decimals = unpack_mint_decimals(asset.data.as_slice());
        token_payment(asset, wallet, source_holding, recipient_holding, amount, provision, decimals)
    }
}

} // verus!
