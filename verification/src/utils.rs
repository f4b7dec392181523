//! The checks and the requests that the instruction is made of.

use vstd::prelude::*;
use crate::account::{rent_exempt_minimum, rent_in_range, rent_minimum_balance, AccountInfo};
use crate::address::Address;
use crate::cpi::{
    addresses_view, associated_account_creation, copy_seeds, create_associated_token_account,
    seeds_view, system_allocate, system_allocate_view, system_assign, system_assign_view,
    system_transfer, system_transfer_view, token_transfer_checked, transfer_checked_result,
    Invocation, InvocationView,
};
use crate::error::{ProgramError, ProgramResult};
use crate::token::{
    record_view, token_account_record, unpack_token_account, TokenAccount, TokenAccountView,
};

pub use crate::address::cmp_pubkeys;

verus! {

/// Fails with `AlreadyInitialized` when a record reports that it is initialized.
pub fn assert_uninitialized(is_initialized: bool) -> (r: ProgramResult)
    ensures
        r == if is_initialized {
            Err::<(), ProgramError>(ProgramError::AlreadyInitialized)
        } else {
            Ok(())
        },
{
    if is_initialized {
        Err(ProgramError::AlreadyInitialized)
    } else {
        Ok(())
    }
}

/// Fails with `MissingSignature` unless the account signed.
pub fn assert_signer(account: &AccountInfo) -> (r: ProgramResult)
    ensures
        r == if account.is_signer {
            Ok::<(), ProgramError>(())
        } else {
            Err(ProgramError::MissingSignature)
        },
{
    if account.is_signer {
        return Ok(());
    }
    Err(ProgramError::MissingSignature)
}

/// Whether the account exists: whether it holds any native balance.
pub fn account_exists(account: &AccountInfo) -> (r: Result<bool, ProgramError>)
    ensures
        r == Ok::<bool, ProgramError>(account.lamports > 0),
{
    match account.try_lamports() {
        Ok(lamports) => Ok(lamports > 0),
        Err(e) => Err(e),
    }
}

/// What `assert_initialized` makes of a decoded record: the failure to decode it, the
/// failure `UninitializedAccount` for a record that the token service never initialized, or
/// the record.
pub open spec fn spec_initialized(record: Result<TokenAccountView, u64>) -> Result<
    TokenAccountView,
    ProgramError,
> {
    match record {
        Err(code) => Err(ProgramError::spec_from_code(code)),
        Ok(account) => if account.is_initialized {
            Ok(account)
        } else {
            Err(ProgramError::UninitializedAccount)
        },
    }
}

/// The view of a record that may have been refused.
pub open spec fn checked_view(r: Result<TokenAccount, ProgramError>) -> Result<
    TokenAccountView,
    ProgramError,
> {
    match r {
        Ok(record) => Ok(record@),
        Err(e) => Err(e),
    }
}

/// Accepts a decoded holding account's record only if it is initialized.
pub fn check_initialized(record: Result<TokenAccount, u64>) -> (r: Result<
    TokenAccount,
    ProgramError,
>)
    ensures
        checked_view(r) == spec_initialized(record_view(record)),
{
    match record {
        Err(code) => Err(ProgramError::from_code(code)),
        Ok(account) => {
            if !account.is_initialized {
                Err(ProgramError::UninitializedAccount)
            } else {
                Ok(account)
            }
        },
    }
}

/// Decodes the record of a holding account and accepts it only if it is initialized.
pub fn assert_initialized(account_info: &AccountInfo) -> (r: Result<TokenAccount, ProgramError>)
    ensures
        checked_view(r) == spec_initialized(token_account_record(account_info.data@)),
{
    let record = unpack_token_account(account_info.data.as_slice());
    check_initialized(record)
}

/// Fails with `IllegalOwner` unless the holding account belongs to the wallet `owner`.
pub fn assert_token_owned_by(token: &TokenAccount, owner: &Address) -> (r: ProgramResult)
    ensures
        r == if token.owner@ == owner@ {
            Ok::<(), ProgramError>(())
        } else {
            Err(ProgramError::IllegalOwner)
        },
{
    if !cmp_pubkeys(&token.owner, owner) {
        Err(ProgramError::IllegalOwner)
    } else {
        Ok(())
    }
}

/// Fails with `IllegalOwner` unless the program `owner` owns the account.
pub fn assert_owned_by(account: &AccountInfo, owner: &Address) -> (r: ProgramResult)
    ensures
        r == if account.owner@ == owner@ {
            Ok::<(), ProgramError>(())
        } else {
            Err(ProgramError::IllegalOwner)
        },
{
    if !cmp_pubkeys(&account.owner, owner) {
        Err(ProgramError::IllegalOwner)
    } else {
        Ok(())
    }
}

/// The request that moves `amount` of native value from `source` to `destination`.
pub open spec fn native_transfer_call(
    source: Seq<u8>,
    destination: Seq<u8>,
    amount: u64,
    seeds: Seq<Seq<u8>>,
) -> InvocationView {
    InvocationView {
        instruction: system_transfer_view(source, destination, amount),
        accounts: seq![source, destination],
        signer_seeds: seeds,
    }
}

/// Builds the transfer of native value from `source` to `destination`. An amount of zero is
/// passed on as it is.
pub fn native_transfer(
    source: &AccountInfo,
    destination: &AccountInfo,
    amount: u64,
    signers_seeds: &Vec<Vec<u8>>,
) -> (call: Invocation)
    ensures
        call@ == native_transfer_call(source.key@, destination.key@, amount, seeds_view(signers_seeds@)),
{
    let instruction = system_transfer(&source.key, &destination.key, amount);
    let accounts = vec![source.key, destination.key];
    assert(addresses_view(accounts@) =~= seq![source.key@, destination.key@]);
    Invocation::new(instruction, accounts, copy_seeds(signers_seeds))
}

/// The request that moves `amount` of an asset between two holding accounts, or the failure
/// to build it.
pub open spec fn token_transfer_call(
    source: Seq<u8>,
    destination: Seq<u8>,
    authority: Seq<u8>,
    mint: Seq<u8>,
    token_id: Seq<u8>,
    amount: u64,
    decimals: u8,
    seeds: Seq<Seq<u8>>,
) -> Result<InvocationView, ProgramError> {
    match transfer_checked_result(token_id, source, mint, destination, authority, amount, decimals) {
        Err(code) => Err(ProgramError::spec_from_code(code)),
        Ok(instruction) => Ok(
            InvocationView {
                instruction,
                accounts: seq![source, mint, destination, authority],
                signer_seeds: seeds,
            },
        ),
    }
}

/// The view of a request that may have been refused.
pub open spec fn call_view(r: Result<Invocation, ProgramError>) -> Result<
    InvocationView,
    ProgramError,
> {
    match r {
        Ok(call) => Ok(call@),
        Err(e) => Err(e),
    }
}

/// Builds the checked transfer of `amount` of the asset `mint`, at its `decimals`, from the
/// holding account `source` to `destination`, authorized by `authority`.
pub fn spl_token_transfer(
    source: &AccountInfo,
    destination: &AccountInfo,
    authority: &AccountInfo,
    mint: &AccountInfo,
    token_id: &Address,
    amount: u64,
    decimals: u8,
    signers_seeds: &Vec<Vec<u8>>,
) -> (r: Result<Invocation, ProgramError>)
    ensures
        call_view(r) == token_transfer_call(source.key@, destination.key@, authority.key@, mint.key@, token_id@, amount, decimals, seeds_view(signers_seeds@)),
{
    let built = token_transfer_checked(
        token_id,
        &source.key,
        &mint.key,
        &destination.key,
        &authority.key,
        amount,
        decimals,
    );
    match built {
        Err(code) => Err(ProgramError::from_code(code)),
        Ok(instruction) => {
            let accounts = vec![source.key, mint.key, destination.key, authority.key];
            assert(addresses_view(accounts@) =~= seq![
                source.key@,
                mint.key@,
                destination.key@,
                authority.key@,
            ]);
            Ok(Invocation::new(instruction, accounts, copy_seeds(signers_seeds)))
        },
    }
}

/// The request that creates the holding account of `wallet` for the asset `mint`.
pub open spec fn create_holding_call(
    payer: Seq<u8>,
    vault_token: Seq<u8>,
    wallet: Seq<u8>,
    mint: Seq<u8>,
    rent: Seq<u8>,
    token_program: Seq<u8>,
) -> InvocationView {
    InvocationView {
        instruction: associated_account_creation(payer, wallet, mint, token_program),
        accounts: seq![payer, vault_token, wallet, mint, rent],
        signer_seeds: Seq::empty(),
    }
}

/// Builds the creation of the associated holding account `vault_token_info` of the wallet
/// for the asset, paid for by the payer.
pub fn create_associated_token_account_raw(
    payer_info: &AccountInfo,
    vault_token_info: &AccountInfo,
    wallet_info: &AccountInfo,
    mint_info: &AccountInfo,
    rent_sysvar_info: &AccountInfo,
    token_program_id: &Address,
) -> (call: Invocation)
    ensures
        call@ == create_holding_call(payer_info.key@, vault_token_info.key@, wallet_info.key@, mint_info.key@, rent_sysvar_info.key@, token_program_id@),
{
    let instruction = create_associated_token_account(
        &payer_info.key,
        &wallet_info.key,
        &mint_info.key,
        token_program_id,
    );
    let accounts = vec![
        payer_info.key,
        vault_token_info.key,
        wallet_info.key,
        mint_info.key,
        rent_sysvar_info.key,
    ];
    assert(addresses_view(accounts@) =~= seq![
        payer_info.key@,
        vault_token_info.key@,
        wallet_info.key@,
        mint_info.key@,
        rent_sysvar_info.key@,
    ]);
    let seeds: Vec<Vec<u8>> = Vec::new();
    assert(seeds_view(seeds@) =~= Seq::<Seq<u8>>::empty());
    Invocation::new(instruction, accounts, seeds)
}

/// The request that funds a new account with `lamports` from the payer.
pub open spec fn fund_call(payer: Seq<u8>, account: Seq<u8>, system_program: Seq<u8>, lamports: u64) -> InvocationView {
    InvocationView {
        instruction: system_transfer_view(payer, account, lamports),
        accounts: seq![payer, account, system_program],
        signer_seeds: Seq::empty(),
    }
}

/// The request that gives a new account its `size` bytes, signed by the account's seeds.
pub open spec fn allocate_call(account: Seq<u8>, system_program: Seq<u8>, size: usize, seeds: Seq<Seq<u8>>) -> InvocationView {
    InvocationView {
        instruction: system_allocate_view(account, size as u64),
        accounts: seq![account, system_program],
        signer_seeds: seeds,
    }
}

/// The request that hands a new account over to `program_id`, signed by the account's seeds.
pub open spec fn assign_call(account: Seq<u8>, system_program: Seq<u8>, program_id: Seq<u8>, seeds: Seq<Seq<u8>>) -> InvocationView {
    InvocationView {
        instruction: system_assign_view(account, program_id),
        accounts: seq![account, system_program],
        signer_seeds: seeds,
    }
}

/// The requests that create an account of `size` bytes owned by `program_id`, given the
/// balance that exempts it from rent: the funding if that balance is not zero, then the
/// allocation, then the assignment.
pub open spec fn creation_calls(
    program_id: Seq<u8>,
    account: Seq<u8>,
    payer: Seq<u8>,
    system_program: Seq<u8>,
    size: usize,
    seeds: Seq<Seq<u8>>,
    required_lamports: u64,
) -> Seq<InvocationView> {
    let tail = seq![
        allocate_call(account, system_program, size, seeds),
        assign_call(account, system_program, program_id, seeds),
    ];
    if required_lamports > 0 {
        seq![fund_call(payer, account, system_program, required_lamports)] + tail
    } else {
        tail
    }
}

/// The views of the requests of a list.
pub open spec fn calls_view(calls: Seq<Invocation>) -> Seq<InvocationView> {
    Seq::new(calls.len(), |i: int| calls[i]@)
}

/// The view of a list of requests that may have been refused.
pub open spec fn calls_result_view(r: Result<Vec<Invocation>, ProgramError>) -> Result<
    Seq<InvocationView>,
    ProgramError,
> {
    match r {
        Ok(calls) => Ok(calls_view(calls@)),
        Err(e) => Err(e),
    }
}

/// What `create_new_account_raw` makes of the rent-exempt balance that was read: the failure
/// to read it, or the requests that create the account.
pub open spec fn spec_creation(
    program_id: Seq<u8>,
    account: Seq<u8>,
    payer: Seq<u8>,
    system_program: Seq<u8>,
    size: usize,
    seeds: Seq<Seq<u8>>,
    minimum: Result<u64, u64>,
) -> Result<Seq<InvocationView>, ProgramError> {
    match minimum {
        Err(code) => Err(ProgramError::spec_from_code(code)),
        Ok(required_lamports) => Ok(
            creation_calls(program_id, account, payer, system_program, size, seeds, required_lamports),
        ),
    }
}

/// Builds the requests that create an account, from the rent-exempt balance that was read
/// for it.
pub fn plan_new_account(
    program_id: &Address,
    new_account_info: &AccountInfo,
    payer_info: &AccountInfo,
    system_program_info: &AccountInfo,
    size: usize,
    signer_seeds: &Vec<Vec<u8>>,
    minimum: Result<u64, u64>,
) -> (r: Result<Vec<Invocation>, ProgramError>)
    ensures
        calls_result_view(r) == spec_creation(program_id@, new_account_info.key@, payer_info.key@, system_program_info.key@, size, seeds_view(signer_seeds@), minimum),
{
    let required_lamports = match minimum {
        Err(code) => {
            return Err(ProgramError::from_code(code));
        },
        Ok(lamports) => lamports,
    };
    let mut calls: Vec<Invocation> = Vec::new();
    if required_lamports > 0 {
        let instruction = system_transfer(&payer_info.key, &new_account_info.key, required_lamports);
        let accounts = vec![payer_info.key, new_account_info.key, system_program_info.key];
        assert(addresses_view(accounts@) =~= seq![
            payer_info.key@,
            new_account_info.key@,
            system_program_info.key@,
        ]);
        let seeds: Vec<Vec<u8>> = Vec::new();
        assert(seeds_view(seeds@) =~= Seq::<Seq<u8>>::empty());
        calls.push(Invocation::new(instruction, accounts, seeds));
    }
    let allocate = system_allocate(&new_account_info.key, size as u64);
    let accounts = vec![new_account_info.key, system_program_info.key];
    assert(addresses_view(accounts@) =~= seq![new_account_info.key@, system_program_info.key@]);
    calls.push(Invocation::new(allocate, accounts, copy_seeds(signer_seeds)));
    let assign = system_assign(&new_account_info.key, program_id);
    let accounts = vec![new_account_info.key, system_program_info.key];
    assert(addresses_view(accounts@) =~= seq![new_account_info.key@, system_program_info.key@]);
    calls.push(Invocation::new(assign, accounts, copy_seeds(signer_seeds)));
    assert(calls_view(calls@) =~= creation_calls(
        program_id@,
        new_account_info.key@,
        payer_info.key@,
        system_program_info.key@,
        size,
        seeds_view(signer_seeds@),
        required_lamports,
    ));
    Ok(calls)
}

/// Builds the requests that create the account `new_account_info` with `size` bytes, owned
/// by `program_id` and exempt from rent: the payer funds it, then the account's seeds sign
/// its allocation and its assignment.
pub fn create_new_account_raw(
    program_id: &Address,
    new_account_info: &AccountInfo,
    rent_sysvar_info: &AccountInfo,
    payer_info: &AccountInfo,
    system_program_info: &AccountInfo,
    size: usize,
    signer_seeds: &Vec<Vec<u8>>,
) -> (r: Result<Vec<Invocation>, ProgramError>)
    requires
        rent_in_range(rent_sysvar_info.data@, size),
    ensures
        calls_result_view(r) == spec_creation(program_id@, new_account_info.key@, payer_info.key@, system_program_info.key@, size, seeds_view(signer_seeds@), rent_exempt_minimum(rent_sysvar_info.key@, rent_sysvar_info.data@, size)),
{
    let minimum = rent_minimum_balance(rent_sysvar_info, size);
    plan_new_account(
        program_id,
        new_account_info,
        payer_info,
        system_program_info,
        size,
        signer_seeds,
        minimum,
    )
}

} // verus!
