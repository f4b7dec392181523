use card_program::account::{resolve, AccountContext, AccountInfo, FeeAccounts};
use card_program::address::{token_program, Address};
use card_program::error::ProgramError;
use card_program::instruction::InitCardArgs;
use card_program::payment::{ensure_holding, pay};
use card_program::receipt::{decode_reference, mark, register};
use card_program::state::{Stamp, FLAG_ACCOUNT_SIZE};
use card_program::token::TokenAccount;
use card_program::utils::{
    account_exists, assert_initialized, assert_owned_by, assert_signer, assert_token_owned_by,
    assert_uninitialized, check_initialized, create_associated_token_account_raw,
    create_new_account_raw, native_transfer, plan_new_account, spl_token_transfer,
};

fn address(tag: u8) -> Address {
    Address::new([tag; 32])
}

fn plain(tag: u8, lamports: u64) -> AccountInfo {
    AccountInfo {
        key: address(tag),
        owner: Address::new([0; 32]),
        lamports,
        data: Vec::new(),
        is_signer: false,
        is_writable: true,
    }
}

fn rent_account(rate: u64, threshold: f64) -> AccountInfo {
    let key = bs58::decode("SysvarRent111111111111111111111111111111111").into_vec().unwrap();
    let mut data = Vec::new();
    data.extend_from_slice(&rate.to_le_bytes());
    data.extend_from_slice(&threshold.to_le_bytes());
    data.push(50);
    AccountInfo {
        key: Address::new(key.try_into().unwrap()),
        owner: address(200),
        lamports: 1,
        data,
        is_signer: false,
        is_writable: false,
    }
}

fn holding(owner: Address, state: spl_token_2022::state::AccountState) -> Vec<u8> {
    let account = spl_token_2022::state::Account {
        mint: address(77).to_bytes().into(),
        owner: owner.to_bytes().into(),
        amount: 5,
        delegate: solana_program::program_option::COption::None,
        state,
        is_native: solana_program::program_option::COption::None,
        delegated_amount: 0,
        close_authority: solana_program::program_option::COption::None,
    };
    let mut data = vec![0u8; 165];
    solana_program::program_pack::Pack::pack(account, &mut data).unwrap();
    data
}

fn args(platform_fee: Option<u64>, referrer_fee: Option<u64>) -> InitCardArgs {
    InitCardArgs {
        bump: 1,
        reference: "Ref1".to_string(),
        memo: String::new(),
        network_fee: 1,
        amount: 2,
        platform_fee,
        referrer_fee,
    }
}

#[test]
fn assert_uninitialized_refuses_an_initialized_record() {
    assert_eq!(assert_uninitialized(false), Ok(()));
    assert_eq!(assert_uninitialized(true), Err(ProgramError::AlreadyInitialized));
    assert_eq!(assert_uninitialized(Stamp { is_initialized: true }.is_initialized()), Err(ProgramError::AlreadyInitialized));
}

#[test]
fn assert_signer_wants_a_signature() {
    let mut account = plain(1, 0);
    assert_eq!(assert_signer(&account), Err(ProgramError::MissingSignature));
    account.is_signer = true;
    assert_eq!(assert_signer(&account), Ok(()));
}

#[test]
fn account_exists_when_it_holds_a_balance() {
    assert_eq!(account_exists(&plain(1, 0)), Ok(false));
    assert_eq!(account_exists(&plain(1, 1)), Ok(true));
    assert_eq!(plain(1, 9).lamports(), 9);
    assert_eq!(plain(1, 9).try_lamports(), Ok(9));
    assert!(plain(1, 9).data_is_empty());
}

#[test]
fn owner_checks_compare_all_bytes() {
    let mut account = plain(1, 1);
    account.owner = token_program();
    assert_eq!(assert_owned_by(&account, &token_program()), Ok(()));
    assert_eq!(assert_owned_by(&account, &address(3)), Err(ProgramError::IllegalOwner));
    let token = TokenAccount { owner: address(9), is_initialized: true };
    assert_eq!(assert_token_owned_by(&token, &address(9)), Ok(()));
    assert_eq!(assert_token_owned_by(&token, &address(8)), Err(ProgramError::IllegalOwner));
}

#[test]
fn assert_initialized_reads_the_record_of_the_token_service() {
    let mut account = plain(1, 1);
    account.data = holding(address(9), spl_token_2022::state::AccountState::Initialized);
    assert_eq!(assert_initialized(&account), Ok(TokenAccount { owner: address(9), is_initialized: true }));
    account.data = holding(address(9), spl_token_2022::state::AccountState::Frozen);
    assert_eq!(assert_initialized(&account), Ok(TokenAccount { owner: address(9), is_initialized: true }));
    account.data = vec![0u8; 165];
    assert_eq!(assert_initialized(&account), Err(ProgramError::UninitializedAccount));
    account.data = vec![0u8; 10];
    assert_eq!(assert_initialized(&account), Err(ProgramError::InvalidAccountData));
}

#[test]
fn check_initialized_maps_codes_and_refuses_uninitialized_records() {
    let record = TokenAccount { owner: address(9), is_initialized: false };
    assert_eq!(check_initialized(Ok(record)), Err(ProgramError::UninitializedAccount));
    assert_eq!(check_initialized(Err(4 << 32)), Err(ProgramError::InvalidAccountData));
    assert_eq!(check_initialized(Err(77)), Err(ProgramError::Host(77)));
}

#[test]
fn native_transfer_builds_the_system_transfer() {
    let seeds = vec![vec![1u8, 2], vec![3u8]];
    let call = native_transfer(&plain(1, 5), &plain(2, 0), 258, &seeds);
    let expected = solana_system_transfer(address(1), address(2), 258);
    assert_eq!(call.instruction.program_id.to_bytes(), expected.program_id.to_bytes());
    assert_eq!(call.instruction.data, expected.data);
    assert_eq!(call.instruction.data, vec![2, 0, 0, 0, 2, 1, 0, 0, 0, 0, 0, 0]);
    assert_eq!(call.instruction.accounts.len(), 2);
    assert_eq!(call.instruction.accounts[0].pubkey, address(1));
    assert!(call.instruction.accounts[0].is_signer && call.instruction.accounts[0].is_writable);
    assert_eq!(call.instruction.accounts[1].pubkey, address(2));
    assert!(!call.instruction.accounts[1].is_signer && call.instruction.accounts[1].is_writable);
    assert_eq!(call.accounts, vec![address(1), address(2)]);
    assert_eq!(call.signer_seeds, seeds);
}

#[allow(deprecated)]
fn solana_system_transfer(from: Address, to: Address, lamports: u64) -> solana_program::instruction::Instruction {
    solana_program::system_instruction::transfer(&from.to_bytes().into(), &to.to_bytes().into(), lamports)
}

#[test]
fn spl_token_transfer_builds_the_checked_transfer() {
    let none: Vec<Vec<u8>> = Vec::new();
    let call = spl_token_transfer(
        &plain(1, 1),
        &plain(2, 1),
        &plain(3, 1),
        &plain(4, 1),
        &token_program(),
        1000,
        6,
        &none,
    )
    .unwrap();
    assert_eq!(call.instruction.program_id, token_program());
    assert_eq!(call.instruction.data, vec![12, 232, 3, 0, 0, 0, 0, 0, 0, 6]);
    let metas: Vec<(Address, bool, bool)> =
        call.instruction.accounts.iter().map(|m| (m.pubkey, m.is_signer, m.is_writable)).collect();
    assert_eq!(
        metas,
        vec![
            (address(1), false, true),
            (address(4), false, false),
            (address(2), false, true),
            (address(3), true, false)
        ]
    );
    assert_eq!(call.accounts, vec![address(1), address(4), address(2), address(3)]);
    assert!(call.signer_seeds.is_empty());
}

#[test]
fn spl_token_transfer_refuses_a_program_that_is_no_token_service() {
    let none: Vec<Vec<u8>> = Vec::new();
    let r = spl_token_transfer(&plain(1, 1), &plain(2, 1), &plain(3, 1), &plain(4, 1), &address(50), 1, 0, &none);
    assert_eq!(r, Err(ProgramError::IncorrectProgramId));
    let extended = bs58::decode("TokenzQdBNbLqP5VEhdkAS6EPFLC1PHnBqCXEpPxuEb").into_vec().unwrap();
    let extended = Address::new(extended.try_into().unwrap());
    let r = spl_token_transfer(&plain(1, 1), &plain(2, 1), &plain(3, 1), &plain(4, 1), &extended, 1, 0, &none);
    assert_eq!(r.unwrap().instruction.program_id, extended);
}

#[test]
fn create_associated_token_account_raw_names_the_five_accounts() {
    let call = create_associated_token_account_raw(
        &plain(1, 1),
        &plain(2, 0),
        &plain(3, 1),
        &plain(4, 1),
        &plain(5, 1),
        &token_program(),
    );
    let program = bs58::decode("ATokenGPvbdGVxr1b2hvZbsiqW5xWH25efTNsLJA8knL").into_vec().unwrap();
    assert_eq!(call.instruction.program_id.to_bytes().to_vec(), program);
    assert_eq!(call.instruction.data, vec![0]);
    assert_eq!(call.instruction.accounts[0].pubkey, address(1));
    assert!(call.instruction.accounts[0].is_signer);
    assert_eq!(call.instruction.accounts[2].pubkey, address(3));
    assert_eq!(call.instruction.accounts[3].pubkey, address(4));
    assert_eq!(call.instruction.accounts[5].pubkey, token_program());
    assert_eq!(call.accounts, vec![address(1), address(2), address(3), address(4), address(5)]);
    assert!(call.signer_seeds.is_empty());
}

#[test]
fn create_new_account_raw_funds_allocates_and_assigns() {
    let seeds = vec![b"stamp".to_vec(), vec![9u8], vec![7u8]];
    let calls = create_new_account_raw(
        &address(40),
        &plain(1, 0),
        &rent_account(3480, 2.0),
        &plain(2, 1_000_000),
        &plain(3, 1),
        10,
        &seeds,
    )
    .unwrap();
    assert_eq!(calls.len(), 3);
    let lamports: u64 = (128 + 10) * 3480 * 2;
    let mut transfer = vec![2u8, 0, 0, 0];
    transfer.extend_from_slice(&lamports.to_le_bytes());
    assert_eq!(calls[0].instruction.data, transfer);
    assert_eq!(calls[0].accounts, vec![address(2), address(1), address(3)]);
    assert!(calls[0].signer_seeds.is_empty());
    assert_eq!(calls[1].instruction.data, vec![8, 0, 0, 0, 10, 0, 0, 0, 0, 0, 0, 0]);
    assert_eq!(calls[1].instruction.accounts.len(), 1);
    assert_eq!(calls[1].instruction.accounts[0].pubkey, address(1));
    assert!(calls[1].instruction.accounts[0].is_signer);
    assert_eq!(calls[1].accounts, vec![address(1), address(3)]);
    assert_eq!(calls[1].signer_seeds, seeds);
    let mut assign = vec![1u8, 0, 0, 0];
    assign.extend_from_slice(&[40u8; 32]);
    assert_eq!(calls[2].instruction.data, assign);
    assert_eq!(calls[2].accounts, vec![address(1), address(3)]);
    assert_eq!(calls[2].signer_seeds, seeds);
}

#[test]
fn create_new_account_raw_skips_funding_when_rent_is_free() {
    let seeds: Vec<Vec<u8>> = Vec::new();
    let calls = create_new_account_raw(
        &address(40),
        &plain(1, 0),
        &rent_account(0, 2.0),
        &plain(2, 1),
        &plain(3, 1),
        1,
        &seeds,
    )
    .unwrap();
    assert_eq!(calls.len(), 2);
    assert_eq!(calls[0].instruction.data[0], 8);
    assert_eq!(calls[1].instruction.data[0], 1);
}

#[test]
fn create_new_account_raw_refuses_an_account_that_is_not_the_rent_parameters() {
    let seeds: Vec<Vec<u8>> = Vec::new();
    let mut wrong = rent_account(3480, 2.0);
    wrong.key = address(10);
    let r = create_new_account_raw(&address(40), &plain(1, 0), &wrong, &plain(2, 1), &plain(3, 1), 1, &seeds);
    assert_eq!(r, Err(ProgramError::InvalidArgument));
    let mut short = rent_account(3480, 2.0);
    short.data.truncate(5);
    let r = create_new_account_raw(&address(40), &plain(1, 0), &short, &plain(2, 1), &plain(3, 1), 1, &seeds);
    assert_eq!(r, Err(ProgramError::InvalidArgument));
}

#[test]
fn plan_new_account_reports_the_failure_to_read_rent() {
    let seeds: Vec<Vec<u8>> = Vec::new();
    let r = plan_new_account(&address(40), &plain(1, 0), &plain(2, 1), &plain(3, 1), 1, &seeds, Err(2 << 32));
    assert_eq!(r, Err(ProgramError::InvalidArgument));
    let r = plan_new_account(&address(40), &plain(1, 0), &plain(2, 1), &plain(3, 1), 1, &seeds, Ok(5));
    assert_eq!(r.unwrap().len(), 3);
}

#[test]
fn resolve_selects_the_shape_from_the_fees() {
    let accounts: Vec<AccountInfo> = (0..16).map(|i| plain(i, 0)).collect();
    assert_eq!(resolve(&accounts[..12], &args(None, None)), Ok(AccountContext { platform: None, referrer: None }));
    assert_eq!(resolve(&accounts[..11], &args(None, None)), Err(ProgramError::MissingAccount));
    assert_eq!(
        resolve(&accounts[..14], &args(Some(1), None)),
        Ok(AccountContext { platform: Some(FeeAccounts { wallet: 12, token: 13 }), referrer: None })
    );
    assert_eq!(resolve(&accounts[..13], &args(Some(1), None)), Err(ProgramError::MissingAccount));
    assert_eq!(
        resolve(&accounts[..14], &args(None, Some(1))),
        Ok(AccountContext { platform: None, referrer: Some(FeeAccounts { wallet: 12, token: 13 }) })
    );
    assert_eq!(
        resolve(&accounts, &args(Some(1), Some(1))),
        Ok(AccountContext {
            platform: Some(FeeAccounts { wallet: 12, token: 13 }),
            referrer: Some(FeeAccounts { wallet: 14, token: 15 })
        })
    );
    assert_eq!(resolve(&accounts[..15], &args(Some(1), Some(1))), Err(ProgramError::MissingAccount));
    assert_eq!(AccountContext::select(true, true).required(), 16);
    assert_eq!(AccountContext::select(false, false).required(), 12);
}

#[test]
fn ensure_holding_creates_only_what_is_missing() {
    let wallet = plain(3, 1);
    let mint = plain(4, 1);
    let mut candidate = plain(2, 0);
    let created = ensure_holding(&wallet, &mint, &candidate, &plain(1, 1), &plain(5, 1)).unwrap();
    assert_eq!(created.unwrap().accounts[1], address(2));
    candidate.lamports = 1;
    candidate.owner = token_program();
    candidate.data = holding(address(3), spl_token_2022::state::AccountState::Initialized);
    assert_eq!(ensure_holding(&wallet, &mint, &candidate, &plain(1, 1), &plain(5, 1)), Ok(None));
    assert_eq!(ensure_holding(&wallet, &mint, &candidate, &plain(1, 1), &plain(5, 1)), Ok(None));
    candidate.data = holding(address(8), spl_token_2022::state::AccountState::Initialized);
    assert_eq!(
        ensure_holding(&wallet, &mint, &candidate, &plain(1, 1), &plain(5, 1)),
        Err(ProgramError::IllegalOwner)
    );
}

#[test]
fn pay_fails_on_an_asset_whose_record_cannot_be_read() {
    let asset = plain(4, 1);
    let r = pay(&asset, &plain(1, 1), &plain(2, 1), &plain(3, 1), &plain(5, 0), &plain(6, 1), &plain(7, 1), 9);
    assert_eq!(r, Err(ProgramError::InvalidAccountData));
}

#[test]
fn decode_reference_is_base58() {
    assert_eq!(decode_reference("Ref1"), Ok(vec![73, 98, 144]));
    assert_eq!(decode_reference(""), Ok(vec![]));
    assert_eq!(decode_reference("11"), Ok(vec![0, 0]));
    assert_eq!(decode_reference("Ref0"), Err(ProgramError::InvalidArgument));
    assert_eq!(decode_reference("caf\u{e9}"), Err(ProgramError::InvalidArgument));
}

#[test]
fn register_checks_the_guard_before_the_reference() {
    let mut stamp = plain(1, 1);
    let rent = rent_account(3480, 2.0);
    let r = register(&address(40), &stamp, &rent, &plain(2, 1), &plain(3, 1), "0", 7);
    assert_eq!(r, Err(ProgramError::AlreadyInitialized));
    stamp.lamports = 0;
    let r = register(&address(40), &stamp, &rent, &plain(2, 1), &plain(3, 1), "0", 7);
    assert_eq!(r, Err(ProgramError::InvalidArgument));
    let calls = register(&address(40), &stamp, &rent, &plain(2, 1), &plain(3, 1), "Ref1", 7).unwrap();
    assert_eq!(calls.len(), 3);
    let lamports: u64 = (128 + 1) * 3480 * 2;
    assert_eq!(calls[0].instruction.data[4..], lamports.to_le_bytes());
    assert_eq!(calls[1].signer_seeds, vec![b"stamp".to_vec(), vec![73, 98, 144], vec![7]]);
}

#[test]
fn stamp_packs_to_one_byte() {
    assert_eq!(FLAG_ACCOUNT_SIZE, 1);
    assert_eq!(Stamp::LEN, 1);
    assert_eq!(Stamp::prefix(), b"stamp".to_vec());
    assert_eq!(Stamp { is_initialized: true }.pack(), vec![1]);
    assert_eq!(Stamp { is_initialized: false }.pack(), vec![0]);
    assert_eq!(Stamp::unpack_unchecked(&[0]), Ok(Stamp { is_initialized: false }));
    assert_eq!(Stamp::unpack_unchecked(&[1]), Ok(Stamp { is_initialized: true }));
    assert_eq!(Stamp::unpack_unchecked(&[2]), Err(ProgramError::InvalidAccountData));
    assert_eq!(Stamp::unpack_unchecked(&[]), Err(ProgramError::InvalidAccountData));
    assert_eq!(Stamp::unpack_unchecked(&[0, 0]), Err(ProgramError::InvalidAccountData));
}

#[test]
fn mark_sets_the_flag_once() {
    let mut stamp = plain(1, 5);
    stamp.data = vec![0];
    assert_eq!(mark(&stamp), Ok(vec![1]));
    stamp.data = vec![1];
    assert_eq!(mark(&stamp), Err(ProgramError::AlreadyInitialized));
    stamp.data = vec![];
    assert_eq!(mark(&stamp), Err(ProgramError::InvalidAccountData));
}

#[test]
fn receipt_address_is_the_derived_address() {
    let program = card_program::address::id();
    let ledger_program = solana_program::pubkey::Pubkey::new_from_array(program.to_bytes());
    let mut found = 0;
    for bump in 0..=255u8 {
        let expected = solana_program::pubkey::Pubkey::create_program_address(
            &[b"stamp", &[73, 98, 144], &[bump]],
            &ledger_program,
        );
        let ours = card_program::receipt::receipt_address(&program, "Ref1", bump);
        match expected {
            Ok(key) => {
                found += 1;
                assert_eq!(ours, Ok(Address::new(key.to_bytes())));
                assert_ne!(ours, Ok(program));
            }
            Err(_) => assert_eq!(ours, Err(ProgramError::Host(14 << 32))),
        }
    }
    assert!(found > 0);
}

#[test]
fn receipt_address_refuses_bad_references() {
    let program = card_program::address::id();
    assert_eq!(
        card_program::receipt::receipt_address(&program, "Ref0", 7),
        Err(ProgramError::InvalidArgument)
    );
    let long = "2".repeat(60);
    assert!(bs58::decode(&long).into_vec().unwrap().len() > 32);
    assert_eq!(
        card_program::receipt::receipt_address(&program, &long, 7),
        Err(ProgramError::Host(13 << 32))
    );
}
