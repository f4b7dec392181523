use card_program::account::AccountInfo;
use card_program::address::{id, native_mint, token_program, Address};
use card_program::cpi::Invocation;
use card_program::error::{ProgramError, ProgramResult};
use card_program::instruction::InitCardArgs;
use card_program::processor::{init, Action, Leg, Progress, Stage};

fn address(tag: u8) -> Address {
    Address::new([tag; 32])
}

fn rent_account() -> AccountInfo {
    let key = bs58::decode("SysvarRent111111111111111111111111111111111").into_vec().unwrap();
    let mut data = Vec::new();
    data.extend_from_slice(&3480u64.to_le_bytes());
    data.extend_from_slice(&2.0f64.to_le_bytes());
    data.push(50);
    AccountInfo {
        key: Address::new(key.try_into().unwrap()),
        owner: address(200),
        lamports: 1,
        data,
        is_signer: false,
        is_writable: false,
    }
}

fn plain(tag: u8, lamports: u64) -> AccountInfo {
    AccountInfo {
        key: address(tag),
        owner: Address::new([0; 32]),
        lamports,
        data: Vec::new(),
        is_signer: false,
        is_writable: true,
    }
}

fn mint_account(key: Address, decimals: u8) -> AccountInfo {
    let mint = spl_token_2022::state::Mint {
        mint_authority: solana_program::program_option::COption::None,
        supply: 1_000_000,
        decimals,
        is_initialized: true,
        freeze_authority: solana_program::program_option::COption::None,
    };
    let mut data = vec![0u8; 82];
    solana_program::program_pack::Pack::pack(mint, &mut data).unwrap();
    AccountInfo { key, owner: token_program(), lamports: 1_000, data, is_signer: false, is_writable: false }
}

fn holding_account(key: Address, mint: Address, owner: Address, program: Address) -> AccountInfo {
    let account = spl_token_2022::state::Account {
        mint: mint.to_bytes().into(),
        owner: owner.to_bytes().into(),
        amount: 5,
        delegate: solana_program::program_option::COption::None,
        state: spl_token_2022::state::AccountState::Initialized,
        is_native: solana_program::program_option::COption::None,
        delegated_amount: 0,
        close_authority: solana_program::program_option::COption::None,
    };
    let mut data = vec![0u8; 165];
    solana_program::program_pack::Pack::pack(account, &mut data).unwrap();
    AccountInfo { key, owner: program, lamports: 2_039_280, data, is_signer: false, is_writable: true }
}

const PAYER: u8 = 1;
const WALLET: u8 = 2;
const STAMP: u8 = 3;
const SRC_MINT: u8 = 4;
const DST_MINT: u8 = 5;
const PAYER_TOKEN: u8 = 6;
const IN_TOKEN: u8 = 7;
const OUT_TOKEN: u8 = 8;
const DST_WALLET: u8 = 9;
const DST_TOKEN: u8 = 10;
const SYSTEM: u8 = 12;

/// The twelve fixed accounts, with both assets the wrapped native asset.
fn native_accounts() -> Vec<AccountInfo> {
    let mut payer = plain(PAYER, 10_000_000);
    payer.is_signer = true;
    let mut wallet = plain(WALLET, 50_000);
    wallet.is_signer = true;
    let mut src_mint = mint_account(native_mint(), 9);
    src_mint.lamports = 1;
    let dst_mint = src_mint.clone();
    vec![
        payer,
        wallet,
        plain(STAMP, 0),
        src_mint,
        dst_mint,
        plain(PAYER_TOKEN, 0),
        plain(IN_TOKEN, 0),
        plain(OUT_TOKEN, 0),
        plain(DST_WALLET, 0),
        plain(DST_TOKEN, 0),
        rent_account(),
        plain(SYSTEM, 1),
    ]
}

fn args(reference: &str) -> InitCardArgs {
    InitCardArgs {
        bump: 7,
        reference: reference.to_string(),
        memo: "memo".to_string(),
        network_fee: 10,
        amount: 1000,
        platform_fee: None,
        referrer_fee: None,
    }
}

/// Does what a ledger does with an action, as far as the program looks at it afterwards.
fn perform(accounts: &mut Vec<AccountInfo>, action: &Action) -> ProgramResult {
    match action {
        Action::Pay { .. } => Ok(()),
        Action::CreateReceipt { calls } => {
            let receipt = calls.last().unwrap().accounts[0];
            for account in accounts.iter_mut() {
                if account.key == receipt {
                    account.lamports = 897_840;
                    account.data = vec![0u8; 1];
                    account.owner = id();
                }
            }
            Ok(())
        }
        Action::StoreReceipt { account: receipt, data } => {
            for account in accounts.iter_mut() {
                if account.key == *receipt {
                    account.data = data.clone();
                }
            }
            Ok(())
        }
        Action::Finish(result) => *result,
    }
}

/// Drives one invocation to its end and returns how it ended and what it asked for.
fn drive(accounts: &mut Vec<AccountInfo>, args: &InitCardArgs) -> (Progress, Vec<Action>) {
    let program = id();
    let mut progress = Progress::Resolving;
    let mut outcome = Ok(());
    let mut actions = Vec::new();
    for _ in 0..16 {
        let (next, action) = init(&program, accounts, args, progress, outcome);
        progress = next;
        outcome = perform(accounts, &action);
        let finished = matches!(action, Action::Finish(_));
        actions.push(action);
        if finished {
            break;
        }
    }
    (progress, actions)
}

fn seeds(reference: &[u8], bump: u8) -> Vec<Vec<u8>> {
    vec![b"stamp".to_vec(), reference.to_vec(), vec![bump]]
}

fn system_data(tag: u32, rest: &[u8]) -> Vec<u8> {
    let mut data = tag.to_le_bytes().to_vec();
    data.extend_from_slice(rest);
    data
}

fn only_call(action: &Action) -> &Invocation {
    match action {
        Action::Pay { payment, .. } => {
            assert_eq!(payment.calls.len(), 1);
            &payment.calls[0]
        }
        _ => panic!("not a payment"),
    }
}

#[test]
fn native_init_pays_principal_then_network_fee_then_writes_receipt() {
    let mut accounts = native_accounts();
    let (progress, actions) = drive(&mut accounts, &args("Ref1"));
    assert_eq!(progress, Progress::Done);
    assert_eq!(actions.len(), 5);

    match &actions[0] {
        Action::Pay { leg, payment } => {
            assert_eq!(*leg, Leg::Principal);
            assert!(payment.native);
            assert!(!payment.provisioned);
            assert_eq!(payment.amount, 1000);
        }
        other => panic!("unexpected {:?}", other),
    }
    let principal = only_call(&actions[0]);
    assert_eq!(principal.instruction.program_id, Address::new([0; 32]));
    assert_eq!(principal.instruction.data, system_data(2, &1000u64.to_le_bytes()));
    assert_eq!(principal.accounts, vec![address(WALLET), address(DST_WALLET)]);
    assert_eq!(principal.instruction.accounts[0].pubkey, address(WALLET));
    assert!(principal.instruction.accounts[0].is_signer);
    assert_eq!(principal.instruction.accounts[1].pubkey, address(DST_WALLET));
    assert!(principal.signer_seeds.is_empty());

    match &actions[1] {
        Action::Pay { leg, payment } => {
            assert_eq!(*leg, Leg::NetworkFee);
            assert!(payment.native);
            assert_eq!(payment.amount, 10);
        }
        other => panic!("unexpected {:?}", other),
    }
    let fee = only_call(&actions[1]);
    assert_eq!(fee.instruction.data, system_data(2, &10u64.to_le_bytes()));
    assert_eq!(fee.accounts, vec![address(WALLET), address(PAYER)]);

    match &actions[2] {
        Action::CreateReceipt { calls } => {
            assert_eq!(calls.len(), 3);
            assert_eq!(calls[0].instruction.data, system_data(2, &897_840u64.to_le_bytes()));
            assert_eq!(calls[0].accounts, vec![address(PAYER), address(STAMP), address(SYSTEM)]);
            assert!(calls[0].signer_seeds.is_empty());
            assert_eq!(calls[1].instruction.data, system_data(8, &1u64.to_le_bytes()));
            assert_eq!(calls[1].accounts, vec![address(STAMP), address(SYSTEM)]);
            assert_eq!(calls[1].signer_seeds, seeds(&[73, 98, 144], 7));
            assert_eq!(calls[2].instruction.data, system_data(1, &id().to_bytes()));
            assert_eq!(calls[2].signer_seeds, seeds(&[73, 98, 144], 7));
        }
        other => panic!("unexpected {:?}", other),
    }
    assert_eq!(actions[3], Action::StoreReceipt { account: address(STAMP), data: vec![1] });
    assert_eq!(actions[4], Action::Finish(Ok(())));
    assert_eq!(accounts[2].data, vec![1]);
}

#[test]
fn receipt_seeds_are_those_of_the_derived_address() {
    let mut accounts = native_accounts();
    let (_, actions) = drive(&mut accounts, &args("Ref1"));
    let signer = match &actions[2] {
        Action::CreateReceipt { calls } => calls[1].signer_seeds.clone(),
        other => panic!("unexpected {:?}", other),
    };
    let decoded = bs58::decode("Ref1").into_vec().unwrap();
    assert_eq!(signer, vec![b"stamp".to_vec(), decoded.clone(), vec![7u8]]);
    let program = solana_program::pubkey::Pubkey::new_from_array(id().to_bytes());
    let from_seeds = solana_program::pubkey::Pubkey::create_program_address(
        &[&signer[0], &signer[1], &signer[2]],
        &program,
    );
    let expected = solana_program::pubkey::Pubkey::create_program_address(
        &[b"stamp", &decoded, &[7]],
        &program,
    );
    assert_eq!(from_seeds, expected);
}

#[test]
fn token_init_creates_missing_destination_holding_before_transfer() {
    let mut accounts = native_accounts();
    let asset = address(77);
    accounts[4] = mint_account(asset, 6);
    let (progress, actions) = drive(&mut accounts, &args("Ref1"));
    assert_eq!(progress, Progress::Done);
    match &actions[0] {
        Action::Pay { leg, payment } => {
            assert_eq!(*leg, Leg::Principal);
            assert!(!payment.native);
            assert!(payment.provisioned);
            assert_eq!(payment.amount, 1000);
            assert_eq!(payment.calls.len(), 2);
            let create = &payment.calls[0];
            let expected = spl_associated_token_account::instruction::create_associated_token_account(
                &address(PAYER).to_bytes().into(),
                &address(DST_WALLET).to_bytes().into(),
                &asset.to_bytes().into(),
                &token_program().to_bytes().into(),
            );
            assert_eq!(create.instruction.program_id.to_bytes(), expected.program_id.to_bytes());
            assert_eq!(create.instruction.data, vec![0]);
            assert_eq!(create.instruction.accounts.len(), 6);
            for (ours, theirs) in create.instruction.accounts.iter().zip(expected.accounts.iter()) {
                assert_eq!(ours.pubkey.to_bytes(), theirs.pubkey.to_bytes());
                assert_eq!(ours.is_signer, theirs.is_signer);
                assert_eq!(ours.is_writable, theirs.is_writable);
            }
            assert_eq!(create.instruction.accounts[0].pubkey, address(PAYER));
            assert_eq!(create.instruction.accounts[2].pubkey, address(DST_WALLET));
            assert_eq!(create.instruction.accounts[3].pubkey, asset);
            assert_eq!(
                create.accounts,
                vec![address(PAYER), address(DST_TOKEN), address(DST_WALLET), asset, accounts[10].key]
            );
            let transfer = &payment.calls[1];
            assert_eq!(transfer.instruction.program_id, token_program());
            let mut data = vec![12u8];
            data.extend_from_slice(&1000u64.to_le_bytes());
            data.push(6);
            assert_eq!(transfer.instruction.data, data);
            assert_eq!(
                transfer.accounts,
                vec![address(OUT_TOKEN), asset, address(DST_TOKEN), address(WALLET)]
            );
            assert!(transfer.instruction.accounts[3].is_signer);
            assert!(!transfer.instruction.accounts[3].is_writable);
            assert!(transfer.instruction.accounts[0].is_writable);
            assert!(!transfer.instruction.accounts[1].is_writable);
        }
        other => panic!("unexpected {:?}", other),
    }
    // The network fee is still paid in the source asset, which is native here.
    match &actions[1] {
        Action::Pay { leg, payment } => {
            assert_eq!(*leg, Leg::NetworkFee);
            assert!(payment.native);
        }
        other => panic!("unexpected {:?}", other),
    }
}

#[test]
fn second_init_fails_with_already_initialized() {
    let mut accounts = native_accounts();
    let (first, _) = drive(&mut accounts, &args("Ref1"));
    assert_eq!(first, Progress::Done);
    let wallet_before = accounts[1].lamports;
    let (second, actions) = drive(&mut accounts, &args("Ref1"));
    assert_eq!(second, Progress::Aborted(ProgramError::AlreadyInitialized));
    assert_eq!(second.stage(), Stage::Aborted);
    assert_eq!(actions.last(), Some(&Action::Finish(Err(ProgramError::AlreadyInitialized))));
    assert!(actions.iter().all(|a| !matches!(a, Action::CreateReceipt { .. } | Action::StoreReceipt { .. })));
    assert_eq!(accounts[1].lamports, wallet_before);
    assert_eq!(accounts[2].data, vec![1]);
}

#[test]
fn used_receipt_is_refused_for_balance_alone_and_for_data_alone() {
    let mut accounts = native_accounts();
    accounts[2].lamports = 1;
    let (progress, _) = drive(&mut accounts, &args("Ref1"));
    assert_eq!(progress, Progress::Aborted(ProgramError::AlreadyInitialized));
    let mut accounts = native_accounts();
    accounts[2].data = vec![0];
    let (progress, _) = drive(&mut accounts, &args("Ref1"));
    assert_eq!(progress, Progress::Aborted(ProgramError::AlreadyInitialized));
}

#[test]
fn all_four_legs_take_their_amounts_out_of_the_wallet() {
    let mut accounts = native_accounts();
    accounts.push(plain(20, 0));
    accounts.push(plain(21, 0));
    accounts.push(plain(22, 0));
    accounts.push(plain(23, 0));
    let mut a = args("Ref1");
    a.platform_fee = Some(30);
    a.referrer_fee = Some(4);
    let (progress, actions) = drive(&mut accounts, &a);
    assert_eq!(progress, Progress::Done);
    let mut legs = Vec::new();
    let mut total = 0u64;
    for action in &actions {
        if let Action::Pay { leg, payment } = action {
            legs.push((*leg, payment.amount));
            total += payment.amount;
        }
    }
    assert_eq!(
        legs,
        vec![
            (Leg::PlatformFee, 30),
            (Leg::ReferrerFee, 4),
            (Leg::Principal, 1000),
            (Leg::NetworkFee, 10)
        ]
    );
    assert_eq!(total, 1000 + 10 + 30 + 4);
    assert_eq!(only_call(&actions[0]).accounts, vec![address(WALLET), address(20)]);
    assert_eq!(only_call(&actions[1]).accounts, vec![address(WALLET), address(22)]);
}

#[test]
fn referrer_alone_stands_right_after_the_fixed_accounts() {
    let mut accounts = native_accounts();
    accounts.push(plain(22, 0));
    accounts.push(plain(23, 0));
    let mut a = args("Ref1");
    a.referrer_fee = Some(4);
    let (progress, actions) = drive(&mut accounts, &a);
    assert_eq!(progress, Progress::Done);
    match &actions[0] {
        Action::Pay { leg, payment } => {
            assert_eq!(*leg, Leg::ReferrerFee);
            assert_eq!(payment.amount, 4);
        }
        other => panic!("unexpected {:?}", other),
    }
    assert_eq!(only_call(&actions[0]).accounts, vec![address(WALLET), address(22)]);
}

#[test]
fn zero_amount_is_paid_like_any_other() {
    let mut accounts = native_accounts();
    let mut a = args("Ref1");
    a.amount = 0;
    let (progress, actions) = drive(&mut accounts, &a);
    assert_eq!(progress, Progress::Done);
    assert_eq!(only_call(&actions[0]).instruction.data, system_data(2, &0u64.to_le_bytes()));
}

#[test]
fn missing_accounts_end_the_invocation_before_any_payment() {
    let mut accounts = native_accounts();
    accounts.pop();
    let (progress, actions) = drive(&mut accounts, &args("Ref1"));
    assert_eq!(progress, Progress::Aborted(ProgramError::MissingAccount));
    assert_eq!(actions, vec![Action::Finish(Err(ProgramError::MissingAccount))]);

    let mut accounts = native_accounts();
    accounts.push(plain(20, 0));
    let mut a = args("Ref1");
    a.platform_fee = Some(30);
    let (progress, actions) = drive(&mut accounts, &a);
    assert_eq!(progress, Progress::Aborted(ProgramError::MissingAccount));
    assert_eq!(actions.len(), 1);

    let mut accounts = native_accounts();
    accounts.push(plain(20, 0));
    accounts.push(plain(21, 0));
    a.referrer_fee = Some(4);
    let (progress, _) = drive(&mut accounts, &a);
    assert_eq!(progress, Progress::Aborted(ProgramError::MissingAccount));
}

#[test]
fn reference_that_is_not_base58_fails_with_invalid_argument() {
    let mut accounts = native_accounts();
    let (progress, actions) = drive(&mut accounts, &args("0OIl"));
    assert_eq!(progress, Progress::Aborted(ProgramError::InvalidArgument));
    assert_eq!(actions.last(), Some(&Action::Finish(Err(ProgramError::InvalidArgument))));
    assert!(actions.iter().all(|a| !matches!(a, Action::CreateReceipt { .. } | Action::StoreReceipt { .. })));
    assert!(accounts[2].data.is_empty());
}

#[test]
fn existing_holding_of_the_right_wallet_is_left_alone() {
    let asset = address(77);
    let mut accounts = native_accounts();
    accounts[4] = mint_account(asset, 6);
    accounts[9] = holding_account(address(DST_TOKEN), asset, address(DST_WALLET), token_program());
    for _ in 0..2 {
        let mut copy = accounts.clone();
        let (progress, actions) = drive(&mut copy, &args("Ref1"));
        assert_eq!(progress, Progress::Done);
        match &actions[0] {
            Action::Pay { payment, .. } => {
                assert!(!payment.provisioned);
                assert_eq!(payment.calls.len(), 1);
                assert_eq!(payment.calls[0].instruction.program_id, token_program());
            }
            other => panic!("unexpected {:?}", other),
        }
    }
}

#[test]
fn existing_holding_of_another_wallet_fails_with_illegal_owner() {
    let asset = address(77);
    let mut accounts = native_accounts();
    accounts[4] = mint_account(asset, 6);
    accounts[9] = holding_account(address(DST_TOKEN), asset, address(99), token_program());
    let (progress, actions) = drive(&mut accounts, &args("Ref1"));
    assert_eq!(progress, Progress::Aborted(ProgramError::IllegalOwner));
    assert_eq!(actions, vec![Action::Finish(Err(ProgramError::IllegalOwner))]);
}

#[test]
fn existing_holding_owned_by_another_program_fails_with_illegal_owner() {
    let asset = address(77);
    let mut accounts = native_accounts();
    accounts[4] = mint_account(asset, 6);
    accounts[9] = holding_account(address(DST_TOKEN), asset, address(DST_WALLET), address(98));
    let (progress, _) = drive(&mut accounts, &args("Ref1"));
    assert_eq!(progress, Progress::Aborted(ProgramError::IllegalOwner));
}

#[test]
fn existing_holding_that_is_not_initialized_fails() {
    let asset = address(77);
    let mut accounts = native_accounts();
    accounts[4] = mint_account(asset, 6);
    let mut holding = holding_account(address(DST_TOKEN), asset, address(DST_WALLET), token_program());
    holding.data = vec![0u8; 165];
    accounts[9] = holding;
    let (progress, _) = drive(&mut accounts, &args("Ref1"));
    assert_eq!(progress, Progress::Aborted(ProgramError::UninitializedAccount));

    let mut accounts = native_accounts();
    accounts[4] = mint_account(asset, 6);
    let mut holding = holding_account(address(DST_TOKEN), asset, address(DST_WALLET), token_program());
    holding.data = vec![1u8; 3];
    accounts[9] = holding;
    let (progress, _) = drive(&mut accounts, &args("Ref1"));
    assert_eq!(progress, Progress::Aborted(ProgramError::InvalidAccountData));
}

#[test]
fn failed_request_ends_the_invocation_with_its_failure() {
    let accounts = native_accounts();
    let a = args("Ref1");
    let (progress, action) = init(&id(), &accounts, &a, Progress::Resolving, Ok(()));
    assert_eq!(progress, Progress::Paying(Leg::Principal));
    assert_eq!(progress.stage(), Stage::PayingPrincipal);
    assert!(matches!(action, Action::Pay { .. }));
    let (progress, action) = init(&id(), &accounts, &a, progress, Err(ProgramError::Host(1)));
    assert_eq!(progress, Progress::Aborted(ProgramError::Host(1)));
    assert!(progress.is_final());
    assert_eq!(action, Action::Finish(Err(ProgramError::Host(1))));
    let (progress, action) = init(&id(), &accounts, &a, progress, Ok(()));
    assert_eq!(progress, Progress::Aborted(ProgramError::Host(1)));
    assert_eq!(action, Action::Finish(Err(ProgramError::Host(1))));
    let (progress, action) = init(&id(), &accounts, &a, Progress::Done, Ok(()));
    assert_eq!(progress, Progress::Done);
    assert_eq!(action, Action::Finish(Ok(())));
}

#[test]
fn receipt_that_reports_initialized_after_creation_is_refused() {
    let mut accounts = native_accounts();
    let a = args("Ref1");
    accounts[2].data = vec![1];
    let (progress, action) = init(&id(), &accounts, &a, Progress::CreatingReceipt, Ok(()));
    assert_eq!(progress, Progress::Aborted(ProgramError::AlreadyInitialized));
    assert_eq!(action, Action::Finish(Err(ProgramError::AlreadyInitialized)));
    accounts[2].data = vec![0, 0];
    let (progress, _) = init(&id(), &accounts, &a, Progress::CreatingReceipt, Ok(()));
    assert_eq!(progress, Progress::Aborted(ProgramError::InvalidAccountData));
}

#[test]
fn network_fee_follows_the_source_asset_and_the_rest_the_destination_asset() {
    let source = address(66);
    let mut accounts = native_accounts();
    accounts[3] = mint_account(source, 2);
    accounts[5] = holding_account(address(PAYER_TOKEN), source, address(PAYER), token_program());
    let (progress, actions) = drive(&mut accounts, &args("Ref1"));
    assert_eq!(progress, Progress::Done);
    match &actions[0] {
        Action::Pay { leg, payment } => {
            assert_eq!(*leg, Leg::Principal);
            assert!(payment.native);
            assert_eq!(payment.calls[0].accounts, vec![address(WALLET), address(DST_WALLET)]);
        }
        other => panic!("unexpected {:?}", other),
    }
    match &actions[1] {
        Action::Pay { leg, payment } => {
            assert_eq!(*leg, Leg::NetworkFee);
            assert!(!payment.native);
            assert!(!payment.provisioned);
            assert_eq!(payment.amount, 10);
            assert_eq!(payment.calls.len(), 1);
            let mut data = vec![12u8];
            data.extend_from_slice(&10u64.to_le_bytes());
            data.push(2);
            assert_eq!(payment.calls[0].instruction.data, data);
            assert_eq!(
                payment.calls[0].accounts,
                vec![address(IN_TOKEN), source, address(PAYER_TOKEN), address(WALLET)]
            );
        }
        other => panic!("unexpected {:?}", other),
    }
}
