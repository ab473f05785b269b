use sobi::account::Account;
use sobi::address::Address;
use sobi::error::AppError;
use sobi::instruction::{burn, configure, create_token, mint, AppInstruction};
use sobi::ledger::{
    create_or_allocate_account_raw, spl_token_burn, spl_token_create_mint, spl_token_mint_to, AccountMeta,
    Instruction, LedgerCall,
};
use sobi::processor::{
    authorize, check_environment, process_burn, process_configure, process_create_token, process_instruction,
    process_mint, RentQuote, Transition,
};
use sobi::state::{BurnArgs, ConfigureArgs, ConfigureData, CreateTokenArgs, MintArgs, TokenData};
use solana_program::program_pack::Pack;
use solana_program::pubkey::Pubkey;

const PROGRAM: [u8; 32] = [7u8; 32];
const ADMIN: [u8; 32] = [1u8; 32];
const STRANGER: [u8; 32] = [2u8; 32];
const MINT: [u8; 32] = [9u8; 32];
const WALLET: [u8; 32] = [3u8; 32];

fn plain(key: [u8; 32]) -> Account {
    Account {
        key: Address::new(key),
        owner: Address::new([0u8; 32]),
        is_signer: false,
        is_writable: true,
        lamports: 0,
        data: Vec::new(),
    }
}

fn signing(key: [u8; 32]) -> Account {
    let mut a = plain(key);
    a.is_signer = true;
    a.lamports = 1_000_000;
    a
}

fn derived(seeds: &[&[u8]]) -> ([u8; 32], u8) {
    let (key, bump) = Pubkey::find_program_address(seeds, &Pubkey::new_from_array(PROGRAM));
    (key.to_bytes(), bump)
}

fn config_key() -> ([u8; 32], u8) {
    derived(&[&PROGRAM, b"config"])
}

fn token_info_key() -> ([u8; 32], u8) {
    derived(&[&PROGRAM, &MINT, b"token_info"])
}

fn mint_auth_key() -> ([u8; 32], u8) {
    derived(&[&PROGRAM, &MINT, b"mint_auth"])
}

fn token_program() -> Account {
    plain(spl_token::id().to_bytes())
}

fn rent_sysvar() -> Account {
    plain(solana_program::sysvar::rent::id().to_bytes())
}

fn system_program() -> Account {
    plain(solana_program::system_program::id().to_bytes())
}

fn quote() -> RentQuote {
    RentQuote { configure_data: 1_113_600, token_data: 1_691_280, mint: 1_461_600 }
}

fn program() -> Address {
    Address::new(PROGRAM)
}

fn metas(ix: &solana_program::instruction::Instruction) -> Vec<AccountMeta> {
    ix.accounts
        .iter()
        .map(|m| AccountMeta {
            pubkey: Address::new(m.pubkey.to_bytes()),
            is_signer: m.is_signer,
            is_writable: m.is_writable,
        })
        .collect()
}

fn same_instruction(ours: &Instruction, theirs: &solana_program::instruction::Instruction) {
    assert_eq!(ours.program_id, Address::new(theirs.program_id.to_bytes()));
    assert_eq!(ours.accounts, metas(theirs));
    assert_eq!(ours.data, theirs.data);
}

fn configured(authority: [u8; 32]) -> Account {
    let mut config = plain(config_key().0);
    config.owner = program();
    config.data = authority.to_vec();
    config
}

fn token_record(supply: u64) -> Account {
    let record = TokenData {
        name: "Sobi".to_string(),
        symbol: "SB".to_string(),
        decimals: 9,
        mint: Address::new(MINT),
        creator: Address::new(ADMIN),
        supply,
    };
    let mut account = plain(token_info_key().0);
    account.owner = program();
    account.data = vec![0u8; 115];
    record.save(&mut account.data).unwrap();
    account
}

fn mint_accounts(signer: [u8; 32], supply: u64) -> Vec<Account> {
    vec![
        signing(signer),
        configured(ADMIN),
        plain(MINT),
        plain(WALLET),
        token_record(supply),
        plain(mint_auth_key().0),
        token_program(),
        rent_sysvar(),
        system_program(),
    ]
}

fn burn_accounts(signer: [u8; 32], supply: u64) -> Vec<Account> {
    vec![
        signing(signer),
        configured(ADMIN),
        plain(MINT),
        plain(WALLET),
        token_record(supply),
        token_program(),
        rent_sysvar(),
        system_program(),
    ]
}

fn create_accounts() -> Vec<Account> {
    vec![
        signing(ADMIN),
        plain(token_info_key().0),
        plain(MINT),
        plain(mint_auth_key().0),
        plain([11u8; 32]),
        plain([12u8; 32]),
        token_program(),
        rent_sysvar(),
        system_program(),
    ]
}

fn create_args() -> CreateTokenArgs {
    CreateTokenArgs {
        name: "Sobi".to_string(),
        symbol: "SB".to_string(),
        uri: "https://example.org/t.json".to_string(),
        decimals: 9,
    }
}

fn supply_of(account: &Account) -> u64 {
    TokenData::from_account_info(account).unwrap().supply
}

#[test]
fn configure_records_the_authority() {
    let accounts = vec![signing(ADMIN), plain(config_key().0), rent_sysvar(), system_program()];
    let t = process_configure(&program(), &accounts, ConfigureArgs { authority: Address::new(ADMIN) }, &quote())
        .unwrap();
    assert_eq!(t.account, Address::new(config_key().0));
    assert_eq!(t.calls.len(), 3);
    let mut config = accounts[1].clone();
    assert_eq!(t.settle(true, &mut config.data), Ok(()));
    assert_eq!(config.data.len(), 32);
    assert_eq!(ConfigureData::from_account_info(&config).unwrap().authority, Address::new(ADMIN));
}

#[test]
fn configure_provisions_a_new_record() {
    let accounts = vec![signing(ADMIN), plain(config_key().0), rent_sysvar(), system_program()];
    let t = process_configure(&program(), &accounts, ConfigureArgs { authority: Address::new(ADMIN) }, &quote())
        .unwrap();
    let me = Pubkey::new_from_array(ADMIN);
    let config = Pubkey::new_from_array(config_key().0);
    let seeds = vec![PROGRAM.to_vec(), b"config".to_vec(), vec![config_key().1]];
    same_instruction(
        &t.calls[0].instruction,
        &solana_program::system_instruction::transfer(&me, &config, 1_113_600),
    );
    assert_eq!(t.calls[0].signer_seeds, None);
    assert_eq!(
        t.calls[0].accounts,
        vec![Address::new(ADMIN), Address::new(config_key().0), system_program().key]
    );
    same_instruction(&t.calls[1].instruction, &solana_program::system_instruction::allocate(&config, 32));
    assert_eq!(t.calls[1].signer_seeds, Some(seeds.clone()));
    assert_eq!(t.calls[1].accounts, vec![Address::new(config_key().0), system_program().key]);
    same_instruction(
        &t.calls[2].instruction,
        &solana_program::system_instruction::assign(&config, &Pubkey::new_from_array(PROGRAM)),
    );
    assert_eq!(t.calls[2].signer_seeds, Some(seeds));
}

#[test]
fn configure_again_overwrites_without_calls() {
    let accounts = vec![signing(STRANGER), configured(ADMIN), rent_sysvar(), system_program()];
    let t = process_configure(&program(), &accounts, ConfigureArgs { authority: Address::new(STRANGER) }, &quote())
        .unwrap();
    assert!(t.calls.is_empty());
    assert_eq!(t.data, STRANGER.to_vec());
}

#[test]
fn configure_checks_signer_and_address() {
    let args = ConfigureArgs { authority: Address::new(ADMIN) };
    let unsigned = vec![plain(ADMIN), plain(config_key().0), rent_sysvar(), system_program()];
    assert_eq!(
        process_configure(&program(), &unsigned, args, &quote()),
        Err(AppError::MissingRequiredSignature)
    );
    let elsewhere = vec![signing(ADMIN), plain([5u8; 32]), rent_sysvar(), system_program()];
    assert_eq!(process_configure(&program(), &elsewhere, args, &quote()), Err(AppError::InvalidDerivedKey));
    let few = vec![signing(ADMIN), plain(config_key().0), rent_sysvar()];
    assert_eq!(process_configure(&program(), &few, args, &quote()), Err(AppError::NotEnoughAccountKeys));
}

#[test]
fn provisioning_pays_only_the_shortfall() {
    let mut target = plain([5u8; 32]);
    let seeds: Vec<Vec<u8>> = vec![b"x".to_vec()];
    target.lamports = 100;
    let calls =
        create_or_allocate_account_raw(program(), &target, &system_program(), &signing(ADMIN), 250, 10, &seeds);
    assert_eq!(calls.len(), 3);
    same_instruction(
        &calls[0].instruction,
        &solana_program::system_instruction::transfer(
            &Pubkey::new_from_array(ADMIN),
            &Pubkey::new_from_array([5u8; 32]),
            150,
        ),
    );
    same_instruction(
        &calls[1].instruction,
        &solana_program::system_instruction::allocate(&Pubkey::new_from_array([5u8; 32]), 10),
    );
    target.lamports = 250;
    let calls =
        create_or_allocate_account_raw(program(), &target, &system_program(), &signing(ADMIN), 250, 10, &seeds);
    assert_eq!(calls.len(), 2);
    target.lamports = 0;
    let calls = create_or_allocate_account_raw(program(), &target, &system_program(), &signing(ADMIN), 0, 10, &seeds);
    assert_eq!(calls.len(), 3);
    same_instruction(
        &calls[0].instruction,
        &solana_program::system_instruction::transfer(
            &Pubkey::new_from_array(ADMIN),
            &Pubkey::new_from_array([5u8; 32]),
            1,
        ),
    );
}

#[test]
fn create_token_writes_a_record_without_supply() {
    let accounts = create_accounts();
    let t = process_create_token(&program(), &accounts, create_args(), &quote()).unwrap();
    assert_eq!(t.account, Address::new(token_info_key().0));
    assert_eq!(t.data.len(), 115);
    let mut record = accounts[1].clone();
    assert_eq!(t.settle(true, &mut record.data), Ok(()));
    let data = TokenData::from_account_info(&record).unwrap();
    assert_eq!(
        data,
        TokenData {
            name: "Sobi".to_string(),
            symbol: "SB".to_string(),
            decimals: 9,
            mint: Address::new(MINT),
            creator: Address::new(ADMIN),
            supply: 0,
        }
    );
}

#[test]
fn create_token_creates_the_mint_then_the_record() {
    let accounts = create_accounts();
    let t = process_create_token(&program(), &accounts, create_args(), &quote()).unwrap();
    assert_eq!(t.calls.len(), 5);
    let me = Pubkey::new_from_array(ADMIN);
    let mint_key = Pubkey::new_from_array(MINT);
    let auth = Pubkey::new_from_array(mint_auth_key().0);
    let info = Pubkey::new_from_array(token_info_key().0);
    same_instruction(
        &t.calls[0].instruction,
        &solana_program::system_instruction::create_account(&me, &mint_key, 1_461_600, 82, &spl_token::id()),
    );
    assert_eq!(t.calls[0].signer_seeds, Some(Vec::new()));
    assert_eq!(t.calls[0].accounts, vec![Address::new(ADMIN), Address::new(MINT)]);
    same_instruction(
        &t.calls[1].instruction,
        &spl_token::instruction::initialize_mint(&spl_token::id(), &mint_key, &auth, Some(&auth), 9).unwrap(),
    );
    assert_eq!(
        t.calls[1].signer_seeds,
        Some(vec![PROGRAM.to_vec(), MINT.to_vec(), b"mint_auth".to_vec(), vec![mint_auth_key().1]])
    );
    assert_eq!(
        t.calls[1].accounts,
        vec![token_program().key, Address::new(MINT), Address::new(mint_auth_key().0), rent_sysvar().key]
    );
    same_instruction(&t.calls[2].instruction, &solana_program::system_instruction::transfer(&me, &info, 1_691_280));
    same_instruction(&t.calls[3].instruction, &solana_program::system_instruction::allocate(&info, 115));
    same_instruction(
        &t.calls[4].instruction,
        &solana_program::system_instruction::assign(&info, &Pubkey::new_from_array(PROGRAM)),
    );
    assert_eq!(
        t.calls[4].signer_seeds,
        Some(vec![PROGRAM.to_vec(), MINT.to_vec(), b"token_info".to_vec(), vec![token_info_key().1]])
    );
}

#[test]
fn create_token_checks_its_accounts() {
    let mut accounts = create_accounts();
    accounts[1] = plain([5u8; 32]);
    assert_eq!(
        process_create_token(&program(), &accounts, create_args(), &quote()),
        Err(AppError::InvalidDerivedKey)
    );
    let mut accounts = create_accounts();
    accounts[3] = plain([5u8; 32]);
    assert_eq!(
        process_create_token(&program(), &accounts, create_args(), &quote()),
        Err(AppError::InvalidDerivedKey)
    );
    let mut accounts = create_accounts();
    accounts[6] = plain([5u8; 32]);
    assert_eq!(process_create_token(&program(), &accounts, create_args(), &quote()), Err(AppError::InvalidEqPubkey));
    let mut accounts = create_accounts();
    accounts[0].is_signer = false;
    assert_eq!(
        process_create_token(&program(), &accounts, create_args(), &quote()),
        Err(AppError::MissingRequiredSignature)
    );
    let mut accounts = create_accounts();
    accounts.pop();
    assert_eq!(
        process_create_token(&program(), &accounts, create_args(), &quote()),
        Err(AppError::NotEnoughAccountKeys)
    );
}

#[test]
fn create_token_rejects_a_record_that_does_not_fit() {
    let mut args = create_args();
    args.name = "a name that is much too long for the record".to_string();
    assert_eq!(
        process_create_token(&program(), &create_accounts(), args, &quote()),
        Err(AppError::InvalidAccountData)
    );
}

#[test]
fn mint_after_create_adds_the_scaled_amount() {
    let created = create_accounts();
    let t = process_create_token(&program(), &created, create_args(), &quote()).unwrap();
    let mut accounts = mint_accounts(ADMIN, 0);
    accounts[4].data = Vec::new();
    t.settle(true, &mut accounts[4].data).unwrap();
    let t = process_mint(&program(), &accounts, MintArgs { amt: 1000 }).unwrap();
    assert_eq!(t.calls.len(), 1);
    let auth = Pubkey::new_from_array(mint_auth_key().0);
    same_instruction(
        &t.calls[0].instruction,
        &spl_token::instruction::mint_to(
            &spl_token::id(),
            &Pubkey::new_from_array(MINT),
            &Pubkey::new_from_array(WALLET),
            &auth,
            &[&auth],
            1_000_000_000_000,
        )
        .unwrap(),
    );
    assert_eq!(
        t.calls[0].signer_seeds,
        Some(vec![PROGRAM.to_vec(), MINT.to_vec(), b"mint_auth".to_vec(), vec![mint_auth_key().1]])
    );
    assert_eq!(
        t.calls[0].accounts,
        vec![
            token_program().key,
            Address::new(MINT),
            Address::new(WALLET),
            Address::new(mint_auth_key().0),
            rent_sysvar().key
        ]
    );
    t.settle(true, &mut accounts[4].data).unwrap();
    assert_eq!(supply_of(&accounts[4]), 1000 * 1_000_000_000);
}

#[test]
fn burn_after_mint_takes_the_scaled_amount() {
    let mut accounts = burn_accounts(ADMIN, 1000 * 1_000_000_000);
    let t = process_burn(&program(), &accounts, BurnArgs { amt: 1000 }).unwrap();
    assert_eq!(t.calls.len(), 1);
    let me = Pubkey::new_from_array(ADMIN);
    same_instruction(
        &t.calls[0].instruction,
        &spl_token::instruction::burn(
            &spl_token::id(),
            &Pubkey::new_from_array(WALLET),
            &Pubkey::new_from_array(MINT),
            &me,
            &[&me],
            1_000_000_000_000,
        )
        .unwrap(),
    );
    assert_eq!(t.calls[0].signer_seeds, None);
    t.settle(true, &mut accounts[4].data).unwrap();
    assert_eq!(supply_of(&accounts[4]), 0);
}

#[test]
fn burn_beyond_the_supply_underflows() {
    let accounts = burn_accounts(ADMIN, 1000 * 1_000_000_000);
    assert_eq!(process_burn(&program(), &accounts, BurnArgs { amt: 2000 }), Err(AppError::ArithmeticUnderflow));
    assert_eq!(supply_of(&accounts[4]), 1000 * 1_000_000_000);
}

#[test]
fn mint_by_a_stranger_is_refused() {
    let accounts = mint_accounts(STRANGER, 0);
    assert_eq!(process_mint(&program(), &accounts, MintArgs { amt: 1000 }), Err(AppError::InvalidEqPubkey));
    assert_eq!(supply_of(&accounts[4]), 0);
}

#[test]
fn burn_by_a_stranger_is_refused() {
    let accounts = burn_accounts(STRANGER, 500);
    assert_eq!(process_burn(&program(), &accounts, BurnArgs { amt: 0 }), Err(AppError::InvalidEqPubkey));
    assert_eq!(supply_of(&accounts[4]), 500);
}

#[test]
fn mint_that_overflows_is_refused() {
    let accounts = mint_accounts(ADMIN, 0);
    assert_eq!(
        process_mint(&program(), &accounts, MintArgs { amt: 18_446_744_074 }),
        Err(AppError::ArithmeticOverflow)
    );
    let accounts = mint_accounts(ADMIN, u64::MAX - 999_999_999);
    assert_eq!(process_mint(&program(), &accounts, MintArgs { amt: 1 }), Err(AppError::ArithmeticOverflow));
}

#[test]
fn mint_checks_in_order() {
    let mut accounts = mint_accounts(ADMIN, 0);
    accounts.pop();
    assert_eq!(process_mint(&program(), &accounts, MintArgs { amt: 1 }), Err(AppError::NotEnoughAccountKeys));
    let mut accounts = mint_accounts(ADMIN, 0);
    accounts[0].is_signer = false;
    accounts[6] = plain([5u8; 32]);
    assert_eq!(process_mint(&program(), &accounts, MintArgs { amt: 1 }), Err(AppError::MissingRequiredSignature));
    let mut accounts = mint_accounts(ADMIN, 0);
    accounts[7] = plain([5u8; 32]);
    accounts[1] = plain([5u8; 32]);
    assert_eq!(process_mint(&program(), &accounts, MintArgs { amt: 1 }), Err(AppError::InvalidEqPubkey));
    let mut accounts = mint_accounts(ADMIN, 0);
    accounts[1].key = Address::new([5u8; 32]);
    assert_eq!(process_mint(&program(), &accounts, MintArgs { amt: 1 }), Err(AppError::InvalidDerivedKey));
    let mut accounts = mint_accounts(ADMIN, 0);
    accounts[1].data = vec![1u8; 31];
    assert_eq!(process_mint(&program(), &accounts, MintArgs { amt: 1 }), Err(AppError::InvalidAccountData));
    let mut accounts = mint_accounts(ADMIN, 0);
    accounts[4].key = Address::new([5u8; 32]);
    assert_eq!(process_mint(&program(), &accounts, MintArgs { amt: 1 }), Err(AppError::InvalidDerivedKey));
    let mut accounts = mint_accounts(ADMIN, 0);
    accounts[5].key = Address::new([5u8; 32]);
    assert_eq!(process_mint(&program(), &accounts, MintArgs { amt: 1 }), Err(AppError::InvalidDerivedKey));
    let mut accounts = mint_accounts(ADMIN, 0);
    accounts[4].data.push(0);
    assert_eq!(process_mint(&program(), &accounts, MintArgs { amt: 1 }), Err(AppError::InvalidAccountData));
}

#[test]
fn burn_checks_in_order() {
    let mut accounts = burn_accounts(ADMIN, 5);
    accounts.pop();
    assert_eq!(process_burn(&program(), &accounts, BurnArgs { amt: 0 }), Err(AppError::NotEnoughAccountKeys));
    let mut accounts = burn_accounts(ADMIN, 5);
    accounts[7] = plain([5u8; 32]);
    assert_eq!(process_burn(&program(), &accounts, BurnArgs { amt: 0 }), Err(AppError::InvalidEqPubkey));
    let mut accounts = burn_accounts(ADMIN, 5);
    accounts[4].key = Address::new(mint_auth_key().0);
    assert_eq!(process_burn(&program(), &accounts, BurnArgs { amt: 0 }), Err(AppError::InvalidDerivedKey));
    let mut accounts = burn_accounts(ADMIN, 5);
    accounts[4].data.truncate(114);
    assert_eq!(process_burn(&program(), &accounts, BurnArgs { amt: 0 }), Err(AppError::InvalidAccountData));
    let accounts = burn_accounts(ADMIN, 5);
    assert_eq!(process_burn(&program(), &accounts, BurnArgs { amt: u64::MAX }), Err(AppError::ArithmeticOverflow));
}

#[test]
fn a_failed_call_writes_nothing() {
    let mut accounts = mint_accounts(ADMIN, 7);
    let before = accounts[4].data.clone();
    let t = process_mint(&program(), &accounts, MintArgs { amt: 1 }).unwrap();
    assert_eq!(t.settle(false, &mut accounts[4].data), Err(AppError::ExternalOperationFailed));
    assert_eq!(accounts[4].data, before);
}

#[test]
fn supply_is_minted_less_burned() {
    let mut accounts = mint_accounts(ADMIN, 0);
    let mut burning = burn_accounts(ADMIN, 0);
    let mut minted: u64 = 0;
    let mut burned: u64 = 0;
    for (amt, is_mint) in [(5u64, true), (2, false), (10, true), (13, false), (1, true)] {
        if is_mint {
            let t = process_mint(&program(), &accounts, MintArgs { amt }).unwrap();
            t.settle(true, &mut accounts[4].data).unwrap();
            minted += amt * 1_000_000_000;
        } else {
            burning[4].data = accounts[4].data.clone();
            let t = process_burn(&program(), &burning, BurnArgs { amt }).unwrap();
            t.settle(true, &mut accounts[4].data).unwrap();
            burned += amt * 1_000_000_000;
        }
        assert_eq!(supply_of(&accounts[4]), minted - burned);
    }
    assert_eq!(supply_of(&accounts[4]), 1_000_000_000);
}

#[test]
fn environment_and_authority_checks() {
    let me = signing(ADMIN);
    assert_eq!(check_environment(&me, &token_program(), &rent_sysvar(), &system_program()), Ok(()));
    assert_eq!(
        check_environment(&me, &rent_sysvar(), &rent_sysvar(), &system_program()),
        Err(AppError::InvalidEqPubkey)
    );
    assert_eq!(
        check_environment(&me, &token_program(), &system_program(), &system_program()),
        Err(AppError::InvalidEqPubkey)
    );
    assert_eq!(
        check_environment(&me, &token_program(), &rent_sysvar(), &rent_sysvar()),
        Err(AppError::InvalidEqPubkey)
    );
    assert_eq!(
        authorize(&program(), &me, &configured(ADMIN), &token_program(), &rent_sysvar(), &system_program()),
        Ok(())
    );
    assert_eq!(
        authorize(&program(), &me, &configured(STRANGER), &token_program(), &rent_sysvar(), &system_program()),
        Err(AppError::InvalidEqPubkey)
    );
}

#[test]
fn adapter_refuses_another_token_program() {
    let other = plain([5u8; 32]);
    let seeds: Vec<Vec<u8>> = Vec::new();
    assert_eq!(
        spl_token_burn(&other, &plain(MINT), &plain(WALLET), &signing(ADMIN), &rent_sysvar(), 1),
        Err(AppError::ExternalOperationFailed)
    );
    assert_eq!(
        spl_token_mint_to(&other, &plain(MINT), &plain(WALLET), &signing(ADMIN), &seeds, &rent_sysvar(), 1),
        Err(AppError::ExternalOperationFailed)
    );
    assert_eq!(
        spl_token_create_mint(
            &other,
            &signing(ADMIN),
            &plain(MINT),
            &plain(WALLET),
            &seeds,
            &seeds,
            &rent_sysvar(),
            1,
            9
        ),
        Err(AppError::ExternalOperationFailed)
    );
    let call: LedgerCall =
        spl_token_burn(&token_program(), &plain(MINT), &plain(WALLET), &signing(ADMIN), &rent_sysvar(), 258)
            .unwrap();
    assert_eq!(call.instruction.data, vec![8u8, 2, 1, 0, 0, 0, 0, 0, 0]);
}

#[test]
fn dispatch_runs_the_named_transition() {
    let accounts = mint_accounts(ADMIN, 0);
    let input = AppInstruction::MintToken(MintArgs { amt: 3 }).try_to_vec().unwrap();
    let t: Transition = process_instruction(&program(), &accounts, &input, &quote()).unwrap();
    assert_eq!(Ok(t), process_mint(&program(), &accounts, MintArgs { amt: 3 }));
    let accounts = burn_accounts(ADMIN, 3_000_000_000);
    let input = AppInstruction::BurnToken(BurnArgs { amt: 3 }).try_to_vec().unwrap();
    assert_eq!(
        process_instruction(&program(), &accounts, &input, &quote()),
        process_burn(&program(), &accounts, BurnArgs { amt: 3 })
    );
    let accounts = create_accounts();
    let input = AppInstruction::CreateToken(create_args()).try_to_vec().unwrap();
    assert_eq!(
        process_instruction(&program(), &accounts, &input, &quote()),
        process_create_token(&program(), &accounts, create_args(), &quote())
    );
    let accounts = vec![signing(ADMIN), plain(config_key().0), rent_sysvar(), system_program()];
    let args = ConfigureArgs { authority: Address::new(ADMIN) };
    let input = AppInstruction::Configure(args).try_to_vec().unwrap();
    assert_eq!(
        process_instruction(&program(), &accounts, &input, &quote()),
        process_configure(&program(), &accounts, args, &quote())
    );
    assert_eq!(
        process_instruction(&program(), &accounts, &vec![9u8], &quote()),
        Err(AppError::InvalidInstructionData)
    );
}

#[test]
fn builders_list_the_accounts_in_order() {
    let p = program();
    let key = |n: u8| Address::new([n; 32]);
    let rent = rent_sysvar().key;
    let system = system_program().key;
    let token = token_program().key;
    let w = |a: Address, s: bool| AccountMeta { pubkey: a, is_signer: s, is_writable: true };
    let r = |a: Address| AccountMeta { pubkey: a, is_signer: false, is_writable: false };
    let args = ConfigureArgs { authority: key(1) };
    let ix = configure(&p, &key(1), &key(2), args).unwrap();
    assert_eq!(ix.program_id, p);
    assert_eq!(ix.accounts, vec![w(key(1), true), w(key(2), false), r(rent), r(system)]);
    assert_eq!(ix.data, AppInstruction::Configure(args).try_to_vec().unwrap());
    let ix = mint(&p, &key(1), &key(2), &key(3), &key(4), &key(5), &key(6), &token, MintArgs { amt: 4 }).unwrap();
    assert_eq!(
        ix.accounts,
        vec![
            w(key(1), true),
            w(key(2), true),
            w(key(3), true),
            w(key(4), false),
            w(key(5), false),
            w(key(6), false),
            r(token),
            r(rent),
            r(system)
        ]
    );
    assert_eq!(ix.data, vec![2u8, 4, 0, 0, 0, 0, 0, 0, 0]);
    let ix = burn(&p, &key(1), &key(2), &key(3), &key(4), &key(5), &token, BurnArgs { amt: 4 }).unwrap();
    assert_eq!(
        ix.accounts,
        vec![
            w(key(1), true),
            w(key(2), true),
            w(key(3), true),
            w(key(4), false),
            w(key(5), false),
            r(token),
            r(rent),
            r(system)
        ]
    );
    assert_eq!(ix.data, vec![3u8, 4, 0, 0, 0, 0, 0, 0, 0]);
    let ix = create_token(&p, &key(1), &key(2), &key(3), &key(4), &key(5), &key(6), create_args()).unwrap();
    assert_eq!(
        ix.accounts,
        vec![
            w(key(1), true),
            w(key(2), false),
            w(key(3), false),
            w(key(4), false),
            w(key(5), false),
            r(key(6)),
            r(token),
            r(rent),
            r(system)
        ]
    );
    assert_eq!(ix.data, AppInstruction::CreateToken(create_args()).try_to_vec().unwrap());
}

#[test]
fn new_mint_has_a_mints_length() {
    let seeds: Vec<Vec<u8>> = Vec::new();
    let calls = spl_token_create_mint(
        &token_program(),
        &signing(ADMIN),
        &plain(MINT),
        &plain(WALLET),
        &seeds,
        &seeds,
        &rent_sysvar(),
        77,
        6,
    )
    .unwrap();
    assert_eq!(calls.len(), 2);
    assert_eq!(spl_token::state::Mint::LEN, 82);
    let mut data = vec![0u8, 0, 0, 0];
    data.extend_from_slice(&77u64.to_le_bytes());
    data.extend_from_slice(&82u64.to_le_bytes());
    data.extend_from_slice(&spl_token::id().to_bytes());
    assert_eq!(calls[0].instruction.data, data);
    let mut init = vec![0u8, 6];
    init.extend_from_slice(&WALLET);
    init.push(1);
    init.extend_from_slice(&WALLET);
    assert_eq!(calls[1].instruction.data, init);
}

#[test]
fn system_instruction_data_is_tag_and_fields() {
    let seeds: Vec<Vec<u8>> = vec![b"x".to_vec()];
    let calls = create_or_allocate_account_raw(
        program(),
        &plain([5u8; 32]),
        &system_program(),
        &signing(ADMIN),
        0x0102_0304,
        0x0a0b,
        &seeds,
    );
    assert_eq!(calls.len(), 3);
    assert_eq!(calls[0].instruction.data, vec![2u8, 0, 0, 0, 4, 3, 2, 1, 0, 0, 0, 0]);
    assert_eq!(calls[1].instruction.data, vec![8u8, 0, 0, 0, 0x0b, 0x0a, 0, 0, 0, 0, 0, 0]);
    let mut assign = vec![1u8, 0, 0, 0];
    assign.extend_from_slice(&PROGRAM);
    assert_eq!(calls[2].instruction.data, assign);
    assert_eq!(calls[0].instruction.program_id, Address::new([0u8; 32]));
}

#[test]
fn well_known_identifiers_have_their_bytes() {
    let token: [u8; 32] = [
        6, 221, 246, 225, 215, 101, 161, 147, 217, 203, 225, 70, 206, 235, 121, 172, 28, 180, 133, 237, 95, 91, 55,
        145, 58, 140, 245, 133, 126, 255, 0, 169,
    ];
    let rent: [u8; 32] = [
        6, 167, 213, 23, 25, 44, 92, 81, 33, 140, 201, 76, 61, 74, 241, 127, 88, 218, 238, 8, 155, 161, 253, 68, 227,
        219, 217, 138, 0, 0, 0, 0,
    ];
    let key = |n: u8| Address::new([n; 32]);
    let ix = create_token(&program(), &key(1), &key(2), &key(3), &key(4), &key(5), &key(6), create_args()).unwrap();
    assert_eq!(ix.accounts[6].pubkey.bytes, token);
    assert_eq!(ix.accounts[7].pubkey.bytes, rent);
    assert_eq!(ix.accounts[8].pubkey.bytes, [0u8; 32]);
    assert_eq!(spl_token::id().to_bytes(), token);
    assert_eq!(solana_program::sysvar::rent::id().to_bytes(), rent);
    assert_eq!(spl_token::id().to_string(), "TokenkegQfeZyiNwAJbNbGKPFXCWuBvf9Ss623VQ5DA");
    assert_eq!(solana_program::sysvar::rent::id().to_string(), "SysvarRent111111111111111111111111111111111");
    let ix = configure(&program(), &key(1), &key(2), ConfigureArgs { authority: key(1) }).unwrap();
    assert_eq!(ix.accounts[2].pubkey.bytes, rent);
    assert_eq!(ix.accounts[3].pubkey.bytes, [0u8; 32]);
}

#[test]
fn calls_end_at_the_first_rejected() {
    let t = process_create_token(&program(), &create_accounts(), create_args(), &quote()).unwrap();
    assert_eq!(t.calls.len(), 5);
    assert_eq!(t.next_call(0, true), Some(0));
    assert_eq!(t.next_call(3, true), Some(3));
    assert_eq!(t.next_call(4, true), Some(4));
    assert_eq!(t.next_call(5, true), None);
    assert_eq!(t.next_call(2, false), None);
    assert_eq!(t.next_call(0, false), None);
    let accounts = vec![signing(STRANGER), configured(ADMIN), rent_sysvar(), system_program()];
    let args = ConfigureArgs { authority: Address::new(STRANGER) };
    let t = process_configure(&program(), &accounts, args, &quote()).unwrap();
    assert_eq!(t.next_call(0, true), None);
}
