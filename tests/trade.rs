use escrow::error::EscrowError;
use escrow::instructions::EscrowInstruction;
use escrow::processor::{
    process_exchange, process_init, process_instruction, DataAccount, ExchangeAccounts,
    InitAccounts, ProcessError, TokenAccount, TradeAccounts,
};
use escrow::record::{Address, EscrowRecord, RECORD_LEN};

fn addr(b: u8) -> Address {
    Address { bytes: [b; 32] }
}

fn token(address: u8, owner: u8, amount: u64, lamports: u64) -> TokenAccount {
    TokenAccount { address: addr(address), owner: addr(owner), amount, lamports }
}

const INITIALIZER: u8 = 1;
const TEMP: u8 = 2;
const RECEIVING: u8 = 3;
const ESCROW: u8 = 4;
const AUTHORITY: u8 = 5;
const TAKER: u8 = 6;
const TAKER_SOURCE: u8 = 7;
const TAKER_DEST: u8 = 8;

fn init_accounts() -> InitAccounts {
    InitAccounts {
        initializer: addr(INITIALIZER),
        initializer_signed: true,
        temp_token_account: token(TEMP, INITIALIZER, 500, 2_000),
        receiving_token_account: addr(RECEIVING),
        escrow: DataAccount { address: addr(ESCROW), lamports: 3_000, data: vec![0u8; RECORD_LEN] },
        escrow_rent_exempt: true,
    }
}

fn initialized(amount: u64) -> InitAccounts {
    let mut a = init_accounts();
    assert_eq!(process_init(&mut a, amount, &addr(AUTHORITY)), Ok(()));
    a
}

fn exchange_accounts(init: &InitAccounts) -> ExchangeAccounts {
    ExchangeAccounts {
        taker: addr(TAKER),
        taker_signed: true,
        taker_lamports: 10,
        taker_source: token(TAKER_SOURCE, TAKER, 1_000_000, 1),
        taker_destination: token(TAKER_DEST, TAKER, 0, 1),
        custody: init.temp_token_account,
        initializer: addr(INITIALIZER),
        initializer_lamports: 100,
        initializer_receiving: token(RECEIVING, INITIALIZER, 7, 1),
        escrow: DataAccount {
            address: init.escrow.address,
            lamports: init.escrow.lamports,
            data: init.escrow.data.clone(),
        },
    }
}

fn same_state(a: &ExchangeAccounts, b: &ExchangeAccounts) -> bool {
    a.taker_lamports == b.taker_lamports
        && a.taker_source.amount == b.taker_source.amount
        && a.taker_destination.amount == b.taker_destination.amount
        && a.custody.amount == b.custody.amount
        && a.custody.lamports == b.custody.lamports
        && a.initializer_receiving.amount == b.initializer_receiving.amount
        && a.initializer_lamports == b.initializer_lamports
        && a.escrow.lamports == b.escrow.lamports
        && a.escrow.data == b.escrow.data
}

#[test]
fn init_writes_record_and_hands_custody_to_authority() {
    let a = initialized(1_000_000);
    let rec = EscrowRecord::unpack(&a.escrow.data).unwrap();
    assert!(rec.is_initialized);
    assert_eq!(rec.expected_amount, 1_000_000);
    assert_eq!(rec.initializer.bytes, [INITIALIZER; 32]);
    assert_eq!(rec.temp_token_account.bytes, [TEMP; 32]);
    assert_eq!(rec.initializer_receiving_token_account.bytes, [RECEIVING; 32]);
    assert_eq!(a.temp_token_account.owner.bytes, [AUTHORITY; 32]);
    assert_eq!(a.temp_token_account.amount, 500);
}

#[test]
fn record_layout_is_flag_addresses_amount() {
    let a = initialized(0x0102);
    let d = &a.escrow.data;
    assert_eq!(d.len(), 105);
    assert_eq!(d[0], 1);
    assert!(d[1..33].iter().all(|b| *b == INITIALIZER));
    assert!(d[33..65].iter().all(|b| *b == TEMP));
    assert!(d[65..97].iter().all(|b| *b == RECEIVING));
    assert_eq!(&d[97..105], &[0x02, 0x01, 0, 0, 0, 0, 0, 0]);
}

#[test]
fn record_unpack_rejects_bad_flag_and_length() {
    let mut d = vec![0u8; RECORD_LEN];
    assert!(EscrowRecord::unpack(&d).is_some());
    d[0] = 2;
    assert!(EscrowRecord::unpack(&d).is_none());
    assert!(EscrowRecord::unpack(&[0u8; 104]).is_none());
}

#[test]
fn init_errors() {
    let mut a = init_accounts();
    a.initializer_signed = false;
    assert_eq!(process_init(&mut a, 1, &addr(AUTHORITY)), Err(ProcessError::MissingRequiredSignature));
    let mut a = init_accounts();
    a.escrow_rent_exempt = false;
    assert_eq!(process_init(&mut a, 1, &addr(AUTHORITY)), Err(ProcessError::NotRentExempt));
    let mut a = init_accounts();
    a.escrow.data = vec![0u8; 3];
    assert_eq!(process_init(&mut a, 1, &addr(AUTHORITY)), Err(ProcessError::InvalidAccountData));
    let mut a = init_accounts();
    a.temp_token_account.owner = addr(TAKER);
    assert_eq!(process_init(&mut a, 1, &addr(AUTHORITY)), Err(ProcessError::IllegalOwner));
    assert_eq!(a.escrow.data, vec![0u8; RECORD_LEN]);
    let mut a = initialized(1);
    assert_eq!(process_init(&mut a, 2, &addr(AUTHORITY)), Err(ProcessError::AccountAlreadyInitialized));
}

#[test]
fn init_then_exchange_completes_trade() {
    let init = initialized(1_000_000);
    let mut ex = exchange_accounts(&init);
    assert_eq!(process_exchange(&mut ex, 1_000_000, &addr(AUTHORITY)), Ok(()));
    assert_eq!(ex.custody.amount, 0);
    assert_eq!(ex.custody.lamports, 0);
    assert_eq!(ex.taker_destination.amount, 500);
    assert_eq!(ex.taker_source.amount, 0);
    assert_eq!(ex.initializer_receiving.amount, 1_000_007);
    assert_eq!(ex.taker_lamports, 10 + 2_000);
    assert_eq!(ex.escrow.lamports, 0);
    assert_eq!(ex.initializer_lamports, 100 + 3_000);
    assert_eq!(ex.escrow.data, vec![0u8; RECORD_LEN]);
}

#[test]
fn exchange_amount_mismatch_changes_nothing() {
    let init = initialized(1_000_000);
    let mut ex = exchange_accounts(&init);
    let before = exchange_accounts(&init);
    assert_eq!(
        process_exchange(&mut ex, 999_999, &addr(AUTHORITY)),
        Err(ProcessError::Escrow(EscrowError::ExpectedAmountMismatch))
    );
    assert!(same_state(&ex, &before));
}

#[test]
fn exchange_on_uninitialized_record_changes_nothing() {
    let init = init_accounts();
    let mut ex = exchange_accounts(&init);
    let before = exchange_accounts(&init);
    assert_eq!(
        process_exchange(&mut ex, 0, &addr(AUTHORITY)),
        Err(ProcessError::UninitializedAccount)
    );
    assert!(same_state(&ex, &before));
}

#[test]
fn second_exchange_on_same_record_fails() {
    let init = initialized(10);
    let mut ex = exchange_accounts(&init);
    assert_eq!(process_exchange(&mut ex, 10, &addr(AUTHORITY)), Ok(()));
    let mut again = exchange_accounts(&init);
    again.escrow.data = ex.escrow.data.clone();
    assert_eq!(
        process_exchange(&mut again, 10, &addr(AUTHORITY)),
        Err(ProcessError::UninitializedAccount)
    );
}

#[test]
fn exchange_overflow_is_reported() {
    let init = initialized(10);
    let mut ex = exchange_accounts(&init);
    ex.initializer_receiving.amount = u64::MAX - 5;
    assert_eq!(
        process_exchange(&mut ex, 10, &addr(AUTHORITY)),
        Err(ProcessError::Escrow(EscrowError::AmountOverflow))
    );
    let mut ex = exchange_accounts(&init);
    ex.taker_destination.amount = u64::MAX;
    assert_eq!(
        process_exchange(&mut ex, 10, &addr(AUTHORITY)),
        Err(ProcessError::Escrow(EscrowError::AmountOverflow))
    );
}

#[test]
fn exchange_checks_accounts_signer_and_funds() {
    let init = initialized(10);
    let mut ex = exchange_accounts(&init);
    ex.taker_signed = false;
    assert_eq!(process_exchange(&mut ex, 10, &addr(AUTHORITY)), Err(ProcessError::MissingRequiredSignature));
    let mut ex = exchange_accounts(&init);
    ex.custody.address = addr(TAKER_DEST);
    assert_eq!(process_exchange(&mut ex, 10, &addr(AUTHORITY)), Err(ProcessError::InvalidAccountData));
    let mut ex = exchange_accounts(&init);
    assert_eq!(process_exchange(&mut ex, 10, &addr(TAKER)), Err(ProcessError::IllegalOwner));
    let mut ex = exchange_accounts(&init);
    ex.taker_source.amount = 9;
    assert_eq!(process_exchange(&mut ex, 10, &addr(AUTHORITY)), Err(ProcessError::InsufficientFunds));
}

fn derived_authority(program_id: &Address) -> Address {
    let (pda, _) = solana_program::pubkey::Pubkey::find_program_address(
        &[b"escrow"],
        &solana_program::pubkey::Pubkey::new_from_array(program_id.bytes),
    );
    Address { bytes: pda.to_bytes() }
}

fn init_instruction(amount: u64) -> Vec<u8> {
    let mut bytes = vec![0x00u8];
    bytes.extend_from_slice(&amount.to_le_bytes());
    bytes
}

#[test]
fn process_instruction_init_example() {
    let program_id = addr(42);
    let mut accounts = TradeAccounts::Init(init_accounts());
    let r = process_instruction(&program_id, &mut accounts, &init_instruction(1_000_000));
    assert_eq!(r, Ok(()));
    let TradeAccounts::Init(a) = accounts else { panic!("accounts changed kind") };
    let rec = EscrowRecord::unpack(&a.escrow.data).unwrap();
    assert!(rec.is_initialized);
    assert_eq!(rec.expected_amount, 1_000_000);
    let authority = derived_authority(&program_id);
    assert_eq!(a.temp_token_account.owner.bytes, authority.bytes);
    assert_ne!(a.temp_token_account.owner.bytes, program_id.bytes);
}

#[test]
fn process_instruction_full_trade() {
    let program_id = addr(42);
    let mut init = TradeAccounts::Init(init_accounts());
    assert_eq!(process_instruction(&program_id, &mut init, &init_instruction(25)), Ok(()));
    let TradeAccounts::Init(init) = init else { panic!("accounts changed kind") };
    let mut ex = TradeAccounts::Exchange(exchange_accounts(&init));
    let exchange = EscrowInstruction::Exchange { amount: 25 }.pack();
    assert_eq!(process_instruction(&program_id, &mut ex, &exchange), Ok(()));
    let TradeAccounts::Exchange(ex) = ex else { panic!("accounts changed kind") };
    assert_eq!(ex.custody.amount, 0);
    assert_eq!(ex.taker_destination.amount, 500);
    assert_eq!(ex.initializer_receiving.amount, 32);
    assert_eq!(ex.escrow.data, vec![0u8; RECORD_LEN]);
}

#[test]
fn process_instruction_rejects_bad_bytes_and_wrong_accounts() {
    let program_id = addr(42);
    let mut accounts = TradeAccounts::Init(init_accounts());
    assert_eq!(
        process_instruction(&program_id, &mut accounts, &[7u8, 0, 0, 0, 0, 0, 0, 0, 0]),
        Err(ProcessError::Escrow(EscrowError::InvalidInstruction))
    );
    let exchange = EscrowInstruction::Exchange { amount: 1 }.pack();
    assert_eq!(
        process_instruction(&program_id, &mut accounts, &exchange),
        Err(ProcessError::Escrow(EscrowError::InvalidInstruction))
    );
    let TradeAccounts::Init(a) = accounts else { panic!("accounts changed kind") };
    assert_eq!(a.escrow.data, vec![0u8; RECORD_LEN]);
}

#[test]
fn exchange_under_another_program_is_refused() {
    let program_id = addr(42);
    let mut init = TradeAccounts::Init(init_accounts());
    assert_eq!(process_instruction(&program_id, &mut init, &init_instruction(25)), Ok(()));
    let TradeAccounts::Init(init) = init else { panic!("accounts changed kind") };
    let mut ex = TradeAccounts::Exchange(exchange_accounts(&init));
    let exchange = EscrowInstruction::Exchange { amount: 25 }.pack();
    assert_eq!(
        process_instruction(&addr(43), &mut ex, &exchange),
        Err(ProcessError::IllegalOwner)
    );
}
