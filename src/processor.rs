use vstd::prelude::*;

use crate::authority::{derived_address, find_program_address, AUTHORITY_SEED};
use crate::error::EscrowError;
use crate::instructions::{spec_unpack, EscrowInstruction};
use vstd::array::array_as_slice;
use crate::record::{
    lemma_record_fields, record_address, record_expected_amount, record_initialized,
    record_well_formed, Address, EscrowRecord,
};

verus! {

/// Why an instruction was refused. Besides the escrow program's own errors,
/// these are the host's generic conditions that the processor raises.
#[derive(Debug, Clone, Copy, PartialEq, Eq, Structural)]
pub enum ProcessError {
    /// One of the escrow program's own errors.
    Escrow(EscrowError),
    /// The account that must sign the instruction did not.
    MissingRequiredSignature,
    /// The escrow record account does not hold enough to be rent-exempt.
    NotRentExempt,
    /// The escrow record account already holds a live record.
    AccountAlreadyInitialized,
    /// The escrow record account holds no live record.
    UninitializedAccount,
    /// An account's data or address does not match what the trade records.
    InvalidAccountData,
    /// A token account is not owned by the party that must own it.
    IllegalOwner,
    /// The taker's source token account cannot cover the amount.
    InsufficientFunds,
    /// No program authority can be derived from the program id.
    InvalidSeeds,
}

/// A token account as the trade sees it.
#[derive(Debug, Clone, Copy)]
pub struct TokenAccount {
    pub address: Address,
    /// The authority allowed to move the tokens.
    pub owner: Address,
    /// Token balance.
    pub amount: u64,
    /// Native balance, which pays the account's rent.
    pub lamports: u64,
}

/// An account that holds raw data, such as the escrow record account.
#[derive(Debug)]
pub struct DataAccount {
    pub address: Address,
    pub lamports: u64,
    pub data: Vec<u8>,
}

/// The accounts of an `InitEscrow` instruction.
#[derive(Debug)]
pub struct InitAccounts {
    /// The initializer's main account.
    pub initializer: Address,
    /// Whether the initializer signed the instruction.
    pub initializer_signed: bool,
    /// The temporary token account holding the tokens to lock.
    pub temp_token_account: TokenAccount,
    /// The initializer's account for the tokens they will receive.
    pub receiving_token_account: Address,
    /// The escrow record account.
    pub escrow: DataAccount,
    /// Whether the escrow record account's balance makes it rent-exempt.
    pub escrow_rent_exempt: bool,
}

/// The accounts of an `Exchange` instruction.
#[derive(Debug)]
pub struct ExchangeAccounts {
    /// The taker's main account; it gets the custody account's rent back.
    pub taker: Address,
    /// Whether the taker signed the instruction.
    pub taker_signed: bool,
    pub taker_lamports: u64,
    /// The taker's account for the token they send.
    pub taker_source: TokenAccount,
    /// The taker's account for the token they receive.
    pub taker_destination: TokenAccount,
    /// The custody account, owned by the program authority.
    pub custody: TokenAccount,
    /// The initializer's main account; it gets the record's rent back.
    pub initializer: Address,
    pub initializer_lamports: u64,
    /// The initializer's account for the token they receive.
    pub initializer_receiving: TokenAccount,
    /// The escrow record account.
    pub escrow: DataAccount,
}

/// The accounts of one instruction, by operation.
#[derive(Debug)]
pub enum TradeAccounts {
    Init(InitAccounts),
    Exchange(ExchangeAccounts),
}

/// The error `InitEscrow` stops with on these accounts, if any.
pub open spec fn init_error(a: InitAccounts) -> Option<ProcessError> {
    let d = a.escrow.data@;
    if !a.initializer_signed {
        Some(ProcessError::MissingRequiredSignature)
    } else if !a.escrow_rent_exempt {
        Some(ProcessError::NotRentExempt)
    } else if !record_well_formed(d) {
        Some(ProcessError::InvalidAccountData)
    } else if record_initialized(d) {
        Some(ProcessError::AccountAlreadyInitialized)
    } else if a.temp_token_account.owner.bytes@ != a.initializer.bytes@ {
        Some(ProcessError::IllegalOwner)
    } else {
        None
    }
}

/// The record that `InitEscrow` writes.
pub open spec fn init_record(a: InitAccounts, amount: u64) -> EscrowRecord {
    EscrowRecord {
        is_initialized: true,
        initializer: a.initializer,
        temp_token_account: a.temp_token_account.address,
        initializer_receiving_token_account: a.receiving_token_account,
        expected_amount: amount,
    }
}

/// `n` is `o` after a successful `InitEscrow`: the record is written and the
/// temporary token account now belongs to `authority`.
pub open spec fn init_applied(o: InitAccounts, n: InitAccounts, amount: u64, authority: Seq<u8>) -> bool {
    &&& n.escrow.data@ == init_record(o, amount).spec_bytes()
    &&& n.escrow.address == o.escrow.address
    &&& n.escrow.lamports == o.escrow.lamports
    &&& n.temp_token_account.owner.bytes@ == authority
    &&& n.temp_token_account.address == o.temp_token_account.address
    &&& n.temp_token_account.amount == o.temp_token_account.amount
    &&& n.temp_token_account.lamports == o.temp_token_account.lamports
    &&& n.initializer == o.initializer
    &&& n.initializer_signed == o.initializer_signed
    &&& n.receiving_token_account == o.receiving_token_account
    &&& n.escrow_rent_exempt == o.escrow_rent_exempt
}

/// The result of an instruction that stops with `error`, if any.
pub open spec fn outcome(error: Option<ProcessError>) -> Result<(), ProcessError> {
    match error {
        Some(e) => Err(e),
        None => Ok(()),
    }
}

/// Whether adding two balances leaves the 64-bit range.
pub open spec fn overflows(x: u64, y: u64) -> bool {
    x + y > u64::MAX
}

/// The error `Exchange` of `amount` stops with on these accounts, if any.
pub open spec fn exchange_error(a: ExchangeAccounts, amount: u64, authority: Seq<u8>) -> Option<
    ProcessError,
> {
    let d = a.escrow.data@;
    if !a.taker_signed {
        Some(ProcessError::MissingRequiredSignature)
    } else if !record_well_formed(d) {
        Some(ProcessError::InvalidAccountData)
    } else if !record_initialized(d) {
        Some(ProcessError::UninitializedAccount)
    } else if a.initializer.bytes@ != record_address(d, 0) || a.custody.address.bytes@
        != record_address(d, 1) || a.initializer_receiving.address.bytes@ != record_address(
        d,
        2,
    ) {
        Some(ProcessError::InvalidAccountData)
    } else if a.custody.owner.bytes@ != authority || a.taker_source.owner.bytes@
        != a.taker.bytes@ {
        Some(ProcessError::IllegalOwner)
    } else if overflows(a.initializer_receiving.amount, amount) || overflows(
        a.taker_destination.amount,
        a.custody.amount,
    ) || overflows(a.taker_lamports, a.custody.lamports) || overflows(
        a.initializer_lamports,
        a.escrow.lamports,
    ) {
        Some(ProcessError::Escrow(EscrowError::AmountOverflow))
    } else if amount != record_expected_amount(d) {
        Some(ProcessError::Escrow(EscrowError::ExpectedAmountMismatch))
    } else if a.taker_source.amount < amount {
        Some(ProcessError::InsufficientFunds)
    } else {
        None
    }
}

/// `n` is `o` after a successful `Exchange` of `amount`: the taker paid
/// `amount` to the initializer's receiving account and got the whole custody
/// balance; the custody account is closed, its rent going to the taker; the
/// record is zeroed, its rent going to the initializer.
pub open spec fn exchange_applied(o: ExchangeAccounts, n: ExchangeAccounts, amount: u64) -> bool {
    &&& n.taker == o.taker
    &&& n.taker_signed == o.taker_signed
    &&& n.taker_lamports == o.taker_lamports + o.custody.lamports
    &&& n.taker_source == (TokenAccount {
        amount: (o.taker_source.amount - amount) as u64,
        ..o.taker_source
    })
    &&& n.taker_destination == (TokenAccount {
        amount: (o.taker_destination.amount + o.custody.amount) as u64,
        ..o.taker_destination
    })
    &&& n.custody == (TokenAccount { amount: 0, lamports: 0, ..o.custody })
    &&& n.initializer == o.initializer
    &&& n.initializer_lamports == o.initializer_lamports + o.escrow.lamports
    &&& n.initializer_receiving == (TokenAccount {
        amount: (o.initializer_receiving.amount + amount) as u64,
        ..o.initializer_receiving
    })
    &&& n.escrow.address == o.escrow.address
    &&& n.escrow.lamports == 0
    &&& n.escrow.data@ == Seq::new(o.escrow.data@.len(), |i: int| 0u8)
}

/// A buffer of `len` zero bytes.
fn zeroed(len: usize) -> (r: Vec<u8>)
    ensures
        r@ == Seq::new(len as nat, |i: int| 0u8),
{
    let mut out: Vec<u8> = Vec::new();
    let mut i: usize = 0;
    while i < len
        invariant
            i <= len,
            out@ == Seq::new(i as nat, |j: int| 0u8),
        decreases len - i,
    {
        out.push(0u8);
        assert(out@ =~= Seq::new((i + 1) as nat, |j: int| 0u8));
        i = i + 1;
    }
    out
}

/// Runs `InitEscrow(amount)`: checks that the initializer signed, that the
/// record account is rent-exempt and holds no live record, and that the
/// initializer owns the temporary token account; then writes the record and
/// hands the temporary token account to `authority`. On failure nothing
/// changes.
pub fn process_init(accounts: &mut InitAccounts, amount: u64, authority: &Address) -> (r: Result<
    (),
    ProcessError,
>)
    ensures
        r == outcome(init_error(*old(accounts))),
        r is Err ==> *final(accounts) == *old(accounts),
        r is Ok ==> init_applied(*old(accounts), *final(accounts), amount, authority.bytes@),
{
    if !accounts.initializer_signed {
        return Err(ProcessError::MissingRequiredSignature);
    }
    if !accounts.escrow_rent_exempt {
        return Err(ProcessError::NotRentExempt);
    }
    let stored = match EscrowRecord::unpack(&accounts.escrow.data) {
        Some(rec) => rec,
        None => {
            return Err(ProcessError::InvalidAccountData);
        },
    };
    proof {
        lemma_record_fields(stored);
    }
    if stored.is_initialized {
        return Err(ProcessError::AccountAlreadyInitialized);
    }
    if !accounts.temp_token_account.owner.same(&accounts.initializer) {
        return Err(ProcessError::IllegalOwner);
    }
    let rec = EscrowRecord {
        is_initialized: true,
        initializer: accounts.initializer,
        temp_token_account: accounts.temp_token_account.address,
        initializer_receiving_token_account: accounts.receiving_token_account,
        expected_amount: amount,
    };
    accounts.escrow.data = rec.pack();
    accounts.temp_token_account.owner = *authority;
    Ok(())
}

/// Runs `Exchange(amount)`: checks the signature, the record, that the
/// accounts are those the record names, the owners, that no balance would
/// overflow, that `amount` is the expected amount and that the taker can pay
/// it; then swaps the tokens, closes the custody account and zeroes the
/// record. On failure nothing changes.
pub fn process_exchange(accounts: &mut ExchangeAccounts, amount: u64, authority: &Address) -> (r:
    Result<(), ProcessError>)
    ensures
        r == outcome(exchange_error(*old(accounts), amount, authority.bytes@)),
        r is Err ==> *final(accounts) == *old(accounts),
        r is Ok ==> exchange_applied(*old(accounts), *final(accounts), amount),
{
    if !accounts.taker_signed {
        return Err(ProcessError::MissingRequiredSignature);
    }
    let rec = match EscrowRecord::unpack(&accounts.escrow.data) {
        Some(rec) => rec,
        None => {
            return Err(ProcessError::InvalidAccountData);
        },
    };
    proof {
        lemma_record_fields(rec);
    }
    if !rec.is_initialized {
        return Err(ProcessError::UninitializedAccount);
    }
    if !rec.initializer.same(&accounts.initializer) || !rec.temp_token_account.same(
        &accounts.custody.address,
    ) || !rec.initializer_receiving_token_account.same(&accounts.initializer_receiving.address) {
        return Err(ProcessError::InvalidAccountData);
    }
    if !accounts.custody.owner.same(authority) || !accounts.taker_source.owner.same(
        &accounts.taker,
    ) {
        return Err(ProcessError::IllegalOwner);
    }
    let received = match accounts.initializer_receiving.amount.checked_add(amount) {
        Some(v) => v,
        None => {
            return Err(ProcessError::Escrow(EscrowError::AmountOverflow));
        },
    };
    let released = match accounts.taker_destination.amount.checked_add(accounts.custody.amount) {
        Some(v) => v,
        None => {
            return Err(ProcessError::Escrow(EscrowError::AmountOverflow));
        },
    };
    let taker_refund = match accounts.taker_lamports.checked_add(accounts.custody.lamports) {
        Some(v) => v,
        None => {
            return Err(ProcessError::Escrow(EscrowError::AmountOverflow));
        },
    };
    let initializer_refund = match accounts.initializer_lamports.checked_add(
        accounts.escrow.lamports,
    ) {
        Some(v) => v,
        None => {
            return Err(ProcessError::Escrow(EscrowError::AmountOverflow));
        },
    };
    if amount != rec.expected_amount {
        return Err(ProcessError::Escrow(EscrowError::ExpectedAmountMismatch));
    }
    if accounts.taker_source.amount < amount {
        return Err(ProcessError::InsufficientFunds);
    }
    accounts.taker_source.amount = accounts.taker_source.amount - amount;
    accounts.initializer_receiving.amount = received;
    accounts.taker_destination.amount = released;
    accounts.custody.amount = 0;
    accounts.taker_lamports = taker_refund;
    accounts.custody.lamports = 0;
    accounts.initializer_lamports = initializer_refund;
    accounts.escrow.lamports = 0;
    accounts.escrow.data = zeroed(accounts.escrow.data.len());
    Ok(())
}

/// What `process_instruction` returns for the instruction bytes `input` over
/// `accounts`, when the program authority is `authority` (`None`: it cannot be
/// derived).
pub open spec fn instruction_outcome(
    input: Seq<u8>,
    accounts: TradeAccounts,
    authority: Option<(Seq<u8>, u8)>,
) -> Result<(), ProcessError> {
    match spec_unpack(input) {
        Err(e) => Err(ProcessError::Escrow(e)),
        Ok(op) => match (op, accounts) {
            (EscrowInstruction::InitEscrow { .. }, TradeAccounts::Init(a)) => match authority {
                None => Err(ProcessError::InvalidSeeds),
                Some(_) => outcome(init_error(a)),
            },
            (EscrowInstruction::Exchange { amount }, TradeAccounts::Exchange(a)) => match authority {
                None => Err(ProcessError::InvalidSeeds),
                Some(found) => outcome(exchange_error(a, amount, found.0)),
            },
            _ => Err(ProcessError::Escrow(EscrowError::InvalidInstruction)),
        },
    }
}

/// `n` is `o` after `input` succeeded with the program authority `authority`.
pub open spec fn instruction_applied(
    input: Seq<u8>,
    o: TradeAccounts,
    n: TradeAccounts,
    authority: Seq<u8>,
) -> bool {
    match (spec_unpack(input), o, n) {
        (
            Ok(EscrowInstruction::InitEscrow { amount }),
            TradeAccounts::Init(a),
            TradeAccounts::Init(b),
        ) => init_applied(a, b, amount, authority),
        (
            Ok(EscrowInstruction::Exchange { amount }),
            TradeAccounts::Exchange(a),
            TradeAccounts::Exchange(b),
        ) => exchange_applied(a, b, amount),
        _ => false,
    }
}

/// Runs one instruction of the program `program_id`: decodes `input`, checks
/// that `accounts` are those of the decoded operation, derives the program
/// authority from `program_id` and `AUTHORITY_SEED`, and runs the operation.
/// On failure nothing changes.
pub fn process_instruction(program_id: &Address, accounts: &mut TradeAccounts, input: &[u8]) -> (r:
    Result<(), ProcessError>)
    ensures
        r == instruction_outcome(
            input@,
            *old(accounts),
            derived_address(AUTHORITY_SEED@, program_id.bytes@),
        ),
        r is Err ==> *final(accounts) == *old(accounts),
        r is Ok ==> (derived_address(AUTHORITY_SEED@, program_id.bytes@) matches Some(found)
            && instruction_applied(input@, *old(accounts), *final(accounts), found.0)),
{
    let op = match EscrowInstruction::unpack(input) {
        Ok(op) => op,
        Err(e) => {
            return Err(ProcessError::Escrow(e));
        },
    };
    let kinds_match = match (&op, &*accounts) {
        (EscrowInstruction::InitEscrow { .. }, TradeAccounts::Init(_)) => true,
        (EscrowInstruction::Exchange { .. }, TradeAccounts::Exchange(_)) => true,
        _ => false,
    };
    if !kinds_match {
        return Err(ProcessError::Escrow(EscrowError::InvalidInstruction));
    }
    let authority = match find_program_address(array_as_slice(&AUTHORITY_SEED), program_id) {
        Some(found) => found.0,
        None => {
            return Err(ProcessError::InvalidSeeds);
        },
    };
    match accounts {
        TradeAccounts::Init(a) => match op {
            EscrowInstruction::InitEscrow { amount } => process_init(a, amount, &authority),
            EscrowInstruction::Exchange { .. } => Err(
                ProcessError::Escrow(EscrowError::InvalidInstruction),
            ),
        },
        TradeAccounts::Exchange(a) => match op {
            EscrowInstruction::Exchange { amount } => process_exchange(a, amount, &authority),
            EscrowInstruction::InitEscrow { .. } => Err(
                ProcessError::Escrow(EscrowError::InvalidInstruction),
            ),
        },
    }
}

/// After a successful `InitEscrow` of `expected`, an `Exchange` of `expected`
/// over the accounts the record names, with the custody account as Init left
/// it, a signing taker who can pay, and balances that do not overflow,
/// succeeds; afterwards the custody account is closed, the taker holds what it
/// held, the initializer has received `expected`, and the record is closed with
/// its rent refunded to the initializer.
pub proof fn lemma_init_then_exchange(
    init_before: InitAccounts,
    init_after: InitAccounts,
    expected: u64,
    authority: Seq<u8>,
    before: ExchangeAccounts,
    after: ExchangeAccounts,
)
    requires
        init_error(init_before) is None,
        init_applied(init_before, init_after, expected, authority),
        before.escrow.data@ == init_after.escrow.data@,
        before.initializer == init_before.initializer,
        before.custody.address == init_after.temp_token_account.address,
        before.custody.owner.bytes@ == authority,
        before.initializer_receiving.address == init_before.receiving_token_account,
        before.taker_signed,
        before.taker_source.owner == before.taker,
        before.taker_source.amount >= expected,
        !overflows(before.initializer_receiving.amount, expected),
        !overflows(before.taker_destination.amount, before.custody.amount),
        !overflows(before.taker_lamports, before.custody.lamports),
        !overflows(before.initializer_lamports, before.escrow.lamports),
        exchange_applied(before, after, expected),
    ensures
        exchange_error(before, expected, authority) is None,
        after.custody.amount == 0 && after.custody.lamports == 0,
        after.taker_destination.amount == before.taker_destination.amount + before.custody.amount,
        after.initializer_receiving.amount == before.initializer_receiving.amount + expected,
        after.taker_source.amount == before.taker_source.amount - expected,
        !record_initialized(after.escrow.data@),
        after.escrow.lamports == 0,
        after.initializer_lamports == before.initializer_lamports + before.escrow.lamports,
{
    lemma_record_fields(init_record(init_before, expected));
}

/// An `Exchange` whose amount differs from the record's expected amount fails;
/// when every check before the amount check passes, it fails with
/// `ExpectedAmountMismatch`. A failed `Exchange` changes no account.
pub proof fn lemma_mismatch_rejected(a: ExchangeAccounts, amount: u64, authority: Seq<u8>)
    requires
        record_well_formed(a.escrow.data@),
        amount != record_expected_amount(a.escrow.data@),
    ensures
        exchange_error(a, amount, authority) is Some,
        (a.taker_signed && record_initialized(a.escrow.data@) && a.initializer.bytes@
            == record_address(a.escrow.data@, 0) && a.custody.address.bytes@ == record_address(
            a.escrow.data@,
            1,
        ) && a.initializer_receiving.address.bytes@ == record_address(a.escrow.data@, 2)
            && a.custody.owner.bytes@ == authority && a.taker_source.owner.bytes@
            == a.taker.bytes@ && !overflows(a.initializer_receiving.amount, amount) && !overflows(
            a.taker_destination.amount,
            a.custody.amount,
        ) && !overflows(a.taker_lamports, a.custody.lamports) && !overflows(
            a.initializer_lamports,
            a.escrow.lamports,
        )) ==> exchange_error(a, amount, authority) == Some(
            ProcessError::Escrow(EscrowError::ExpectedAmountMismatch),
        ),
{
}

/// An `Exchange` against a record account whose record is not live fails, so
/// (by `process_exchange`'s contract) it changes nothing.
pub proof fn lemma_uninitialized_rejected(a: ExchangeAccounts, amount: u64, authority: Seq<u8>)
    requires
        !record_well_formed(a.escrow.data@) || !record_initialized(a.escrow.data@),
    ensures
        exchange_error(a, amount, authority) is Some,
{
}

/// Once an `Exchange` has succeeded on a record, every later `Exchange` on
/// that record account fails: at most one taker completes a trade.
pub proof fn lemma_exchange_at_most_once(
    first: ExchangeAccounts,
    after: ExchangeAccounts,
    amount: u64,
    authority: Seq<u8>,
    second: ExchangeAccounts,
    second_amount: u64,
    second_authority: Seq<u8>,
)
    requires
        exchange_error(first, amount, authority) is None,
        exchange_applied(first, after, amount),
        second.escrow.data@ == after.escrow.data@,
    ensures
        exchange_error(second, second_amount, second_authority) is Some,
{
    assert(after.escrow.data@[0] == 0u8);
}

} // verus!
