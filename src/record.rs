use vstd::prelude::*;

use crate::bytes::{le_bytes, le_value, lemma_le_bytes_of_value, lemma_le_round_trip, push_u64_le, read_u64_le};

verus! {

/// Length in bytes of a ledger address.
pub const ADDRESS_LEN: usize = 32;

/// Length in bytes of a stored escrow record: the flag, three addresses and
/// the amount.
pub const RECORD_LEN: usize = 105;

/// A ledger address.
#[derive(Debug, Clone, Copy)]
pub struct Address {
    pub bytes: [u8; 32],
}

impl Address {
    /// Whether the two addresses are the same.
    pub fn same(&self, other: &Address) -> (r: bool)
        ensures
            r == (*self == *other),
            r == (self.bytes@ == other.bytes@),
    {
        let mut i: usize = 0;
        while i < ADDRESS_LEN
            invariant
                i <= ADDRESS_LEN,
                forall|j: int| 0 <= j < i ==> self.bytes@[j] == other.bytes@[j],
            decreases ADDRESS_LEN - i,
        {
            if self.bytes[i] != other.bytes[i] {
                return false;
            }
            i = i + 1;
        }
        assert(self.bytes@ =~= other.bytes@);
        assert(self.bytes == other.bytes);
        true
    }

    /// The address held by `b[at..at + 32]`.
    pub fn read_from(b: &[u8], at: usize) -> (r: Address)
        requires
            at + ADDRESS_LEN <= b@.len(),
        ensures
            r.bytes@ == b@.subrange(at as int, at + ADDRESS_LEN),
    {
        let mut bytes: [u8; 32] = [0u8; 32];
        let mut i: usize = 0;
        while i < ADDRESS_LEN
            invariant
                i <= ADDRESS_LEN,
                at + ADDRESS_LEN <= b.len(),
                bytes@.len() == ADDRESS_LEN,
                forall|j: int| 0 <= j < i ==> bytes@[j] == b@[at + j],
            decreases ADDRESS_LEN - i,
        {
            bytes[i] = b[at + i];
            i = i + 1;
        }
        assert(bytes@ =~= b@.subrange(at as int, at + ADDRESS_LEN));
        Address { bytes }
    }

    /// Appends the address's bytes to `out`.
    pub fn write_to(&self, out: &mut Vec<u8>)
        ensures
            final(out)@ == old(out)@ + self.bytes@,
    {
        let ghost start = out@;
        let mut i: usize = 0;
        while i < ADDRESS_LEN
            invariant
                i <= ADDRESS_LEN,
                self.bytes@.len() == ADDRESS_LEN,
                out@ == start + self.bytes@.subrange(0, i as int),
            decreases ADDRESS_LEN - i,
        {
            out.push(self.bytes[i]);
            assert(self.bytes@.subrange(0, i + 1) =~= self.bytes@.subrange(0, i as int).push(
                self.bytes@[i as int],
            ));
            i = i + 1;
        }
        assert(self.bytes@.subrange(0, ADDRESS_LEN as int) =~= self.bytes@);
    }
}

/// The state of one pending trade, as kept in the escrow record account.
#[derive(Debug, Clone, Copy)]
pub struct EscrowRecord {
    /// False means the storage is unused or closed.
    pub is_initialized: bool,
    /// The initializer's main account; it gets the rent back on close.
    pub initializer: Address,
    /// The custody account that holds the initializer's locked tokens.
    pub temp_token_account: Address,
    /// Where the initializer wants the tokens they expect to be sent.
    pub initializer_receiving_token_account: Address,
    /// How much the initializer must receive for the trade to complete.
    pub expected_amount: u64,
}

/// Offset of the `k`-th address in a stored record.
pub open spec fn field_offset(k: int) -> int {
    1 + 32 * k
}

/// The `k`-th address (0: initializer, 1: custody, 2: receiving account) of
/// the stored record `b`.
pub open spec fn record_address(b: Seq<u8>, k: int) -> Seq<u8> {
    b.subrange(field_offset(k), field_offset(k) + 32)
}

/// Whether the stored record `b` has its initialized flag set.
pub open spec fn record_initialized(b: Seq<u8>) -> bool {
    b[0] == 1
}

/// The expected amount of the stored record `b`.
pub open spec fn record_expected_amount(b: Seq<u8>) -> u64 {
    le_value(b.subrange(97, 105)) as u64
}

/// Whether `b` is a well-formed stored record: the right length and a flag
/// byte of 0 or 1.
pub open spec fn record_well_formed(b: Seq<u8>) -> bool {
    b.len() == RECORD_LEN && b[0] <= 1
}

impl EscrowRecord {
    /// The stored form: flag byte, the three addresses, then the expected
    /// amount little-endian.
    pub open spec fn spec_bytes(self) -> Seq<u8> {
        seq![if self.is_initialized { 1u8 } else { 0u8 }] + self.initializer.bytes@
            + self.temp_token_account.bytes@ + self.initializer_receiving_token_account.bytes@
            + le_bytes(self.expected_amount)
    }

    /// Writes the record in its stored form.
    pub fn pack(&self) -> (r: Vec<u8>)
        ensures
            r@ == self.spec_bytes(),
            r@.len() == RECORD_LEN,
    {
        let mut out: Vec<u8> = Vec::new();
        out.push(if self.is_initialized { 1u8 } else { 0u8 });
        self.initializer.write_to(&mut out);
        self.temp_token_account.write_to(&mut out);
        self.initializer_receiving_token_account.write_to(&mut out);
        push_u64_le(&mut out, self.expected_amount);
        out
    }

    /// Reads a record from its stored form. `None` when the length is not
    /// `RECORD_LEN` or the flag byte is neither 0 nor 1.
    pub fn unpack(b: &[u8]) -> (r: Option<EscrowRecord>)
        ensures
            r is Some <==> record_well_formed(b@),
            r matches Some(rec) ==> rec.spec_bytes() == b@,
    {
        if b.len() != RECORD_LEN || b[0] > 1 {
            return None;
        }
        let initializer = Address::read_from(b, 1);
        let temp_token_account = Address::read_from(b, 33);
        let initializer_receiving_token_account = Address::read_from(b, 65);
        let expected_amount = read_u64_le(b, 97);
        let rec = EscrowRecord {
            is_initialized: b[0] == 1,
            initializer,
            temp_token_account,
            initializer_receiving_token_account,
            expected_amount,
        };
        proof {
            lemma_le_bytes_of_value(b@.subrange(97, 105));
            assert(rec.spec_bytes() =~= b@);
        }
        Some(rec)
    }
}

/// Each field of a record is read back from its stored form.
pub proof fn lemma_record_fields(rec: EscrowRecord)
    ensures
        record_well_formed(rec.spec_bytes()),
        record_initialized(rec.spec_bytes()) == rec.is_initialized,
        record_address(rec.spec_bytes(), 0) == rec.initializer.bytes@,
        record_address(rec.spec_bytes(), 1) == rec.temp_token_account.bytes@,
        record_address(rec.spec_bytes(), 2) == rec.initializer_receiving_token_account.bytes@,
        record_expected_amount(rec.spec_bytes()) == rec.expected_amount,
{
    let b = rec.spec_bytes();
    lemma_le_round_trip(rec.expected_amount);
    assert(record_address(b, 0) =~= rec.initializer.bytes@);
    assert(record_address(b, 1) =~= rec.temp_token_account.bytes@);
    assert(record_address(b, 2) =~= rec.initializer_receiving_token_account.bytes@);
    assert(b.subrange(97, 105) =~= le_bytes(rec.expected_amount));
}

} // verus!
