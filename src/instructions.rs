use vstd::prelude::*;

use crate::bytes::{le_bytes, le_value, lemma_le_bytes_of_value, lemma_le_round_trip, push_u64_le, read_u64_le};
use crate::error::EscrowError;
use vstd::slice::slice_subrange;

verus! {

/// The two operations of the escrow program, each with its amount.
#[derive(Debug, Clone, Copy, PartialEq, Eq, Structural)]
pub enum EscrowInstruction {
    /// Starts the trade: creates and fills the escrow record and hands the
    /// temporary token account over to the program authority.
    ///
    /// Accounts expected:
    /// 0. `[signer]` the initializer
    /// 1. `[writable]` temporary token account, owned by the initializer
    /// 2. `[]` the initializer's token account for the token they receive
    /// 3. `[writable]` the escrow record account
    /// 4. `[]` the rent sysvar
    /// 5. `[]` the token program
    InitEscrow {
        /// The amount of token Y the initializer expects to receive.
        amount: u64,
    },
    /// Accepts a trade.
    ///
    /// Accounts expected:
    /// 0. `[signer]` the taker
    /// 1. `[writable]` the taker's token account for the token they send
    /// 2. `[writable]` the taker's token account for the token they receive
    /// 3. `[writable]` the program authority's temporary token account
    /// 4. `[writable]` the initializer's main account, which gets the rent back
    /// 5. `[writable]` the initializer's token account that receives tokens
    /// 6. `[writable]` the escrow record account
    /// 7. `[]` the token program
    Exchange {
        /// The amount the taker offers, in the token the initializer expects.
        amount: u64,
    },
}

/// Tag byte of `InitEscrow`.
pub const INIT_ESCROW_TAG: u8 = 0;

/// Tag byte of `Exchange`.
pub const EXCHANGE_TAG: u8 = 1;

/// What the first eight bytes of `rest` say as an amount.
pub open spec fn spec_unpack_amount(rest: Seq<u8>) -> Result<u64, EscrowError> {
    if rest.len() < 8 {
        Err(EscrowError::InvalidInstruction)
    } else {
        Ok(le_value(rest) as u64)
    }
}

/// What the instruction bytes `input` decode to.
pub open spec fn spec_unpack(input: Seq<u8>) -> Result<EscrowInstruction, EscrowError> {
    if input.len() == 0 {
        Err(EscrowError::InvalidInstruction)
    } else {
        let rest = input.drop_first();
        if input[0] == INIT_ESCROW_TAG {
            match spec_unpack_amount(rest) {
                Ok(amount) => Ok(EscrowInstruction::InitEscrow { amount }),
                Err(e) => Err(e),
            }
        } else if input[0] == EXCHANGE_TAG {
            match spec_unpack_amount(rest) {
                Ok(amount) => Ok(EscrowInstruction::Exchange { amount }),
                Err(e) => Err(e),
            }
        } else {
            Err(EscrowError::InvalidInstruction)
        }
    }
}

impl EscrowInstruction {
    /// The tag byte of this operation.
    pub open spec fn spec_tag(self) -> u8 {
        match self {
            EscrowInstruction::InitEscrow { .. } => INIT_ESCROW_TAG,
            EscrowInstruction::Exchange { .. } => EXCHANGE_TAG,
        }
    }

    /// The amount this operation carries.
    pub open spec fn spec_amount(self) -> u64 {
        match self {
            EscrowInstruction::InitEscrow { amount } => amount,
            EscrowInstruction::Exchange { amount } => amount,
        }
    }

    /// The wire form of this operation: the tag, then the amount little-endian.
    pub open spec fn spec_pack(self) -> Seq<u8> {
        seq![self.spec_tag()] + le_bytes(self.spec_amount())
    }

    /// Decodes an instruction: byte 0 is the tag (0 for `InitEscrow`, 1 for
    /// `Exchange`), bytes 1 to 8 the amount, little-endian; further bytes are
    /// ignored. Anything else is `InvalidInstruction`.
    pub fn unpack(input: &[u8]) -> (r: Result<Self, EscrowError>)
        ensures
            r == spec_unpack(input@),
            r is Err <==> (input@.len() < 9 || (input@[0] != INIT_ESCROW_TAG && input@[0]
                != EXCHANGE_TAG)),
            r is Err ==> r == Err::<Self, EscrowError>(EscrowError::InvalidInstruction),
            r matches Ok(op) ==> op.spec_tag() == input@[0] && op.spec_amount() == le_value(
                input@.subrange(1, 9),
            ),
    {
        if input.len() == 0 {
            return Err(EscrowError::InvalidInstruction);
        }
        let tag = input[0];
        let rest = slice_subrange(input, 1, input.len());
        assert(rest@ =~= input@.drop_first());
        proof {
            if input@.len() >= 9 {
                let rest = input@.drop_first();
                let amount_bytes = input@.subrange(1, 9);
                assert(forall|i: int| 0 <= i < 8 ==> rest[i] == amount_bytes[i]);
                assert(le_value(rest) == le_value(amount_bytes));
            }
        }
        if tag == INIT_ESCROW_TAG {
            let amount = Self::unpack_amount(rest)?;
            Ok(EscrowInstruction::InitEscrow { amount })
        } else if tag == EXCHANGE_TAG {
            let amount = Self::unpack_amount(rest)?;
            Ok(EscrowInstruction::Exchange { amount })
        } else {
            Err(EscrowError::InvalidInstruction)
        }
    }

    /// Reads the amount at the front of `input`: eight bytes, little-endian.
    /// Fewer than eight bytes is `InvalidInstruction`; bytes after them are
    /// ignored.
    pub fn unpack_amount(input: &[u8]) -> (r: Result<u64, EscrowError>)
        ensures
            r == spec_unpack_amount(input@),
            r matches Ok(amount) ==> amount == le_value(input@.subrange(0, 8)),
    {
        if input.len() < 8 {
            return Err(EscrowError::InvalidInstruction);
        }
        let amount = read_u64_le(input, 0);
        proof {
            let head = input@.subrange(0, 8);
            assert(forall|i: int| 0 <= i < 8 ==> input@[i] == head[i]);
            assert(le_value(input@) == le_value(head));
        }
        Ok(amount)
    }

    /// Encodes this operation in the form that `unpack` reads.
    pub fn pack(&self) -> (r: Vec<u8>)
        ensures
            r@ == self.spec_pack(),
            r@.len() == 9,
    {
        let mut out: Vec<u8> = Vec::new();
        match self {
            EscrowInstruction::InitEscrow { amount } => {
                out.push(INIT_ESCROW_TAG);
                push_u64_le(&mut out, *amount);
            },
            EscrowInstruction::Exchange { amount } => {
                out.push(EXCHANGE_TAG);
                push_u64_le(&mut out, *amount);
            },
        }
        assert(out@ =~= self.spec_pack());
        out
    }
}

/// Every buffer shorter than nine bytes, and every buffer whose first byte is
/// neither tag, decodes to `InvalidInstruction`.
pub proof fn lemma_unpack_rejects(input: Seq<u8>)
    requires
        input.len() < 9 || (input[0] != INIT_ESCROW_TAG && input[0] != EXCHANGE_TAG),
    ensures
        spec_unpack(input) == Err::<EscrowInstruction, EscrowError>(
            EscrowError::InvalidInstruction,
        ),
{
}

/// A buffer of nine or more bytes with a known tag decodes to the operation of
/// that tag carrying exactly the `u64` held little-endian by bytes 1 to 8,
/// whatever bytes follow them.
pub proof fn lemma_unpack_recovers_amount(input: Seq<u8>, trailing: Seq<u8>)
    requires
        input.len() >= 9,
        input[0] == INIT_ESCROW_TAG || input[0] == EXCHANGE_TAG,
    ensures
        spec_unpack(input) matches Ok(op) && op.spec_tag() == input[0] && le_bytes(
            op.spec_amount(),
        ) == input.subrange(1, 9),
        spec_unpack(input + trailing) == spec_unpack(input),
{
    let head = input.subrange(1, 9);
    let longer = input + trailing;
    assert(forall|i: int| 0 <= i < 8 ==> input.drop_first()[i] == head[i]);
    assert(forall|i: int| 0 <= i < 8 ==> longer.drop_first()[i] == head[i]);
    assert(le_value(input.drop_first()) == le_value(head));
    assert(le_value(longer.drop_first()) == le_value(head));
    lemma_le_bytes_of_value(head);
}

/// Decoding the wire form of an operation gives the operation back.
pub proof fn lemma_pack_unpack(op: EscrowInstruction)
    ensures
        spec_unpack(op.spec_pack()) == Ok::<EscrowInstruction, EscrowError>(op),
{
    let bytes = op.spec_pack();
    lemma_le_round_trip(op.spec_amount());
    assert(bytes.drop_first() =~= le_bytes(op.spec_amount()));
}

} // verus!
