use vstd::prelude::*;

verus! {

/// Domain failures of the escrow program. Each one is surfaced to the host as
/// a custom program error whose number is `code()`.
#[derive(Debug, Clone, Copy, PartialEq, Eq, Structural)]
pub enum EscrowError {
    /// The instruction bytes do not form a known operation.
    InvalidInstruction,
    /// The amount offered by the taker does not match what the escrow expects.
    ExpectedAmountMismatch,
    /// An amount computation would leave the 64-bit range.
    AmountOverflow,
}

/// The stable numeric code of each error kind.
pub open spec fn error_code(e: EscrowError) -> u32 {
    match e {
        EscrowError::InvalidInstruction => 0,
        EscrowError::ExpectedAmountMismatch => 1,
        EscrowError::AmountOverflow => 2,
    }
}

impl EscrowError {
    /// The number carried by the host's custom program error for this kind.
    pub fn code(&self) -> (r: u32)
        ensures
            r == error_code(*self),
    {
        match self {
            EscrowError::InvalidInstruction => 0,
            EscrowError::ExpectedAmountMismatch => 1,
            EscrowError::AmountOverflow => 2,
        }
    }

    /// The error kind that a custom program error number stands for, if any.
    pub fn from_code(code: u32) -> (r: Option<EscrowError>)
        ensures
            r matches Some(e) ==> error_code(e) == code,
            r is None <==> code > 2,
    {
        match code {
            0 => Some(EscrowError::InvalidInstruction),
            1 => Some(EscrowError::ExpectedAmountMismatch),
            2 => Some(EscrowError::AmountOverflow),
            _ => None,
        }
    }
}

/// Decoding a code yields back the kind it was made from.
pub proof fn lemma_code_round_trip(e: EscrowError)
    ensures
        error_code(e) <= 2,
        forall|f: EscrowError| error_code(f) == error_code(e) ==> f == e,
{
}

} // verus!
