use vstd::prelude::*;

use crate::record::Address;
use solana_program::pubkey::Pubkey;

verus! {

/// Seed from which the program authority is derived.
pub const AUTHORITY_SEED: [u8; 6] = [101, 115, 99, 114, 111, 119];

/// The program-derived address and bump for `seed` under `program_id`, or
/// `None` when no bump gives a valid address.
pub uninterp spec fn derived_address(seed: Seq<u8>, program_id: Seq<u8>) -> Option<(Seq<u8>, u8)>;

/// Relies on `Pubkey::try_find_program_address` with the single seed `seed`:
/// its result depends on the seeds and the program id alone.
#[verifier::external_body]
pub(crate) fn find_program_address(seed: &[u8], program_id: &Address) -> (r: Option<(Address, u8)>)
    ensures
        r matches Some(found) ==> derived_address(seed@, program_id.bytes@) == Some(
            (found.0.bytes@, found.1),
        ),
        r is None ==> derived_address(seed@, program_id.bytes@) is None,
{
    match Pubkey::try_find_program_address(&[seed], &Pubkey::new_from_array(program_id.bytes)) {
        Some((found, bump)) => Some((Address { bytes: found.to_bytes() }, bump)),
        None => None,
    }
}

} // verus!
