//! The house's signing address, derived from its seed and bump under the
//! program's identity. Nobody holds a key for it: only the program can sign
//! with it, by presenting the seed and bump again.
use vstd::prelude::*;
use crate::address::Address;

verus! {

/// The program address derived from the seeds `[seed, [bump]]` under
/// `program_id`, or `None` where the derivation lands on the curve.
pub uninterp spec fn program_address(seed: Seq<u8>, bump: u8, program_id: Seq<u8>) -> Option<Address>;

/// Relies on solana_program's `Pubkey::create_program_address`: with two seeds
/// of at most 32 bytes it fails only where the hash is a curve point, and its
/// result depends on the seeds and the program identity alone.
#[verifier::external_body]
pub(crate) fn derive_house_address(seed: &Address, bump: u8, program_id: &Address) -> (r: Option<Address>)
    ensures
        r == program_address(seed.bytes@, bump, program_id.bytes@),
{
    let bump_seed = [bump];
    let program = solana_program::pubkey::Pubkey::new_from_array(program_id.bytes);
    match solana_program::pubkey::Pubkey::create_program_address(&[&seed.bytes, &bump_seed], &program) {
        Ok(p) => Some(Address { bytes: p.to_bytes() }),
        Err(_) => None,
    }
}

} // verus!
