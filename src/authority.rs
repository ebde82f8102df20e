use vstd::prelude::*;

use anchor_lang::prelude::Pubkey;
use anchor_lang::solana_program::pubkey::PubkeyError;

use crate::address::Address;
use crate::error::SwapError;

verus! {

#[verifier::external_type_specification]
#[verifier::external_body]
pub struct ExPubkeyError(PubkeyError);

/// The program-derived address, and its bump, that a search over bump values
/// finds for the single seed `seed` under program `program`; `None` when no
/// bump value gives an address off the curve.
pub uninterp spec fn found_authority(seed: Seq<u8>, program: Seq<u8>) -> Option<(Seq<u8>, u8)>;

/// The program-derived address for the seeds `seed` and `[bump]` under
/// program `program`; `None` when the hashed point lies on the curve.
pub uninterp spec fn created_address(seed: Seq<u8>, bump: u8, program: Seq<u8>) -> Option<Seq<u8>>;

/// Relies on `Pubkey::try_find_program_address`: it tries bump values from
/// 255 down and returns the first one for which `Pubkey::create_program_address`
/// succeeds on the seeds with that bump appended, together with that address.
#[verifier::external_body]
fn find_program_address(seed: &Address, program: &Address) -> (r: Option<(Address, u8)>)
    ensures
        match r {
            Some((a, b)) => found_authority(seed@, program@) == Some((a@, b))
                && created_address(seed@, b, program@) == Some(a@),
            None => found_authority(seed@, program@) is None,
        },
{
    let program_id = Pubkey::new_from_array(program.bytes);
    Pubkey::try_find_program_address(&[&seed.bytes], &program_id)
        .map(|(p, b)| (Address::new(p.to_bytes()), b))
}

/// Relies on `Pubkey::create_program_address` with the two seeds `seed` and
/// `[bump]`: it returns the derived address, or an error when the hash lies
/// on the curve (two seeds of at most 32 bytes never exceed its limits).
#[verifier::external_body]
fn create_program_address(seed: &Address, bump: u8, program: &Address) -> (r: Result<Address, PubkeyError>)
    ensures
        match r {
            Ok(a) => created_address(seed@, bump, program@) == Some(a@),
            Err(_) => created_address(seed@, bump, program@) is None,
        },
{
    let program_id = Pubkey::new_from_array(program.bytes);
    Pubkey::create_program_address(&[&seed.bytes, &[bump]], &program_id)
        .map(|p| Address::new(p.to_bytes()))
}

/// The result of the search for a pool's authority, as identities.
pub open spec fn view_found(f: Option<(Address, u8)>) -> Option<(Seq<u8>, u8)> {
    match f {
        Some((a, b)) => Some((a@, b)),
        None => None,
    }
}

/// Searches for the authority of the pool `pool_key` under `program_id`: the
/// derived address and the bump that reproduces it.
pub fn find_authority(program_id: &Address, pool_key: &Address) -> (r: Option<(Address, u8)>)
    ensures
        view_found(r) == found_authority(pool_key@, program_id@),
        r matches Some((a, b)) ==> created_address(pool_key@, b, program_id@) == Some(a@),
{
    find_program_address(pool_key, program_id)
}

/// Re-derives the authority of the pool `key_info` from its stored bump.
pub fn create_authority_id(program_id: &Address, key_info: &Address, bump_seed: u8) -> (r: Result<Address, SwapError>)
    ensures
        match created_address(key_info@, bump_seed, program_id@) {
            Some(a) => r matches Ok(x) && x@ == a,
            None => r == Err::<Address, SwapError>(SwapError::InvalidProgramAddress),
        },
{
    match create_program_address(key_info, bump_seed, program_id) {
        Ok(a) => Ok(a),
        Err(_) => Err(SwapError::InvalidProgramAddress),
    }
}

} // verus!
