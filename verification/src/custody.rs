//! Custody addresses: the addresses without a private key under which the
//! program holds a seller's vault, and the bumps with which it signs for them.

use crate::address::Address;
use crate::derivation::{
    address_view, derivation_view, search_program_address, seed_program_address,
    searched_address, seeded_address, seeds_view,
};
use crate::error::DecenseError;
use vstd::prelude::*;

verus! {

/// What deriving a seller's custody address under a program gives: the
/// address found for the seller's identity as the only seed, and its bump.
pub open spec fn custody_derivation(program: Seq<u8>, seller: Seq<u8>) -> Option<(Seq<u8>, u8)> {
    searched_address(seq![seller], program)
}

/// The address that a seller's identity and a bump give under a program.
pub open spec fn custody_address_at(program: Seq<u8>, seller: Seq<u8>, bump: u8) -> Option<
    Seq<u8>,
> {
    seeded_address(seq![seller, seq![bump]], program)
}

/// The bump that authorizes movements out of the custody address, owed only
/// to a candidate that is the derived address itself.
pub open spec fn custody_bump(derived: Option<(Seq<u8>, u8)>, candidate: Seq<u8>) -> Result<
    u8,
    DecenseError,
> {
    match derived {
        Some((address, bump)) => if address == candidate {
            Ok(bump)
        } else {
            Err(DecenseError::InvalidPDA)
        },
        None => Err(DecenseError::InvalidPDA),
    }
}

/// Derives the custody address of a seller and the bump that goes with it.
///
/// The same program and seller always give the same answer, and deriving
/// again with the bump gives the same address.
pub fn derive(program_id: &Address, seller: &Address) -> (found: Option<(Address, u8)>)
    ensures
        derivation_view(found) == custody_derivation(program_id@, seller@),
        found matches Some((address, bump)) ==> custody_address_at(program_id@, seller@, bump)
            == Some(address@),
{
    let mut seeds: Vec<Vec<u8>> = Vec::new();
    seeds.push(seller.to_vec());
    assert(seeds_view(seeds@) =~= seq![seller@]);
    let found = search_program_address(&seeds, program_id);
    proof {
        if let Some((_, bump)) = found {
            assert(seq![seller@].push(seq![bump]) =~= seq![seller@, seq![bump]]);
        }
    }
    found
}

/// Derives the custody address of a seller for a bump that is already known.
pub fn derive_with_bump(program_id: &Address, seller: &Address, bump: u8) -> (address: Option<
    Address,
>)
    ensures
        address_view(address) == custody_address_at(program_id@, seller@, bump),
{
    let mut bump_seed: Vec<u8> = Vec::new();
    bump_seed.push(bump);
    let mut seeds: Vec<Vec<u8>> = Vec::new();
    seeds.push(seller.to_vec());
    seeds.push(bump_seed);
    assert(seeds_view(seeds@) =~= seq![seller@, seq![bump]]);
    seed_program_address(&seeds, program_id)
}

/// Holds a candidate against a derivation and gives the bump if the
/// candidate is the derived address.
pub fn check(found: Option<(Address, u8)>, candidate: &Address) -> (bump: Result<u8, DecenseError>)
    ensures
        bump == custody_bump(derivation_view(found), candidate@),
{
    match found {
        Some((address, bump)) => if address == *candidate {
            Ok(bump)
        } else {
            Err(DecenseError::InvalidPDA)
        },
        None => Err(DecenseError::InvalidPDA),
    }
}

/// Derives the seller's custody address and accepts the candidate only if it
/// is that address.
pub fn verify(program_id: &Address, candidate: &Address, seller: &Address) -> (bump: Result<
    u8,
    DecenseError,
>)
    ensures
        bump == custody_bump(custody_derivation(program_id@, seller@), candidate@),
{
    let found = derive(program_id, seller);
    check(found, candidate)
}

} // verus!
