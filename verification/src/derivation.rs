//! Addresses that a program derives from seeds.

use crate::address::Address;
use solana_program::pubkey::Pubkey;
use vstd::prelude::*;

verus! {

/// What the search for an address without a private key gives for a list
/// of seeds under a program: the address and the bump that was added to the
/// seeds as the last of them, or nothing where no bump yields such an
/// address.
pub uninterp spec fn searched_address(seeds: Seq<Seq<u8>>, program: Seq<u8>) -> Option<
    (Seq<u8>, u8),
>;

/// The address that a list of seeds gives under a program, or nothing where
/// the seeds are too many or too long, or give an address with a private
/// key.
pub uninterp spec fn seeded_address(seeds: Seq<Seq<u8>>, program: Seq<u8>) -> Option<Seq<u8>>;

/// A list of seeds, each as its bytes.
pub open spec fn seeds_view(seeds: Seq<Vec<u8>>) -> Seq<Seq<u8>> {
    seeds.map_values(|seed: Vec<u8>| seed@)
}

/// A found address and bump, with the address as its bytes.
pub open spec fn derivation_view(found: Option<(Address, u8)>) -> Option<(Seq<u8>, u8)> {
    match found {
        Some((address, bump)) => Some((address@, bump)),
        None => None,
    }
}

/// An address, if any, as its bytes.
pub open spec fn address_view(address: Option<Address>) -> Option<Seq<u8>> {
    match address {
        Some(address) => Some(address@),
        None => None,
    }
}

/// Calls `Pubkey::try_find_program_address` of `solana_program`. The result
/// depends on the seeds and the program alone. Whenever an address and a
/// bump come back, the address is the one that
/// `Pubkey::create_program_address` gives for the same seeds followed by the
/// bump as a seed of one byte: the search returns the first such call that
/// succeeds.
#[verifier::external_body]
pub(crate) fn search_program_address(seeds: &Vec<Vec<u8>>, program_id: &Address) -> (found: Option<
    (Address, u8),
>)
    ensures
        derivation_view(found) == searched_address(seeds_view(seeds@), program_id@),
        found matches Some((address, bump)) ==> seeded_address(
            seeds_view(seeds@).push(seq![bump]),
            program_id@,
        ) == Some(address@),
{
    let seeds: Vec<&[u8]> = seeds.iter().map(|seed| seed.as_slice()).collect();
    Pubkey::try_find_program_address(&seeds, &Pubkey::new_from_array(program_id.bytes))
        .map(|(address, bump)| (Address { bytes: address.to_bytes() }, bump))
}

/// Calls `Pubkey::create_program_address` of `solana_program`. The result
/// depends on the seeds and the program alone; every failure of the call is
/// handed on as `None`.
#[verifier::external_body]
pub(crate) fn seed_program_address(seeds: &Vec<Vec<u8>>, program_id: &Address) -> (address: Option<
    Address,
>)
    ensures
        address_view(address) == seeded_address(seeds_view(seeds@), program_id@),
{
    let seeds: Vec<&[u8]> = seeds.iter().map(|seed| seed.as_slice()).collect();
    Pubkey::create_program_address(&seeds, &Pubkey::new_from_array(program_id.bytes))
        .ok()
        .map(|address| Address { bytes: address.to_bytes() })
}

} // verus!
