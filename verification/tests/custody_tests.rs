use decense::address::Address;
use decense::custody;
use decense::custody::{check, derive_with_bump, verify};
use decense::error::DecenseError;
use solana_program::pubkey::Pubkey;

fn address(fill: u8) -> Address {
    Address { bytes: [fill; 32] }
}

#[test]
fn derive_agrees_with_the_ledger_library() {
    for fill in [0u8, 1, 7, 200, 255] {
        let program = address(fill.wrapping_add(3));
        let seller = address(fill);
        let (expected, bump) = Pubkey::find_program_address(
            &[&seller.bytes],
            &Pubkey::new_from_array(program.bytes),
        );
        assert_eq!(custody::derive(&program, &seller), Some((Address { bytes: expected.to_bytes() }, bump)));
    }
}

#[test]
fn derive_is_not_the_identity() {
    let program = address(1);
    let seller = address(2);
    let (custody, _) = custody::derive(&program, &seller).unwrap();
    assert!(custody != seller);
    assert!(custody != program);
}

#[test]
fn derive_gives_the_same_answer_twice() {
    let program = address(11);
    let seller = address(12);
    assert_eq!(custody::derive(&program, &seller), custody::derive(&program, &seller));
}

#[test]
fn different_sellers_get_different_custody_addresses() {
    let program = address(11);
    let first = custody::derive(&program, &address(1)).unwrap();
    let second = custody::derive(&program, &address(2)).unwrap();
    assert!(first.0 != second.0);
}

#[test]
fn deriving_again_with_the_bump_gives_the_same_address() {
    for fill in [0u8, 5, 99, 254] {
        let program = address(fill.wrapping_add(1));
        let seller = address(fill);
        let (custody, bump) = custody::derive(&program, &seller).unwrap();
        assert_eq!(derive_with_bump(&program, &seller, bump), Some(custody));
    }
}

#[test]
fn deriving_with_a_bump_agrees_with_the_ledger_library() {
    let program = address(21);
    let seller = address(22);
    for bump in [0u8, 1, 100, 254, 255] {
        let expected = Pubkey::create_program_address(
            &[&seller.bytes, &[bump]],
            &Pubkey::new_from_array(program.bytes),
        )
        .ok()
        .map(|address| Address { bytes: address.to_bytes() });
        assert_eq!(derive_with_bump(&program, &seller, bump), expected);
    }
}

#[test]
fn verify_accepts_the_derived_address() {
    let program = address(31);
    let seller = address(32);
    let (custody, bump) = custody::derive(&program, &seller).unwrap();
    assert_eq!(verify(&program, &custody, &seller), Ok(bump));
}

#[test]
fn verify_refuses_any_other_address() {
    let program = address(31);
    let seller = address(32);
    let (custody, _) = custody::derive(&program, &seller).unwrap();
    let mut near = custody.bytes;
    near[31] ^= 1;
    assert_eq!(verify(&program, &Address { bytes: near }, &seller), Err(DecenseError::InvalidPDA));
    assert_eq!(verify(&program, &seller, &seller), Err(DecenseError::InvalidPDA));
    assert_eq!(verify(&program, &custody, &address(33)), Err(DecenseError::InvalidPDA));
    assert_eq!(verify(&address(30), &custody, &seller), Err(DecenseError::InvalidPDA));
}

#[test]
fn check_compares_a_candidate_with_a_derivation() {
    let custody = address(50);
    assert_eq!(check(Some((custody, 254)), &custody), Ok(254));
    assert_eq!(check(Some((custody, 254)), &address(51)), Err(DecenseError::InvalidPDA));
    assert_eq!(check(None, &custody), Err(DecenseError::InvalidPDA));
}

#[test]
fn deriving_with_a_wrong_bump_gives_another_address_or_none() {
    let program = address(41);
    let seller = address(42);
    let (custody, bump) = custody::derive(&program, &seller).unwrap();
    let other = derive_with_bump(&program, &seller, bump.wrapping_sub(1));
    assert!(other != Some(custody));
}
