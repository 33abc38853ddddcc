use anchor_lang::prelude::Pubkey as SolPubkey;
use anchor_programs::error::ErrorCode;
use anchor_programs::key::Pubkey;
use anchor_programs::pda::{
    check_bumped_address, check_found_address, created_address_verdict, found_address_verdict, one_seed,
    two_seeds,
};

const PROGRAM: [u8; 32] = [7u8; 32];

fn key(b: [u8; 32]) -> Pubkey {
    Pubkey::new_from_array(b)
}

#[test]
fn found_address_is_accepted_with_its_bump() {
    let (a, b) = SolPubkey::find_program_address(&[b"vault", &[3u8; 32]], &SolPubkey::new_from_array(PROGRAM));
    let seeds = two_seeds(b"vault".to_vec(), vec![3u8; 32]);
    assert_eq!(check_found_address(&seeds, &key(PROGRAM), &key(a.to_bytes())), Ok(b));
    assert_eq!(check_found_address(&seeds, &key(PROGRAM), &key(PROGRAM)), Err(ErrorCode::ConstraintSeeds));
    assert_eq!(check_bumped_address(seeds, b, &key(PROGRAM), &key(a.to_bytes())), Ok(()));
}

#[test]
fn bumped_address_with_another_bump_is_refused() {
    let (a, b) = SolPubkey::find_program_address(&[b"vault"], &SolPubkey::new_from_array(PROGRAM));
    let other = b.wrapping_sub(1);
    let r = check_bumped_address(one_seed(b"vault".to_vec()), other, &key(PROGRAM), &key(a.to_bytes()));
    assert_eq!(r, Err(ErrorCode::ConstraintSeeds));
}

#[test]
fn too_many_or_too_long_seeds_find_nothing() {
    let mut seeds = Vec::new();
    for i in 0..16u8 {
        seeds.push(vec![i]);
    }
    assert_eq!(check_found_address(&seeds, &key(PROGRAM), &key(PROGRAM)), Err(ErrorCode::ProgramAddressNotFound));
    let long = one_seed(vec![1u8; 33]);
    assert_eq!(check_found_address(&long, &key(PROGRAM), &key(PROGRAM)), Err(ErrorCode::ProgramAddressNotFound));
    assert_eq!(check_bumped_address(long, 255, &key(PROGRAM), &key(PROGRAM)), Err(ErrorCode::ConstraintSeeds));
}

#[test]
fn verdicts_on_given_addresses() {
    assert_eq!(found_address_verdict(None, &key(PROGRAM)), Err(ErrorCode::ProgramAddressNotFound));
    assert_eq!(found_address_verdict(Some((key(PROGRAM), 200)), &key(PROGRAM)), Ok(200));
    assert_eq!(found_address_verdict(Some((key([1u8; 32]), 200)), &key(PROGRAM)), Err(ErrorCode::ConstraintSeeds));
    assert_eq!(created_address_verdict(None, &key(PROGRAM)), Err(ErrorCode::ConstraintSeeds));
    assert_eq!(created_address_verdict(Some(key(PROGRAM)), &key(PROGRAM)), Ok(()));
    assert_eq!(created_address_verdict(Some(key([1u8; 32])), &key(PROGRAM)), Err(ErrorCode::ConstraintSeeds));
}

#[test]
fn key_equality_and_bytes() {
    let a = key([5u8; 32]);
    let mut other = [5u8; 32];
    assert!(a.equals(&key(other)));
    other[31] = 6;
    assert!(!a.equals(&key(other)));
    assert_eq!(a.to_vec(), vec![5u8; 32]);
    assert_eq!(a.to_bytes(), [5u8; 32]);
}
