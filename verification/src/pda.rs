use vstd::prelude::*;

use crate::error::ErrorCode;
use crate::key::Pubkey;

verus! {

/// Most seeds a program address may be created from.
pub const MAX_SEEDS: usize = 16;

/// Longest a single seed may be.
pub const MAX_SEED_LEN: usize = 32;

/// Whether every seed is short enough and there are not too many of them
/// for an address to be created from them.
pub open spec fn seeds_within_limits(seeds: Seq<Seq<u8>>) -> bool {
    &&& seeds.len() <= MAX_SEEDS
    &&& forall|i: int| 0 <= i < seeds.len() ==> #[trigger] seeds[i].len() <= MAX_SEED_LEN
}

/// The program address that `Address::create_program_address` derives from
/// `seeds` under `program_id`, or `None` where it reports an error.
pub uninterp spec fn created_program_address(seeds: Seq<Seq<u8>>, program_id: Seq<u8>) -> Option<Seq<u8>>;

/// The address and bump that `Address::try_find_program_address` finds for
/// `seeds` under `program_id`, or `None` where it finds none.
pub uninterp spec fn found_program_address(seeds: Seq<Seq<u8>>, program_id: Seq<u8>) -> Option<(Seq<u8>, u8)>;

/// The seeds with the one-byte bump seed appended.
pub open spec fn with_bump(seeds: Seq<Seq<u8>>, bump: u8) -> Seq<Seq<u8>> {
    seeds.push(seq![bump])
}

/// Calls `Address::create_program_address` (solana-address).
///
/// Claimed of it, as its source shows: the result is the named
/// `created_program_address` of the seeds and the program id; it is an error
/// when there are more than `MAX_SEEDS` seeds or a seed is longer than
/// `MAX_SEED_LEN`. When the hash of the seeds lies on the curve it is an error
/// too, which is left to the name.
#[verifier::external_body]
pub(crate) fn create_program_address(seeds: &Vec<Vec<u8>>, program_id: &Pubkey) -> (res: Option<Pubkey>)
    ensures
        match res {
            Some(a) => created_program_address(seeds.deep_view(), program_id@) == Some(a@),
            None => created_program_address(seeds.deep_view(), program_id@) is None,
        },
        !seeds_within_limits(seeds.deep_view()) ==> res is None,
{
    let slices: Vec<&[u8]> = seeds.iter().map(|s| s.as_slice()).collect();
    let pid = anchor_lang::prelude::Pubkey::new_from_array(program_id.bytes);
    match anchor_lang::prelude::Pubkey::create_program_address(&slices, &pid) {
        Ok(a) => Some(Pubkey { bytes: a.to_bytes() }),
        Err(_) => None,
    }
}

/// Calls `Address::try_find_program_address` (solana-address).
///
/// Claimed of it, as its source shows: the result is the named
/// `found_program_address` of the seeds and the program id; there is none when
/// there are `MAX_SEEDS` seeds or more, or a seed is longer than
/// `MAX_SEED_LEN`; the bumps are tried from the largest down, so a found
/// address is what `create_program_address` gives for the seeds with the
/// found bump appended, and for every larger bump it gives nothing.
#[verifier::external_body]
pub(crate) fn try_find_program_address(seeds: &Vec<Vec<u8>>, program_id: &Pubkey) -> (res: Option<(Pubkey, u8)>)
    ensures
        match res {
            Some((a, b)) => found_program_address(seeds.deep_view(), program_id@) == Some((a@, b)),
            None => found_program_address(seeds.deep_view(), program_id@) is None,
        },
        seeds.len() >= MAX_SEEDS ==> res is None,
        !seeds_within_limits(seeds.deep_view()) ==> res is None,
        res matches Some((a, b)) ==> {
            &&& created_program_address(with_bump(seeds.deep_view(), b), program_id@) == Some(a@)
            &&& forall|c: u8| b < c ==> (#[trigger] created_program_address(with_bump(seeds.deep_view(), c), program_id@)) is None
        },
{
    let slices: Vec<&[u8]> = seeds.iter().map(|s| s.as_slice()).collect();
    let pid = anchor_lang::prelude::Pubkey::new_from_array(program_id.bytes);
    match anchor_lang::prelude::Pubkey::try_find_program_address(&slices, &pid) {
        Some((a, b)) => Some((Pubkey { bytes: a.to_bytes() }, b)),
        None => None,
    }
}

} // verus!

verus! {

/// `key` is the canonical program address of `seeds`: the address found for
/// them, with `bump`, which the seeds and that bump create, while no larger
/// bump creates any address.
pub open spec fn canonical_address(seeds: Seq<Seq<u8>>, program_id: Seq<u8>, key: Seq<u8>, bump: u8) -> bool {
    &&& found_program_address(seeds, program_id) == Some((key, bump))
    &&& created_program_address(with_bump(seeds, bump), program_id) == Some(key)
    &&& forall|c: u8| bump < c ==> (#[trigger] created_program_address(with_bump(seeds, c), program_id)) is None
}

/// At the canonical address of some seeds, the check of the seeds with a
/// recorded bump passes for the canonical bump and fails for every larger one.
pub proof fn canonical_bump_decides(seeds: Seq<Seq<u8>>, program_id: Seq<u8>, key: Seq<u8>, bump: u8, recorded: u8)
    requires
        canonical_address(seeds, program_id, key, bump),
    ensures
        recorded == bump ==> bumped_address_check(seeds, recorded, program_id, key) == Ok::<(), ErrorCode>(()),
        recorded > bump ==> bumped_address_check(seeds, recorded, program_id, key) == Err::<(), ErrorCode>(ErrorCode::ConstraintSeeds),
{
    if recorded > bump {
        assert(created_program_address(with_bump(seeds, recorded), program_id) is None);
    }
}

/// What checking that `key` is the program address found for `seeds` gives:
/// the bump of the address, or why the key is refused.
pub open spec fn found_address_check(seeds: Seq<Seq<u8>>, program_id: Seq<u8>, key: Seq<u8>) -> Result<u8, ErrorCode> {
    found_address_verdict_of(found_program_address(seeds, program_id), key)
}

/// What checking that `key` is the program address created from `seeds` and
/// a given bump gives.
pub open spec fn bumped_address_check(seeds: Seq<Seq<u8>>, bump: u8, program_id: Seq<u8>, key: Seq<u8>) -> Result<(), ErrorCode> {
    created_address_verdict_of(created_program_address(with_bump(seeds, bump), program_id), key)
}

/// What a found program address says of `key`: the bump when `key` is the
/// address, else why it is refused.
pub open spec fn found_address_verdict_of(found: Option<(Seq<u8>, u8)>, key: Seq<u8>) -> Result<u8, ErrorCode> {
    match found {
        None => Err(ErrorCode::ProgramAddressNotFound),
        Some((a, b)) => if a == key { Ok(b) } else { Err(ErrorCode::ConstraintSeeds) },
    }
}

/// What a created program address says of `key`.
pub open spec fn created_address_verdict_of(created: Option<Seq<u8>>, key: Seq<u8>) -> Result<(), ErrorCode> {
    match created {
        Some(a) => if a == key { Ok(()) } else { Err(ErrorCode::ConstraintSeeds) },
        None => Err(ErrorCode::ConstraintSeeds),
    }
}

/// The view of a found address.
pub open spec fn found_view(found: Option<(Pubkey, u8)>) -> Option<(Seq<u8>, u8)> {
    match found {
        None => None,
        Some((a, b)) => Some((a@, b)),
    }
}

/// The view of a created address.
pub open spec fn created_view(created: Option<Pubkey>) -> Option<Seq<u8>> {
    match created {
        None => None,
        Some(a) => Some(a@),
    }
}

/// Judges `key` by the program address found for its seeds: its bump when it
/// is that address; `ConstraintSeeds` when it is another; and
/// `ProgramAddressNotFound` when no address was found.
pub fn found_address_verdict(found: Option<(Pubkey, u8)>, key: &Pubkey) -> (r: Result<u8, ErrorCode>)
    ensures
        r == found_address_verdict_of(found_view(found), key@),
{
    match found {
        None => Err(ErrorCode::ProgramAddressNotFound),
        Some((a, b)) => if a.equals(key) { Ok(b) } else { Err(ErrorCode::ConstraintSeeds) },
    }
}

/// Judges `key` by the program address created from its seeds and a bump:
/// accepted when it is that address; `ConstraintSeeds` when it is another or
/// when no address was created.
pub fn created_address_verdict(created: Option<Pubkey>, key: &Pubkey) -> (r: Result<(), ErrorCode>)
    ensures
        r == created_address_verdict_of(created_view(created), key@),
{
    match created {
        Some(a) => if a.equals(key) { Ok(()) } else { Err(ErrorCode::ConstraintSeeds) },
        None => Err(ErrorCode::ConstraintSeeds),
    }
}

/// Checks that `key` is the program address found for `seeds` under
/// `program_id`, and gives its bump.
pub fn check_found_address(seeds: &Vec<Vec<u8>>, program_id: &Pubkey, key: &Pubkey) -> (r: Result<u8, ErrorCode>)
    ensures
        r == found_address_check(seeds.deep_view(), program_id@, key@),
        r matches Ok(b) ==> canonical_address(seeds.deep_view(), program_id@, key@, b),
{
    let found = try_find_program_address(seeds, program_id);
    found_address_verdict(found, key)
}

/// Checks that `key` is the program address created from `seeds` followed by
/// `bump` under `program_id`.
pub fn check_bumped_address(seeds: Vec<Vec<u8>>, bump: u8, program_id: &Pubkey, key: &Pubkey) -> (r: Result<(), ErrorCode>)
    ensures
        r == bumped_address_check(seeds.deep_view(), bump, program_id@, key@),
{
    let ghost given = seeds.deep_view();
    let ghost before = seeds@;
    let mut with: Vec<Vec<u8>> = seeds;
    let mut last: Vec<u8> = Vec::new();
    last.push(bump);
    with.push(last);
    proof {
        assert(last.deep_view() =~= seq![bump]);
        assert(with@ == before.push(last));
        assert(with.deep_view() =~= with_bump(given, bump));
    }
    let created = create_program_address(&with, program_id);
    created_address_verdict(created, key)
}

} // verus!

verus! {

/// A list of one seed.
pub fn one_seed(a: Vec<u8>) -> (seeds: Vec<Vec<u8>>)
    ensures
        seeds.deep_view() == seq![a@],
{
    let ghost av = a@;
    let mut seeds: Vec<Vec<u8>> = Vec::new();
    seeds.push(a);
    proof {
        assert(seeds@[0].deep_view() =~= av);
        assert(seeds.deep_view() =~= seq![av]);
    }
    seeds
}

/// A list of two seeds.
pub fn two_seeds(a: Vec<u8>, b: Vec<u8>) -> (seeds: Vec<Vec<u8>>)
    ensures
        seeds.deep_view() == seq![a@, b@],
{
    let ghost av = a@;
    let ghost bv = b@;
    let mut seeds: Vec<Vec<u8>> = Vec::new();
    seeds.push(a);
    seeds.push(b);
    proof {
        assert(seeds@[0].deep_view() =~= av);
        assert(seeds@[1].deep_view() =~= bv);
        assert(seeds.deep_view() =~= seq![av, bv]);
    }
    seeds
}

} // verus!
