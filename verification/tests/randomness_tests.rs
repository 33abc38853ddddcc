use anchor_lang::prelude::Pubkey as SolPubkey;
use anchor_programs::account::{Account, AccountRef, Instruction};
use anchor_programs::error::ErrorCode;
use anchor_programs::key::Pubkey;
use anchor_programs::randomness::{
    Clock, ConsumeRandomness, ConsumeRandomnessBumps, RequestRandomness, RequestRandomnessBumps,
    UserAccount,
};

const PROGRAM: [u8; 32] = [7u8; 32];
const SYSTEM: [u8; 32] = [0u8; 32];

fn key(b: [u8; 32]) -> Pubkey {
    Pubkey::new_from_array(b)
}

fn acct(k: [u8; 32], is_signer: bool, is_writable: bool, owner: [u8; 32]) -> AccountRef {
    AccountRef {
        key: key(k),
        is_signer,
        is_writable,
        lamports: 10,
        owner: key(owner),
        data_len: 0,
        executable: false,
    }
}

fn payer_bytes() -> [u8; 32] {
    let mut p = [0u8; 32];
    for (i, b) in p.iter_mut().enumerate() {
        *b = 100 + i as u8;
    }
    p
}

fn user_pda(payer: [u8; 32]) -> ([u8; 32], u8) {
    let (a, b) = SolPubkey::find_program_address(&[b"user", &payer], &SolPubkey::new_from_array(PROGRAM));
    (a.to_bytes(), b)
}

fn consume_accounts() -> ConsumeRandomness {
    ConsumeRandomness {
        vrf_program_identity: acct(ephemeral_vrf_sdk::consts::VRF_PROGRAM_IDENTITY.to_bytes(), true, false, SYSTEM),
        user_account: Account { info: acct([3u8; 32], false, true, PROGRAM), data: UserAccount { data: 0, bump: 254 } },
    }
}

fn program_acct(k: [u8; 32]) -> AccountRef {
    let mut a = acct(k, false, false, [2u8; 32]);
    a.executable = true;
    a
}

fn identity_pda() -> ([u8; 32], u8) {
    let (a, b) = SolPubkey::find_program_address(&[b"identity"], &SolPubkey::new_from_array(PROGRAM));
    (a.to_bytes(), b)
}

fn slot_hashes_bytes() -> [u8; 32] {
    ephemeral_vrf_sdk::compat::slot_hashes::ID.to_bytes()
}

fn request_accounts() -> RequestRandomness {
    let payer = payer_bytes();
    let (u, b) = user_pda(payer);
    RequestRandomness {
        payer: acct(payer, true, true, SYSTEM),
        user_account: Account { info: acct(u, false, true, PROGRAM), data: UserAccount { data: 0, bump: b } },
        oracle_queue: acct([5u8; 32], false, true, [6u8; 32]),
        program_identity: acct(identity_pda().0, false, false, SYSTEM),
        vrf_program: program_acct(ephemeral_vrf_sdk::id().to_bytes()),
        slot_hashes: acct(slot_hashes_bytes(), false, false, [4u8; 32]),
        system_program: program_acct(SYSTEM),
    }
}

#[test]
fn consume_randomness_stores_every_fourth_byte_little_endian() {
    let mut randomness = [0u8; 32];
    for (i, b) in randomness.iter_mut().enumerate() {
        *b = i as u8 + 1;
    }
    let mut accounts = consume_accounts();
    assert_eq!(accounts.try_accounts(&key(PROGRAM)), Ok(ConsumeRandomnessBumps {}));
    assert_eq!(accounts.consume_randomness(randomness), Ok(()));
    let expected = u64::from_le_bytes([1, 5, 9, 13, 17, 21, 25, 29]);
    assert_eq!(accounts.user_account.data.data, expected);
    assert_eq!(accounts.user_account.data.data, ephemeral_vrf_sdk::rnd::random_u64(&randomness));
    assert_eq!(accounts.user_account.data.bump, 254);
}

#[test]
fn consume_randomness_ignores_the_other_bytes() {
    let mut accounts = consume_accounts();
    let mut randomness = [0xffu8; 32];
    for i in 0..8 {
        randomness[4 * i] = 0;
    }
    accounts.consume_randomness(randomness).unwrap();
    assert_eq!(accounts.user_account.data.data, 0);
}

#[test]
fn consume_randomness_refusals() {
    let mut a = consume_accounts();
    a.vrf_program_identity.is_signer = false;
    assert_eq!(a.try_accounts(&key(PROGRAM)), Err(ErrorCode::AccountNotSigner));

    let mut a = consume_accounts();
    a.vrf_program_identity.key = key([9u8; 32]);
    assert_eq!(a.try_accounts(&key(PROGRAM)), Err(ErrorCode::ConstraintAddress));

    let mut a = consume_accounts();
    a.user_account.info.is_writable = false;
    assert_eq!(a.try_accounts(&key(PROGRAM)), Err(ErrorCode::ConstraintMut));

    let mut a = consume_accounts();
    a.user_account.info.owner = key([9u8; 32]);
    assert_eq!(a.try_accounts(&key(PROGRAM)), Err(ErrorCode::AccountOwnedByWrongProgram));
}

#[test]
fn caller_seed_holds_clock_seed_and_payer_prefix() {
    let payer = payer_bytes();
    let clock = Clock { slot: 1000, unix_timestamp: 1_700_000_000 };
    let seed = RequestRandomness::caller_seed(&clock, &key(payer));
    assert_eq!(&seed[0..8], &(1000u64 + 1_700_000_000).to_le_bytes());
    assert_eq!(&seed[8..16], &payer[0..8]);
    assert_eq!(&seed[16..32], &[0u8; 16]);
}

#[test]
fn caller_seed_wraps_negative_timestamps() {
    // A negative timestamp reads as a number just below 2^64; only a slot of
    // at most 2 keeps the sum within 64 bits.
    let clock = Clock { slot: 2, unix_timestamp: -3 };
    let seed = RequestRandomness::caller_seed(&clock, &key([0u8; 32]));
    assert_eq!(&seed[0..8], &u64::MAX.to_le_bytes());
}

#[test]
fn request_randomness_builds_the_call() {
    let mut accounts = request_accounts();
    assert_eq!(
        accounts.try_accounts(&key(PROGRAM)),
        Ok(RequestRandomnessBumps { program_identity: identity_pda().1 })
    );
    let clock = Clock { slot: 42, unix_timestamp: 1_000 };
    let call = accounts.request_randomness(&clock, &key(PROGRAM)).unwrap();
    let req = &call.request;
    assert_eq!(req.payer.bytes, payer_bytes());
    assert_eq!(req.oracle_queue.bytes, [5u8; 32]);
    assert_eq!(req.callback_program_id.bytes, PROGRAM);
    assert_eq!(req.callback_discriminator, vec![190u8, 217, 49, 162, 99, 26, 73, 234]);
    assert_eq!(req.callback_accounts.len(), 1);
    assert_eq!(req.callback_accounts[0].pubkey.bytes, accounts.user_account.info.key.bytes);
    assert!(!req.callback_accounts[0].is_signer);
    assert!(req.callback_accounts[0].is_writable);
    assert!(req.callback_args.is_none());
    assert_eq!(&req.caller_seed[0..8], &1042u64.to_le_bytes());
    let (_, bump) = SolPubkey::find_program_address(&[b"p-conf", &PROGRAM], &ephemeral_vrf_sdk::id());
    assert_eq!(call.signer_seeds, vec![b"p-conf".to_vec(), PROGRAM.to_vec(), vec![bump]]);
    let order: Vec<[u8; 32]> = call.accounts.iter().map(|k| k.bytes).collect();
    assert_eq!(
        order,
        vec![payer_bytes(), [5u8; 32], ephemeral_vrf_sdk::id().to_bytes(), identity_pda().0, SYSTEM, slot_hashes_bytes()]
    );

    // The instruction for the randomness program.
    let ix = &call.instruction;
    assert_eq!(ix.program_id.bytes, ephemeral_vrf_sdk::id().to_bytes());
    let metas: Vec<([u8; 32], bool, bool)> =
        ix.accounts.iter().map(|m| (m.pubkey.bytes, m.is_signer, m.is_writable)).collect();
    assert_eq!(
        metas,
        vec![
            (payer_bytes(), true, true),
            (identity_pda().0, true, false),
            ([5u8; 32], false, true),
            (SYSTEM, false, false),
            (slot_hashes_bytes(), false, false),
        ]
    );
    let mut data = vec![10u8, 0, 0, 0, 0, 0, 0, 0];
    data.extend_from_slice(&req.caller_seed);
    data.extend_from_slice(&PROGRAM);
    data.extend_from_slice(&8u32.to_le_bytes());
    data.extend_from_slice(&[190u8, 217, 49, 162, 99, 26, 73, 234]);
    data.extend_from_slice(&1u32.to_le_bytes());
    data.extend_from_slice(&accounts.user_account.info.key.bytes);
    data.extend_from_slice(&[0u8, 1]);
    data.extend_from_slice(&0u32.to_le_bytes());
    assert_eq!(ix.data, data);
}

#[test]
fn build_call_without_identity_is_refused() {
    let accounts = request_accounts();
    let clock = Clock { slot: 1, unix_timestamp: 1 };
    let ix = || Instruction { program_id: key([1u8; 32]), accounts: Vec::new(), data: vec![1u8, 2, 3] };
    let r = accounts.build_call(&key(PROGRAM), accounts.build_request(&clock, &key(PROGRAM)), ix(), None);
    assert!(matches!(r, Err(ErrorCode::ProgramAddressNotFound)));
    let r = accounts.build_call(&key(PROGRAM), accounts.build_request(&clock, &key(PROGRAM)), ix(), Some((key([1u8; 32]), 250)));
    let call = r.unwrap();
    assert_eq!(call.signer_seeds[2], vec![250u8]);
    assert_eq!(call.instruction.data, vec![1u8, 2, 3]);
}

#[test]
fn request_randomness_refusals() {
    let mut a = request_accounts();
    a.payer.is_signer = false;
    assert_eq!(a.try_accounts(&key(PROGRAM)), Err(ErrorCode::AccountNotSigner));

    let mut a = request_accounts();
    a.user_account.data.bump = a.user_account.data.bump.wrapping_add(1);
    assert_eq!(a.try_accounts(&key(PROGRAM)), Err(ErrorCode::ConstraintSeeds));

    let mut a = request_accounts();
    a.oracle_queue.is_writable = false;
    assert_eq!(a.try_accounts(&key(PROGRAM)), Err(ErrorCode::ConstraintMut));

    let mut a = request_accounts();
    a.vrf_program.key = key([9u8; 32]);
    assert_eq!(a.try_accounts(&key(PROGRAM)), Err(ErrorCode::InvalidProgramId));

    let mut a = request_accounts();
    a.system_program.executable = false;
    assert_eq!(a.try_accounts(&key(PROGRAM)), Err(ErrorCode::InvalidProgramExecutable));

    let mut a = request_accounts();
    a.program_identity.key = key([9u8; 32]);
    assert_eq!(a.try_accounts(&key(PROGRAM)), Err(ErrorCode::ConstraintSeeds));

    let mut a = request_accounts();
    a.slot_hashes.key = key([9u8; 32]);
    assert_eq!(a.try_accounts(&key(PROGRAM)), Err(ErrorCode::ConstraintAddress));
}
