use anchor_programs::account::AccountRef;
use anchor_programs::error::ErrorCode;
use anchor_programs::key::Pubkey;
use anchor_programs::mint_token::{CreateToken, CreateTokenBumps, MintSetupStep, MINT_DECIMALS};
use anchor_spl::token_2022::spl_token_2022::{extension::ExtensionType, state::Mint};

const PROGRAM: [u8; 32] = [7u8; 32];
const PAYER: [u8; 32] = [1u8; 32];
const MINT: [u8; 32] = [2u8; 32];
const SYSTEM: [u8; 32] = [0u8; 32];

fn key(b: [u8; 32]) -> Pubkey {
    Pubkey::new_from_array(b)
}

fn acct(k: [u8; 32], is_signer: bool, is_writable: bool, executable: bool) -> AccountRef {
    AccountRef {
        key: key(k),
        is_signer,
        is_writable,
        lamports: 10,
        owner: key(SYSTEM),
        data_len: 0,
        executable,
    }
}

fn token_2022() -> [u8; 32] {
    anchor_spl::token_2022::ID.to_bytes()
}

fn accounts() -> CreateToken {
    CreateToken {
        payer: acct(PAYER, true, true, false),
        mint: acct(MINT, true, true, false),
        system_program: acct(SYSTEM, false, false, true),
        token_program: acct(token_2022(), false, false, true),
    }
}

#[test]
fn mint_space_is_that_of_a_mint_with_a_transfer_hook() {
    let expected = ExtensionType::try_calculate_account_len::<Mint>(&[ExtensionType::TransferHook]).unwrap();
    assert_eq!(CreateToken::mint_account_space(), Ok(expected));
    assert_eq!(CreateToken::mint_account_space(), Ok(234));
}

#[test]
fn create_token_plans_the_three_steps() {
    let mut a = accounts();
    let bumps = a.try_accounts();
    assert_eq!(bumps, Ok(CreateTokenBumps {}));
    let steps = a
        .create_token("uri".to_string(), "name".to_string(), "SYM".to_string(), &bumps.unwrap(), 2_500_000, &key(PROGRAM))
        .unwrap();
    assert_eq!(steps.len(), 3);
    match &steps[0] {
        MintSetupStep::CreateAccount { from, to, lamports, space, owner } => {
            assert_eq!(from.bytes, PAYER);
            assert_eq!(to.bytes, MINT);
            assert_eq!(*lamports, 2_500_000);
            assert_eq!(*space, 234);
            assert_eq!(owner.bytes, token_2022());
        }
        _ => panic!("the first step creates the account"),
    }
    match &steps[1] {
        MintSetupStep::InitializeTransferHook { instruction } => {
            assert_eq!(instruction.program_id.bytes, token_2022());
            assert_eq!(instruction.accounts.len(), 1);
            assert_eq!(instruction.accounts[0].pubkey.bytes, MINT);
            assert!(!instruction.accounts[0].is_signer);
            assert!(instruction.accounts[0].is_writable);
            let mut data = vec![36u8, 0];
            data.extend_from_slice(&PAYER);
            data.extend_from_slice(&PROGRAM);
            assert_eq!(instruction.data, data);
        }
        _ => panic!("the second step sets up the transfer hook"),
    }
    match &steps[2] {
        MintSetupStep::InitializeMint2 { token_program, mint, decimals, mint_authority, freeze_authority } => {
            assert_eq!(token_program.bytes, token_2022());
            assert_eq!(mint.bytes, MINT);
            assert_eq!(*decimals, 9);
            assert_eq!(*decimals, MINT_DECIMALS);
            assert_eq!(mint_authority.bytes, PAYER);
            assert_eq!(freeze_authority.unwrap().bytes, PAYER);
        }
        _ => panic!("the third step initializes the mint"),
    }
}

#[test]
fn create_token_refusals() {
    let mut a = accounts();
    a.mint.is_signer = false;
    assert_eq!(a.try_accounts(), Err(ErrorCode::AccountNotSigner));

    let mut a = accounts();
    a.token_program.key = key([9u8; 32]);
    assert_eq!(a.try_accounts(), Err(ErrorCode::InvalidProgramId));

    let mut a = accounts();
    a.token_program.key = key(anchor_spl::token_2022::spl_token_2022::ID.to_bytes());
    a.token_program.executable = false;
    assert_eq!(a.try_accounts(), Err(ErrorCode::InvalidProgramExecutable));

    let mut a = accounts();
    a.payer.is_writable = false;
    assert_eq!(a.try_accounts(), Err(ErrorCode::ConstraintMut));
}

#[test]
fn legacy_token_program_is_accepted() {
    let mut a = accounts();
    a.token_program.key = key([
        6, 221, 246, 225, 215, 101, 161, 147, 217, 203, 225, 70, 206, 235, 121, 172, 28, 180, 133, 237,
        95, 91, 55, 145, 58, 140, 245, 133, 126, 255, 0, 169,
    ]);
    assert_eq!(a.try_accounts(), Ok(CreateTokenBumps {}));
}

#[test]
fn transfer_hook_needs_the_token_2022_program() {
    let mut a = accounts();
    a.token_program.key = key([
        6, 221, 246, 225, 215, 101, 161, 147, 217, 203, 225, 70, 206, 235, 121, 172, 28, 180, 133, 237,
        95, 91, 55, 145, 58, 140, 245, 133, 126, 255, 0, 169,
    ]);
    let r = a.create_token(String::new(), String::new(), String::new(), &CreateTokenBumps {}, 1, &key(PROGRAM));
    assert!(matches!(r, Err(ErrorCode::IncorrectProgramId)));

    let mut a = accounts();
    let r = a.create_token(String::new(), String::new(), String::new(), &CreateTokenBumps {}, 1, &key(SYSTEM));
    assert!(matches!(r, Err(ErrorCode::InvalidArgument)));
}
