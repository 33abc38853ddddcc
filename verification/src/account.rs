use vstd::prelude::*;

use crate::error::ErrorCode;
use crate::key::Pubkey;

verus! {

/// What an instruction sees of an account it is handed: its address, whether
/// it signed the transaction and may be written, its balance, the program
/// that owns it, the length of its data, and whether it is a program.
#[derive(Clone, Copy, Debug)]
pub struct AccountRef {
    pub key: Pubkey,
    pub is_signer: bool,
    pub is_writable: bool,
    pub lamports: u64,
    pub owner: Pubkey,
    pub data_len: usize,
    pub executable: bool,
}

/// An account together with the bytes of its data.
#[derive(Debug)]
pub struct AccountData {
    pub info: AccountRef,
    pub data: Vec<u8>,
}

/// An account together with the state its data holds.
#[derive(Debug)]
pub struct Account<T> {
    pub info: AccountRef,
    pub data: T,
}

/// An account named by an instruction: its address, and whether it signs
/// and may be written.
#[derive(Clone, Copy, Debug)]
pub struct AccountMeta {
    pub pubkey: Pubkey,
    pub is_signer: bool,
    pub is_writable: bool,
}

/// The view of an account named by an instruction.
pub open spec fn meta_view(m: AccountMeta) -> (Seq<u8>, bool, bool) {
    (m.pubkey@, m.is_signer, m.is_writable)
}

/// The views of the accounts named by an instruction.
pub open spec fn metas_view(ms: Seq<AccountMeta>) -> Seq<(Seq<u8>, bool, bool)> {
    ms.map_values(|m: AccountMeta| meta_view(m))
}

/// An instruction for another program: the program, the accounts it names
/// and its data.
#[derive(Debug)]
pub struct Instruction {
    pub program_id: Pubkey,
    pub accounts: Vec<AccountMeta>,
    pub data: Vec<u8>,
}

/// The address of the system program: thirty-two zero bytes.
pub open spec fn system_program_bytes() -> Seq<u8> {
    Seq::new(32, |i: int| 0u8)
}

/// The address of the token program.
pub open spec fn token_program_bytes() -> Seq<u8> {
    seq![6u8, 221u8, 246u8, 225u8, 215u8, 101u8, 161u8, 147u8, 217u8, 203u8, 225u8, 70u8, 206u8,
        235u8, 121u8, 172u8, 28u8, 180u8, 133u8, 237u8, 95u8, 91u8, 55u8, 145u8, 58u8, 140u8, 245u8,
        133u8, 126u8, 255u8, 0u8, 169u8]
}

/// The address of the token-2022 program.
pub open spec fn token_2022_program_bytes() -> Seq<u8> {
    seq![6u8, 221u8, 246u8, 225u8, 238u8, 117u8, 143u8, 222u8, 24u8, 66u8, 93u8, 188u8, 228u8,
        108u8, 205u8, 218u8, 182u8, 26u8, 252u8, 77u8, 131u8, 185u8, 13u8, 39u8, 254u8, 189u8, 249u8,
        40u8, 216u8, 161u8, 139u8, 252u8]
}

/// The two token programs.
pub open spec fn token_program_set() -> Seq<Seq<u8>> {
    seq![token_program_bytes(), token_2022_program_bytes()]
}

/// Reads `anchor_lang::system_program::ID`.
///
/// Claimed of it: the address is thirty-two zero bytes, which is what its
/// base58 text `11111111111111111111111111111111` encodes.
#[verifier::external_body]
pub(crate) fn system_program_id() -> (k: Pubkey)
    ensures
        k@ == system_program_bytes(),
{
    Pubkey { bytes: anchor_lang::system_program::ID.to_bytes() }
}

/// Reads `<anchor_spl::token_interface::TokenAccount as Owners>::owners()`.
///
/// Claimed of it: the list is the token program and the token-2022 program,
/// in this order, the bytes being what their base58 texts encode.
#[verifier::external_body]
pub(crate) fn token_account_owners() -> (ids: Vec<Pubkey>)
    ensures
        ids@.len() == 2,
        ids@[0]@ == token_program_bytes(),
        ids@[1]@ == token_2022_program_bytes(),
{
    <anchor_spl::token_interface::TokenAccount as anchor_lang::Owners>::owners()
        .iter()
        .map(|k| Pubkey { bytes: k.to_bytes() })
        .collect()
}

/// Reads `<anchor_spl::token_interface::Mint as Owners>::owners()`.
///
/// Claimed of it: the list is the token program and the token-2022 program,
/// in this order.
#[verifier::external_body]
pub(crate) fn mint_account_owners() -> (ids: Vec<Pubkey>)
    ensures
        ids@.len() == 2,
        ids@[0]@ == token_program_bytes(),
        ids@[1]@ == token_2022_program_bytes(),
{
    <anchor_spl::token_interface::Mint as anchor_lang::Owners>::owners()
        .iter()
        .map(|k| Pubkey { bytes: k.to_bytes() })
        .collect()
}

/// Reads `<anchor_spl::token_interface::TokenInterface as Ids>::ids()`.
///
/// Claimed of it: the list is the token program and the token-2022 program,
/// in this order.
#[verifier::external_body]
pub(crate) fn token_interface_ids() -> (ids: Vec<Pubkey>)
    ensures
        ids@.len() == 2,
        ids@[0]@ == token_program_bytes(),
        ids@[1]@ == token_2022_program_bytes(),
{
    <anchor_spl::token_interface::TokenInterface as anchor_lang::Ids>::ids()
        .iter()
        .map(|k| Pubkey { bytes: k.to_bytes() })
        .collect()
}

/// The addresses of a list of keys.
pub open spec fn key_views(keys: Seq<Pubkey>) -> Seq<Seq<u8>> {
    keys.map_values(|k: Pubkey| k@)
}

/// The first error of two checks, or the result of the second.
pub open spec fn after_check<T>(first: Result<(), ErrorCode>, rest: Result<T, ErrorCode>) -> Result<T, ErrorCode> {
    match first {
        Err(e) => Err(e),
        Ok(_) => rest,
    }
}

/// The account must have signed.
pub open spec fn signer_check(info: AccountRef) -> Result<(), ErrorCode> {
    if info.is_signer { Ok(()) } else { Err(ErrorCode::AccountNotSigner) }
}

/// The account must be writable.
pub open spec fn writable_check(info: AccountRef) -> Result<(), ErrorCode> {
    if info.is_writable { Ok(()) } else { Err(ErrorCode::ConstraintMut) }
}

/// The account must exist and be owned by one of `owners`.
pub open spec fn owner_check(info: AccountRef, owners: Seq<Seq<u8>>) -> Result<(), ErrorCode> {
    if info.owner@ == system_program_bytes() && info.lamports == 0 {
        Err(ErrorCode::AccountNotInitialized)
    } else if !owners.contains(info.owner@) {
        Err(ErrorCode::AccountOwnedByWrongProgram)
    } else {
        Ok(())
    }
}

/// The account must be one of the programs `ids`, and executable.
pub open spec fn program_check(info: AccountRef, ids: Seq<Seq<u8>>) -> Result<(), ErrorCode> {
    if !ids.contains(info.key@) {
        Err(ErrorCode::InvalidProgramId)
    } else if !info.executable {
        Err(ErrorCode::InvalidProgramExecutable)
    } else {
        Ok(())
    }
}

/// An account created with `init` that already holds a balance is funded
/// and taken over rather than created, which its payer cannot be.
pub open spec fn init_payer_check(payer: AccountRef, account: AccountRef) -> Result<(), ErrorCode> {
    if account.lamports != 0 && payer.key@ == account.key@ {
        Err(ErrorCode::TryingToInitPayerAsProgramAccount)
    } else {
        Ok(())
    }
}

/// Checks that an `init` account that already holds a balance is not its own payer.
pub fn check_init_payer(payer: &AccountRef, account: &AccountRef) -> (r: Result<(), ErrorCode>)
    ensures
        r == init_payer_check(*payer, *account),
{
    if account.lamports != 0 && payer.key.equals(&account.key) {
        return Err(ErrorCode::TryingToInitPayerAsProgramAccount);
    }
    Ok(())
}

/// Whether `k` is among `keys`.
pub fn contains_key(keys: &Vec<Pubkey>, k: &Pubkey) -> (r: bool)
    ensures
        r == key_views(keys@).contains(k@),
{
    let mut i: usize = 0;
    while i < keys.len()
        invariant
            i <= keys@.len(),
            forall|j: int| 0 <= j < i ==> keys@[j]@ != k@,
        decreases keys@.len() - i,
    {
        if keys[i].equals(k) {
            proof {
                assert(key_views(keys@)[i as int] == k@);
            }
            return true;
        }
        i = i + 1;
    }
    proof {
        if key_views(keys@).contains(k@) {
            let j = choose|j: int| 0 <= j < key_views(keys@).len() && key_views(keys@)[j] == k@;
            assert(keys@[j]@ == k@);
        }
    }
    false
}

/// Checks that the account signed.
pub fn check_signer(info: &AccountRef) -> (r: Result<(), ErrorCode>)
    ensures
        r == signer_check(*info),
{
    if info.is_signer { Ok(()) } else { Err(ErrorCode::AccountNotSigner) }
}

/// Checks that the account is writable.
pub fn check_writable(info: &AccountRef) -> (r: Result<(), ErrorCode>)
    ensures
        r == writable_check(*info),
{
    if info.is_writable { Ok(()) } else { Err(ErrorCode::ConstraintMut) }
}

/// Checks that the account exists and is owned by one of `owners`.
pub fn check_owner(info: &AccountRef, owners: &Vec<Pubkey>) -> (r: Result<(), ErrorCode>)
    ensures
        r == owner_check(*info, key_views(owners@)),
{
    let system = system_program_id();
    if info.owner.equals(&system) && info.lamports == 0 {
        return Err(ErrorCode::AccountNotInitialized);
    }
    if !contains_key(owners, &info.owner) {
        return Err(ErrorCode::AccountOwnedByWrongProgram);
    }
    Ok(())
}

/// Checks that the account exists and is owned by `program_id`.
pub fn check_owned_by(info: &AccountRef, program_id: &Pubkey) -> (r: Result<(), ErrorCode>)
    ensures
        r == owner_check(*info, seq![program_id@]),
{
    let mut owners: Vec<Pubkey> = Vec::new();
    owners.push(*program_id);
    proof {
        assert(key_views(owners@) =~= seq![program_id@]);
    }
    check_owner(info, &owners)
}

/// Checks that the account is one of the programs `ids`, and executable.
pub fn check_program(info: &AccountRef, ids: &Vec<Pubkey>) -> (r: Result<(), ErrorCode>)
    ensures
        r == program_check(*info, key_views(ids@)),
{
    if !contains_key(ids, &info.key) {
        return Err(ErrorCode::InvalidProgramId);
    }
    if !info.executable {
        return Err(ErrorCode::InvalidProgramExecutable);
    }
    Ok(())
}

/// Checks that the account is the system program.
pub fn check_system_program(info: &AccountRef) -> (r: Result<(), ErrorCode>)
    ensures
        r == program_check(*info, seq![system_program_bytes()]),
{
    let mut ids: Vec<Pubkey> = Vec::new();
    ids.push(system_program_id());
    proof {
        assert(key_views(ids@) =~= seq![system_program_bytes()]);
    }
    check_program(info, &ids)
}

/// Checks that the account is one of the token programs.
pub fn check_token_program(info: &AccountRef) -> (r: Result<(), ErrorCode>)
    ensures
        r == program_check(*info, token_program_set()),
{
    let ids = token_interface_ids();
    proof {
        assert(key_views(ids@) =~= token_program_set());
    }
    check_program(info, &ids)
}

/// Checks that the token account exists and is owned by one of the token programs.
pub fn check_token_account_owner(info: &AccountRef) -> (r: Result<(), ErrorCode>)
    ensures
        r == owner_check(*info, token_program_set()),
{
    let owners = token_account_owners();
    proof {
        assert(key_views(owners@) =~= token_program_set());
    }
    check_owner(info, &owners)
}

/// Checks that the mint exists and is owned by one of the token programs.
pub fn check_mint_owner(info: &AccountRef) -> (r: Result<(), ErrorCode>)
    ensures
        r == owner_check(*info, token_program_set()),
{
    let owners = mint_account_owners();
    proof {
        assert(key_views(owners@) =~= token_program_set());
    }
    check_owner(info, &owners)
}

} // verus!
