use vstd::prelude::*;

use crate::account::{
    after_check, check_signer, check_system_program, check_token_program, check_writable, metas_view,
    program_check, signer_check, system_program_bytes, token_2022_program_bytes, token_interface_ids,
    token_program_set, writable_check, AccountMeta, AccountRef, Instruction,
};
use crate::error::ErrorCode;
use crate::key::Pubkey;
use anchor_lang::prelude::Pubkey as AddressKey;
use anchor_spl::token_2022::spl_token_2022::extension::transfer_hook::instruction::initialize;
use anchor_spl::token_2022::spl_token_2022::{extension::ExtensionType, state::Mint};

verus! {

/// The error type of the token-2022 interface.
#[verifier::external_type_specification]
#[verifier::external_body]
pub struct ExProgramError(anchor_lang::prelude::ProgramError);

/// An extension a mint can be created with.
#[derive(Clone, Copy, Debug, PartialEq, Eq, Structural)]
pub enum MintExtension {
    /// Every transfer of the mint calls a program, which may refuse it.
    TransferHook,
}

/// Bytes of a mint account with no extension.
pub const MINT_LEN: usize = 82;

/// Bytes of a mint account with the transfer hook extension.
pub const MINT_WITH_TRANSFER_HOOK_LEN: usize = 234;

/// Decimals of the mint the program creates.
pub const MINT_DECIMALS: u8 = 9;

/// Calls `ExtensionType::try_calculate_account_len::<Mint>` (spl-token-2022-interface).
///
/// Claimed of it, as its source shows: with no extension the length is that
/// of a mint (82 bytes); with the transfer hook extension, named once or more,
/// it is the 165 bytes of a token account, one byte of account type, and the
/// transfer hook entry of a two-byte type, a two-byte length and 64 bytes of
/// data: 234 bytes.
#[verifier::external_body]
pub(crate) fn mint_account_len(extensions: &Vec<MintExtension>) -> (r: Result<usize, anchor_lang::prelude::ProgramError>)
    ensures
        r is Ok,
        r matches Ok(n) ==> n == (if extensions@.len() == 0 { MINT_LEN } else { MINT_WITH_TRANSFER_HOOK_LEN }),
{
    let types: Vec<ExtensionType> = extensions
        .iter()
        .map(|e| match e {
            MintExtension::TransferHook => ExtensionType::TransferHook,
        })
        .collect();
    ExtensionType::try_calculate_account_len::<Mint>(&types)
}

/// The bytes of an optional address in an instruction: the address, or
/// thirty-two zero bytes for none.
pub open spec fn optional_key_bytes(k: Option<Pubkey>) -> Seq<u8> {
    match k {
        Some(a) => a@,
        None => system_program_bytes(),
    }
}

/// Whether an optional address is the all-zero address, which an
/// instruction cannot tell from none.
pub open spec fn is_zero_key(k: Option<Pubkey>) -> bool {
    k matches Some(a) && a@ == system_program_bytes()
}

/// The data of the token-2022 instruction that sets up the transfer hook of
/// a mint: the transfer hook extension's instruction (36), its `Initialize`
/// (0), then the authority and the hook program.
pub open spec fn transfer_hook_initialize_data(authority: Option<Pubkey>, hook_program: Option<Pubkey>) -> Seq<u8> {
    seq![36u8, 0u8] + optional_key_bytes(authority) + optional_key_bytes(hook_program)
}

/// Calls `spl_token_2022::extension::transfer_hook::instruction::initialize`
/// (spl-token-2022-interface).
///
/// Claimed of it, as its source shows: it fails when the token program is
/// not the token-2022 program, or when the authority or the hook program is
/// the all-zero address; otherwise the instruction is for the token program,
/// names the mint (writable, not signing), and holds
/// `transfer_hook_initialize_data`.
#[verifier::external_body]
pub(crate) fn transfer_hook_initialize(token_program: &Pubkey, mint: &Pubkey, authority: Option<Pubkey>,
    hook_program: Option<Pubkey>) -> (r: Result<Instruction, anchor_lang::prelude::ProgramError>)
    ensures
        r is Ok <==> (token_program@ == token_2022_program_bytes() && !is_zero_key(authority)
            && !is_zero_key(hook_program)),
        r matches Ok(ix) ==> {
            &&& ix.program_id@ == token_program@
            &&& metas_view(ix.accounts@) == seq![(mint@, false, true)]
            &&& ix.data@ == transfer_hook_initialize_data(authority, hook_program)
        },
{
    let key = |k: &Pubkey| AddressKey::new_from_array(k.bytes);
    let ix = initialize(&key(token_program), &key(mint), authority.map(|k| key(&k)), hook_program.map(|k| key(&k)))?;
    Ok(Instruction { program_id: Pubkey { bytes: ix.program_id.to_bytes() }, accounts: ix.accounts.iter().map(|a|
        AccountMeta { pubkey: Pubkey { bytes: a.pubkey.to_bytes() }, is_signer: a.is_signer,
        is_writable: a.is_writable }).collect(), data: ix.data })
}

/// One step of creating the mint, each made by a call into another program.
#[derive(Debug)]
pub enum MintSetupStep {
    /// The system program creates the account `to`, funded by `from` with
    /// `lamports`, with `space` bytes of data, owned by `owner`.
    CreateAccount { from: Pubkey, to: Pubkey, lamports: u64, space: u64, owner: Pubkey },
    /// The token program runs `instruction`, which sets up the transfer hook
    /// extension of the mint.
    InitializeTransferHook { instruction: Instruction },
    /// The token program initializes `mint`.
    InitializeMint2 { token_program: Pubkey, mint: Pubkey, decimals: u8, mint_authority: Pubkey, freeze_authority: Option<Pubkey> },
}

/// The accounts of the instruction that creates a mint whose transfers call
/// this program: the payer, the new mint account (which signs for its own
/// creation), the system program and the token program.
#[derive(Debug)]
pub struct CreateToken {
    pub payer: AccountRef,
    pub mint: AccountRef,
    pub system_program: AccountRef,
    pub token_program: AccountRef,
}

/// The (no) bumps of `CreateToken`.
#[derive(Clone, Copy, Debug, PartialEq, Eq, Structural)]
pub struct CreateTokenBumps {}

/// What setting up the transfer hook refuses: a token program other than
/// token-2022, and an all-zero payer or hook program.
pub open spec fn transfer_hook_setup_check(token_program: Pubkey, payer: Pubkey, program_id: Pubkey) -> Result<(), ErrorCode> {
    if token_program@ != token_2022_program_bytes() {
        Err(ErrorCode::IncorrectProgramId)
    } else if payer@ == system_program_bytes() || program_id@ == system_program_bytes() {
        Err(ErrorCode::InvalidArgument)
    } else {
        Ok(())
    }
}

/// Whether `steps` create `mint`, paid by `payer`, as a mint of
/// `token_program` with the transfer hook of `program_id`, with `space`
/// bytes funded with `lamports`.
pub open spec fn is_mint_setup(steps: Seq<MintSetupStep>, payer: Pubkey, mint: Pubkey, token_program: Pubkey,
    program_id: Pubkey, space: u64, lamports: u64) -> bool {
    &&& steps.len() == 3
    &&& steps[0] == MintSetupStep::CreateAccount { from: payer, to: mint, lamports: lamports, space: space, owner: token_program }
    &&& steps[1] matches MintSetupStep::InitializeTransferHook { instruction }
        && instruction.program_id@ == token_program@
        && metas_view(instruction.accounts@) == seq![(mint@, false, true)]
        && instruction.data@ == transfer_hook_initialize_data(Some(payer), Some(program_id))
    &&& steps[2] == MintSetupStep::InitializeMint2 { token_program: token_program, mint: mint, decimals: MINT_DECIMALS,
            mint_authority: payer, freeze_authority: Some(payer) }
}

impl CreateToken {
    /// What checking the accounts gives, the first failing check deciding the
    /// error: the payer and the mint sign; the system program and the token
    /// program are those programs; the payer and the mint are writable.
    pub open spec fn accounts_check(self) -> Result<CreateTokenBumps, ErrorCode> {
        after_check(signer_check(self.payer),
        after_check(signer_check(self.mint),
        after_check(program_check(self.system_program, seq![system_program_bytes()]),
        after_check(program_check(self.token_program, token_program_set()),
        after_check(writable_check(self.payer),
        after_check(writable_check(self.mint),
        Ok(CreateTokenBumps {})))))))
    }

    /// Checks the accounts of the instruction.
    pub fn try_accounts(&self) -> (r: Result<CreateTokenBumps, ErrorCode>)
        ensures
            r == self.accounts_check(),
    {
        check_signer(&self.payer)?;
        check_signer(&self.mint)?;
        check_system_program(&self.system_program)?;
        check_token_program(&self.token_program)?;
        check_writable(&self.payer)?;
        check_writable(&self.mint)?;
        Ok(CreateTokenBumps {})
    }

    /// The size of the mint account: a mint with the transfer hook extension.
    pub fn mint_account_space() -> (r: Result<usize, ErrorCode>)
        ensures
            r == Ok::<usize, ErrorCode>(MINT_WITH_TRANSFER_HOOK_LEN),
    {
        let mut extensions: Vec<MintExtension> = Vec::new();
        extensions.push(MintExtension::TransferHook);
        match mint_account_len(&extensions) {
            Ok(n) => Ok(n),
            Err(_) => Err(ErrorCode::InvalidMintExtensions),
        }
    }

    /// Decides how the mint is created: the payer funds a new account of the
    /// mint's size with `lamports` (the rent-exempt balance of that size),
    /// owned by the token program; the token program runs the instruction that
    /// gives it the transfer hook of this program, with the payer as the
    /// hook's authority; and it becomes a mint of nine decimals whose mint and
    /// freeze authority is the payer. The steps are made in this order. The
    /// transfer hook can only be set up by the token-2022 program, and not for
    /// an all-zero payer or program.
    pub fn create_token(&mut self, _uri: String, _name: String, _symbol: String, _bumps: &CreateTokenBumps,
        lamports: u64, program_id: &Pubkey) -> (r: Result<Vec<MintSetupStep>, ErrorCode>)
        ensures
            match transfer_hook_setup_check(old(self).token_program.key, old(self).payer.key, *program_id) {
                Err(e) => r == Err::<Vec<MintSetupStep>, ErrorCode>(e),
                Ok(_) => r matches Ok(steps) && is_mint_setup(steps@, old(self).payer.key, old(self).mint.key,
                    old(self).token_program.key, *program_id, MINT_WITH_TRANSFER_HOOK_LEN as u64, lamports),
            },
            *final(self) == *old(self),
    {
        let space = Self::mint_account_space()?;
        let hook = transfer_hook_initialize(&self.token_program.key, &self.mint.key, Some(self.payer.key),
            Some(*program_id));
        let instruction = match hook {
            Ok(ix) => ix,
            Err(_) => {
                let ids = token_interface_ids();
                if !self.token_program.key.equals(&ids[1]) {
                    return Err(ErrorCode::IncorrectProgramId);
                }
                return Err(ErrorCode::InvalidArgument);
            },
        };
        let mut steps: Vec<MintSetupStep> = Vec::new();
        steps.push(MintSetupStep::CreateAccount {
            from: self.payer.key,
            to: self.mint.key,
            lamports: lamports,
            space: space as u64,
            owner: self.token_program.key,
        });
        steps.push(MintSetupStep::InitializeTransferHook { instruction });
        steps.push(MintSetupStep::InitializeMint2 {
            token_program: self.token_program.key,
            mint: self.mint.key,
            decimals: MINT_DECIMALS,
            mint_authority: self.payer.key,
            freeze_authority: Some(self.payer.key),
        });
        Ok(steps)
    }
}

} // verus!
