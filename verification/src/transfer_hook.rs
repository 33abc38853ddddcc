use vstd::prelude::*;

use crate::account::{
    after_check, check_mint_owner, check_owned_by, check_token_account_owner, owner_check,
    system_program_bytes, token_program_set, AccountData, AccountRef,
};
use crate::error::ErrorCode;
use crate::key::Pubkey;
use crate::pda::{
    bumped_address_check, canonical_address, canonical_bump_decides, check_bumped_address,
    check_found_address, found_address_check, found_program_address, two_seeds,
};
use crate::whitelist::{
    extra_account_metas_seed, extra_account_metas_seeds, whitelist_entry_read, whitelist_entry_seeds,
    whitelist_seed, WhitelistEntry,
};
use anchor_lang::prelude::ProgramError;
use anchor_spl::token_2022::spl_token_2022::extension::StateWithExtensions;
use anchor_spl::token_2022::spl_token_2022::state::{Account as SplAccount, Mint as SplMint};

verus! {

/// What the transfer hook reads of a token account: its mint and its owner.
#[derive(Clone, Copy, Debug)]
pub struct TokenAccountData {
    pub mint: Pubkey,
    pub owner: Pubkey,
}

/// Whether `r` is a refusal with the error `e`.
pub open spec fn refused_with<T>(r: Result<T, ErrorCode>, e: ErrorCode) -> bool {
    r matches Err(x) && x == e
}

/// What `StateWithExtensions::<Account>::unpack` reads from the data of a
/// token account: its mint and owner, or the error it refuses the data with.
pub uninterp spec fn token_account_unpacked(data: Seq<u8>) -> Result<(Seq<u8>, Seq<u8>), ErrorCode>;

/// What `StateWithExtensions::<Mint>::unpack` says of the data of a mint:
/// accepted, or the error it refuses the data with.
pub uninterp spec fn mint_unpacked(data: Seq<u8>) -> Result<(), ErrorCode>;

/// Calls `StateWithExtensions::<Account>::unpack` (spl-token-2022-interface),
/// which anchor-spl's `TokenAccount` reads a token account with, and passes
/// its error on as the library's.
///
/// Claimed of it, as its source shows: the result is the named
/// `token_account_unpacked` of the data; it refuses data with one of two
/// errors, `UninitializedAccount` for a well-formed account whose state is
/// uninitialized and `InvalidAccountData` for the rest; data shorter than
/// the 165 bytes of a token account, or exactly as long as a multisig (355
/// bytes), is `InvalidAccountData`; an accepted account's mint is bytes 0 to
/// 32 and its owner bytes 32 to 64. Which data is malformed is left to the
/// name.
#[verifier::external_body]
pub(crate) fn unpack_token_account(data: &[u8]) -> (r: Result<TokenAccountData, ErrorCode>)
    ensures
        match r {
            Ok(t) => token_account_unpacked(data@) matches Ok(v) && v == (t.mint@, t.owner@),
            Err(e) => token_account_unpacked(data@) matches Err(e2) && e2 == e,
        },
        r is Err ==> refused_with(r, ErrorCode::InvalidAccountData) || refused_with(r, ErrorCode::UninitializedAccount),
        data@.len() < 165 || data@.len() == 355 ==> refused_with(r, ErrorCode::InvalidAccountData),
        r matches Ok(t) ==> t.mint@ == data@.subrange(0, 32) && t.owner@ == data@.subrange(32, 64),
{
    match StateWithExtensions::<SplAccount>::unpack(data) {
        Ok(state) => Ok(TokenAccountData {
            mint: Pubkey { bytes: state.base.mint.to_bytes() },
            owner: Pubkey { bytes: state.base.owner.to_bytes() },
        }),
        Err(ProgramError::UninitializedAccount) => Err(ErrorCode::UninitializedAccount),
        Err(_) => Err(ErrorCode::InvalidAccountData),
    }
}

/// Calls `StateWithExtensions::<Mint>::unpack` (spl-token-2022-interface),
/// which anchor-spl's `Mint` reads a mint with, and passes its error on as
/// the library's.
///
/// Claimed of it, as its source shows: the result is the named
/// `mint_unpacked` of the data; it refuses data with one of two errors,
/// `UninitializedAccount` for a well-formed mint that is not initialized and
/// `InvalidAccountData` for the rest; data shorter than the 82 bytes of a
/// mint, or exactly as long as a multisig (355 bytes), is
/// `InvalidAccountData`.
#[verifier::external_body]
pub(crate) fn unpack_mint(data: &[u8]) -> (r: Result<(), ErrorCode>)
    ensures
        r == mint_unpacked(data@),
        r is Err ==> refused_with(r, ErrorCode::InvalidAccountData) || refused_with(r, ErrorCode::UninitializedAccount),
        data@.len() < 82 || data@.len() == 355 ==> refused_with(r, ErrorCode::InvalidAccountData),
{
    match StateWithExtensions::<SplMint>::unpack(data) {
        Ok(_) => Ok(()),
        Err(ProgramError::UninitializedAccount) => Err(ErrorCode::UninitializedAccount),
        Err(_) => Err(ErrorCode::InvalidAccountData),
    }
}

/// What reading a token account gives: its mint and owner, or why it is refused.
pub open spec fn token_account_read(data: Seq<u8>) -> Result<(Seq<u8>, Seq<u8>), ErrorCode> {
    token_account_unpacked(data)
}

/// What reading a mint gives.
pub open spec fn mint_read(data: Seq<u8>) -> Result<(), ErrorCode> {
    mint_unpacked(data)
}

/// Reading a mint or a token account accepts exactly what the token-2022
/// unpacker accepts, and refuses with its error: in particular a mint with
/// extensions, such as one with the transfer hook, is read as the unpacker
/// reads it, whatever its length.
pub proof fn reads_follow_the_unpacker(data: Seq<u8>)
    ensures
        mint_read(data) == mint_unpacked(data),
        token_account_read(data) == token_account_unpacked(data),
{
}

impl TokenAccountData {
    /// Reads the mint and owner of a token account from its data.
    pub fn try_deserialize(data: &[u8]) -> (r: Result<TokenAccountData, ErrorCode>)
        ensures
            match token_account_read(data@) {
                Ok(t) => r matches Ok(a) && a.mint@ == t.0 && a.owner@ == t.1,
                Err(e) => r matches Err(e2) && e2 == e,
            },
            match token_account_unpacked(data@) {
                Ok(t) => r matches Ok(a) && a.mint@ == t.0 && a.owner@ == t.1,
                Err(e) => r matches Err(e2) && e2 == e,
            },
    {
        unpack_token_account(data)
    }
}

/// Checks that the data of a mint reads as an initialized mint.
pub fn check_mint_data(data: &[u8]) -> (r: Result<(), ErrorCode>)
    ensures
        r == mint_read(data@),
        r == mint_unpacked(data@),
{
    unpack_mint(data)
}

/// The accounts the token program hands the transfer hook: the source and
/// destination token accounts, the mint, the owner of the source, the list of
/// extra account metas of the mint, and the owner's whitelist entry; those
/// whose data is read come with the bytes of their data.
#[derive(Debug)]
pub struct TransferHook {
    pub source_token: AccountData,
    pub mint: AccountData,
    pub destination_token: AccountData,
    pub owner: AccountRef,
    pub extra_account_meta_list: AccountRef,
    pub whitelist_entry: AccountData,
}

/// The bump found while checking the accounts of `TransferHook`.
#[derive(Clone, Copy, Debug, PartialEq, Eq, Structural)]
pub struct TransferHookBumps {
    pub extra_account_meta_list: u8,
}

/// The checks on the token accounts, the mint, the extra account metas and
/// the loading of the whitelist entry: the bump of the extra account metas
/// and the entry read, or the first error.
pub open spec fn token_accounts_check(hook: TransferHook, program_id: Seq<u8>) -> Result<(u8, (Seq<u8>, u8)), ErrorCode> {
    after_check(owner_check(hook.source_token.info, token_program_set()),
    match token_account_read(hook.source_token.data@) {
        Err(e) => Err(e),
        Ok(source) =>
            after_check(owner_check(hook.mint.info, token_program_set()),
            after_check(mint_read(hook.mint.data@),
            after_check(owner_check(hook.destination_token.info, token_program_set()),
            match token_account_read(hook.destination_token.data@) {
                Err(e) => Err(e),
                Ok(destination) =>
                    after_check(owner_check(hook.whitelist_entry.info, seq![program_id]),
                    match whitelist_entry_read(hook.whitelist_entry.data@) {
                        Err(e) => Err(e),
                        Ok(entry) =>
                            if source.1 != hook.owner.key@ {
                                Err(ErrorCode::ConstraintTokenOwner)
                            } else if source.0 != hook.mint.info.key@ {
                                Err(ErrorCode::ConstraintTokenMint)
                            } else if destination.0 != hook.mint.info.key@ {
                                Err(ErrorCode::ConstraintTokenMint)
                            } else {
                                match found_address_check(extra_account_metas_seeds(hook.mint.info.key@), program_id,
                                    hook.extra_account_meta_list.key@) {
                                    Err(e) => Err(e),
                                    Ok(b) => Ok((b, entry)),
                                }
                            },
                    }),
            }))),
    })
}

impl TransferHook {
    /// What checking the accounts gives, the first failing check deciding the
    /// error: the source, the mint and the destination exist, belong to a
    /// token program and read as an initialized token account, mint and token
    /// account; the whitelist entry exists, belongs to this program and reads
    /// as an entry; the source is owned by the owner and of the mint; the
    /// destination is of the mint; the list of extra account metas is at the
    /// program address of the seeds `extra-account-metas` and the mint; and
    /// the whitelist entry is at the address created from the seeds
    /// `whitelist` and the owner with the bump the entry records.
    pub open spec fn accounts_check(self, program_id: Seq<u8>) -> Result<TransferHookBumps, ErrorCode> {
        match token_accounts_check(self, program_id) {
            Err(e) => Err(e),
            Ok((b, entry)) => after_check(
                bumped_address_check(whitelist_entry_seeds(self.owner.key@), entry.1, program_id,
                    self.whitelist_entry.info.key@),
                Ok(TransferHookBumps { extra_account_meta_list: b })),
        }
    }

    /// Checks the accounts of a transfer. A transfer passes only when the owner
    /// of the source has a whitelist entry: an account of this program at the
    /// address of the owner's seeds and the bump the entry records.
    pub fn try_accounts(&self, program_id: &Pubkey) -> (r: Result<TransferHookBumps, ErrorCode>)
        ensures
            r == self.accounts_check(program_id@),
            r is Ok ==> {
                &&& owner_check(self.whitelist_entry.info, seq![program_id@]) is Ok
                &&& whitelist_entry_read(self.whitelist_entry.data@) matches Ok(entry)
                    && bumped_address_check(whitelist_entry_seeds(self.owner.key@), entry.1,
                    program_id@, self.whitelist_entry.info.key@) is Ok
            },
    {
        check_token_account_owner(&self.source_token.info)?;
        let source = TokenAccountData::try_deserialize(self.source_token.data.as_slice())?;
        check_mint_owner(&self.mint.info)?;
        check_mint_data(self.mint.data.as_slice())?;
        check_token_account_owner(&self.destination_token.info)?;
        let destination = TokenAccountData::try_deserialize(self.destination_token.data.as_slice())?;
        check_owned_by(&self.whitelist_entry.info, program_id)?;
        let entry = WhitelistEntry::try_deserialize(self.whitelist_entry.data.as_slice())?;
        if !source.owner.equals(&self.owner.key) {
            return Err(ErrorCode::ConstraintTokenOwner);
        }
        if !source.mint.equals(&self.mint.info.key) {
            return Err(ErrorCode::ConstraintTokenMint);
        }
        if !destination.mint.equals(&self.mint.info.key) {
            return Err(ErrorCode::ConstraintTokenMint);
        }
        let meta_seeds = two_seeds(extra_account_metas_seed(), self.mint.info.key.to_vec());
        let b = check_found_address(&meta_seeds, program_id, &self.extra_account_meta_list.key)?;
        let entry_seeds = two_seeds(whitelist_seed(), self.owner.key.to_vec());
        check_bumped_address(entry_seeds, entry.bump, program_id, &self.whitelist_entry.info.key)?;
        Ok(TransferHookBumps { extra_account_meta_list: b })
    }

    /// Runs when a transfer of the mint is made: once the accounts have passed
    /// their checks, the owner is whitelisted and the transfer is allowed.
    pub fn transfer_hook(&mut self, _amount: u64) -> (r: Result<(), ErrorCode>)
        ensures
            r is Ok,
            final(self).source_token.info == old(self).source_token.info,
            final(self).source_token.data@ == old(self).source_token.data@,
            final(self).mint.info == old(self).mint.info,
            final(self).mint.data@ == old(self).mint.data@,
            final(self).destination_token.info == old(self).destination_token.info,
            final(self).destination_token.data@ == old(self).destination_token.data@,
            final(self).owner == old(self).owner,
            final(self).extra_account_meta_list == old(self).extra_account_meta_list,
            final(self).whitelist_entry.info == old(self).whitelist_entry.info,
            final(self).whitelist_entry.data@ == old(self).whitelist_entry.data@,
    {
        Ok(())
    }
}

// ---------------------------------------------------------------------------
// What the state of the owner's entry decides
// ---------------------------------------------------------------------------

/// A removed user can no longer transfer: once the entry has been closed (no
/// balance left, handed back to the system program), the transfer hook
/// refuses every transfer that names it as the owner's entry.
pub proof fn closed_entry_refuses_transfers(hook: TransferHook, program_id: Seq<u8>)
    requires
        hook.whitelist_entry.info.lamports == 0,
        hook.whitelist_entry.info.owner@ == system_program_bytes(),
    ensures
        hook.accounts_check(program_id) is Err,
{
    let info = hook.whitelist_entry.info;
    assert(owner_check(info, seq![program_id]) == Err::<(), ErrorCode>(ErrorCode::AccountNotInitialized));
}

/// What the owner's entry decides of a transfer, when the entry account named
/// is at the canonical address of the owner's seeds (as every entry the
/// create instruction accepts is). If the entry was closed, the transfer is
/// refused. If it exists, belongs to this program and records the canonical
/// bump, as an entry created with the bump found for it does, only the token
/// accounts, the mint and the extra account metas are left to decide. If it
/// records a larger bump, the transfer is refused.
pub proof fn entry_state_decides_transfer(hook: TransferHook, program_id: Seq<u8>, bump: u8)
    requires
        canonical_address(whitelist_entry_seeds(hook.owner.key@), program_id, hook.whitelist_entry.info.key@, bump),
    ensures
        hook.whitelist_entry.info.lamports == 0 && hook.whitelist_entry.info.owner@ == system_program_bytes()
            ==> hook.accounts_check(program_id) is Err,
        whitelist_entry_read(hook.whitelist_entry.data@) matches Ok(entry) && entry.1 == bump
            ==> hook.accounts_check(program_id) == (match token_accounts_check(hook, program_id) {
                Err(e) => Err(e),
                Ok((b, _)) => Ok(TransferHookBumps { extra_account_meta_list: b }),
            }),
        whitelist_entry_read(hook.whitelist_entry.data@) matches Ok(entry) && entry.1 > bump
            ==> hook.accounts_check(program_id) is Err,
{
    if hook.whitelist_entry.info.lamports == 0 && hook.whitelist_entry.info.owner@ == system_program_bytes() {
        closed_entry_refuses_transfers(hook, program_id);
    }
    match whitelist_entry_read(hook.whitelist_entry.data@) {
        Ok(entry) => {
            canonical_bump_decides(whitelist_entry_seeds(hook.owner.key@), program_id,
                hook.whitelist_entry.info.key@, bump, entry.1);
        },
        Err(_) => {},
    }
}

/// A transfer that every check accepts goes through: when the token
/// accounts and the mint belong to a token program and are accepted by the
/// token-2022 unpacker (a mint with extensions included), the source is the
/// owner's and of the mint, the destination is of the mint, the list of
/// extra account metas is at its program address, and the owner's entry is
/// a program account at the address its seeds and recorded bump create, the
/// accounts pass their checks with the bump found for the extra account
/// metas.
pub proof fn accepted_transfer_passes(hook: TransferHook, program_id: Seq<u8>, extra_bump: u8)
    requires
        owner_check(hook.source_token.info, token_program_set()) is Ok,
        token_account_unpacked(hook.source_token.data@) matches Ok(src)
            && src.0 == hook.mint.info.key@ && src.1 == hook.owner.key@,
        owner_check(hook.mint.info, token_program_set()) is Ok,
        mint_unpacked(hook.mint.data@) is Ok,
        owner_check(hook.destination_token.info, token_program_set()) is Ok,
        token_account_unpacked(hook.destination_token.data@) matches Ok(dst) && dst.0 == hook.mint.info.key@,
        owner_check(hook.whitelist_entry.info, seq![program_id]) is Ok,
        whitelist_entry_read(hook.whitelist_entry.data@) matches Ok(entry)
            && bumped_address_check(whitelist_entry_seeds(hook.owner.key@), entry.1, program_id,
                hook.whitelist_entry.info.key@) is Ok,
        found_program_address(extra_account_metas_seeds(hook.mint.info.key@), program_id)
            == Some((hook.extra_account_meta_list.key@, extra_bump)),
    ensures
        hook.accounts_check(program_id) == Ok::<TransferHookBumps, ErrorCode>(
            TransferHookBumps { extra_account_meta_list: extra_bump }),
{
}

} // verus!
