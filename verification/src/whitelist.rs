use vstd::prelude::*;

use crate::account::{
    after_check, check_init_payer, check_owned_by, check_signer, check_system_program, check_writable, owner_check,
    init_payer_check, program_check, signer_check, system_program_bytes, writable_check, Account, AccountData,
    AccountRef,
};
use crate::error::ErrorCode;
use crate::key::Pubkey;
use crate::pda::{
    canonical_address, check_found_address, found_address_check, found_program_address, one_seed, two_seeds,
};

verus! {

/// The whitelist: who may add and remove whitelisted users.
#[derive(Clone, Copy, Debug)]
pub struct Whitelist {
    pub authority: Pubkey,
}

/// One whitelisted user, and the bump of the program address it lives at.
#[derive(Clone, Copy, Debug)]
pub struct WhitelistEntry {
    pub user: Pubkey,
    pub bump: u8,
}

/// Bytes of a whitelist account: an eight-byte discriminator and the authority.
pub const WHITELIST_SPACE: usize = 8 + 32;

/// Bytes of a whitelist entry account: an eight-byte discriminator, the user and the bump.
pub const WHITELIST_ENTRY_SPACE: usize = 8 + 32 + 1;

/// The seed `whitelist`.
pub open spec fn whitelist_seed_bytes() -> Seq<u8> {
    seq![119u8, 104u8, 105u8, 116u8, 101u8, 108u8, 105u8, 115u8, 116u8]
}

/// The seed `extra-account-metas`.
pub open spec fn extra_account_metas_seed_bytes() -> Seq<u8> {
    seq![101u8, 120u8, 116u8, 114u8, 97u8, 45u8, 97u8, 99u8, 99u8, 111u8, 117u8, 110u8, 116u8,
        45u8, 109u8, 101u8, 116u8, 97u8, 115u8]
}

/// The seeds of the whitelist account.
pub open spec fn whitelist_seeds() -> Seq<Seq<u8>> {
    seq![whitelist_seed_bytes()]
}

/// The seeds of the whitelist entry of `user`.
pub open spec fn whitelist_entry_seeds(user: Seq<u8>) -> Seq<Seq<u8>> {
    seq![whitelist_seed_bytes(), user]
}

/// The seeds of the extra-account-metas list of `mint`.
pub open spec fn extra_account_metas_seeds(mint: Seq<u8>) -> Seq<Seq<u8>> {
    seq![extra_account_metas_seed_bytes(), mint]
}

/// The seed `whitelist`.
pub fn whitelist_seed() -> (v: Vec<u8>)
    ensures
        v@ == whitelist_seed_bytes(),
{
    let v: Vec<u8> = vec![119u8, 104, 105, 116, 101, 108, 105, 115, 116];
    proof {
        assert(v@ =~= whitelist_seed_bytes());
    }
    v
}

/// The seed `extra-account-metas`.
pub fn extra_account_metas_seed() -> (v: Vec<u8>)
    ensures
        v@ == extra_account_metas_seed_bytes(),
{
    let v: Vec<u8> = vec![101u8, 120, 116, 114, 97, 45, 97, 99, 99, 111, 117, 110, 116, 45, 109,
        101, 116, 97, 115];
    proof {
        assert(v@ =~= extra_account_metas_seed_bytes());
    }
    v
}

} // verus!

verus! {

// ---------------------------------------------------------------------------
// The data of the accounts
// ---------------------------------------------------------------------------

impl View for Whitelist {
    type V = Seq<u8>;

    /// The authority's address.
    open spec fn view(&self) -> Seq<u8> {
        self.authority@
    }
}

impl View for WhitelistEntry {
    type V = (Seq<u8>, u8);

    /// The user's address and the bump.
    open spec fn view(&self) -> (Seq<u8>, u8) {
        (self.user@, self.bump)
    }
}

/// The eight bytes a whitelist account's data begins with.
pub open spec fn whitelist_discriminator() -> Seq<u8> {
    seq![204u8, 176u8, 52u8, 79u8, 146u8, 121u8, 54u8, 247u8]
}

/// The eight bytes a whitelist entry account's data begins with.
pub open spec fn whitelist_entry_discriminator() -> Seq<u8> {
    seq![51u8, 70u8, 173u8, 81u8, 219u8, 192u8, 234u8, 62u8]
}

/// The data of a whitelist account: its discriminator, then the authority.
pub open spec fn whitelist_data(w: Seq<u8>) -> Seq<u8> {
    whitelist_discriminator() + w
}

/// The data of a whitelist entry account: its discriminator, the user, then
/// the bump.
pub open spec fn whitelist_entry_data(e: (Seq<u8>, u8)) -> Seq<u8> {
    whitelist_entry_discriminator() + e.0 + seq![e.1]
}

/// What reading account data with a given discriminator and a given size of
/// state finds wrong with it, if anything.
pub open spec fn data_check(data: Seq<u8>, discriminator: Seq<u8>, size: nat) -> Result<(), ErrorCode> {
    if data.len() < 8 {
        Err(ErrorCode::AccountDiscriminatorNotFound)
    } else if data.subrange(0, 8) != discriminator {
        Err(ErrorCode::AccountDiscriminatorMismatch)
    } else if data.len() < 8 + size {
        Err(ErrorCode::AccountDidNotDeserialize)
    } else {
        Ok(())
    }
}

/// What reading a whitelist from account data gives: the authority held by
/// bytes 8 to 40, bytes beyond being ignored.
pub open spec fn whitelist_read(data: Seq<u8>) -> Result<Seq<u8>, ErrorCode> {
    after_check(data_check(data, whitelist_discriminator(), 32), Ok(data.subrange(8, 40)))
}

/// What reading a whitelist entry from account data gives: the user held by
/// bytes 8 to 40 and the bump by byte 40, bytes beyond being ignored.
pub open spec fn whitelist_entry_read(data: Seq<u8>) -> Result<(Seq<u8>, u8), ErrorCode> {
    after_check(data_check(data, whitelist_entry_discriminator(), 33), Ok((data.subrange(8, 40), data[40])))
}

/// Checks the discriminator and the length of account data.
fn check_data(data: &[u8], discriminator: &Vec<u8>, size: usize) -> (r: Result<(), ErrorCode>)
    requires
        discriminator@.len() == 8,
        size <= 64,
    ensures
        r == data_check(data@, discriminator@, size as nat),
{
    if data.len() < 8 {
        return Err(ErrorCode::AccountDiscriminatorNotFound);
    }
    let mut i: usize = 0;
    while i < 8
        invariant
            i <= 8,
            data@.len() >= 8,
            discriminator@.len() == 8,
            forall|j: int| 0 <= j < i ==> data@[j] == discriminator@[j],
        decreases 8 - i,
    {
        if data[i] != discriminator[i] {
            proof {
                assert(data@.subrange(0, 8)[i as int] != discriminator@[i as int]);
            }
            return Err(ErrorCode::AccountDiscriminatorMismatch);
        }
        i = i + 1;
    }
    proof {
        assert(data@.subrange(0, 8) =~= discriminator@);
    }
    if data.len() < 8 + size {
        return Err(ErrorCode::AccountDidNotDeserialize);
    }
    Ok(())
}

/// Reads an address from thirty-two bytes of account data starting at `start`.
fn read_key(data: &[u8], start: usize) -> (k: Pubkey)
    requires
        start + 32 <= data@.len(),
    ensures
        k@ == data@.subrange(start as int, start + 32),
{
    let mut bytes: [u8; 32] = [0u8; 32];
    let mut i: usize = 0;
    while i < 32
        invariant
            i <= 32,
            start + 32 <= data.len(),
            bytes@.len() == 32,
            forall|j: int| 0 <= j < i ==> bytes@[j] == data@[start + j],
        decreases 32 - i,
    {
        bytes[i] = data[start + i];
        i = i + 1;
    }
    proof {
        assert(bytes@ =~= data@.subrange(start as int, start + 32));
    }
    Pubkey::new_from_array(bytes)
}

/// The discriminator of whitelist accounts.
pub fn whitelist_discriminator_bytes() -> (v: Vec<u8>)
    ensures
        v@ == whitelist_discriminator(),
{
    let v: Vec<u8> = vec![204u8, 176, 52, 79, 146, 121, 54, 247];
    proof {
        assert(v@ =~= whitelist_discriminator());
    }
    v
}

/// The discriminator of whitelist entry accounts.
pub fn whitelist_entry_discriminator_bytes() -> (v: Vec<u8>)
    ensures
        v@ == whitelist_entry_discriminator(),
{
    let v: Vec<u8> = vec![51u8, 70, 173, 81, 219, 192, 234, 62];
    proof {
        assert(v@ =~= whitelist_entry_discriminator());
    }
    v
}

impl Whitelist {
    /// Reads a whitelist from the data of its account.
    pub fn try_deserialize(data: &[u8]) -> (r: Result<Whitelist, ErrorCode>)
        ensures
            match whitelist_read(data@) {
                Ok(v) => r matches Ok(w) && w@ == v,
                Err(e) => r matches Err(e2) && e2 == e,
            },
            r matches Ok(w) ==> w.authority@ == data@.subrange(8, 40),
    {
        let disc = whitelist_discriminator_bytes();
        check_data(data, &disc, 32)?;
        let authority = read_key(data, 8);
        Ok(Whitelist { authority })
    }

    /// The data of the whitelist's account, which fills the account's space.
    pub fn try_serialize(&self) -> (data: Vec<u8>)
        ensures
            data@ == whitelist_data(self@),
            data@.len() == WHITELIST_SPACE,
            data@.subrange(0, 8) == seq![204u8, 176u8, 52u8, 79u8, 146u8, 121u8, 54u8, 247u8],
            data@.subrange(8, 40) == self.authority@,
    {
        let mut data = whitelist_discriminator_bytes();
        let key = self.authority.to_vec();
        let mut i: usize = 0;
        while i < 32
            invariant
                i <= 32,
                key@ == self.authority@,
                key@.len() == 32,
                data@ == whitelist_discriminator() + key@.take(i as int),
            decreases 32 - i,
        {
            data.push(key[i]);
            proof {
                assert(key@.take(i + 1) =~= key@.take(i as int).push(key@[i as int]));
            }
            i = i + 1;
        }
        proof {
            assert(key@.take(32) =~= key@);
        }
        data
    }
}

impl WhitelistEntry {
    /// Reads a whitelist entry from the data of its account.
    pub fn try_deserialize(data: &[u8]) -> (r: Result<WhitelistEntry, ErrorCode>)
        ensures
            match whitelist_entry_read(data@) {
                Ok(v) => r matches Ok(e) && e@ == v,
                Err(e) => r matches Err(e2) && e2 == e,
            },
            r matches Ok(e) ==> e.user@ == data@.subrange(8, 40) && e.bump == data@[40],
    {
        let disc = whitelist_entry_discriminator_bytes();
        check_data(data, &disc, 33)?;
        let user = read_key(data, 8);
        let bump = data[40];
        Ok(WhitelistEntry { user, bump })
    }

    /// The data of the entry's account, which fills the account's space.
    pub fn try_serialize(&self) -> (data: Vec<u8>)
        ensures
            data@ == whitelist_entry_data(self@),
            data@.len() == WHITELIST_ENTRY_SPACE,
            data@.subrange(0, 8) == seq![51u8, 70u8, 173u8, 81u8, 219u8, 192u8, 234u8, 62u8],
            data@.subrange(8, 40) == self.user@,
            data@[40] == self.bump,
    {
        let mut data = whitelist_entry_discriminator_bytes();
        let key = self.user.to_vec();
        let mut i: usize = 0;
        while i < 32
            invariant
                i <= 32,
                key@ == self.user@,
                key@.len() == 32,
                data@ == whitelist_entry_discriminator() + key@.take(i as int),
            decreases 32 - i,
        {
            data.push(key[i]);
            proof {
                assert(key@.take(i + 1) =~= key@.take(i as int).push(key@[i as int]));
            }
            i = i + 1;
        }
        data.push(self.bump);
        proof {
            assert(key@.take(32) =~= key@);
            assert(data@ =~= whitelist_entry_data(self@));
        }
        data
    }
}

/// Reading back what a whitelist writes to its account gives the same whitelist.
pub proof fn whitelist_data_round_trip(w: Seq<u8>)
    requires
        w.len() == 32,
    ensures
        whitelist_read(whitelist_data(w)) == Ok::<Seq<u8>, ErrorCode>(w),
{
    let data = whitelist_data(w);
    assert(data.subrange(0, 8) =~= whitelist_discriminator());
    assert(data.subrange(8, 40) =~= w);
}

/// Reading back what a whitelist entry writes to its account gives the same entry.
pub proof fn whitelist_entry_data_round_trip(e: (Seq<u8>, u8))
    requires
        e.0.len() == 32,
    ensures
        whitelist_entry_read(whitelist_entry_data(e)) == Ok::<(Seq<u8>, u8), ErrorCode>(e),
{
    let data = whitelist_entry_data(e);
    assert(data.subrange(0, 8) =~= whitelist_entry_discriminator());
    assert(data.subrange(8, 40) =~= e.0);
    assert(data[40] == e.1);
}

// ---------------------------------------------------------------------------
// Creating the whitelist
// ---------------------------------------------------------------------------

/// The accounts of the instruction that creates the whitelist: the admin who
/// pays and becomes its authority, the whitelist account, created at the
/// program address of the seed `whitelist`, and the system program.
#[derive(Debug)]
pub struct InitializeWhitelist {
    pub admin: AccountRef,
    pub whitelist: Account<Whitelist>,
    pub system_program: AccountRef,
}

/// The bumps found while checking the accounts of `InitializeWhitelist`.
#[derive(Clone, Copy, Debug, PartialEq, Eq, Structural)]
pub struct InitializeWhitelistBumps {
    pub whitelist: u8,
}

impl InitializeWhitelist {
    /// What checking the accounts gives, the first failing check deciding the
    /// error: the admin signs; the system program is the system program; the
    /// whitelist is at the program address of its seed; the admin is writable.
    pub open spec fn accounts_check(self, program_id: Seq<u8>) -> Result<InitializeWhitelistBumps, ErrorCode> {
        after_check(signer_check(self.admin),
        after_check(program_check(self.system_program, seq![system_program_bytes()]),
        match found_address_check(whitelist_seeds(), program_id, self.whitelist.info.key@) {
            Err(e) => Err(e),
            Ok(b) => after_check(init_payer_check(self.admin, self.whitelist.info),
                after_check(writable_check(self.admin), Ok(InitializeWhitelistBumps { whitelist: b }))),
        }))
    }

    /// Checks the accounts of the instruction.
    pub fn try_accounts(&self, program_id: &Pubkey) -> (r: Result<InitializeWhitelistBumps, ErrorCode>)
        ensures
            r == self.accounts_check(program_id@),
    {
        check_signer(&self.admin)?;
        check_system_program(&self.system_program)?;
        let seeds = one_seed(whitelist_seed());
        let b = check_found_address(&seeds, program_id, &self.whitelist.info.key)?;
        check_init_payer(&self.admin, &self.whitelist.info)?;
        check_writable(&self.admin)?;
        Ok(InitializeWhitelistBumps { whitelist: b })
    }

    /// Makes the admin the authority of the whitelist.
    pub fn initialize_whitelist(&mut self, _bumps: &InitializeWhitelistBumps) -> (r: Result<(), ErrorCode>)
        ensures
            r is Ok,
            final(self).whitelist.data.authority == old(self).admin.key,
            final(self).whitelist.info == old(self).whitelist.info,
            final(self).admin == old(self).admin,
            final(self).system_program == old(self).system_program,
    {
        self.whitelist.data.authority = self.admin.key;
        Ok(())
    }
}

// ---------------------------------------------------------------------------
// Adding a user
// ---------------------------------------------------------------------------

/// The accounts of the instruction that whitelists a user: the authority of
/// the whitelist, who signs and pays, the whitelist (as the bytes of its
/// account), the entry, created at the program address of the seeds
/// `whitelist` and the user, and the system program.
#[derive(Debug)]
pub struct CreateWhitelistEntry {
    pub authority: AccountRef,
    pub whitelist: AccountData,
    pub whitelist_entry: Account<WhitelistEntry>,
    pub system_program: AccountRef,
}

/// The bumps found while checking the accounts of `CreateWhitelistEntry`.
#[derive(Clone, Copy, Debug, PartialEq, Eq, Structural)]
pub struct CreateWhitelistEntryBumps {
    pub whitelist: u8,
    pub whitelist_entry: u8,
}

impl CreateWhitelistEntry {
    /// What checking the accounts gives, the first failing check deciding the
    /// error: the authority signs; the whitelist exists, belongs to this
    /// program and its data reads as a whitelist; the system program is the
    /// system program; the entry is at the program address of the seeds
    /// `whitelist` and the user; the authority is writable; the whitelist is
    /// at the program address of its seed; and the whitelist names the
    /// authority as its authority.
    pub open spec fn accounts_check(self, user: Seq<u8>, program_id: Seq<u8>) -> Result<CreateWhitelistEntryBumps, ErrorCode> {
        after_check(signer_check(self.authority),
        after_check(owner_check(self.whitelist.info, seq![program_id]),
        match whitelist_read(self.whitelist.data@) {
            Err(e) => Err(e),
            Ok(list_authority) =>
                after_check(program_check(self.system_program, seq![system_program_bytes()]),
                match found_address_check(whitelist_entry_seeds(user), program_id, self.whitelist_entry.info.key@) {
                    Err(e) => Err(e),
                    Ok(entry_bump) => after_check(init_payer_check(self.authority, self.whitelist_entry.info),
                        after_check(writable_check(self.authority),
                        match found_address_check(whitelist_seeds(), program_id, self.whitelist.info.key@) {
                            Err(e) => Err(e),
                            Ok(list_bump) => if list_authority != self.authority.key@ {
                                Err(ErrorCode::ConstraintHasOne)
                            } else {
                                Ok(CreateWhitelistEntryBumps { whitelist: list_bump, whitelist_entry: entry_bump })
                            },
                        })),
                }),
        }))
    }

    /// Checks the accounts of the instruction that whitelists `user`.
    ///
    /// An entry accepted here is at the canonical program address of its
    /// seeds: the address found for them, with the found bump, which the
    /// seeds and that bump create, no larger bump creating any address.
    pub fn try_accounts(&self, user: &Pubkey, program_id: &Pubkey) -> (r: Result<CreateWhitelistEntryBumps, ErrorCode>)
        ensures
            r == self.accounts_check(user@, program_id@),
            r matches Ok(bumps) ==> canonical_address(whitelist_entry_seeds(user@), program_id@,
                self.whitelist_entry.info.key@, bumps.whitelist_entry),
    {
        check_signer(&self.authority)?;
        check_owned_by(&self.whitelist.info, program_id)?;
        let list = Whitelist::try_deserialize(self.whitelist.data.as_slice())?;
        check_system_program(&self.system_program)?;
        let entry_seeds = two_seeds(whitelist_seed(), user.to_vec());
        let entry_bump = check_found_address(&entry_seeds, program_id, &self.whitelist_entry.info.key)?;
        check_init_payer(&self.authority, &self.whitelist_entry.info)?;
        check_writable(&self.authority)?;
        let list_seeds = one_seed(whitelist_seed());
        let list_bump = check_found_address(&list_seeds, program_id, &self.whitelist.info.key)?;
        if !list.authority.equals(&self.authority.key) {
            return Err(ErrorCode::ConstraintHasOne);
        }
        Ok(CreateWhitelistEntryBumps { whitelist: list_bump, whitelist_entry: entry_bump })
    }

    /// Records `user` and `bump` in the entry.
    pub fn create_whitelist_entry(&mut self, user: Pubkey, bump: u8) -> (r: Result<(), ErrorCode>)
        ensures
            r is Ok,
            final(self).whitelist_entry.data == (WhitelistEntry { user: user, bump: bump }),
            final(self).whitelist_entry.info == old(self).whitelist_entry.info,
            final(self).authority == old(self).authority,
            final(self).whitelist.info == old(self).whitelist.info,
            final(self).whitelist.data@ == old(self).whitelist.data@,
            final(self).system_program == old(self).system_program,
    {
        self.whitelist_entry.data.user = user;
        self.whitelist_entry.data.bump = bump;
        Ok(())
    }
}

// ---------------------------------------------------------------------------
// Removing a user
// ---------------------------------------------------------------------------

/// The accounts of the instruction that removes a user from the whitelist:
/// the authority of the whitelist, who signs and receives the entry's
/// balance, the whitelist, the entry, which is closed (both as the bytes of
/// their accounts), and the system program.
#[derive(Debug)]
pub struct CloseWhitelistEntry {
    pub authority: AccountRef,
    pub whitelist: AccountData,
    pub whitelist_entry: AccountData,
    pub system_program: AccountRef,
}

/// The bumps found while checking the accounts of `CloseWhitelistEntry`.
#[derive(Clone, Copy, Debug, PartialEq, Eq, Structural)]
pub struct CloseWhitelistEntryBumps {
    pub whitelist: u8,
    pub whitelist_entry: u8,
}

impl CloseWhitelistEntry {
    /// What checking the accounts gives, the first failing check deciding the
    /// error: the authority signs; the whitelist and the entry exist, belong
    /// to this program and their data reads as a whitelist and an entry; the
    /// system program is the system program; the authority is writable; the
    /// whitelist is at the program address of its seed and names the
    /// authority; the entry is at the program address of the seeds
    /// `whitelist` and the user, is writable, and is not the authority's own
    /// account.
    pub open spec fn accounts_check(self, user: Seq<u8>, program_id: Seq<u8>) -> Result<CloseWhitelistEntryBumps, ErrorCode> {
        after_check(signer_check(self.authority),
        after_check(owner_check(self.whitelist.info, seq![program_id]),
        match whitelist_read(self.whitelist.data@) {
            Err(e) => Err(e),
            Ok(list_authority) =>
                after_check(owner_check(self.whitelist_entry.info, seq![program_id]),
                match whitelist_entry_read(self.whitelist_entry.data@) {
                    Err(e) => Err(e),
                    Ok(_entry) =>
                        after_check(program_check(self.system_program, seq![system_program_bytes()]),
                        after_check(writable_check(self.authority),
                        match found_address_check(whitelist_seeds(), program_id, self.whitelist.info.key@) {
                            Err(e) => Err(e),
                            Ok(list_bump) => if list_authority != self.authority.key@ {
                                Err(ErrorCode::ConstraintHasOne)
                            } else {
                                match found_address_check(whitelist_entry_seeds(user), program_id,
                                    self.whitelist_entry.info.key@) {
                                    Err(e) => Err(e),
                                    Ok(entry_bump) => after_check(writable_check(self.whitelist_entry.info),
                                        if self.whitelist_entry.info.key@ == self.authority.key@ {
                                            Err(ErrorCode::ConstraintClose)
                                        } else {
                                            Ok(CloseWhitelistEntryBumps { whitelist: list_bump, whitelist_entry: entry_bump })
                                        }),
                                }
                            },
                        })),
                }),
        }))
    }

    /// Checks the accounts of the instruction that removes `user`.
    pub fn try_accounts(&self, user: &Pubkey, program_id: &Pubkey) -> (r: Result<CloseWhitelistEntryBumps, ErrorCode>)
        ensures
            r == self.accounts_check(user@, program_id@),
            r matches Ok(bumps) ==> canonical_address(seq![whitelist_seed_bytes(), user@], program_id@,
                self.whitelist_entry.info.key@, bumps.whitelist_entry),
    {
        check_signer(&self.authority)?;
        check_owned_by(&self.whitelist.info, program_id)?;
        let list = Whitelist::try_deserialize(self.whitelist.data.as_slice())?;
        check_owned_by(&self.whitelist_entry.info, program_id)?;
        let _entry = WhitelistEntry::try_deserialize(self.whitelist_entry.data.as_slice())?;
        check_system_program(&self.system_program)?;
        check_writable(&self.authority)?;
        let list_seeds = one_seed(whitelist_seed());
        let list_bump = check_found_address(&list_seeds, program_id, &self.whitelist.info.key)?;
        if !list.authority.equals(&self.authority.key) {
            return Err(ErrorCode::ConstraintHasOne);
        }
        let entry_seeds = two_seeds(whitelist_seed(), user.to_vec());
        let entry_bump = check_found_address(&entry_seeds, program_id, &self.whitelist_entry.info.key)?;
        check_writable(&self.whitelist_entry.info)?;
        if self.whitelist_entry.info.key.equals(&self.authority.key) {
            return Err(ErrorCode::ConstraintClose);
        }
        Ok(CloseWhitelistEntryBumps { whitelist: list_bump, whitelist_entry: entry_bump })
    }

    /// The instruction itself: removing a user needs nothing beyond the checks
    /// on its accounts and the closing of the entry.
    pub fn close_whitelist_entry(&mut self, _user: Pubkey) -> (r: Result<(), ErrorCode>)
        ensures
            r is Ok,
            final(self).authority == old(self).authority,
            final(self).whitelist.info == old(self).whitelist.info,
            final(self).whitelist.data@ == old(self).whitelist.data@,
            final(self).whitelist_entry.info == old(self).whitelist_entry.info,
            final(self).whitelist_entry.data@ == old(self).whitelist_entry.data@,
            final(self).system_program == old(self).system_program,
    {
        Ok(())
    }

    /// Closes the entry once the instruction has run: its whole balance goes to
    /// the authority, and it is handed back to the system program with no data.
    pub fn close_entry(&mut self) -> (r: Result<(), ErrorCode>)
        ensures
            old(self).whitelist_entry.info.key@ == old(self).authority.key@ ==> r == Err::<(), ErrorCode>(ErrorCode::ConstraintClose),
            old(self).whitelist_entry.info.key@ != old(self).authority.key@
                && old(self).authority.lamports + old(self).whitelist_entry.info.lamports > u64::MAX
                ==> r == Err::<(), ErrorCode>(ErrorCode::ArithmeticOverflow),
            old(self).whitelist_entry.info.key@ != old(self).authority.key@
                && old(self).authority.lamports + old(self).whitelist_entry.info.lamports <= u64::MAX
                ==> r is Ok,
            r is Err ==> {
                &&& final(self).authority == old(self).authority
                &&& final(self).whitelist.info == old(self).whitelist.info
                &&& final(self).whitelist.data@ == old(self).whitelist.data@
                &&& final(self).whitelist_entry.info == old(self).whitelist_entry.info
                &&& final(self).whitelist_entry.data@ == old(self).whitelist_entry.data@
                &&& final(self).system_program == old(self).system_program
            },
            r is Ok ==> {
                &&& final(self).authority.lamports == old(self).authority.lamports + old(self).whitelist_entry.info.lamports
                &&& final(self).whitelist_entry.info.lamports == 0
                &&& final(self).whitelist_entry.info.owner@ == system_program_bytes()
                &&& final(self).whitelist_entry.info.data_len == 0
                &&& final(self).whitelist_entry.data@ == Seq::<u8>::empty()
                &&& final(self).whitelist_entry.info.key == old(self).whitelist_entry.info.key
                &&& final(self).whitelist_entry.info.is_signer == old(self).whitelist_entry.info.is_signer
                &&& final(self).whitelist_entry.info.is_writable == old(self).whitelist_entry.info.is_writable
                &&& final(self).whitelist_entry.info.executable == old(self).whitelist_entry.info.executable
                &&& final(self).authority.key == old(self).authority.key
                &&& final(self).authority.is_signer == old(self).authority.is_signer
                &&& final(self).authority.is_writable == old(self).authority.is_writable
                &&& final(self).authority.owner == old(self).authority.owner
                &&& final(self).authority.data_len == old(self).authority.data_len
                &&& final(self).authority.executable == old(self).authority.executable
                &&& final(self).whitelist.info == old(self).whitelist.info
                &&& final(self).whitelist.data@ == old(self).whitelist.data@
                &&& final(self).system_program == old(self).system_program
            },
    {
        if self.whitelist_entry.info.key.equals(&self.authority.key) {
            return Err(ErrorCode::ConstraintClose);
        }
        let total = match self.authority.lamports.checked_add(self.whitelist_entry.info.lamports) {
            None => return Err(ErrorCode::ArithmeticOverflow),
            Some(t) => t,
        };
        self.authority.lamports = total;
        self.whitelist_entry.info.lamports = 0;
        self.whitelist_entry.info.owner = crate::account::system_program_id();
        self.whitelist_entry.info.data_len = 0;
        self.whitelist_entry.data = Vec::new();
        Ok(())
    }
}

// ---------------------------------------------------------------------------
// Who may change the whitelist
// ---------------------------------------------------------------------------

/// Only the whitelist's authority can whitelist a user: the accounts of that
/// instruction pass their checks only when the authority signed and the
/// whitelist's data names it as its authority.
pub proof fn only_the_authority_whitelists(accounts: CreateWhitelistEntry, user: Seq<u8>, program_id: Seq<u8>)
    ensures
        accounts.accounts_check(user, program_id) is Ok ==> {
            &&& accounts.authority.is_signer
            &&& whitelist_read(accounts.whitelist.data@) == Ok::<Seq<u8>, ErrorCode>(accounts.authority.key@)
        },
{
}

/// Only the whitelist's authority can remove a user: the accounts of that
/// instruction pass their checks only when the authority signed and the
/// whitelist's data names it as its authority.
pub proof fn only_the_authority_removes(accounts: CloseWhitelistEntry, user: Seq<u8>, program_id: Seq<u8>)
    ensures
        accounts.accounts_check(user, program_id) is Ok ==> {
            &&& accounts.authority.is_signer
            &&& whitelist_read(accounts.whitelist.data@) == Ok::<Seq<u8>, ErrorCode>(accounts.authority.key@)
        },
{
}

/// The whitelist keeps the admin that created it, and only the admin changes
/// its entries. Initializing writes the whitelist's data as
/// `whitelist_data` of the admin, which reads back as the admin; adding and
/// removing users never write it; and against that data every instruction
/// that adds or removes a user, in any sequence of them, passes its checks
/// only when the admin signed.
pub proof fn only_the_admin_changes_entries(
    admin: Seq<u8>,
    creates: Seq<(CreateWhitelistEntry, Seq<u8>)>,
    closes: Seq<(CloseWhitelistEntry, Seq<u8>)>,
    program_id: Seq<u8>,
)
    requires
        admin.len() == 32,
        forall|i: int| 0 <= i < creates.len() ==> (#[trigger] creates[i]).0.whitelist.data@ == whitelist_data(admin),
        forall|i: int| 0 <= i < closes.len() ==> (#[trigger] closes[i]).0.whitelist.data@ == whitelist_data(admin),
    ensures
        whitelist_read(whitelist_data(admin)) == Ok::<Seq<u8>, ErrorCode>(admin),
        forall|i: int| 0 <= i < creates.len() && (#[trigger] creates[i]).0.accounts_check(creates[i].1, program_id) is Ok
            ==> creates[i].0.authority.is_signer && creates[i].0.authority.key@ == admin,
        forall|i: int| 0 <= i < closes.len() && (#[trigger] closes[i]).0.accounts_check(closes[i].1, program_id) is Ok
            ==> closes[i].0.authority.is_signer && closes[i].0.authority.key@ == admin,
{
    whitelist_data_round_trip(admin);
    assert forall|i: int| 0 <= i < creates.len() && (#[trigger] creates[i]).0.accounts_check(creates[i].1, program_id) is Ok
        implies creates[i].0.authority.is_signer && creates[i].0.authority.key@ == admin by {
        only_the_authority_whitelists(creates[i].0, creates[i].1, program_id);
    }
    assert forall|i: int| 0 <= i < closes.len() && (#[trigger] closes[i]).0.accounts_check(closes[i].1, program_id) is Ok
        implies closes[i].0.authority.is_signer && closes[i].0.authority.key@ == admin by {
        only_the_authority_removes(closes[i].0, closes[i].1, program_id);
    }
}

/// An entry can be created again once it is closed. Closing leaves it an
/// empty account of the system program with no balance, as it was before it
/// was created (see `CloseWhitelistEntry::close_entry`); and the create
/// instruction's checks see such an entry only through its address, so a
/// second creation is judged exactly as the first one was.
pub proof fn closed_entry_can_be_created_again(first: CreateWhitelistEntry, again: CreateWhitelistEntry, user: Seq<u8>, program_id: Seq<u8>)
    requires
        again.authority == first.authority,
        again.whitelist.info == first.whitelist.info,
        again.whitelist.data@ == first.whitelist.data@,
        again.system_program == first.system_program,
        again.whitelist_entry.info.key == first.whitelist_entry.info.key,
        first.whitelist_entry.info.lamports == 0,
        again.whitelist_entry.info.lamports == 0,
    ensures
        again.accounts_check(user, program_id) == first.accounts_check(user, program_id),
{
}

/// What the create instruction writes for a user is what the transfer hook
/// reads back: the entry's data reads as the user and the bump recorded.
pub proof fn written_entry_reads_back(user: Pubkey, bump: u8)
    ensures
        whitelist_entry_read(whitelist_entry_data((WhitelistEntry { user: user, bump: bump })@))
            == Ok::<(Seq<u8>, u8), ErrorCode>((user@, bump)),
{
    whitelist_entry_data_round_trip((user@, bump));
}

// ---------------------------------------------------------------------------
// Layout of the accounts and the entry an instruction acts on
// ---------------------------------------------------------------------------

/// The data of a whitelist account is its discriminator (the first eight
/// bytes of the SHA-256 hash of `account:Whitelist`) followed by the
/// authority's thirty-two bytes in order; reading one takes the authority
/// from bytes 8 to 40, whatever follows.
pub proof fn whitelist_account_layout(authority: Seq<u8>, data: Seq<u8>)
    requires
        authority.len() == 32,
    ensures
        whitelist_data(authority).len() == 40,
        whitelist_data(authority).subrange(0, 8) == seq![204u8, 176u8, 52u8, 79u8, 146u8, 121u8, 54u8, 247u8],
        whitelist_data(authority).subrange(8, 40) == authority,
        whitelist_read(data) is Ok ==> whitelist_read(data) == Ok::<Seq<u8>, ErrorCode>(data.subrange(8, 40)),
        data.len() >= 40 && data.subrange(0, 8) == seq![204u8, 176u8, 52u8, 79u8, 146u8, 121u8, 54u8, 247u8]
            ==> whitelist_read(data) is Ok,
{
    assert(whitelist_data(authority).subrange(0, 8) =~= seq![204u8, 176u8, 52u8, 79u8, 146u8, 121u8, 54u8, 247u8]);
    assert(whitelist_data(authority).subrange(8, 40) =~= authority);
}

/// The data of a whitelist entry account is its discriminator (the first
/// eight bytes of the SHA-256 hash of `account:WhitelistEntry`), the user's
/// thirty-two bytes in order, then the bump; reading one takes the user from
/// bytes 8 to 40 and the bump from byte 40, whatever follows.
pub proof fn whitelist_entry_account_layout(user: Seq<u8>, bump: u8, data: Seq<u8>)
    requires
        user.len() == 32,
    ensures
        whitelist_entry_data((user, bump)).len() == 41,
        whitelist_entry_data((user, bump)).subrange(0, 8) == seq![51u8, 70u8, 173u8, 81u8, 219u8, 192u8, 234u8, 62u8],
        whitelist_entry_data((user, bump)).subrange(8, 40) == user,
        whitelist_entry_data((user, bump))[40] == bump,
        whitelist_entry_read(data) is Ok ==> whitelist_entry_read(data)
            == Ok::<(Seq<u8>, u8), ErrorCode>((data.subrange(8, 40), data[40])),
        data.len() >= 41 && data.subrange(0, 8) == seq![51u8, 70u8, 173u8, 81u8, 219u8, 192u8, 234u8, 62u8]
            ==> whitelist_entry_read(data) is Ok,
{
    assert(whitelist_entry_data((user, bump)).subrange(0, 8) =~= seq![51u8, 70u8, 173u8, 81u8, 219u8, 192u8, 234u8, 62u8]);
    assert(whitelist_entry_data((user, bump)).subrange(8, 40) =~= user);
}

/// Removing a user closes that user's entry and no other: the instruction's
/// accounts pass their checks only when the entry named is the program
/// address found for the seeds `whitelist` and the user given to the
/// instruction, with the bump found for it.
pub proof fn removal_closes_the_named_users_entry(accounts: CloseWhitelistEntry, user: Seq<u8>, program_id: Seq<u8>)
    ensures
        accounts.accounts_check(user, program_id) matches Ok(bumps) ==> found_program_address(
            seq![seq![119u8, 104u8, 105u8, 116u8, 101u8, 108u8, 105u8, 115u8, 116u8], user], program_id)
            == Some((accounts.whitelist_entry.info.key@, bumps.whitelist_entry)),
{
}

/// Adding a user creates that user's entry and no other: the instruction's
/// accounts pass their checks only when the entry named is the program
/// address found for the seeds `whitelist` and the user given to the
/// instruction, with the bump found for it.
pub proof fn addition_creates_the_named_users_entry(accounts: CreateWhitelistEntry, user: Seq<u8>, program_id: Seq<u8>)
    ensures
        accounts.accounts_check(user, program_id) matches Ok(bumps) ==> found_program_address(
            seq![seq![119u8, 104u8, 105u8, 116u8, 101u8, 108u8, 105u8, 115u8, 116u8], user], program_id)
            == Some((accounts.whitelist_entry.info.key@, bumps.whitelist_entry)),
{
}

} // verus!
