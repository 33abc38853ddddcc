use vstd::prelude::*;

use vstd::bytes::{spec_u32_to_le_bytes, spec_u64_from_le_bytes, spec_u64_to_le_bytes, u64_to_le_bytes};

use crate::account::{
    after_check, check_owned_by, check_program, check_signer, check_system_program, check_writable,
    key_views, metas_view, owner_check, program_check, signer_check, system_program_bytes,
    writable_check, Account, AccountMeta, AccountRef, Instruction,
};
use crate::error::ErrorCode;
use ephemeral_vrf_sdk::instructions::{create_request_randomness_ix, RequestRandomnessParams};
use ephemeral_vrf_sdk::types::SerializableAccountMeta;
use crate::key::Pubkey;
use crate::pda::{
    bumped_address_check, check_bumped_address, check_found_address, found_address_check,
    found_program_address, one_seed, try_find_program_address, two_seeds,
};

verus! {

/// The state of a user: a number that randomness is written to, and the bump
/// of the program address the account lives at.
#[derive(Clone, Copy, Debug)]
pub struct UserAccount {
    pub data: u64,
    pub bump: u8,
}

/// The time as the cluster's clock gives it.
#[derive(Clone, Copy, Debug)]
pub struct Clock {
    pub slot: u64,
    pub unix_timestamp: i64,
}

/// The seed `user`.
pub open spec fn user_seed_bytes() -> Seq<u8> {
    seq![117u8, 115u8, 101u8, 114u8]
}

/// The seed `p-conf`.
pub open spec fn identity_seed_bytes() -> Seq<u8> {
    seq![112u8, 45u8, 99u8, 111u8, 110u8, 102u8]
}

/// The seed `identity`.
pub open spec fn program_identity_seed_bytes() -> Seq<u8> {
    seq![105u8, 100u8, 101u8, 110u8, 116u8, 105u8, 116u8, 121u8]
}

/// The seeds of the account of the user `payer`.
pub open spec fn user_seeds(payer: Seq<u8>) -> Seq<Seq<u8>> {
    seq![user_seed_bytes(), payer]
}

/// The seeds of this program's identity with the randomness program.
pub open spec fn identity_seeds(program_id: Seq<u8>) -> Seq<Seq<u8>> {
    seq![identity_seed_bytes(), program_id]
}

/// The seeds of the account that stands for this program's identity towards
/// the randomness program.
pub open spec fn program_identity_seeds() -> Seq<Seq<u8>> {
    seq![program_identity_seed_bytes()]
}

/// The seed `user`.
pub fn user_seed() -> (v: Vec<u8>)
    ensures
        v@ == user_seed_bytes(),
{
    let v: Vec<u8> = vec![117u8, 115, 101, 114];
    proof {
        assert(v@ =~= user_seed_bytes());
    }
    v
}

/// The seed `identity`.
pub fn program_identity_seed() -> (v: Vec<u8>)
    ensures
        v@ == program_identity_seed_bytes(),
{
    let v: Vec<u8> = vec![105u8, 100, 101, 110, 116, 105, 116, 121];
    proof {
        assert(v@ =~= program_identity_seed_bytes());
    }
    v
}

/// The seed `p-conf`.
pub fn identity_seed() -> (v: Vec<u8>)
    ensures
        v@ == identity_seed_bytes(),
{
    let v: Vec<u8> = vec![112u8, 45, 99, 111, 110, 102];
    proof {
        assert(v@ =~= identity_seed_bytes());
    }
    v
}

/// The eight bytes that select the instruction `consume_randomness` of this
/// program: the first bytes of the SHA-256 hash of `global:consume_randomness`.
pub open spec fn consume_randomness_discriminator() -> Seq<u8> {
    seq![190u8, 217u8, 49u8, 162u8, 99u8, 26u8, 73u8, 234u8]
}

/// The eight bytes that select the instruction `consume_randomness`.
pub fn consume_randomness_discriminator_bytes() -> (v: Vec<u8>)
    ensures
        v@ == consume_randomness_discriminator(),
{
    let v: Vec<u8> = vec![190u8, 217, 49, 162, 99, 26, 73, 234];
    proof {
        assert(v@ =~= consume_randomness_discriminator());
    }
    v
}

/// The address of the randomness program.
pub open spec fn vrf_program_bytes() -> Seq<u8> {
    seq![7u8, 100u8, 104u8, 119u8, 200u8, 241u8, 253u8, 43u8, 158u8, 185u8, 243u8, 92u8, 234u8,
        235u8, 93u8, 25u8, 63u8, 162u8, 158u8, 196u8, 92u8, 7u8, 181u8, 101u8, 242u8, 27u8, 167u8,
        177u8, 39u8, 172u8, 247u8, 127u8]
}

/// The address the randomness program signs its answers with.
pub open spec fn vrf_identity_bytes() -> Seq<u8> {
    seq![129u8, 149u8, 237u8, 71u8, 27u8, 236u8, 243u8, 116u8, 219u8, 84u8, 34u8, 221u8, 119u8,
        231u8, 249u8, 254u8, 170u8, 194u8, 114u8, 165u8, 249u8, 93u8, 38u8, 97u8, 146u8, 155u8, 47u8,
        105u8, 113u8, 22u8, 94u8, 252u8]
}

/// The address of the slot hashes sysvar.
pub open spec fn slot_hashes_bytes() -> Seq<u8> {
    seq![6u8, 167u8, 213u8, 23u8, 25u8, 47u8, 10u8, 175u8, 198u8, 242u8, 101u8, 227u8, 251u8,
        119u8, 204u8, 122u8, 218u8, 130u8, 197u8, 41u8, 208u8, 190u8, 59u8, 19u8, 110u8, 45u8, 0u8,
        85u8, 32u8, 0u8, 0u8, 0u8]
}

/// Reads `ephemeral_vrf_sdk::compat::slot_hashes::ID`.
///
/// Claimed of it: the address is the one its base58 text
/// `SysvarS1otHashes111111111111111111111111111` encodes.
#[verifier::external_body]
pub(crate) fn slot_hashes_id() -> (k: Pubkey)
    ensures
        k@ == slot_hashes_bytes(),
{
    Pubkey { bytes: ephemeral_vrf_sdk::compat::slot_hashes::ID.to_bytes() }
}

/// Reads `ephemeral_vrf_sdk::id()`.
///
/// Claimed of it: the address is the one its base58 text
/// `Vrf1RNUjXmQGjmQrQLvJHs9SNkvDJEsRVFPkfSQUwGz` encodes.
#[verifier::external_body]
pub(crate) fn vrf_program_id() -> (k: Pubkey)
    ensures
        k@ == vrf_program_bytes(),
{
    Pubkey { bytes: ephemeral_vrf_sdk::id().to_bytes() }
}

/// Reads `ephemeral_vrf_sdk::consts::VRF_PROGRAM_IDENTITY`.
///
/// Claimed of it: the address is the one its base58 text
/// `9irBy75QS2BN81FUgXuHcjqceJJRuc9oDkAe8TKVvvAw` encodes.
#[verifier::external_body]
pub(crate) fn vrf_program_identity() -> (k: Pubkey)
    ensures
        k@ == vrf_identity_bytes(),
{
    Pubkey { bytes: ephemeral_vrf_sdk::consts::VRF_PROGRAM_IDENTITY.to_bytes() }
}

/// The bytes a random 64-bit number is read from: every fourth byte of the
/// randomness, starting with the first.
pub open spec fn random_u64_bytes(randomness: Seq<u8>) -> Seq<u8> {
    seq![randomness[0], randomness[4], randomness[8], randomness[12], randomness[16], randomness[20],
        randomness[24], randomness[28]]
}

/// The random 64-bit number drawn from thirty-two bytes of randomness.
pub open spec fn random_u64_of(randomness: Seq<u8>) -> u64 {
    spec_u64_from_le_bytes(random_u64_bytes(randomness))
}

/// Calls `ephemeral_vrf_sdk::rnd::random_u64`.
///
/// Claimed of it, as its source shows: the number is read in little-endian
/// order from bytes 0, 4, 8, ..., 28 of the randomness.
#[verifier::external_body]
pub(crate) fn random_u64(randomness: &[u8; 32]) -> (r: u64)
    ensures
        r == random_u64_of(randomness@),
{
    ephemeral_vrf_sdk::rnd::random_u64(randomness)
}

// ---------------------------------------------------------------------------
// Receiving randomness
// ---------------------------------------------------------------------------

/// The accounts of the callback through which the randomness program hands
/// over randomness: its identity, which signs, and the user's account.
#[derive(Debug)]
pub struct ConsumeRandomness {
    pub vrf_program_identity: AccountRef,
    pub user_account: Account<UserAccount>,
}

/// The (no) bumps of `ConsumeRandomness`.
#[derive(Clone, Copy, Debug, PartialEq, Eq, Structural)]
pub struct ConsumeRandomnessBumps {}

impl ConsumeRandomness {
    /// What checking the accounts gives, the first failing check deciding the
    /// error: the identity signs; the user's account exists and belongs to
    /// this program; the identity is the randomness program's; the user's
    /// account is writable.
    pub open spec fn accounts_check(self, program_id: Seq<u8>) -> Result<ConsumeRandomnessBumps, ErrorCode> {
        after_check(signer_check(self.vrf_program_identity),
        after_check(owner_check(self.user_account.info, seq![program_id]),
        if self.vrf_program_identity.key@ != vrf_identity_bytes() {
            Err(ErrorCode::ConstraintAddress)
        } else {
            after_check(writable_check(self.user_account.info), Ok(ConsumeRandomnessBumps {}))
        }))
    }

    /// Checks the accounts of the callback.
    pub fn try_accounts(&self, program_id: &Pubkey) -> (r: Result<ConsumeRandomnessBumps, ErrorCode>)
        ensures
            r == self.accounts_check(program_id@),
    {
        check_signer(&self.vrf_program_identity)?;
        check_owned_by(&self.user_account.info, program_id)?;
        let identity = vrf_program_identity();
        if !self.vrf_program_identity.key.equals(&identity) {
            return Err(ErrorCode::ConstraintAddress);
        }
        check_writable(&self.user_account.info)?;
        Ok(ConsumeRandomnessBumps {})
    }

    /// Stores the random number drawn from `randomness` in the user's account.
    pub fn consume_randomness(&mut self, randomness: [u8; 32]) -> (r: Result<(), ErrorCode>)
        ensures
            r is Ok,
            final(self).user_account.data.data == random_u64_of(randomness@),
            final(self).user_account.data.bump == old(self).user_account.data.bump,
            final(self).user_account.info == old(self).user_account.info,
            final(self).vrf_program_identity == old(self).vrf_program_identity,
    {
        let random_value = random_u64(&randomness);
        self.user_account.data.data = random_value;
        Ok(())
    }
}

} // verus!

verus! {

// ---------------------------------------------------------------------------
// Requesting randomness
// ---------------------------------------------------------------------------

/// What a request for randomness asks of the randomness program.
#[derive(Debug)]
pub struct RandomnessRequest {
    /// Pays for the request.
    pub payer: Pubkey,
    /// The queue the request is placed on.
    pub oracle_queue: Pubkey,
    /// The program called back with the randomness.
    pub callback_program_id: Pubkey,
    /// Which instruction of that program is called back.
    pub callback_discriminator: Vec<u8>,
    /// The accounts passed to the callback.
    pub callback_accounts: Vec<AccountMeta>,
    /// Thirty-two bytes mixed into the randomness.
    pub caller_seed: [u8; 32],
    /// Arguments passed to the callback, if any.
    pub callback_args: Option<Vec<u8>>,
}

/// The call into the randomness program that asks for randomness: the
/// request, the instruction made from it, the accounts handed to the call in
/// order, and the seeds, bump included, that this program signs it with.
#[derive(Debug)]
pub struct RandomnessCall {
    pub request: RandomnessRequest,
    pub instruction: Instruction,
    pub accounts: Vec<Pubkey>,
    pub signer_seeds: Vec<Vec<u8>>,
}

/// The four bytes of a length as borsh writes it: little-endian, 32 bits.
pub open spec fn length_bytes(n: nat) -> Seq<u8> {
    spec_u32_to_le_bytes(n as u32)
}

/// The byte of a flag as borsh writes it.
pub open spec fn flag_byte(b: bool) -> u8 {
    if b { 1u8 } else { 0u8 }
}

/// The callback accounts as borsh writes them, one after the other: the
/// address, then whether it signs and whether it is writable.
pub open spec fn account_metas_bytes(metas: Seq<(Seq<u8>, bool, bool)>) -> Seq<u8>
    decreases metas.len(),
{
    if metas.len() == 0 {
        Seq::empty()
    } else {
        let last = metas.last();
        account_metas_bytes(metas.drop_last()) + last.0 + seq![flag_byte(last.1), flag_byte(last.2)]
    }
}

/// The callback arguments, none being written as no bytes.
pub open spec fn callback_args_bytes(args: Option<Seq<u8>>) -> Seq<u8> {
    match args {
        Some(a) => a,
        None => Seq::empty(),
    }
}

/// The data of the instruction that asks for randomness of regular priority,
/// signed by the caller's own identity: the selector 10 and seven zero
/// bytes, then the request as borsh writes it: the caller seed, the callback
/// program, the callback discriminator, the callback accounts and the
/// callback arguments, each list after its length.
pub open spec fn request_randomness_data(caller_seed: Seq<u8>, callback_program_id: Seq<u8>,
    callback_discriminator: Seq<u8>, callback_accounts: Seq<(Seq<u8>, bool, bool)>,
    callback_args: Option<Seq<u8>>) -> Seq<u8> {
    seq![10u8, 0u8, 0u8, 0u8, 0u8, 0u8, 0u8, 0u8] + caller_seed + callback_program_id
        + length_bytes(callback_discriminator.len()) + callback_discriminator
        + length_bytes(callback_accounts.len()) + account_metas_bytes(callback_accounts)
        + length_bytes(callback_args_bytes(callback_args).len()) + callback_args_bytes(callback_args)
}

/// Whether `ix` is the instruction that asks the randomness program for
/// `req`, with `identity` as this program's identity: it names the payer
/// (signing, writable), the identity (signing), the oracle queue (writable),
/// the system program and the slot hashes sysvar, and its data is
/// `request_randomness_data` of the request.
pub open spec fn is_request_instruction(ix: Instruction, req: RandomnessRequest, identity: Seq<u8>) -> bool {
    &&& ix.program_id@ == vrf_program_bytes()
    &&& metas_view(ix.accounts@) == seq![(req.payer@, true, true), (identity, true, false),
        (req.oracle_queue@, false, true), (system_program_bytes(), false, false), (slot_hashes_bytes(), false, false)]
    &&& ix.data@ == request_randomness_data(req.caller_seed@, req.callback_program_id@,
        req.callback_discriminator@, metas_view(req.callback_accounts@), req.callback_args.deep_view())
}

/// The address of a found program address.
pub open spec fn found_address_of(found: Option<(Seq<u8>, u8)>) -> Seq<u8> {
    match found {
        Some((a, _)) => a,
        None => Seq::empty(),
    }
}

/// Calls `ephemeral_vrf_sdk::instructions::create_request_randomness_ix`.
///
/// Claimed of it, as its source shows: the instruction is
/// `is_request_instruction` of the request, with this program's identity
/// being the address that `find_program_address` finds for the seed
/// `identity` under the callback program (it panics where none is found,
/// which `requires` leaves out, as it does lengths that the serialization
/// refuses).
#[verifier::external_body]
pub(crate) fn request_randomness_instruction(req: &RandomnessRequest) -> (ix: Instruction)
    requires
        found_program_address(program_identity_seeds(), req.callback_program_id@) is Some,
        req.callback_discriminator@.len() <= u32::MAX,
        req.callback_accounts@.len() <= u32::MAX,
        req.callback_args matches Some(a) ==> a@.len() <= u32::MAX,
    ensures
        is_request_instruction(ix, *req, found_address_of(found_program_address(program_identity_seeds(),
            req.callback_program_id@))),
{
    let ix = create_request_randomness_ix(RequestRandomnessParams { payer: req.payer.bytes.into(),
        oracle_queue: req.oracle_queue.bytes.into(), callback_program_id: req.callback_program_id.bytes.into(),
        callback_discriminator: req.callback_discriminator.clone(),
        accounts_metas: Some(req.callback_accounts.iter().map(|m| SerializableAccountMeta {
            pubkey: m.pubkey.bytes.into(), is_signer: m.is_signer, is_writable: m.is_writable }).collect()),
        caller_seed: req.caller_seed, callback_args: req.callback_args.clone() });
    Instruction { program_id: Pubkey { bytes: ix.program_id.to_bytes() }, accounts: ix.accounts.iter().map(|a|
        AccountMeta { pubkey: Pubkey { bytes: a.pubkey.to_bytes() }, is_signer: a.is_signer,
        is_writable: a.is_writable }).collect(), data: ix.data }
}

/// The accounts of the instruction that asks for randomness: the payer, who
/// signs, the payer's user account, the oracle queue, and the accounts every
/// request names: this program's identity, the randomness program, the slot
/// hashes sysvar and the system program.
#[derive(Debug)]
pub struct RequestRandomness {
    pub payer: AccountRef,
    pub user_account: Account<UserAccount>,
    pub oracle_queue: AccountRef,
    pub program_identity: AccountRef,
    pub vrf_program: AccountRef,
    pub slot_hashes: AccountRef,
    pub system_program: AccountRef,
}

/// The bump found while checking the accounts of `RequestRandomness`.
#[derive(Clone, Copy, Debug, PartialEq, Eq, Structural)]
pub struct RequestRandomnessBumps {
    pub program_identity: u8,
}

/// A Unix timestamp read as an unsigned 64-bit number: negative times wrap
/// around.
pub open spec fn timestamp_bits(unix_timestamp: i64) -> int {
    if unix_timestamp >= 0 {
        unix_timestamp as int
    } else {
        unix_timestamp + 0x1_0000_0000_0000_0000
    }
}

/// The seed the request derives from the clock: the slot plus the timestamp.
pub open spec fn clock_seed(clock: Clock) -> int {
    clock.slot + timestamp_bits(clock.unix_timestamp)
}

/// The clock's seed is the slot plus the timestamp read as an unsigned
/// 64-bit number (its two's-complement bits), as integers.
pub proof fn clock_seed_is_slot_plus_timestamp(clock: Clock)
    ensures
        clock_seed(clock) == clock.slot + (clock.unix_timestamp as u64),
{
    let ts = clock.unix_timestamp;
    let w: u64 = ts as u64;
    assert(ts >= 0 ==> w == ts) by (bit_vector)
        requires w == ts as u64;
    assert(ts < 0 ==> w as int == ts + 0x1_0000_0000_0000_0000) by (bit_vector)
        requires w == ts as u64;
}

/// The thirty-two bytes mixed into the randomness: the clock's seed in
/// little-endian order, the first eight bytes of the payer's address, and
/// sixteen zero bytes.
pub open spec fn caller_seed_bytes(seed: u64, payer: Seq<u8>) -> Seq<u8> {
    spec_u64_to_le_bytes(seed) + payer.subrange(0, 8) + Seq::new(16, |i: int| 0u8)
}

impl RequestRandomness {
    /// What checking the accounts gives, the first failing check deciding the
    /// error: the payer signs; the user's account exists and belongs to this
    /// program; the randomness program and the system program are those
    /// programs; the payer is writable; the user's account is at the address
    /// created from the seeds `user` and the payer with the bump it records,
    /// and is writable; the oracle queue is writable; this program's identity
    /// is at the program address of the seed `identity`; and the slot hashes
    /// account is the slot hashes sysvar.
    pub open spec fn accounts_check(self, program_id: Seq<u8>) -> Result<RequestRandomnessBumps, ErrorCode> {
        after_check(signer_check(self.payer),
        after_check(owner_check(self.user_account.info, seq![program_id]),
        after_check(program_check(self.vrf_program, seq![vrf_program_bytes()]),
        after_check(program_check(self.system_program, seq![system_program_bytes()]),
        after_check(writable_check(self.payer),
        after_check(bumped_address_check(user_seeds(self.payer.key@), self.user_account.data.bump, program_id,
            self.user_account.info.key@),
        after_check(writable_check(self.user_account.info),
        after_check(writable_check(self.oracle_queue),
        match found_address_check(program_identity_seeds(), program_id, self.program_identity.key@) {
            Err(e) => Err(e),
            Ok(b) => if self.slot_hashes.key@ != slot_hashes_bytes() {
                Err(ErrorCode::ConstraintAddress)
            } else {
                Ok(RequestRandomnessBumps { program_identity: b })
            },
        }))))))))
    }

    /// Checks the accounts of the instruction.
    pub fn try_accounts(&self, program_id: &Pubkey) -> (r: Result<RequestRandomnessBumps, ErrorCode>)
        ensures
            r == self.accounts_check(program_id@),
    {
        check_signer(&self.payer)?;
        check_owned_by(&self.user_account.info, program_id)?;
        let mut vrf_ids: Vec<Pubkey> = Vec::new();
        vrf_ids.push(vrf_program_id());
        proof {
            assert(key_views(vrf_ids@) =~= seq![vrf_program_bytes()]);
        }
        check_program(&self.vrf_program, &vrf_ids)?;
        check_system_program(&self.system_program)?;
        check_writable(&self.payer)?;
        let seeds = two_seeds(user_seed(), self.payer.key.to_vec());
        check_bumped_address(seeds, self.user_account.data.bump, program_id, &self.user_account.info.key)?;
        check_writable(&self.user_account.info)?;
        check_writable(&self.oracle_queue)?;
        let identity_seeds = one_seed(program_identity_seed());
        let b = check_found_address(&identity_seeds, program_id, &self.program_identity.key)?;
        if !self.slot_hashes.key.equals(&slot_hashes_id()) {
            return Err(ErrorCode::ConstraintAddress);
        }
        Ok(RequestRandomnessBumps { program_identity: b })
    }

    /// The thirty-two bytes mixed into the randomness, derived from the clock
    /// and the payer. The clock's seed must fit in 64 bits.
    pub fn caller_seed(clock: &Clock, payer: &Pubkey) -> (s: [u8; 32])
        requires
            clock_seed(*clock) <= u64::MAX,
        ensures
            s@ == caller_seed_bytes(clock_seed(*clock) as u64, payer@),
            spec_u64_from_le_bytes(s@.subrange(0, 8)) == clock_seed(*clock),
            spec_u64_from_le_bytes(s@.subrange(0, 8)) == clock.slot + (clock.unix_timestamp as u64),
            s@.subrange(8, 16) == payer@.subrange(0, 8),
            s@.subrange(16, 32) == Seq::new(16, |i: int| 0u8),
    {
        let ts = clock.unix_timestamp;
        let wrapped: u64 = ts as u64;
        proof {
            assert(ts >= 0 ==> wrapped == ts) by (bit_vector)
                requires wrapped == ts as u64;
            assert(ts < 0 ==> wrapped as int == ts + 0x1_0000_0000_0000_0000) by (bit_vector)
                requires wrapped == ts as u64;
        }
        let seed: u64 = clock.slot + wrapped;
        let le = u64_to_le_bytes(seed);
        let mut s: [u8; 32] = [0u8; 32];
        let mut i: usize = 0;
        while i < 8
            invariant
                i <= 8,
                le@ == spec_u64_to_le_bytes(seed),
                le@.len() == 8,
                s@.len() == 32,
                forall|j: int| 0 <= j < i ==> s@[j] == le@[j],
                forall|j: int| i <= j < 32 ==> s@[j] == 0u8,
            decreases 8 - i,
        {
            s[i] = le[i];
            i = i + 1;
        }
        while i < 16
            invariant
                8 <= i <= 16,
                le@ == spec_u64_to_le_bytes(seed),
                s@.len() == 32,
                payer@.len() == 32,
                forall|j: int| 0 <= j < 8 ==> s@[j] == le@[j],
                forall|j: int| 8 <= j < i ==> s@[j] == payer@[j - 8],
                forall|j: int| i <= j < 32 ==> s@[j] == 0u8,
            decreases 16 - i,
        {
            s[i] = payer.bytes[i - 8];
            i = i + 1;
        }
        proof {
            clock_seed_is_slot_plus_timestamp(*clock);
            assert(s@ =~= caller_seed_bytes(seed, payer@));
            assert(s@.subrange(8, 16) =~= payer@.subrange(0, 8));
            assert(s@.subrange(16, 32) =~= Seq::new(16, |i: int| 0u8));
            vstd::bytes::lemma_auto_spec_u64_to_from_le_bytes();
            assert(s@.subrange(0, 8) =~= spec_u64_to_le_bytes(seed));
        }
        s
    }

    /// Whether `req` is the request built for the payer, queue and user
    /// account of these accounts, calling back `consume_randomness` of
    /// `program_id` with the user's account (writable, not signing), with
    /// the caller seed of `clock` and no callback arguments.
    pub open spec fn is_request(self, req: RandomnessRequest, clock: Clock, program_id: Pubkey) -> bool {
        &&& req.payer == self.payer.key
        &&& req.oracle_queue == self.oracle_queue.key
        &&& req.callback_program_id == program_id
        &&& req.callback_discriminator@ == consume_randomness_discriminator()
        &&& req.callback_accounts@ == seq![AccountMeta {
            pubkey: self.user_account.info.key,
            is_signer: false,
            is_writable: true,
        }]
        &&& req.caller_seed@ == caller_seed_bytes(clock_seed(clock) as u64, self.payer.key@)
        &&& req.callback_args is None
    }

    /// Whether `call` is the call that asks for randomness for these accounts:
    /// the request built from them and `clock`, the instruction made from it
    /// with `identity` as this program's identity, handed the payer, the
    /// oracle queue, the randomness program, this program's identity, the
    /// system program and the slot hashes sysvar, in this order, and signed
    /// with the seeds `p-conf` and this program and `bump`.
    pub open spec fn is_call(self, call: RandomnessCall, clock: Clock, program_id: Pubkey, identity: Seq<u8>, bump: u8) -> bool {
        &&& self.is_request(call.request, clock, program_id)
        &&& is_request_instruction(call.instruction, call.request, identity)
        &&& call.accounts@ == seq![self.payer.key, self.oracle_queue.key, self.vrf_program.key,
            self.program_identity.key, self.system_program.key, self.slot_hashes.key]
        &&& call.signer_seeds.deep_view() == seq![identity_seed_bytes(), program_id@, seq![bump]]
    }

    /// Builds the request for randomness: paid by the payer, placed on the
    /// oracle queue, calling back `consume_randomness` of this program with
    /// the user's account (writable, not signing), mixing in the caller seed
    /// derived from the clock and the payer, with no callback arguments. The
    /// clock's seed must fit in 64 bits.
    pub fn build_request(&self, clock: &Clock, program_id: &Pubkey) -> (req: RandomnessRequest)
        requires
            clock_seed(*clock) <= u64::MAX,
        ensures
            self.is_request(req, *clock, *program_id),
    {
        let caller_seed = Self::caller_seed(clock, &self.payer.key);
        let mut callback_accounts: Vec<AccountMeta> = Vec::new();
        callback_accounts.push(AccountMeta {
            pubkey: self.user_account.info.key,
            is_signer: false,
            is_writable: true,
        });
        proof {
            assert(callback_accounts@ =~= seq![AccountMeta {
                pubkey: self.user_account.info.key,
                is_signer: false,
                is_writable: true,
            }]);
        }
        RandomnessRequest {
            payer: self.payer.key,
            oracle_queue: self.oracle_queue.key,
            callback_program_id: *program_id,
            callback_discriminator: consume_randomness_discriminator_bytes(),
            callback_accounts: callback_accounts,
            caller_seed: caller_seed,
            callback_args: None,
        }
    }

    /// Makes the call that asks for randomness from the request, the
    /// instruction made from it and the identity found for this program with
    /// the randomness program (the seeds `p-conf` and this program): handed
    /// the payer, the oracle queue, the randomness program, this program's
    /// identity, the system program and the slot hashes sysvar, in this
    /// order, and signed with the identity's seeds and its bump. With no
    /// identity found there is no call.
    pub fn build_call(&self, program_id: &Pubkey, request: RandomnessRequest, instruction: Instruction,
        identity: Option<(Pubkey, u8)>) -> (r: Result<RandomnessCall, ErrorCode>)
        ensures
            match identity {
                None => r matches Err(e) && e == ErrorCode::ProgramAddressNotFound,
                Some((_, bump)) => r matches Ok(call) && call.request == request && call.instruction == instruction
                    && call.accounts@ == seq![self.payer.key, self.oracle_queue.key, self.vrf_program.key,
                        self.program_identity.key, self.system_program.key, self.slot_hashes.key]
                    && call.signer_seeds.deep_view() == seq![identity_seed_bytes(), program_id@, seq![bump]],
            },
    {
        let bump = match identity {
            None => return Err(ErrorCode::ProgramAddressNotFound),
            Some((_identity, bump)) => bump,
        };
        let mut bump_seed: Vec<u8> = Vec::new();
        bump_seed.push(bump);
        let mut signer_seeds: Vec<Vec<u8>> = Vec::new();
        signer_seeds.push(identity_seed());
        signer_seeds.push(program_id.to_vec());
        signer_seeds.push(bump_seed);
        let mut accounts: Vec<Pubkey> = Vec::new();
        accounts.push(self.payer.key);
        accounts.push(self.oracle_queue.key);
        accounts.push(self.vrf_program.key);
        accounts.push(self.program_identity.key);
        accounts.push(self.system_program.key);
        accounts.push(self.slot_hashes.key);
        proof {
            assert(signer_seeds@[0].deep_view() =~= identity_seed_bytes());
            assert(signer_seeds@[1].deep_view() =~= program_id@);
            assert(signer_seeds@[2].deep_view() =~= seq![bump]);
            assert(signer_seeds.deep_view() =~= seq![identity_seed_bytes(), program_id@, seq![bump]]);
            assert(accounts@ =~= seq![self.payer.key, self.oracle_queue.key, self.vrf_program.key,
                self.program_identity.key, self.system_program.key, self.slot_hashes.key]);
        }
        Ok(RandomnessCall { request, instruction, accounts, signer_seeds })
    }

    /// Asks for randomness: builds the request, makes the randomness
    /// program's instruction for it, finds this program's identity with the
    /// randomness program (the seeds `p-conf` and this program) and makes the
    /// call signed with it, as `is_call` says. Where the instruction's
    /// identity (the seed `identity` under this program) or the signing
    /// identity is not found, there is no call. The clock's seed must fit in
    /// 64 bits.
    pub fn request_randomness(&mut self, clock: &Clock, program_id: &Pubkey) -> (r: Result<RandomnessCall, ErrorCode>)
        requires
            clock_seed(*clock) <= u64::MAX,
        ensures
            *final(self) == *old(self),
            match (found_program_address(program_identity_seeds(), program_id@),
                found_program_address(identity_seeds(program_id@), vrf_program_bytes())) {
                (Some((identity, _)), Some((_, bump))) => r matches Ok(call)
                    && old(self).is_call(call, *clock, *program_id, identity, bump),
                _ => r matches Err(e) && e == ErrorCode::ProgramAddressNotFound,
            },
    {
        let request = self.build_request(clock, program_id);
        let scoped_seeds = one_seed(program_identity_seed());
        let scoped = try_find_program_address(&scoped_seeds, program_id);
        if scoped.is_none() {
            return Err(ErrorCode::ProgramAddressNotFound);
        }
        let instruction = request_randomness_instruction(&request);
        let seeds = two_seeds(identity_seed(), program_id.to_vec());
        let vrf_program = vrf_program_id();
        let identity = try_find_program_address(&seeds, &vrf_program);
        self.build_call(program_id, request, instruction, identity)
    }
}

} // verus!
