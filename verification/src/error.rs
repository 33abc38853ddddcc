use vstd::prelude::*;

verus! {

/// Why an instruction is refused.
#[derive(Clone, Copy, Debug, PartialEq, Eq, Structural)]
pub enum ErrorCode {
    /// An account that must sign the transaction did not.
    AccountNotSigner,
    /// An account that must be writable is not.
    ConstraintMut,
    /// A field of an account does not hold the key of the account it must name.
    ConstraintHasOne,
    /// An account is not at the program address its seeds derive.
    ConstraintSeeds,
    /// An account is not at the address it must be at.
    ConstraintAddress,
    /// An account would be closed into itself.
    ConstraintClose,
    /// A token account is not of the mint it must be of.
    ConstraintTokenMint,
    /// A token account is not owned by the authority it must be owned by.
    ConstraintTokenOwner,
    /// No bump seed gives a program address for the seeds.
    ProgramAddressNotFound,
    /// The size of a mint account with the requested extensions cannot be known.
    InvalidMintExtensions,
    /// An account to be created already holds a balance and is its own payer.
    TryingToInitPayerAsProgramAccount,
    /// A balance would not fit in 64 bits.
    ArithmeticOverflow,
    /// An account the instruction reads holds no balance and belongs to the system program.
    AccountNotInitialized,
    /// An account the instruction reads is owned by a program other than the one it must be owned by.
    AccountOwnedByWrongProgram,
    /// A program account is not the program it must be.
    InvalidProgramId,
    /// A program account is not executable.
    InvalidProgramExecutable,
    /// The data of an account is too short to hold a discriminator.
    AccountDiscriminatorNotFound,
    /// The data of an account begins with the discriminator of another kind of account.
    AccountDiscriminatorMismatch,
    /// The data of an account is too short for the state it must hold.
    AccountDidNotDeserialize,
    /// The data of a token account or a mint is not that of one.
    InvalidAccountData,
    /// The data of a token account or a mint is that of one not yet initialized.
    UninitializedAccount,
    /// A program account is not the program an instruction is meant for.
    IncorrectProgramId,
    /// An argument of an instruction cannot be encoded.
    InvalidArgument,
}

} // verus!
