use vstd::prelude::*;

verus! {

/// Why an instruction, or a system-program call it makes, was rejected.
#[derive(Clone, Copy, Debug, PartialEq, Eq, Structural)]
pub enum ProgramError {
    /// An account that must sign the transaction did not.
    AccountNotSigner,
    /// The account given as the system program is not it.
    InvalidProgramId,
    /// An account is owned by another program than the one required.
    AccountOwnedByWrongProgram,
    /// An account's data is too short to hold a discriminator.
    AccountDiscriminatorNotFound,
    /// An account's discriminator is not the one of the expected record.
    AccountDiscriminatorMismatch,
    /// An account's data is too short for the expected record.
    AccountDidNotDeserialize,
    /// An account's data is too short to write the record into.
    AccountDidNotSerialize,
    /// An account is not the address derived from its seeds.
    ConstraintSeeds,
    /// The record about to be written already carries a discriminator.
    AccountDiscriminatorAlreadySet,
    /// The account to create already holds lamports or data, or has an owner.
    AccountAlreadyInUse,
    /// An account the system program debits or allocates has not signed.
    MissingRequiredSignature,
    /// The system program was asked for something it does not do.
    InvalidArgument,
    /// The paying account holds fewer lamports than asked for.
    InsufficientFunds,
    /// A balance would exceed the largest `u64`.
    ArithmeticOverflow,
}

} // verus!
