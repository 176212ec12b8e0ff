use pinocchio::program_error::ProgramError;
use vstd::prelude::*;

verus! {

/// Why a derived account was not created.
#[derive(Debug, PartialEq, Eq)]
pub enum CreateError {
    /// The funding account did not sign the transaction.
    MissingRequiredSignature,
    /// The target account already holds lamports.
    AccountAlreadyInitialized,
    /// The caller's seeds and the bump do not fit in the seed buffer.
    InvalidArgument,
    /// The seeds and bump do not derive the target account's address.
    InvalidSeeds,
    /// The requested space exceeds the runtime's account size limit.
    SpaceTooLarge,
    /// The rent sysvar could not be read; the runtime's error is kept.
    RentUnavailable(ProgramError),
    /// The system program refused to create the account; its error is kept.
    CreationFailed(ProgramError),
}

} // verus!
