//! Creation of program-derived accounts: the caller's claimed address is
//! re-derived from its seeds and bump before the system program is asked to
//! create the account with those seeds as signer.

pub mod runtime;
pub mod error;
pub mod creator;
pub mod seeds;
pub mod laws;

pub use error::CreateError;
pub use creator::{admit_request, check_derived_address, create_pda_account, validate_request};
