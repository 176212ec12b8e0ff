//! The runtime facilities this library builds on, with what is assumed of each.
use crate::creator::MAX_ACCOUNT_SPACE;
use crate::seeds::seed_bytes;
use pinocchio::account_info::AccountInfo;
use pinocchio::instruction::{Seed, Signer};
use pinocchio::program_error::ProgramError;
use pinocchio::pubkey::Pubkey;
use pinocchio::sysvars::rent::Rent;
use pinocchio::sysvars::Sysvar;
use pinocchio_system::instructions::CreateAccount;
use vstd::prelude::*;

verus! {

#[verifier::external_type_specification]
#[verifier::external_body]
pub struct ExAccountInfo(AccountInfo);

#[verifier::external_type_specification]
#[verifier::external_body]
pub struct ExProgramError(ProgramError);

#[verifier::external_type_specification]
#[verifier::external_body]
pub struct ExRent(Rent);

/// Relies on pinocchio's AccountInfo::is_signer: the account's signer flag,
/// as the runtime set it for this transaction.
pub assume_specification[ AccountInfo::is_signer ](account: &AccountInfo) -> bool;

/// Relies on pinocchio's AccountInfo::lamports: the account's current balance.
pub assume_specification[ AccountInfo::lamports ](account: &AccountInfo) -> u64;

/// Relies on pinocchio's AccountInfo::key: the account's address.
pub assume_specification[ AccountInfo::key ](account: &AccountInfo) -> &Pubkey;

/// Relies on pinocchio's Rent::minimum_balance: the balance that exempts an
/// account of `data_len` bytes from rent, under the rates held in `rent`.
/// Nothing is assumed of the amount: it follows the rates that the sysvar held.
/// The sum and product are unchecked `u64` arithmetic, so sizes are held to
/// the runtime's account size limit; the rate itself is not bounded here.
pub assume_specification[ Rent::minimum_balance ](rent: &Rent, data_len: usize) -> u64
    requires
        data_len <= MAX_ACCOUNT_SPACE,
;

/// The address that `program_id` derives from a seed list whose bytes, laid
/// end to end, are `seed_bytes`.
pub uninterp spec fn derived_address(seed_bytes: Seq<u8>, program_id: Seq<u8>) -> Seq<u8>;

/// Relies on pinocchio_pubkey::derive_address, called with no extra bump: it
/// hashes the seeds' bytes in order, then `program_id` and the PDA marker, so
/// the address depends on those bytes alone. The hash is the runtime's SHA-256
/// syscall, which exists only on the on-chain target.
#[verifier::external_body]
pub(crate) fn derive_address<const N: usize>(seeds: &[&[u8]; N], program_id: &Pubkey) -> (r: Pubkey)
    ensures
        r@ == derived_address(seed_bytes(seeds@).flatten(), program_id@),
{
    pinocchio_pubkey::derive_address(seeds, None, program_id)
}

/// Relies on pinocchio's Sysvar::get for Rent: reads the rent sysvar from the
/// runtime, or fails with the runtime's error.
#[verifier::external_body]
pub(crate) fn rent_sysvar() -> (r: Result<Rent, ProgramError>) {
    Rent::get()
}

/// Relies on pinocchio_system's CreateAccount::invoke_signed: asks the system
/// program to move `lamports` from `from` to `to`, give `to` `space` zeroed
/// bytes and make `owner` its owner, signing for `to` with the first `count`
/// seeds of `seeds`.
#[verifier::external_body]
pub(crate) fn invoke_create_account<const N: usize>(
    from: &AccountInfo,
    to: &AccountInfo,
    lamports: u64,
    space: u64,
    owner: &Pubkey,
    seeds: &[&[u8]; N],
    count: usize,
) -> (r: Result<(), ProgramError>)
    requires
        count <= N,
{
    let signer_seeds: [Seed; N] = seeds.map(Seed::from);
    let signer = Signer::from(&signer_seeds[..count]);
    CreateAccount { from, to, lamports, space, owner }.invoke_signed(&[signer])
}

} // verus!
