use crate::error::CreateError;
use crate::runtime::{derive_address, derived_address, invoke_create_account, rent_sysvar};
use crate::seeds::{assemble_seeds, lemma_padding_adds_no_bytes, padded, seed_bytes, seed_list};
use pinocchio::account_info::AccountInfo;
use pinocchio::pubkey::Pubkey;
use vstd::prelude::*;

verus! {

/// The largest data size, in bytes, that the runtime lets an account have.
pub const MAX_ACCOUNT_SPACE: usize = 10 * 1024 * 1024;

/// The outcome of the checks made on the request before any seed is
/// assembled: the payer must sign, the target must hold no lamports, and the
/// caller's seeds plus the bump must fit in `capacity` slots.
pub open spec fn request_check(
    payer_is_signer: bool,
    target_lamports: u64,
    seed_count: nat,
    capacity: nat,
) -> Result<(), CreateError> {
    if !payer_is_signer {
        Err(CreateError::MissingRequiredSignature)
    } else if target_lamports != 0 {
        Err(CreateError::AccountAlreadyInitialized)
    } else if seed_count + 1 > capacity {
        Err(CreateError::InvalidArgument)
    } else {
        Ok(())
    }
}

/// Checks, in order, that the payer signed, that the target holds no
/// lamports, and that `seed_count` seeds and the bump fit in `N` slots.
pub fn validate_request<const N: usize>(
    payer_is_signer: bool,
    target_lamports: u64,
    seed_count: usize,
) -> (r: Result<(), CreateError>)
    ensures
        r == request_check(payer_is_signer, target_lamports, seed_count as nat, N as nat),
{
    if !payer_is_signer {
        return Err(CreateError::MissingRequiredSignature);
    }
    if target_lamports != 0 {
        return Err(CreateError::AccountAlreadyInitialized);
    }
    if seed_count >= N {
        return Err(CreateError::InvalidArgument);
    }
    Ok(())
}

/// The address that `program_id` derives from `seeds` followed by `bump`.
pub open spec fn seed_address(program_id: Seq<u8>, seeds: Seq<Seq<u8>>, bump: u8) -> Seq<u8> {
    derived_address(seed_list(seeds, bump).flatten(), program_id)
}

/// What is decided before rent is read, given the payer's signer flag, the
/// target's balance and address, and a seed buffer of `capacity` slots:
/// `Ok` when the account is to be created, else the error to return.
pub open spec fn admission(
    payer_is_signer: bool,
    target_lamports: u64,
    target_key: Seq<u8>,
    program_id: Seq<u8>,
    seeds: Seq<Seq<u8>>,
    bump: u8,
    capacity: nat,
) -> Result<(), CreateError> {
    match request_check(payer_is_signer, target_lamports, seeds.len(), capacity) {
        Err(e) => Err(e),
        Ok(()) => if seed_address(program_id, seeds, bump) == target_key {
            Ok(())
        } else {
            Err(CreateError::InvalidSeeds)
        },
    }
}

/// `r` is a result that the routine may return once `decided` is known: the
/// decided error itself; when creation was admitted but `space` exceeds the
/// account size limit, that refusal; otherwise success or a failure of the
/// rent sysvar or of the system program.
pub open spec fn follows_admission(
    r: Result<(), CreateError>,
    decided: Result<(), CreateError>,
    space: u64,
) -> bool {
    match decided {
        Err(e) => r == Err::<(), CreateError>(e),
        Ok(()) => if space > MAX_ACCOUNT_SPACE {
            r == Err::<(), CreateError>(CreateError::SpaceTooLarge)
        } else {
            match r {
                Ok(()) => true,
                Err(CreateError::RentUnavailable(_)) => true,
                Err(CreateError::CreationFailed(_)) => true,
                Err(_) => false,
            }
        },
    }
}

/// Compares the address derived from the claimed seeds with the target's.
pub fn check_derived_address(derived: &Pubkey, target_key: &Pubkey) -> (r: Result<(), CreateError>)
    ensures
        r == (if derived@ == target_key@ {
            Ok(())
        } else {
            Err(CreateError::InvalidSeeds)
        }),
{
    let mut i: usize = 0;
    while i < 32
        invariant
            i <= 32,
            derived@.len() == 32,
            target_key@.len() == 32,
            forall|j: int| 0 <= j < i ==> derived@[j] == target_key@[j],
        decreases 32 - i,
    {
        if derived[i] != target_key[i] {
            return Err(CreateError::InvalidSeeds);
        }
        i = i + 1;
    }
    assert(derived@ =~= target_key@);
    Ok(())
}

/// Decides whether the account is to be created, given the payer's signer
/// flag and the target's balance and address: the request checks, in order,
/// then the comparison of the address that `program_id` derives from `seeds`
/// and the bump with `target_key`. When creation is admitted, returns the seed
/// buffer of `N` slots that both derivation and signing use (the seeds in
/// order, the bump, then empty seeds) and the number of its slots that make
/// up the signer's seed list.
///
/// Derivation uses the runtime's SHA-256 syscall: built for any target other
/// than the on-chain one, a call that gets past the request checks panics.
pub fn admit_request<'a, const N: usize>(
    payer_is_signer: bool,
    target_lamports: u64,
    target_key: &Pubkey,
    program_id: &Pubkey,
    seeds: &[&'a [u8]],
    bump_seed: &'a [u8; 1],
) -> (r: Result<([&'a [u8]; N], usize), CreateError>)
    ensures
        match r {
            Ok((buf, count)) => {
                &&& admission(
                    payer_is_signer,
                    target_lamports,
                    target_key@,
                    program_id@,
                    seed_bytes(seeds@),
                    bump_seed@[0],
                    N as nat,
                ) == Ok::<(), CreateError>(())
                &&& seed_bytes(buf@) == padded(
                    seed_list(seed_bytes(seeds@), bump_seed@[0]),
                    (N - seeds@.len() - 1) as nat,
                )
                &&& count == seeds@.len() + 1
                &&& seed_bytes(buf@).subrange(0, count as int) == seed_list(
                    seed_bytes(seeds@),
                    bump_seed@[0],
                )
            },
            Err(e) => admission(
                payer_is_signer,
                target_lamports,
                target_key@,
                program_id@,
                seed_bytes(seeds@),
                bump_seed@[0],
                N as nat,
            ) == Err::<(), CreateError>(e),
        },
{
    let seed_count = seeds.len();
    match validate_request::<N>(payer_is_signer, target_lamports, seed_count) {
        Ok(()) => {},
        Err(e) => return Err(e),
    }
    let buf: [&'a [u8]; N] = assemble_seeds::<N>(seeds, bump_seed.as_slice());
    let expected = derive_address(&buf, program_id);
    proof {
        let list = seed_bytes(seeds@).push(bump_seed@);
        assert(bump_seed@ =~= seq![bump_seed@[0]]);
        assert(list == seed_list(seed_bytes(seeds@), bump_seed@[0]));
        lemma_padding_adds_no_bytes(list, (N - seed_count - 1) as nat);
        assert(expected@ == seed_address(program_id@, seed_bytes(seeds@), bump_seed@[0]));
        assert(seed_bytes(buf@).subrange(0, seed_count + 1) =~= list);
    }
    match check_derived_address(&expected, target_key) {
        Ok(()) => Ok((buf, seed_count + 1)),
        Err(e) => Err(e),
    }
}

/// Creates the account `pda` at the address that `program_id` derives from
/// `seeds` followed by `bump`, funded by `payer` with the rent-exempt minimum
/// for `space` bytes and owned by `program_id`.
///
/// The payer must have signed, the target must hold no lamports, the seeds and
/// the bump must fit in `N` slots, and they must derive the target's address;
/// the first of these that fails gives the error, and nothing is created.
/// Otherwise the rent sysvar is read and the system program is invoked, signed
/// with the same seeds and bump in the same order; their errors are passed on.
/// A `space` over the account size limit is refused before the rent is read.
/// The flags, balance and address are read from the runtime, so the result is
/// stated for the account state that was read, whatever it was.
///
/// Derivation uses the runtime's SHA-256 syscall: built for any target other
/// than the on-chain one, a call that gets past the request checks panics.
pub fn create_pda_account<const N: usize>(
    payer: &AccountInfo,
    pda: &AccountInfo,
    program_id: &Pubkey,
    space: u64,
    seeds: &[&[u8]],
    bump: u8,
) -> (r: Result<(), CreateError>)
    ensures
        exists|payer_is_signer: bool, target_lamports: u64, target_key: Seq<u8>|
            follows_admission(
                r,
                #[trigger] admission(
                    payer_is_signer,
                    target_lamports,
                    target_key,
                    program_id@,
                    seed_bytes(seeds@),
                    bump,
                    N as nat,
                ),
                space,
            ),
{
    let payer_is_signer = payer.is_signer();
    let target_lamports = pda.lamports();
    let target_key: &Pubkey = pda.key();
    let bump_seed: [u8; 1] = [bump];
    assert(bump_seed@[0] == bump);
    let ghost decided = admission(
        payer_is_signer,
        target_lamports,
        target_key@,
        program_id@,
        seed_bytes(seeds@),
        bump,
        N as nat,
    );
    let (buf, count) = match admit_request::<N>(
        payer_is_signer,
        target_lamports,
        target_key,
        program_id,
        seeds,
        &bump_seed,
    ) {
        Ok(admitted) => admitted,
        Err(e) => {
            let r = Err(e);
            assert(follows_admission(r, decided, space));
            return r;
        },
    };
    if space > MAX_ACCOUNT_SPACE as u64 {
        let r = Err(CreateError::SpaceTooLarge);
        assert(follows_admission(r, decided, space));
        return r;
    }
    let rent = match rent_sysvar() {
        Ok(rent) => rent,
        Err(e) => {
            let r = Err(CreateError::RentUnavailable(e));
            assert(follows_admission(r, decided, space));
            return r;
        },
    };
    let lamports = rent.minimum_balance(space as usize);
    let r = match invoke_create_account(payer, pda, lamports, space, program_id, &buf, count) {
        Ok(()) => Ok(()),
        Err(e) => Err(CreateError::CreationFailed(e)),
    };
    assert(follows_admission(r, decided, space));
    r
}

} // verus!
