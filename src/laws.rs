//! Properties of the creation routine, stated over the decision it makes
//! before the rent sysvar and the system program are reached.
use crate::creator::{admission, seed_address};
use crate::error::CreateError;
use crate::runtime::derived_address;
use crate::seeds::{lemma_padding_adds_no_bytes, padded, seed_list};
use vstd::prelude::*;

verus! {

/// The address derived from a seed buffer depends only on the seeds and the
/// bump: buffers of any two capacities that hold the same seeds and bump give
/// the same address, the one that `program_id` derives from the seeds and bump.
pub proof fn lemma_derivation_deterministic(
    program_id: Seq<u8>,
    seeds: Seq<Seq<u8>>,
    bump: u8,
    capacity_a: nat,
    capacity_b: nat,
)
    requires
        seeds.len() < capacity_a,
        seeds.len() < capacity_b,
    ensures
        derived_address(
            padded(seed_list(seeds, bump), (capacity_a - seeds.len() - 1) as nat).flatten(),
            program_id,
        ) == derived_address(
            padded(seed_list(seeds, bump), (capacity_b - seeds.len() - 1) as nat).flatten(),
            program_id,
        ),
        derived_address(
            padded(seed_list(seeds, bump), (capacity_a - seeds.len() - 1) as nat).flatten(),
            program_id,
        ) == seed_address(program_id, seeds, bump),
{
    lemma_padding_adds_no_bytes(seed_list(seeds, bump), (capacity_a - seeds.len() - 1) as nat);
    lemma_padding_adds_no_bytes(seed_list(seeds, bump), (capacity_b - seeds.len() - 1) as nat);
}

/// A payer that did not sign is refused with a missing-signature error,
/// whatever the target, seeds, bump and capacity.
pub proof fn lemma_unsigned_payer_refused(
    target_lamports: u64,
    target_key: Seq<u8>,
    program_id: Seq<u8>,
    seeds: Seq<Seq<u8>>,
    bump: u8,
    capacity: nat,
)
    ensures
        admission(false, target_lamports, target_key, program_id, seeds, bump, capacity)
            == Err::<(), CreateError>(CreateError::MissingRequiredSignature),
{
}

/// A target that already holds lamports, such as one created by an earlier
/// call, is refused as already initialized when the payer signed, whether or
/// not the seeds derive its address.
pub proof fn lemma_funded_target_refused(
    target_lamports: u64,
    target_key: Seq<u8>,
    program_id: Seq<u8>,
    seeds: Seq<Seq<u8>>,
    bump: u8,
    capacity: nat,
)
    requires
        target_lamports != 0,
    ensures
        admission(true, target_lamports, target_key, program_id, seeds, bump, capacity)
            == Err::<(), CreateError>(CreateError::AccountAlreadyInitialized),
{
}

/// Seeds and a bump that do not derive the target's address are refused with
/// an invalid-seeds error once the payer signed, the target is empty and the
/// seeds fit.
pub proof fn lemma_underiving_seeds_refused(
    target_key: Seq<u8>,
    program_id: Seq<u8>,
    seeds: Seq<Seq<u8>>,
    bump: u8,
    capacity: nat,
)
    requires
        seeds.len() + 1 <= capacity,
        seed_address(program_id, seeds, bump) != target_key,
    ensures
        admission(true, 0, target_key, program_id, seeds, bump, capacity)
            == Err::<(), CreateError>(CreateError::InvalidSeeds),
{
}

/// Seeds that fill the buffer exactly together with the bump are admitted
/// when they derive the target's address; one seed more is refused as an
/// invalid argument, before any derivation.
pub proof fn lemma_capacity_boundary(
    target_key: Seq<u8>,
    program_id: Seq<u8>,
    seeds: Seq<Seq<u8>>,
    bump: u8,
    capacity: nat,
)
    ensures
        seeds.len() + 1 == capacity && seed_address(program_id, seeds, bump) == target_key
            ==> admission(true, 0, target_key, program_id, seeds, bump, capacity) == Ok::<
            (),
            CreateError,
        >(()),
        seeds.len() + 1 == capacity + 1 ==> admission(
            true,
            0,
            target_key,
            program_id,
            seeds,
            bump,
            capacity,
        ) == Err::<(), CreateError>(CreateError::InvalidArgument),
{
}

} // verus!
