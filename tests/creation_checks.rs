use pinocchio_utils::seeds::assemble_seeds;
use pinocchio_utils::{admit_request, check_derived_address, validate_request, CreateError};

const PAYER: [u8; 32] = [7u8; 32];

#[test]
fn unsigned_payer_is_refused() {
    assert_eq!(
        validate_request::<3>(false, 0, 2),
        Err(CreateError::MissingRequiredSignature)
    );
}

#[test]
fn unsigned_payer_is_checked_before_balance_and_capacity() {
    assert_eq!(
        validate_request::<2>(false, 5, 4),
        Err(CreateError::MissingRequiredSignature)
    );
}

#[test]
fn prefunded_target_is_refused() {
    assert_eq!(
        validate_request::<3>(true, 1, 2),
        Err(CreateError::AccountAlreadyInitialized)
    );
}

#[test]
fn created_target_is_refused_on_second_call() {
    let rent_exempt_minimum: u64 = 890_880;
    assert_eq!(
        validate_request::<3>(true, rent_exempt_minimum, 2),
        Err(CreateError::AccountAlreadyInitialized)
    );
}

#[test]
fn funded_target_is_checked_before_capacity() {
    assert_eq!(
        validate_request::<2>(true, 1, 9),
        Err(CreateError::AccountAlreadyInitialized)
    );
}

#[test]
fn seeds_filling_capacity_are_admitted() {
    assert_eq!(validate_request::<3>(true, 0, 2), Ok(()));
}

#[test]
fn one_seed_over_capacity_is_refused() {
    assert_eq!(
        validate_request::<3>(true, 0, 3),
        Err(CreateError::InvalidArgument)
    );
}

#[test]
fn capacity_of_one_holds_only_the_bump() {
    assert_eq!(validate_request::<1>(true, 0, 0), Ok(()));
    assert_eq!(
        validate_request::<1>(true, 0, 1),
        Err(CreateError::InvalidArgument)
    );
}

#[test]
fn zero_capacity_refuses_everything() {
    assert_eq!(
        validate_request::<0>(true, 0, 0),
        Err(CreateError::InvalidArgument)
    );
}

#[test]
fn matching_address_is_admitted() {
    let a = [42u8; 32];
    assert_eq!(check_derived_address(&a, &a), Ok(()));
}

#[test]
fn address_differing_in_last_byte_is_refused() {
    let a = [42u8; 32];
    let mut b = a;
    b[31] = 43;
    assert_eq!(check_derived_address(&b, &a), Err(CreateError::InvalidSeeds));
}

#[test]
fn address_differing_in_first_byte_is_refused() {
    let a = [0u8; 32];
    let mut b = a;
    b[0] = 1;
    assert_eq!(check_derived_address(&a, &b), Err(CreateError::InvalidSeeds));
}

#[test]
fn seeds_are_laid_out_in_order_then_bump() {
    let seeds: [&[u8]; 2] = [b"vault", &PAYER];
    let bump_seed = [254u8];
    let buf: [&[u8]; 4] = assemble_seeds::<4>(&seeds, &bump_seed);
    assert_eq!(buf[0], b"vault");
    assert_eq!(buf[1], &PAYER[..]);
    assert_eq!(buf[2], &[254u8][..]);
    assert!(buf[3].is_empty());
}

#[test]
fn seeds_filling_buffer_leave_no_padding() {
    let seeds: [&[u8]; 2] = [b"vault", &PAYER];
    let bump_seed = [3u8];
    let buf: [&[u8]; 3] = assemble_seeds::<3>(&seeds, &bump_seed);
    assert_eq!(buf, [&b"vault"[..], &PAYER[..], &[3u8][..]]);
}

#[test]
fn no_seeds_gives_bump_alone() {
    let seeds: [&[u8]; 0] = [];
    let bump_seed = [255u8];
    let buf: [&[u8]; 2] = assemble_seeds::<2>(&seeds, &bump_seed);
    assert_eq!(buf[0], &[255u8][..]);
    assert!(buf[1].is_empty());
}

#[test]
fn happy_path_request_is_admitted() {
    let derived = [9u8; 32];
    let target = [9u8; 32];
    assert_eq!(validate_request::<3>(true, 0, 2), Ok(()));
    assert_eq!(check_derived_address(&derived, &target), Ok(()));
}

#[test]
fn wrong_bump_address_is_refused() {
    let seeds: [&[u8]; 2] = [b"vault", &PAYER];
    let right = assemble_seeds::<3>(&seeds, &[200u8]);
    let wrong = assemble_seeds::<3>(&seeds, &[201u8]);
    assert_ne!(right, wrong);
    let target = [9u8; 32];
    let mut derived_with_wrong_bump = target;
    derived_with_wrong_bump[5] ^= 0x80;
    assert_eq!(
        check_derived_address(&derived_with_wrong_bump, &target),
        Err(CreateError::InvalidSeeds)
    );
}

#[test]
fn admission_refuses_unsigned_payer_before_deriving() {
    let seeds: [&[u8]; 2] = [b"vault", &PAYER];
    let r = admit_request::<3>(false, 0, &[1u8; 32], &[2u8; 32], &seeds, &[254u8]);
    assert_eq!(r, Err(CreateError::MissingRequiredSignature));
}

#[test]
fn admission_refuses_prefunded_target_before_deriving() {
    let seeds: [&[u8]; 2] = [b"vault", &PAYER];
    let r = admit_request::<3>(true, 1, &[1u8; 32], &[2u8; 32], &seeds, &[254u8]);
    assert_eq!(r, Err(CreateError::AccountAlreadyInitialized));
}

#[test]
fn admission_refuses_seeds_over_capacity_before_deriving() {
    let seeds: [&[u8]; 2] = [b"vault", &PAYER];
    let r = admit_request::<2>(true, 0, &[1u8; 32], &[2u8; 32], &seeds, &[254u8]);
    assert_eq!(r, Err(CreateError::InvalidArgument));
}
