use triton_constraints::claim::CURRENT_VERSION;
use triton_constraints::claim::Claim;
use triton_constraints::claim::Digest;
use triton_constraints::claim::ProofStreamError;
use triton_constraints::claim::padded_height_from_log2_heights;

fn zero_digest() -> Digest {
    Digest { values: [0; 5] }
}

#[test]
fn claim_accepts_various_types_for_public_input() {
    let claim = Claim::new(zero_digest())
        .with_input(vec![42])
        .with_input([42].to_vec())
        .with_input(Vec::from([42]));
    assert_eq!(vec![42], claim.input);
}

#[test]
fn new_claim_is_about_the_current_version_and_empty() {
    let digest = Digest { values: [1, 2, 3, 4, 5] };
    let claim = Claim::new(digest);
    assert_eq!(digest, claim.program_digest);
    assert_eq!(CURRENT_VERSION, claim.version);
    assert!(claim.input.is_empty());
    assert!(claim.output.is_empty());
}

#[test]
fn claim_builders_set_one_field_each() {
    let claim = Claim::new(zero_digest())
        .with_input(vec![1, 2])
        .with_output(vec![3])
        .about_version(7);
    assert_eq!(vec![1, 2], claim.input);
    assert_eq!(vec![3], claim.output);
    assert_eq!(7, claim.version);
    assert_eq!(zero_digest(), claim.program_digest);
}

#[test]
fn proof_with_no_padded_height_gives_err() {
    assert_eq!(
        Err(ProofStreamError::NoLog2PaddedHeight),
        padded_height_from_log2_heights(&vec![]),
    );
}

#[test]
fn proof_with_multiple_padded_height_gives_err() {
    assert_eq!(
        Err(ProofStreamError::TooManyLog2PaddedHeights),
        padded_height_from_log2_heights(&vec![8, 7]),
    );
}

#[test]
fn padded_height_is_two_to_the_declared_log2_height() {
    assert_eq!(Ok(256), padded_height_from_log2_heights(&vec![8]));
    assert_eq!(Ok(1), padded_height_from_log2_heights(&vec![0]));
}

#[test]
fn padded_height_that_does_not_fit_is_an_error() {
    assert_eq!(
        Err(ProofStreamError::Log2PaddedHeightTooLarge),
        padded_height_from_log2_heights(&vec![200]),
    );
    assert_eq!(
        Err(ProofStreamError::Log2PaddedHeightTooLarge),
        padded_height_from_log2_heights(&vec![usize::BITS]),
    );
}
