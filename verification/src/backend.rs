//! The boundary to the pairing-based proving backend. The key and proof
//! objects are opaque cryptographic artifacts: the library holds each in a
//! wrapper struct it never looks inside, and states of each backend call
//! only what the backend's own code shows.

use vstd::prelude::*;

verus! {

/// A verifying key from one setup run, as the backend produced it.
#[verifier::external_body]
pub struct VerifyingKey {
    pub inner: bellman::groth16::VerifyingKey<bls12_381::Bls12>,
}

/// A verifying key preprocessed for repeated verification.
#[verifier::external_body]
pub struct PreparedVerifyingKey {
    pub inner: bellman::groth16::PreparedVerifyingKey<bls12_381::Bls12>,
}

/// A proof object from one proving run.
#[verifier::external_body]
pub struct Proof {
    pub inner: bellman::groth16::Proof<bls12_381::Bls12>,
}

/// Verification verdicts that are not acceptance, mirroring the backend's
/// two failure cases: a statement whose length does not fit the key is
/// malformed input; a failed pairing check is the normal reject outcome.
#[derive(Clone, Copy, PartialEq, Eq, Debug)]
pub enum VerifyError {
    InvalidVerifyingKey,
    InvalidProof,
}

/// The prepared form of a verifying key: a pure function of the key alone,
/// so preparing the same key twice gives the same result.
pub uninterp spec fn prepared_of(vk: VerifyingKey) -> PreparedVerifyingKey;

/// The number of public inputs a prepared key expects a statement to have.
pub uninterp spec fn pvk_statement_len(pvk: PreparedVerifyingKey) -> nat;

/// Whether the backend's pairing check accepts the proof against the key
/// and public inputs: a deterministic function of the three arguments
/// alone, whose full statement is the Groth16 verification equation.
pub uninterp spec fn groth16_accepts(
    pvk: PreparedVerifyingKey,
    proof: Proof,
    inputs: Seq<bls12_381::Scalar>,
) -> bool;

/// Relies on `bellman::groth16::prepare_verifying_key`: deterministic
/// preprocessing of a verifying key into its verification-friendly form.
#[verifier::external_body]
pub fn prepare_verifying_key(vk: &VerifyingKey) -> (r: PreparedVerifyingKey)
    ensures
        r == prepared_of(*vk),
{
    PreparedVerifyingKey { inner: bellman::groth16::prepare_verifying_key(&vk.inner) }
}

/// Relies on `bellman::groth16::verify_proof`: it rejects with
/// `InvalidVerifyingKey` exactly when the number of public inputs does not
/// match the key, and otherwise accepts or rejects by the deterministic
/// pairing check.
#[verifier::external_body]
pub(crate) fn backend_verify(
    pvk: &PreparedVerifyingKey,
    proof: &Proof,
    inputs: &Vec<bls12_381::Scalar>,
) -> (r: Result<(), VerifyError>)
    ensures
        r is Ok <==> groth16_accepts(*pvk, *proof, inputs@),
        (r matches Err(e) && e == VerifyError::InvalidVerifyingKey) <==> inputs@.len()
            != pvk_statement_len(*pvk),
{
    match bellman::groth16::verify_proof(&pvk.inner, &proof.inner, inputs.as_slice()) {
        Ok(()) => Ok(()),
        Err(bellman::VerificationError::InvalidVerifyingKey) => Err(
            VerifyError::InvalidVerifyingKey,
        ),
        Err(bellman::VerificationError::InvalidProof) => Err(VerifyError::InvalidProof),
    }
}

} // verus!
