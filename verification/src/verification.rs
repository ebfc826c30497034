//! The verification stage: checking a proof against the disclosed products.

use vstd::prelude::*;
use crate::backend::PreparedVerifyingKey;
use crate::backend::Proof;
use crate::backend::VerifyError;
use crate::backend::backend_verify;
use crate::backend::groth16_accepts;
use crate::backend::pvk_statement_len;
use crate::field::statement_as_scalars;
use crate::field::statement_scalars;

verus! {

/// Checks `proof` against the public products `statement` under a prepared
/// verifying key. `Ok(())` exactly when the backend's pairing check accepts
/// the proof for this statement; `Err(InvalidVerifyingKey)` exactly when
/// the statement's length does not match the key (malformed input); and
/// `Err(InvalidProof)` otherwise — the normal reject outcome, not a fault.
pub fn verify(pvk: &PreparedVerifyingKey, proof: &Proof, statement: &Vec<u64>) -> (r: Result<
    (),
    VerifyError,
>)
    ensures
        r is Ok <==> groth16_accepts(*pvk, *proof, statement_as_scalars(statement@)),
        (r matches Err(e) && e == VerifyError::InvalidVerifyingKey) <==> statement@.len()
            != pvk_statement_len(*pvk),
{
    let scalars = statement_scalars(statement);
    backend_verify(pvk, proof, &scalars)
}

} // verus!
