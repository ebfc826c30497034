//! The field value adapter: the embedding of small unsigned integers into
//! the backend's scalar field. Values the library reasons about are plain
//! integers; this is the one place they become field elements.

use vstd::prelude::*;

verus! {

/// An element of the backend's scalar field, opaque to the library.
#[verifier::external_type_specification]
#[verifier::external_body]
pub struct ExScalar(bls12_381::Scalar);

/// The scalar-field element a 64-bit integer embeds to: a pure function of
/// the integer alone, whose field representation is left unspecified.
pub uninterp spec fn scalar_of(x: u64) -> bls12_381::Scalar;

/// Relies on `<bls12_381::Scalar as From<u64>>::from`: the canonical
/// embedding of an unsigned 64-bit integer into the scalar field, under
/// which field addition and multiplication agree with integer arithmetic
/// wherever the integers fit.
#[verifier::external_body]
pub fn scalar_from_u64(x: u64) -> (r: bls12_381::Scalar)
    ensures
        r == scalar_of(x),
{
    bls12_381::Scalar::from(x)
}

/// Embeds one small unsigned integer into the scalar field. The domain the
/// pipeline feeds it is a single byte, for which field arithmetic agrees
/// with integer arithmetic.
pub fn convert_u8(x: u8) -> (r: bls12_381::Scalar)
    ensures
        r == scalar_of(x as u64),
{
    scalar_from_u64(x as u64)
}

/// A statement, mapped element-wise into the scalar field.
pub open spec fn statement_as_scalars(s: Seq<u64>) -> Seq<bls12_381::Scalar> {
    s.map_values(|x: u64| scalar_of(x))
}

/// Embeds a whole statement into the scalar field, in order.
pub fn statement_scalars(statement: &Vec<u64>) -> (r: Vec<bls12_381::Scalar>)
    ensures
        r@ == statement_as_scalars(statement@),
{
    let mut out: Vec<bls12_381::Scalar> = Vec::new();
    for i in 0..statement.len()
        invariant
            out@.len() == i,
            forall|j: int| 0 <= j < i ==> out@[j] == scalar_of(statement@[j]),
    {
        out.push(scalar_from_u64(statement[i]));
    }
    proof {
        assert(out@ =~= statement_as_scalars(statement@));
    }
    out
}

} // verus!
