//! The prover's side of the statement: the secret factors and their public
//! products, held as small integers on which field arithmetic and integer
//! arithmetic agree.

use vstd::prelude::*;

verus! {

/// Why a batch of values cannot form a witness.
#[derive(Clone, Copy, PartialEq, Eq, Debug)]
pub enum WitnessError {
    /// The three sequences do not all have the same length.
    LengthMismatch,
    /// The batch is empty; the relation needs at least one element.
    EmptyBatch,
    /// Some claimed product `w_i` differs from `a_i * b_i`.
    ProductMismatch,
}

/// A witness for the batched relation: sequences `a`, `b`, `w` of equal
/// positive length with `a_i * b_i == w_i` (as integers) for every `i`.
/// Only [`Witness::new`] builds one, so every value handed out satisfies
/// [`Witness::wf`].
pub struct Witness {
    a: Vec<u64>,
    b: Vec<u64>,
    w: Vec<u64>,
}

impl Witness {
    /// The secret left factors.
    pub closed spec fn a_seq(&self) -> Seq<u64> {
        self.a@
    }

    /// The secret right factors.
    pub closed spec fn b_seq(&self) -> Seq<u64> {
        self.b@
    }

    /// The public products, i.e. the statement being proven.
    pub closed spec fn w_seq(&self) -> Seq<u64> {
        self.w@
    }

    /// The batch size `n`.
    pub open spec fn batch_len(&self) -> nat {
        self.a_seq().len()
    }

    /// The witness invariant: equal positive lengths and the multiplicative
    /// relation at every index.
    pub open spec fn wf(&self) -> bool {
        &&& self.a_seq().len() >= 1
        &&& self.b_seq().len() == self.a_seq().len()
        &&& self.w_seq().len() == self.a_seq().len()
        &&& forall|i: int|
            0 <= i < self.a_seq().len() ==> self.a_seq()[i] * self.b_seq()[i] == self.w_seq()[i]
    }

    /// Whether raw sequences would form a well-formed witness.
    pub open spec fn valid_input(a: Seq<u64>, b: Seq<u64>, w: Seq<u64>) -> bool {
        &&& a.len() >= 1
        &&& b.len() == a.len()
        &&& w.len() == a.len()
        &&& forall|i: int| 0 <= i < a.len() ==> a[i] * b[i] == w[i]
    }

    /// Builds a witness, rejecting exactly the inputs that break the
    /// invariant: mismatched lengths first, then emptiness, then a wrong
    /// product.
    pub fn new(a: Vec<u64>, b: Vec<u64>, w: Vec<u64>) -> (r: Result<Witness, WitnessError>)
        ensures
            r is Ok <==> Self::valid_input(a@, b@, w@),
            r matches Ok(wit) ==> wit.wf() && wit.a_seq() == a@ && wit.b_seq() == b@ && wit.w_seq()
                == w@,
            (b@.len() != a@.len() || w@.len() != a@.len()) ==> r == Err::<Witness, WitnessError>(
                WitnessError::LengthMismatch,
            ),
            (b@.len() == a@.len() && w@.len() == a@.len() && a@.len() == 0) ==> r == Err::<
                Witness,
                WitnessError,
            >(WitnessError::EmptyBatch),
            (b@.len() == a@.len() && w@.len() == a@.len() && a@.len() >= 1 && !Self::valid_input(
                a@,
                b@,
                w@,
            )) ==> r == Err::<Witness, WitnessError>(WitnessError::ProductMismatch),
    {
        if b.len() != a.len() || w.len() != a.len() {
            return Err(WitnessError::LengthMismatch);
        }
        if a.len() == 0 {
            return Err(WitnessError::EmptyBatch);
        }
        for i in 0..a.len()
            invariant
                b@.len() == a@.len(),
                w@.len() == a@.len(),
                forall|j: int| 0 <= j < i ==> a@[j] * b@[j] == w@[j],
        {
            let product = a[i].checked_mul(b[i]);
            match product {
                Some(p) => {
                    if p != w[i] {
                        return Err(WitnessError::ProductMismatch);
                    }
                },
                None => {
                    proof {
                        assert(a@[i as int] * b@[i as int] != w@[i as int]);
                    }
                    return Err(WitnessError::ProductMismatch);
                },
            }
        }
        Ok(Witness { a, b, w })
    }

    /// The secret left factor `a_i`.
    pub fn a_at(&self, i: usize) -> (r: u64)
        requires
            i < self.a_seq().len(),
        ensures
            r == self.a_seq()[i as int],
    {
        self.a[i]
    }

    /// The secret right factor `b_i`.
    pub fn b_at(&self, i: usize) -> (r: u64)
        requires
            i < self.b_seq().len(),
        ensures
            r == self.b_seq()[i as int],
    {
        self.b[i]
    }

    /// The public product `w_i`.
    pub fn w_at(&self, i: usize) -> (r: u64)
        requires
            i < self.w_seq().len(),
        ensures
            r == self.w_seq()[i as int],
    {
        self.w[i]
    }

    /// The batch size as an executable value.
    pub fn len(&self) -> (r: usize)
        ensures
            r == self.batch_len(),
    {
        self.a.len()
    }

    /// The public part of the witness: the products `w`, in order. This is
    /// exactly what a verifier must be given.
    pub fn statement(&self) -> (r: Vec<u64>)
        ensures
            r@ == self.w_seq(),
    {
        let mut out: Vec<u64> = Vec::new();
        for i in 0..self.w.len()
            invariant
                out@ == self.w@.take(i as int),
        {
            out.push(self.w[i]);
            proof {
                assert(out@ =~= self.w@.take(i + 1 as int));
            }
        }
        proof {
            assert(self.w@.take(self.w@.len() as int) =~= self.w@);
        }
        out
    }
}

} // verus!
