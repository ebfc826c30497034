//! The constraint circuit for the batched relation `a_i * b_i = w_i`.
//!
//! Synthesis is modelled as a plan: the exact sequence of variable
//! allocations and rank-one constraints the circuit emits, as plain data.
//! Variables are bound positionally, so the plan fixes both the topology and
//! (in proving mode) the assignment. An adapter outside the library replays
//! the plan against the backend's constraint-system interface, step by step
//! and in order.

use vstd::prelude::*;
use crate::witness::Witness;

verus! {

/// A positional reference to an allocated variable: the `k`-th private or
/// the `k`-th public allocation of the plan, counting from zero in plan
/// order.
#[derive(Clone, Copy, PartialEq, Eq, Debug)]
pub enum VarRef {
    Private(usize),
    Public(usize),
}

/// One synthesis action. Allocations carry `Some` value in proving mode and
/// `None` in setup mode; a constraint asserts `a * b = w` over three
/// already-allocated variables.
#[derive(Clone, Copy, PartialEq, Eq, Debug)]
pub enum SynthesisStep {
    AllocPrivate { value: Option<u64> },
    AllocPublic { value: Option<u64> },
    Enforce { a: VarRef, b: VarRef, w: VarRef },
}

/// The two lifecycle states of a circuit instance: key generation without a
/// witness, or proof generation with one.
pub enum CircuitMode {
    Setup,
    Prove(Witness),
}

/// A single-use circuit instance for batch size `n`: it is consumed by
/// [`Circuit::synthesize`], and a fresh one must be built for every setup or
/// proving call.
pub struct Circuit {
    batch_size: usize,
    mode: CircuitMode,
}

/// The value triples a plan is built from: `None` in setup mode, the
/// witness columns in proving mode.
pub type PlanValues = Option<(Seq<u64>, Seq<u64>, Seq<u64>)>;

/// The value attached to the `i`-th private `a` allocation.
pub open spec fn value_a(vals: PlanValues, i: int) -> Option<u64> {
    match vals {
        Option::None => Option::None,
        Option::Some((a, b, w)) => Option::Some(a[i]),
    }
}

/// The value attached to the `i`-th private `b` allocation.
pub open spec fn value_b(vals: PlanValues, i: int) -> Option<u64> {
    match vals {
        Option::None => Option::None,
        Option::Some((a, b, w)) => Option::Some(b[i]),
    }
}

/// The value attached to the `i`-th public `w` allocation.
pub open spec fn value_w(vals: PlanValues, i: int) -> Option<u64> {
    match vals {
        Option::None => Option::None,
        Option::Some((a, b, w)) => Option::Some(w[i]),
    }
}

/// The four steps emitted for batch element `i`: allocate `a_i` and `b_i`
/// privately, allocate `w_i` publicly, then constrain their product. The
/// variable references encode the positional layout: element `i` owns
/// private slots `2i` and `2i + 1` and public slot `i`.
pub open spec fn element_steps(vals: PlanValues, i: int) -> Seq<SynthesisStep> {
    seq![
        SynthesisStep::AllocPrivate { value: value_a(vals, i) },
        SynthesisStep::AllocPrivate { value: value_b(vals, i) },
        SynthesisStep::AllocPublic { value: value_w(vals, i) },
        SynthesisStep::Enforce {
            a: VarRef::Private((2 * i) as usize),
            b: VarRef::Private((2 * i + 1) as usize),
            w: VarRef::Public(i as usize),
        },
    ]
}

/// The plan for the first `k` batch elements, in element order.
pub open spec fn plan_prefix(vals: PlanValues, k: int) -> Seq<SynthesisStep>
    decreases k,
{
    if k <= 0 {
        Seq::empty()
    } else {
        plan_prefix(vals, k - 1) + element_steps(vals, k - 1)
    }
}

/// The full synthesis plan for batch size `n` over the given values.
pub open spec fn plan_of(n: nat, vals: PlanValues) -> Seq<SynthesisStep> {
    plan_prefix(vals, n as int)
}

impl Circuit {
    /// The batch size `n` this instance encodes.
    pub closed spec fn batch_size_spec(&self) -> nat {
        self.batch_size as nat
    }

    /// Whether the instance is in setup mode (no witness).
    pub closed spec fn is_setup_mode(&self) -> bool {
        self.mode is Setup
    }

    /// The values the plan attaches to allocations: none in setup mode, the
    /// witness columns in proving mode.
    pub closed spec fn values(&self) -> PlanValues {
        match self.mode {
            CircuitMode::Setup => Option::None,
            CircuitMode::Prove(wit) => Option::Some((wit.a_seq(), wit.b_seq(), wit.w_seq())),
        }
    }

    /// The witness columns in proving mode, for contracts that speak of
    /// them.
    pub open spec fn prove_values(&self) -> (Seq<u64>, Seq<u64>, Seq<u64>)
        recommends
            !self.is_setup_mode(),
    {
        self.values()->Some_0
    }

    /// Structural invariant: a positive batch size small enough that every
    /// variable index and the step vector length fit in `usize`, and in
    /// proving mode a well-formed witness of exactly that length.
    pub closed spec fn wf(&self) -> bool {
        &&& 1 <= self.batch_size
        &&& self.batch_size <= usize::MAX / 4
        &&& match self.mode {
            CircuitMode::Setup => true,
            CircuitMode::Prove(wit) => wit.wf() && wit.batch_len() == self.batch_size,
        }
    }

    /// The synthesis plan of this instance.
    pub open spec fn plan(&self) -> Seq<SynthesisStep> {
        plan_of(self.batch_size_spec(), self.values())
    }

    /// What well-formedness guarantees, stated over the public projections
    /// so modules that cannot see the invariant's body can reason from it.
    pub proof fn lemma_wf_consequences(&self)
        requires
            self.wf(),
        ensures
            1 <= self.batch_size_spec() <= usize::MAX / 4,
            self.is_setup_mode() ==> self.values() is None,
            !self.is_setup_mode() ==> {
                let (a, b, w) = self.prove_values();
                &&& self.values() == Option::Some((a, b, w))
                &&& a.len() == self.batch_size_spec()
                &&& b.len() == self.batch_size_spec()
                &&& w.len() == self.batch_size_spec()
                &&& forall|i: int| 0 <= i < a.len() ==> a[i] * b[i] == w[i]
            },
    {
    }

    /// A setup-mode instance for batch size `n`: same topology as a proving
    /// instance of size `n`, every value absent. Used once, to derive keys.
    pub fn for_setup(batch_size: usize) -> (r: Circuit)
        requires
            1 <= batch_size <= usize::MAX / 4,
        ensures
            r.wf(),
            r.batch_size_spec() == batch_size,
            r.is_setup_mode(),
    {
        Circuit { batch_size, mode: CircuitMode::Setup }
    }

    /// A proving-mode instance carrying the given witness; the batch size is
    /// the witness length.
    pub fn for_proving(witness: Witness) -> (r: Circuit)
        requires
            witness.wf(),
            witness.batch_len() <= usize::MAX / 4,
        ensures
            r.wf(),
            !r.is_setup_mode(),
            r.batch_size_spec() == witness.batch_len(),
            r.prove_values() == (witness.a_seq(), witness.b_seq(), witness.w_seq()),
    {
        let batch_size = witness.len();
        Circuit { batch_size, mode: CircuitMode::Prove(witness) }
    }

    /// The batch size as an executable value.
    pub fn batch_size(&self) -> (r: usize)
        ensures
            r == self.batch_size_spec(),
    {
        self.batch_size
    }

    /// Emits the synthesis plan, consuming the instance. Both modes run the
    /// identical allocation/constraint sequence; they differ only in the
    /// values attached. A missing assignment cannot arise: in proving mode
    /// the witness is total by construction.
    pub fn synthesize(self) -> (r: Vec<SynthesisStep>)
        requires
            self.wf(),
        ensures
            r@ == self.plan(),
    {
        let ghost this = self;
        let Circuit { batch_size, mode } = self;
        let mut steps: Vec<SynthesisStep> = Vec::new();
        for i in 0..batch_size
            invariant
                batch_size == this.batch_size_spec(),
                batch_size <= usize::MAX / 4,
                mode_values(&mode) == this.values(),
                mode_wf(&mode, batch_size as nat),
                steps@ == plan_prefix(this.values(), i as int),
        {
            let (a_value, b_value, w_value) = match &mode {
                CircuitMode::Setup => (Option::None, Option::None, Option::None),
                CircuitMode::Prove(wit) => (
                    Option::Some(wit.a_at(i)),
                    Option::Some(wit.b_at(i)),
                    Option::Some(wit.w_at(i)),
                ),
            };
            push_element_steps(&mut steps, i, a_value, b_value, w_value);
            proof {
                assert(steps@ =~= plan_prefix(this.values(), i + 1));
            }
        }
        steps
    }
}

/// The plan values of a mode, free-standing so loop invariants can speak of
/// a destructured mode.
pub open spec fn mode_values(mode: &CircuitMode) -> PlanValues {
    match mode {
        CircuitMode::Setup => Option::None,
        CircuitMode::Prove(wit) => Option::Some((wit.a_seq(), wit.b_seq(), wit.w_seq())),
    }
}

/// Well-formedness of a mode for batch size `n`.
pub open spec fn mode_wf(mode: &CircuitMode, n: nat) -> bool {
    match mode {
        CircuitMode::Setup => true,
        CircuitMode::Prove(wit) => wit.wf() && wit.batch_len() == n,
    }
}

/// Appends the four steps of batch element `i`, with either the element's
/// concrete values (proving mode) or no values (setup mode).
fn push_element_steps(
    steps: &mut Vec<SynthesisStep>,
    i: usize,
    a_value: Option<u64>,
    b_value: Option<u64>,
    w_value: Option<u64>,
)
    requires
        i < usize::MAX / 4,
    ensures
        final (steps)@ == old(steps)@ + seq![
            SynthesisStep::AllocPrivate { value: a_value },
            SynthesisStep::AllocPrivate { value: b_value },
            SynthesisStep::AllocPublic { value: w_value },
            SynthesisStep::Enforce {
                a: VarRef::Private((2 * i) as usize),
                b: VarRef::Private((2 * i + 1) as usize),
                w: VarRef::Public(i),
            },
        ],
{
    steps.push(SynthesisStep::AllocPrivate { value: a_value });
    steps.push(SynthesisStep::AllocPrivate { value: b_value });
    steps.push(SynthesisStep::AllocPublic { value: w_value });
    steps.push(
        SynthesisStep::Enforce {
            a: VarRef::Private(2 * i),
            b: VarRef::Private(2 * i + 1),
            w: VarRef::Public(i),
        },
    );
    proof {
        assert(final (steps)@ =~= old(steps)@ + seq![
            SynthesisStep::AllocPrivate { value: a_value },
            SynthesisStep::AllocPrivate { value: b_value },
            SynthesisStep::AllocPublic { value: w_value },
            SynthesisStep::Enforce {
                a: VarRef::Private((2 * i) as usize),
                b: VarRef::Private((2 * i + 1) as usize),
                w: VarRef::Public(i),
            },
        ]);
    }
}

} // verus!
