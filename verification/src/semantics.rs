//! What a synthesis plan means: its constraint topology (shape) and, when
//! values are attached, whether the assignment satisfies every constraint.
//! The laws here pin down the circuit encoding: the topology is independent
//! of the witness, and the constraints hold exactly when every claimed
//! product is the true product.

use vstd::prelude::*;
use crate::circuit::Circuit;
use crate::circuit::PlanValues;
use crate::circuit::SynthesisStep;
use crate::circuit::VarRef;
use crate::circuit::element_steps;
use crate::circuit::plan_of;
use crate::circuit::plan_prefix;
use crate::circuit::value_a;
use crate::circuit::value_b;
use crate::circuit::value_w;

verus! {

/// A synthesis step with its value erased: the part of the plan the backend
/// binds positionally, i.e. the constraint topology.
pub enum StepShape {
    PrivateSlot,
    PublicSlot,
    Gate { a: VarRef, b: VarRef, w: VarRef },
}

/// Erases the value of one step.
pub open spec fn shape_of(s: SynthesisStep) -> StepShape {
    match s {
        SynthesisStep::AllocPrivate { value } => StepShape::PrivateSlot,
        SynthesisStep::AllocPublic { value } => StepShape::PublicSlot,
        SynthesisStep::Enforce { a, b, w } => StepShape::Gate { a, b, w },
    }
}

/// The topology of a whole plan.
pub open spec fn shapes(steps: Seq<SynthesisStep>) -> Seq<StepShape> {
    steps.map_values(|s: SynthesisStep| shape_of(s))
}

proof fn lemma_shapes_concat(s: Seq<SynthesisStep>, t: Seq<SynthesisStep>)
    ensures
        shapes(s + t) == shapes(s) + shapes(t),
{
    assert(shapes(s + t) =~= shapes(s) + shapes(t));
}

proof fn lemma_prefix_shapes(vals1: PlanValues, vals2: PlanValues, k: int)
    ensures
        shapes(plan_prefix(vals1, k)) == shapes(plan_prefix(vals2, k)),
    decreases k,
{
    if k <= 0 {
        assert(shapes(plan_prefix(vals1, k)) =~= shapes(plan_prefix(vals2, k)));
    } else {
        lemma_prefix_shapes(vals1, vals2, k - 1);
        lemma_shapes_concat(plan_prefix(vals1, k - 1), element_steps(vals1, k - 1));
        lemma_shapes_concat(plan_prefix(vals2, k - 1), element_steps(vals2, k - 1));
        assert(shapes(element_steps(vals1, k - 1)) =~= shapes(element_steps(vals2, k - 1)));
    }
}

/// Structural equivalence: two circuit instances of the same batch size
/// produce plans of identical topology — the same number and order of
/// allocations and the same constraints — whatever their modes or witnesses.
/// In particular the setup-mode plan and every proving-mode plan agree in
/// shape, which is what lets keys derived from the former check proofs built
/// from the latter.
pub proof fn lemma_structural_equivalence(c1: &Circuit, c2: &Circuit)
    requires
        c1.batch_size_spec() == c2.batch_size_spec(),
    ensures
        shapes(c1.plan()) == shapes(c2.plan()),
{
    lemma_prefix_shapes(c1.values(), c2.values(), c1.batch_size_spec() as int);
}

/// The values of the private allocations of a plan, in allocation order;
/// the `k`-th entry is what the variable `VarRef::Private(k)` holds.
pub open spec fn private_values(steps: Seq<SynthesisStep>) -> Seq<Option<u64>>
    decreases steps.len(),
{
    if steps.len() == 0 {
        Seq::empty()
    } else {
        private_values(steps.drop_last()) + (match steps.last() {
            SynthesisStep::AllocPrivate { value } => seq![value],
            _ => Seq::empty(),
        })
    }
}

/// The values of the public allocations of a plan, in allocation order;
/// the `k`-th entry is what the variable `VarRef::Public(k)` holds. This is
/// the statement the plan discloses.
pub open spec fn public_values(steps: Seq<SynthesisStep>) -> Seq<Option<u64>>
    decreases steps.len(),
{
    if steps.len() == 0 {
        Seq::empty()
    } else {
        public_values(steps.drop_last()) + (match steps.last() {
            SynthesisStep::AllocPublic { value } => seq![value],
            _ => Seq::empty(),
        })
    }
}

/// The value a variable reference resolves to under a plan's allocations,
/// `None` when out of range or unassigned.
pub open spec fn ref_value(steps: Seq<SynthesisStep>, r: VarRef) -> Option<u64> {
    match r {
        VarRef::Private(k) => if (k as int) < private_values(steps).len() {
            private_values(steps)[k as int]
        } else {
            Option::None
        },
        VarRef::Public(k) => if (k as int) < public_values(steps).len() {
            public_values(steps)[k as int]
        } else {
            Option::None
        },
    }
}

/// Whether the `j`-th step holds under the plan's own assignment: a
/// constraint needs all three variables assigned and the product relation
/// true; allocations hold trivially.
pub open spec fn step_satisfied(steps: Seq<SynthesisStep>, j: int) -> bool {
    match steps[j] {
        SynthesisStep::Enforce { a, b, w } => {
            &&& ref_value(steps, a) is Some
            &&& ref_value(steps, b) is Some
            &&& ref_value(steps, w) is Some
            &&& ref_value(steps, a)->Some_0 * ref_value(steps, b)->Some_0 == ref_value(
                steps,
                w,
            )->Some_0
        },
        _ => true,
    }
}

/// Whether every constraint of the plan holds under its own assignment.
pub open spec fn constraints_satisfied(steps: Seq<SynthesisStep>) -> bool {
    forall|j: int| 0 <= j < steps.len() ==> step_satisfied(steps, j)
}

proof fn lemma_values_concat(s: Seq<SynthesisStep>, t: Seq<SynthesisStep>)
    ensures
        private_values(s + t) == private_values(s) + private_values(t),
        public_values(s + t) == public_values(s) + public_values(t),
    decreases t.len(),
{
    if t.len() == 0 {
        assert(s + t =~= s);
        assert(private_values(s) + private_values(t) =~= private_values(s));
        assert(public_values(s) + public_values(t) =~= public_values(s));
    } else {
        lemma_values_concat(s, t.drop_last());
        assert((s + t).drop_last() =~= s + t.drop_last());
        assert(private_values(s + t) =~= private_values(s) + private_values(t));
        assert(public_values(s + t) =~= public_values(s) + public_values(t));
    }
}

proof fn lemma_element_values(vals: PlanValues, i: int)
    ensures
        private_values(element_steps(vals, i)) == seq![value_a(vals, i), value_b(vals, i)],
        public_values(element_steps(vals, i)) == seq![value_w(vals, i)],
{
    reveal_with_fuel(private_values, 5);
    reveal_with_fuel(public_values, 5);
    let e = element_steps(vals, i);
    assert(e.drop_last() =~= seq![e[0], e[1], e[2]]);
    assert(e.drop_last().drop_last() =~= seq![e[0], e[1]]);
    assert(e.drop_last().drop_last().drop_last() =~= seq![e[0]]);
    assert(seq![e[0]].drop_last() =~= Seq::<SynthesisStep>::empty());
    assert(private_values(e) =~= seq![value_a(vals, i), value_b(vals, i)]);
    assert(public_values(e) =~= seq![value_w(vals, i)]);
}

/// The private column a plan of `k` elements allocates: element `i`
/// contributes its `a` value at slot `2i` and its `b` value at slot
/// `2i + 1`.
pub open spec fn plan_private_column(vals: PlanValues, k: int) -> Seq<Option<u64>> {
    Seq::new(
        (2 * k) as nat,
        |t: int| if t % 2 == 0 {
            value_a(vals, t / 2)
        } else {
            value_b(vals, t / 2)
        },
    )
}

/// The public column a plan of `k` elements allocates: slot `i` holds the
/// `w` value of element `i`.
pub open spec fn plan_public_column(vals: PlanValues, k: int) -> Seq<Option<u64>> {
    Seq::new(k as nat, |i: int| value_w(vals, i))
}

/// The allocations of a plan are exactly the two columns above.
pub proof fn lemma_prefix_values(vals: PlanValues, k: int)
    requires
        k >= 0,
    ensures
        private_values(plan_prefix(vals, k)) == plan_private_column(vals, k),
        public_values(plan_prefix(vals, k)) == plan_public_column(vals, k),
    decreases k,
{
    if k == 0 {
        assert(private_values(plan_prefix(vals, k)) =~= plan_private_column(vals, k));
        assert(public_values(plan_prefix(vals, k)) =~= plan_public_column(vals, k));
    } else {
        lemma_prefix_values(vals, k - 1);
        lemma_values_concat(plan_prefix(vals, k - 1), element_steps(vals, k - 1));
        lemma_element_values(vals, k - 1);
        assert(private_values(plan_prefix(vals, k)) =~= plan_private_column(vals, k));
        assert(public_values(plan_prefix(vals, k)) =~= plan_public_column(vals, k));
    }
}

/// The step at each index of a plan of `k` elements: element `i` owns the
/// four steps `4i` to `4i + 3`, ending in its product constraint.
pub proof fn lemma_prefix_steps(vals: PlanValues, k: int)
    requires
        k >= 0,
    ensures
        plan_prefix(vals, k).len() == 4 * k,
        forall|i: int|
            0 <= i < k ==> {
                &&& #[trigger] plan_prefix(vals, k)[4 * i] == (SynthesisStep::AllocPrivate {
                    value: value_a(vals, i),
                })
                &&& plan_prefix(vals, k)[4 * i + 1] == (SynthesisStep::AllocPrivate {
                    value: value_b(vals, i),
                })
                &&& plan_prefix(vals, k)[4 * i + 2] == (SynthesisStep::AllocPublic {
                    value: value_w(vals, i),
                })
                &&& plan_prefix(vals, k)[4 * i + 3] == (SynthesisStep::Enforce {
                    a: VarRef::Private((2 * i) as usize),
                    b: VarRef::Private((2 * i + 1) as usize),
                    w: VarRef::Public(i as usize),
                })
            },
    decreases k,
{
    if k > 0 {
        lemma_prefix_steps(vals, k - 1);
    }
}

/// Encoding faithfulness: a proving-mode plan's constraints hold under its
/// own assignment exactly when every claimed product is the true product.
/// One direction is completeness at the circuit level (a valid witness
/// satisfies the system it is synthesized into); the other is soundness of
/// the encoding (the system accepts no assignment whose products are wrong).
pub proof fn lemma_plan_constraints(n: nat, a: Seq<u64>, b: Seq<u64>, w: Seq<u64>)
    requires
        n <= usize::MAX / 4,
        a.len() == n,
        b.len() == n,
        w.len() == n,
    ensures
        constraints_satisfied(plan_of(n, Option::Some((a, b, w)))) <==> (forall|i: int|
            0 <= i < n ==> a[i] * b[i] == w[i]),
{
    let vals = Option::Some((a, b, w));
    let steps = plan_of(n, vals);
    lemma_prefix_steps(vals, n as int);
    lemma_prefix_values(vals, n as int);
    assert(steps == plan_prefix(vals, n as int));
    if forall|i: int| 0 <= i < n ==> a[i] * b[i] == w[i] {
        assert forall|j: int| 0 <= j < steps.len() implies step_satisfied(steps, j) by {
            let i = j / 4;
            let r = j % 4;
            assert(0 <= i < n && 0 <= r < 4 && j == 4 * i + r);
            assert(steps[4 * i] == (SynthesisStep::AllocPrivate { value: value_a(vals, i) }));
            if r == 3 {
                assert(steps[j] == steps[4 * i + 3]);
                assert(private_values(steps)[2 * i] == value_a(vals, i));
                assert(private_values(steps)[2 * i + 1] == value_b(vals, i));
                assert(public_values(steps)[i] == value_w(vals, i));
                assert(ref_value(steps, VarRef::Private((2 * i) as usize)) == value_a(vals, i));
                assert(ref_value(steps, VarRef::Private((2 * i + 1) as usize)) == value_b(
                    vals,
                    i,
                ));
                assert(ref_value(steps, VarRef::Public(i as usize)) == value_w(vals, i));
                assert(a[i] * b[i] == w[i]);
            } else if r == 0 {
                assert(steps[j] == steps[4 * i]);
                assert(!(steps[j] is Enforce));
            } else if r == 1 {
                assert(steps[j] == steps[4 * i + 1]);
                assert(!(steps[j] is Enforce));
            } else {
                assert(steps[j] == steps[4 * i + 2]);
                assert(!(steps[j] is Enforce));
            }
        }
    }
    if constraints_satisfied(steps) {
        assert forall|i: int| 0 <= i < n implies a[i] * b[i] == w[i] by {
            assert(steps[4 * i] == (SynthesisStep::AllocPrivate { value: value_a(vals, i) }));
            assert(step_satisfied(steps, 4 * i + 3));
            assert(steps[4 * i + 3] == (SynthesisStep::Enforce {
                a: VarRef::Private((2 * i) as usize),
                b: VarRef::Private((2 * i + 1) as usize),
                w: VarRef::Public(i as usize),
            }));
            assert(private_values(steps)[2 * i] == value_a(vals, i));
            assert(private_values(steps)[2 * i + 1] == value_b(vals, i));
            assert(public_values(steps)[i] == value_w(vals, i));
            assert(ref_value(steps, VarRef::Private((2 * i) as usize)) == value_a(vals, i));
            assert(ref_value(steps, VarRef::Private((2 * i + 1) as usize)) == value_b(vals, i));
            assert(ref_value(steps, VarRef::Public(i as usize)) == value_w(vals, i));
        }
    }
}

/// The statement a proving-mode plan discloses is exactly the `w` column,
/// element for element and in order: the verifier's public inputs are the
/// claimed products and nothing else.
pub proof fn lemma_plan_statement(n: nat, a: Seq<u64>, b: Seq<u64>, w: Seq<u64>)
    requires
        a.len() == n,
        b.len() == n,
        w.len() == n,
    ensures
        public_values(plan_of(n, Option::Some((a, b, w)))) == w.map_values(
            |x: u64| Option::Some(x),
        ),
{
    let vals = Option::Some((a, b, w));
    lemma_prefix_values(vals, n as int);
    assert(plan_public_column(vals, n as int) =~= w.map_values(|x: u64| Option::Some(x)));
}

/// Whether a step carries no value: what every allocation of a setup-mode
/// plan must look like.
pub open spec fn step_unassigned(s: SynthesisStep) -> bool {
    match s {
        SynthesisStep::AllocPrivate { value } => value is None,
        SynthesisStep::AllocPublic { value } => value is None,
        SynthesisStep::Enforce { a, b, w } => true,
    }
}

/// Whether a step carries a value wherever one can be attached: what every
/// allocation of a proving-mode plan must look like.
pub open spec fn step_assigned(s: SynthesisStep) -> bool {
    match s {
        SynthesisStep::AllocPrivate { value } => value is Some,
        SynthesisStep::AllocPublic { value } => value is Some,
        SynthesisStep::Enforce { a, b, w } => true,
    }
}

proof fn lemma_plan_assignment_discipline(vals: PlanValues, n: nat)
    requires
        n <= usize::MAX / 4,
    ensures
        vals is None ==> forall|j: int|
            0 <= j < plan_of(n, vals).len() ==> #[trigger] step_unassigned(plan_of(n, vals)[j]),
        vals is Some ==> forall|j: int|
            0 <= j < plan_of(n, vals).len() ==> #[trigger] step_assigned(plan_of(n, vals)[j]),
{
    let steps = plan_of(n, vals);
    lemma_prefix_steps(vals, n as int);
    assert(steps == plan_prefix(vals, n as int));
    if vals is None {
        assert forall|j: int| 0 <= j < steps.len() implies #[trigger] step_unassigned(
            steps[j],
        ) by {
            let i = j / 4;
            let r = j % 4;
            assert(0 <= i < n && 0 <= r < 4 && j == 4 * i + r);
            assert(steps[4 * i] == (SynthesisStep::AllocPrivate { value: value_a(vals, i) }));
            if r == 0 {
                assert(steps[j] == steps[4 * i]);
            } else if r == 1 {
                assert(steps[j] == steps[4 * i + 1]);
            } else if r == 2 {
                assert(steps[j] == steps[4 * i + 2]);
            } else {
                assert(steps[j] == steps[4 * i + 3]);
            }
        }
    }
    if vals is Some {
        assert forall|j: int| 0 <= j < steps.len() implies #[trigger] step_assigned(steps[j]) by {
            let i = j / 4;
            let r = j % 4;
            assert(0 <= i < n && 0 <= r < 4 && j == 4 * i + r);
            assert(steps[4 * i] == (SynthesisStep::AllocPrivate { value: value_a(vals, i) }));
            if r == 0 {
                assert(steps[j] == steps[4 * i]);
            } else if r == 1 {
                assert(steps[j] == steps[4 * i + 1]);
            } else if r == 2 {
                assert(steps[j] == steps[4 * i + 2]);
            } else {
                assert(steps[j] == steps[4 * i + 3]);
            }
        }
    }
}

/// Setup mode attaches no values: every allocation of a setup-mode plan is
/// unassigned, so nothing of any witness can reach the key-generation run.
pub proof fn lemma_setup_plan_unassigned(c: &Circuit)
    requires
        c.wf(),
        c.is_setup_mode(),
    ensures
        forall|j: int| 0 <= j < c.plan().len() ==> #[trigger] step_unassigned(c.plan()[j]),
{
    c.lemma_wf_consequences();
    lemma_plan_assignment_discipline(c.values(), c.batch_size_spec());
}

/// Proving mode attaches every value: no allocation of a well-formed
/// proving-mode plan is missing its assignment, so the backend's
/// missing-assignment fault cannot arise from a circuit this library built.
pub proof fn lemma_proving_plan_fully_assigned(c: &Circuit)
    requires
        c.wf(),
        !c.is_setup_mode(),
    ensures
        forall|j: int| 0 <= j < c.plan().len() ==> #[trigger] step_assigned(c.plan()[j]),
{
    c.lemma_wf_consequences();
    lemma_plan_assignment_discipline(c.values(), c.batch_size_spec());
}

/// Circuit-level completeness: a well-formed proving instance synthesizes a
/// plan whose every constraint holds under the witness it carries. Together
/// with [`lemma_structural_equivalence`] this is why an honest prover's
/// proof is accepted against keys from a setup of the same batch size.
pub proof fn lemma_proving_plan_satisfied(c: &Circuit)
    requires
        c.wf(),
        !c.is_setup_mode(),
    ensures
        constraints_satisfied(c.plan()),
{
    c.lemma_wf_consequences();
    let (a, b, w) = c.prove_values();
    lemma_plan_constraints(c.batch_size_spec(), a, b, w);
}

/// The public inputs a proving instance binds are exactly its witness's
/// product column, in order: verification succeeds only against that
/// statement.
pub proof fn lemma_proving_plan_statement(c: &Circuit)
    requires
        c.wf(),
        !c.is_setup_mode(),
    ensures
        public_values(c.plan()) == c.prove_values().2.map_values(|x: u64| Option::Some(x)),
{
    c.lemma_wf_consequences();
    let (a, b, w) = c.prove_values();
    lemma_plan_statement(c.batch_size_spec(), a, b, w);
}

} // verus!
