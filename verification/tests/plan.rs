use batch_multiply::circuit::Circuit;
use batch_multiply::circuit::SynthesisStep;
use batch_multiply::circuit::VarRef;
use batch_multiply::witness::Witness;
use batch_multiply::witness::WitnessError;

#[test]
fn witness_accepts_valid_batch() {
    let w = Witness::new(vec![2, 3, 4], vec![5, 6, 7], vec![10, 18, 28]).unwrap();
    assert_eq!(w.len(), 3);
    assert_eq!(w.statement(), vec![10, 18, 28]);
}

#[test]
fn witness_rejects_length_mismatch() {
    let r = Witness::new(vec![1, 2], vec![3], vec![3, 0]);
    assert_eq!(r.err(), Some(WitnessError::LengthMismatch));
}

#[test]
fn witness_rejects_empty_batch() {
    let r = Witness::new(vec![], vec![], vec![]);
    assert_eq!(r.err(), Some(WitnessError::EmptyBatch));
}

#[test]
fn witness_rejects_wrong_product() {
    let r = Witness::new(vec![2], vec![5], vec![11]);
    assert_eq!(r.err(), Some(WitnessError::ProductMismatch));
}

#[test]
fn witness_rejects_overflowing_product() {
    let r = Witness::new(vec![u64::MAX], vec![2], vec![0]);
    assert_eq!(r.err(), Some(WitnessError::ProductMismatch));
}

#[test]
fn witness_exposes_elements() {
    let w = Witness::new(vec![9, 4], vec![8, 6], vec![72, 24]).unwrap();
    assert_eq!(w.a_at(0), 9);
    assert_eq!(w.b_at(1), 6);
    assert_eq!(w.w_at(1), 24);
}

#[test]
fn setup_plan_has_expected_steps() {
    let steps = Circuit::for_setup(2).synthesize();
    let expected = vec![
        SynthesisStep::AllocPrivate { value: None },
        SynthesisStep::AllocPrivate { value: None },
        SynthesisStep::AllocPublic { value: None },
        SynthesisStep::Enforce {
            a: VarRef::Private(0),
            b: VarRef::Private(1),
            w: VarRef::Public(0),
        },
        SynthesisStep::AllocPrivate { value: None },
        SynthesisStep::AllocPrivate { value: None },
        SynthesisStep::AllocPublic { value: None },
        SynthesisStep::Enforce {
            a: VarRef::Private(2),
            b: VarRef::Private(3),
            w: VarRef::Public(1),
        },
    ];
    assert_eq!(steps, expected);
}

#[test]
fn proving_plan_carries_witness_values() {
    let witness = Witness::new(vec![2], vec![5], vec![10]).unwrap();
    let steps = Circuit::for_proving(witness).synthesize();
    let expected = vec![
        SynthesisStep::AllocPrivate { value: Some(2) },
        SynthesisStep::AllocPrivate { value: Some(5) },
        SynthesisStep::AllocPublic { value: Some(10) },
        SynthesisStep::Enforce {
            a: VarRef::Private(0),
            b: VarRef::Private(1),
            w: VarRef::Public(0),
        },
    ];
    assert_eq!(steps, expected);
}

#[test]
fn proving_plan_matches_setup_topology() {
    let setup_steps = Circuit::for_setup(3).synthesize();
    let witness = Witness::new(vec![2, 3, 4], vec![5, 6, 7], vec![10, 18, 28]).unwrap();
    let proving_steps = Circuit::for_proving(witness).synthesize();
    assert_eq!(setup_steps.len(), proving_steps.len());
    for (s, p) in setup_steps.iter().zip(proving_steps.iter()) {
        match (s, p) {
            (
                SynthesisStep::AllocPrivate { value: None },
                SynthesisStep::AllocPrivate { value: Some(_) },
            ) => {}
            (
                SynthesisStep::AllocPublic { value: None },
                SynthesisStep::AllocPublic { value: Some(_) },
            ) => {}
            (SynthesisStep::Enforce { a, b, w }, SynthesisStep::Enforce { a: pa, b: pb, w: pw }) => {
                assert_eq!(a, pa);
                assert_eq!(b, pb);
                assert_eq!(w, pw);
            }
            _ => panic!("setup-mode and proving-mode plans differ in topology"),
        }
    }
}

#[test]
fn circuit_reports_batch_size() {
    let c = Circuit::for_setup(5);
    assert_eq!(c.batch_size(), 5);
    let witness = Witness::new(vec![1, 2], vec![1, 2], vec![1, 4]).unwrap();
    assert_eq!(Circuit::for_proving(witness).batch_size(), 2);
}
