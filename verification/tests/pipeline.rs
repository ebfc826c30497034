use batch_multiply::backend::prepare_verifying_key;
use batch_multiply::backend::PreparedVerifyingKey;
use batch_multiply::backend::Proof;
use batch_multiply::backend::VerifyError;
use batch_multiply::backend::VerifyingKey;
use batch_multiply::circuit::Circuit;
use batch_multiply::circuit::SynthesisStep;
use batch_multiply::circuit::VarRef;
use batch_multiply::verification::verify;
use batch_multiply::witness::Witness;

use bellman::groth16::create_random_proof;
use bellman::groth16::generate_random_parameters;
use bellman::groth16::Parameters;
use bellman::ConstraintSystem;
use bellman::SynthesisError;
use bellman::Variable;
use bls12_381::Bls12;
use ff::PrimeField;
use rand::rngs::OsRng;

/// Replays a synthesis plan from the library against the backend's
/// constraint-system interface, step by step and in order.
struct PlanCircuit {
    steps: Vec<SynthesisStep>,
}

fn var_at(private_vars: &[Variable], public_vars: &[Variable], r: VarRef) -> Variable {
    match r {
        VarRef::Private(k) => private_vars[k],
        VarRef::Public(k) => public_vars[k],
    }
}

impl<S: PrimeField> bellman::Circuit<S> for PlanCircuit {
    fn synthesize<CS: ConstraintSystem<S>>(self, cs: &mut CS) -> Result<(), SynthesisError> {
        let mut private_vars: Vec<Variable> = Vec::new();
        let mut public_vars: Vec<Variable> = Vec::new();
        for step in self.steps {
            match step {
                SynthesisStep::AllocPrivate { value } => {
                    let v = cs.alloc(
                        || "a",
                        || value.map(S::from).ok_or(SynthesisError::AssignmentMissing),
                    )?;
                    private_vars.push(v);
                }
                SynthesisStep::AllocPublic { value } => {
                    let v = cs.alloc_input(
                        || "w",
                        || value.map(S::from).ok_or(SynthesisError::AssignmentMissing),
                    )?;
                    public_vars.push(v);
                }
                SynthesisStep::Enforce { a, b, w } => {
                    let va = var_at(&private_vars, &public_vars, a);
                    let vb = var_at(&private_vars, &public_vars, b);
                    let vw = var_at(&private_vars, &public_vars, w);
                    cs.enforce(|| "mult", |lc| lc + va, |lc| lc + vb, |lc| lc + vw);
                }
            }
        }
        Ok(())
    }
}

fn setup(n: usize) -> Parameters<Bls12> {
    let circuit = PlanCircuit { steps: Circuit::for_setup(n).synthesize() };
    generate_random_parameters::<Bls12, _, _>(circuit, &mut OsRng).unwrap()
}

fn prove(witness: Witness, params: &Parameters<Bls12>) -> Proof {
    let circuit = PlanCircuit { steps: Circuit::for_proving(witness).synthesize() };
    Proof { inner: create_random_proof(circuit, params, &mut OsRng).unwrap() }
}

fn prepared(params: &Parameters<Bls12>) -> PreparedVerifyingKey {
    prepare_verifying_key(&VerifyingKey { inner: params.vk.clone() })
}

#[test]
fn linearity_scenario_accepts_and_rejects_perturbed() {
    let params = setup(3);
    let pvk = prepared(&params);
    let witness = Witness::new(vec![2, 3, 4], vec![5, 6, 7], vec![10, 18, 28]).unwrap();
    let statement = witness.statement();
    let proof = prove(witness, &params);
    assert!(verify(&pvk, &proof, &statement).is_ok());
    let perturbed = vec![10, 18, 29];
    assert_eq!(verify(&pvk, &proof, &perturbed).err(), Some(VerifyError::InvalidProof));
}

#[test]
fn zero_scenario_accepts_and_rejects_wrong_product() {
    let params = setup(1);
    let pvk = prepared(&params);
    let witness = Witness::new(vec![0], vec![7], vec![0]).unwrap();
    let statement = witness.statement();
    let proof = prove(witness, &params);
    assert!(verify(&pvk, &proof, &statement).is_ok());
    let wrong = vec![1];
    assert_eq!(verify(&pvk, &proof, &wrong).err(), Some(VerifyError::InvalidProof));
}

#[test]
fn completeness_small_batches() {
    let params = setup(1);
    let pvk = prepared(&params);
    let witness = Witness::new(vec![1], vec![1], vec![1]).unwrap();
    let statement = witness.statement();
    let proof = prove(witness, &params);
    assert!(verify(&pvk, &proof, &statement).is_ok());

    let params2 = setup(2);
    let pvk2 = prepared(&params2);
    let witness2 = Witness::new(
        vec![255, 1_000_000],
        vec![255, 1_000_000],
        vec![65_025, 1_000_000_000_000],
    )
    .unwrap();
    let statement2 = witness2.statement();
    let proof2 = prove(witness2, &params2);
    assert!(verify(&pvk2, &proof2, &statement2).is_ok());
}

#[test]
fn soundness_single_element_perturbation() {
    let params = setup(3);
    let pvk = prepared(&params);
    let witness = Witness::new(vec![3, 5, 7], vec![11, 13, 17], vec![33, 65, 119]).unwrap();
    let statement = witness.statement();
    let proof = prove(witness, &params);
    assert!(verify(&pvk, &proof, &statement).is_ok());
    for idx in 0..3 {
        let mut perturbed = statement.clone();
        perturbed[idx] += 1;
        assert_eq!(verify(&pvk, &proof, &perturbed).err(), Some(VerifyError::InvalidProof));
    }
}

#[test]
fn key_pair_binding() {
    let params_one = setup(1);
    let params_other = setup(1);
    let witness = Witness::new(vec![2], vec![3], vec![6]).unwrap();
    let statement = witness.statement();
    let proof = prove(witness, &params_one);
    assert!(verify(&prepared(&params_one), &proof, &statement).is_ok());
    assert_eq!(
        verify(&prepared(&params_other), &proof, &statement).err(),
        Some(VerifyError::InvalidProof)
    );
}

#[test]
fn statement_length_mismatch_is_malformed_input() {
    let params = setup(1);
    let pvk = prepared(&params);
    let witness = Witness::new(vec![2], vec![3], vec![6]).unwrap();
    let proof = prove(witness, &params);
    let too_long = vec![6, 6];
    assert_eq!(verify(&pvk, &proof, &too_long).err(), Some(VerifyError::InvalidVerifyingKey));
}
