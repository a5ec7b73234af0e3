//! Proving and verifying Fibonacci computations over BabyBear, with a FRI
//! commitment scheme on Poseidon2 Merkle trees and a duplex transcript.
//!
//! The library evaluates the constraints itself before it hands a trace to
//! the prover, so a trace that breaks them is reported and never proved.

use crate::air::{ConstraintViolation, FibonacciAir, NUM_FIBONACCI_COLS};
use crate::field::TraceField;
use crate::matrix::{TraceMatrix, TraceShapeError, MAX_TRACE_HEIGHT};
use crate::power::{is_power_of_two, is_power_of_two_usize};
use crate::trace::{
    fibonacci_row, fibonacci_trace, fibonacci_trace_over, lemma_fibonacci_row_canonical,
};
use p3_baby_bear::{BabyBear, Poseidon2BabyBear};
use p3_challenger::DuplexChallenger;
use p3_commit::ExtensionMmcs;
use p3_dft::Radix2DitParallel;
use p3_field::extension::BinomialExtensionField;
use p3_field::{Field, PrimeCharacteristicRing};
use p3_fri::{FriParameters, TwoAdicFriPcs};
use p3_matrix::dense::RowMajorMatrix;
use p3_merkle_tree::MerkleTreeMmcs;
use p3_symmetric::{PaddingFreeSponge, TruncatedPermutation};
use p3_uni_stark::{prove, verify, Proof, StarkConfig, VerificationError};
use rand::rngs::SmallRng;
use rand::SeedableRng;
use vstd::prelude::*;

verus! {

/// The base field.
pub type Val = BabyBear;

/// The Poseidon2 permutation of width 16 over the base field.
pub type Perm = Poseidon2BabyBear<16>;

/// The sponge that hashes the leaves of a Merkle tree.
pub type MyHash = PaddingFreeSponge<Perm, 16, 8, 8>;

/// The function that compresses two digests into their parent.
pub type MyCompress = TruncatedPermutation<Perm, 2, 8, 16>;

/// The Merkle commitment scheme for matrices over the base field.
pub type ValMmcs = MerkleTreeMmcs<<Val as Field>::Packing, <Val as Field>::Packing, MyHash, MyCompress, 2, 8>;

/// The field that challenges are drawn from.
pub type Challenge = BinomialExtensionField<Val, 4>;

/// The Merkle commitment scheme for matrices over the challenge field.
pub type ChallengeMmcs = ExtensionMmcs<Val, Challenge, ValMmcs>;

/// The Fiat-Shamir transcript.
pub type Challenger = DuplexChallenger<Val, Perm, 16, 8>;

/// The discrete Fourier transform.
pub type Dft = Radix2DitParallel<Val>;

/// The polynomial commitment scheme.
pub type Pcs = TwoAdicFriPcs<Val, Dft, ValMmcs, ChallengeMmcs>;

/// The outside part of a configuration. It holds a `StarkConfig` of
/// `p3_uni_stark`, whose parts are outside types that depend on the machine.
#[verifier::external_body]
pub struct StarkSetup {
    inner: StarkConfig<Pcs, Challenge, Challenger>,
}

/// The outside part of a proof. It holds a `Proof` of `p3_uni_stark`.
#[verifier::external_body]
pub struct StarkProof {
    inner: Proof<StarkConfig<Pcs, Challenge, Challenger>>,
}

/// A STARK configuration for Fibonacci proofs: the two parameters that it
/// was built from, and the outside configuration built from them.
pub struct FibonacciConfig {
    log_final_poly_len: usize,
    seed: u64,
    setup: StarkSetup,
}

impl FibonacciConfig {
    /// The binary logarithm of the length at which FRI folding stops.
    pub closed spec fn final_poly_len_log(&self) -> usize {
        self.log_final_poly_len
    }

    /// The seed of the generator that the Poseidon2 constants were drawn
    /// from.
    pub closed spec fn seed_value(&self) -> u64 {
        self.seed
    }

    /// The binary logarithm of the length at which FRI folding stops.
    pub fn log_final_poly_len(&self) -> (n: usize)
        ensures
            n == self.final_poly_len_log(),
    {
        self.log_final_poly_len
    }

    /// The seed of the generator that the Poseidon2 constants were drawn
    /// from.
    pub fn seed(&self) -> (s: u64)
        ensures
            s == self.seed_value(),
    {
        self.seed
    }
}

/// A proof of a Fibonacci computation, together with its bytes: the only
/// form that a proof has outside this process. The bytes are made when the
/// proof is, with little-endian integers of fixed width.
pub struct FibonacciProof {
    proof: StarkProof,
    bytes: Vec<u8>,
}

impl View for FibonacciProof {
    type V = Seq<u8>;

    /// The bytes of the proof.
    closed spec fn view(&self) -> Seq<u8> {
        self.bytes@
    }
}

/// Why the verifier rejected a proof.
#[derive(Clone, Copy, Debug, PartialEq, Eq, Structural)]
pub enum VerificationFailure {
    InvalidProofShape,
    PeriodicColumn,
    InvalidOpeningArgument,
    OodEvaluationMismatch,
    RandomizationError,
    NextPointUnavailable,
    OodPointInDomain,
    InvalidOodPowWitness,
}

/// Why a computation could not be proved, or its proof not verified.
#[derive(Clone, Copy, Debug, PartialEq, Eq, Structural)]
pub enum ProofError {
    /// The trace cannot be the trace of the constraint system.
    TraceShape(TraceShapeError),
    /// The trace breaks a constraint.
    ConstraintViolation(ConstraintViolation),
    /// The commitment scheme failed while proving.
    Proving,
    /// The verifier rejected the proof.
    Verification(VerificationFailure),
    /// The bytes of a proof could not be produced.
    Serialization,
}

/// Calls the constructors of the parts of a configuration,
/// `FriParameters::new_testing` and `StarkConfig::new`. The Poseidon2
/// constants are drawn from a `SmallRng` seeded with `seed`, a generator
/// that differs from machine to machine. Nothing is claimed of the result.
#[verifier::external_body]
fn build_setup(log_final_poly_len: usize, seed: u64) -> (setup: StarkSetup)
    requires
        log_final_poly_len < usize::BITS,
{
    let mut rng = SmallRng::seed_from_u64(seed);
    let perm = Perm::new_from_rng_128(&mut rng);
    let val_mmcs = ValMmcs::new(MyHash::new(perm.clone()), MyCompress::new(perm.clone()), 0);
    let challenge_mmcs = ChallengeMmcs::new(val_mmcs.clone());
    let fri_params = FriParameters::new_testing(challenge_mmcs, log_final_poly_len);
    let pcs = Pcs::new(Dft::default(), val_mmcs, fri_params);
    StarkSetup { inner: StarkConfig::new(pcs, Challenger::new(perm)) }
}

/// Builds a configuration whose FRI folding stops at polynomials of length
/// `2^log_final_poly_len`, and whose Poseidon2 constants are drawn from a
/// generator seeded with `seed`. With a final length above 1, the prover
/// turns down traces of height `2^log_final_poly_len` or less. The final
/// length must fit in a machine word.
pub fn create_custom_fibonacci_config(log_final_poly_len: usize, seed: u64) -> (config:
    FibonacciConfig)
    requires
        log_final_poly_len < usize::BITS,
    ensures
        config.final_poly_len_log() == log_final_poly_len,
        config.seed_value() == seed,
{
    FibonacciConfig { log_final_poly_len, seed, setup: build_setup(log_final_poly_len, seed) }
}

/// The binary logarithm of the final polynomial's length in the default
/// configuration. FRI folds down to a constant, so that a trace of any
/// height can be proved.
pub const DEFAULT_LOG_FINAL_POLY_LEN: usize = 0;

/// The seed of the default configuration.
pub const DEFAULT_SEED: u64 = 42;

/// Builds the default configuration: the one whose folding stops at a
/// constant and whose seed is 42.
pub fn create_fibonacci_config() -> (config: FibonacciConfig)
    ensures
        config.final_poly_len_log() == DEFAULT_LOG_FINAL_POLY_LEN,
        config.seed_value() == DEFAULT_SEED,
{
    create_custom_fibonacci_config(DEFAULT_LOG_FINAL_POLY_LEN, DEFAULT_SEED)
}

/// Calls `p3_uni_stark::prove` with the Fibonacci constraint system. Cells
/// and public values go in through `BabyBear::from_u64`. The trace must
/// satisfy the constraints and have a power-of-two height of at most
/// `MAX_TRACE_HEIGHT`, or the call may panic. `None` stands for an error of the commitment scheme. Nothing is
/// claimed of the proof.
#[verifier::external_body]
fn stark_prove(config: &FibonacciConfig, trace: &TraceMatrix, public_values: &Vec<u64>) -> (proof:
    Option<StarkProof>)
    requires
        trace.wf(),
        trace.width == NUM_FIBONACCI_COLS,
        is_power_of_two(trace@.len()),
        trace@.len() <= MAX_TRACE_HEIGHT,
        public_values@.len() == 3,
        FibonacciAir::satisfied(TraceField::BabyBear.modulus(), trace@, public_values@),
{
    let cells = trace.rows.iter().flatten().map(|x| BabyBear::from_u64(*x)).collect();
    let pis: Vec<BabyBear> = public_values.iter().map(|x| BabyBear::from_u64(*x)).collect();
    let matrix = RowMajorMatrix::new(cells, NUM_FIBONACCI_COLS);
    let proved = prove(&config.setup.inner, &FibonacciAir {  }, matrix, &pis);
    proved.ok().map(|inner| StarkProof { inner })
}

/// Calls `p3_uni_stark::verify` with the Fibonacci constraint system and
/// names the variant of its error. Public values go in through
/// `BabyBear::from_u64`. Nothing is claimed of the verdict.
#[verifier::external_body]
fn stark_verify(config: &FibonacciConfig, proof: &FibonacciProof, public_values: &Vec<u64>) -> (verdict:
    Result<(), VerificationFailure>) {
    let pis: Vec<BabyBear> = public_values.iter().map(|x| BabyBear::from_u64(*x)).collect();
    match verify(&config.setup.inner, &FibonacciAir {  }, &proof.proof.inner, &pis) {
        Ok(()) => Ok(()),
        Err(VerificationError::InvalidProofShape(_)) => Err(VerificationFailure::InvalidProofShape),
        Err(VerificationError::PeriodicColumn(_)) => Err(VerificationFailure::PeriodicColumn),
        Err(VerificationError::InvalidOpeningArgument(_)) => Err(VerificationFailure::InvalidOpeningArgument),
        Err(VerificationError::OodEvaluationMismatch { .. }) => Err(VerificationFailure::OodEvaluationMismatch),
        Err(VerificationError::RandomizationError) => Err(VerificationFailure::RandomizationError),
        Err(VerificationError::NextPointUnavailable) => Err(VerificationFailure::NextPointUnavailable),
        Err(VerificationError::OodPointInDomain) => Err(VerificationFailure::OodPointInDomain),
        Err(VerificationError::InvalidOodPowWitness) => Err(VerificationFailure::InvalidOodPowWitness),
    }
}

/// Calls `bincode::serde::encode_to_vec` on the outside proof, with
/// bincode's standard configuration set to little-endian integers of fixed
/// width. `None` stands for bincode's error. Nothing is claimed of the bytes.
#[verifier::external_body]
fn encode_proof(proof: &StarkProof) -> (bytes: Option<Vec<u8>>) {
    let config = bincode::config::standard().with_little_endian().with_fixed_int_encoding();
    bincode::serde::encode_to_vec(&proof.inner, config).ok()
}

/// What a caller is told for the outcome of the encoder: the bytes, or
/// `Serialization` where there are none.
pub fn serialization_outcome(encoded: Option<Vec<u8>>) -> (result: Result<Vec<u8>, ProofError>)
    ensures
        result == match encoded {
            Some(bytes) => Ok::<Vec<u8>, ProofError>(bytes),
            None => Err(ProofError::Serialization),
        },
{
    match encoded {
        Some(bytes) => Ok(bytes),
        None => Err(ProofError::Serialization),
    }
}

/// The bytes of a proof: its only form outside this process. Integers are
/// little-endian and of fixed width.
pub fn proof_bytes(proof: &FibonacciProof) -> (result: Result<Vec<u8>, ProofError>)
    ensures
        result is Ok,
        result->Ok_0@ == proof@,
{
    let mut bytes: Vec<u8> = Vec::new();
    let mut i: usize = 0;
    while i < proof.bytes.len()
        invariant
            i <= proof.bytes@.len(),
            bytes@ == proof.bytes@.take(i as int),
        decreases proof.bytes@.len() - i,
    {
        bytes.push(proof.bytes[i]);
        assert(bytes@ =~= proof.bytes@.take(i + 1));
        i = i + 1;
    }
    assert(proof.bytes@.take(i as int) =~= proof.bytes@);
    Ok(bytes)
}

/// The number of bytes of a proof.
pub fn report_proof_size(proof: &FibonacciProof) -> (result: Result<usize, ProofError>)
    ensures
        result == Ok::<usize, ProofError>(proof@.len() as usize),
{
    Ok(proof.bytes.len())
}

/// The public values of the statement that the sequence from `(a, b)` ends
/// in `x`: the three numbers as elements of the field, each held as its
/// canonical representative.
pub open spec fn fibonacci_public_values(a: u64, b: u64, x: u64) -> Seq<u64> {
    seq![
        (a as nat % TraceField::BabyBear.modulus()) as u64,
        (b as nat % TraceField::BabyBear.modulus()) as u64,
        (x as nat % TraceField::BabyBear.modulus()) as u64,
    ]
}

/// Builds the public values that the prover and the verifier are handed
/// for the statement that the sequence from `(start_a, start_b)` ends in
/// `expected_result`.
pub fn public_values_of(start_a: u64, start_b: u64, expected_result: u64) -> (values: Vec<u64>)
    ensures
        values@ == fibonacci_public_values(start_a, start_b, expected_result),
{
    let field = TraceField::BabyBear;
    let values: Vec<u64> = vec![
        field.from_u64(start_a),
        field.from_u64(start_b),
        field.from_u64(expected_result),
    ];
    assert(values@ =~= fibonacci_public_values(start_a, start_b, expected_result));
    values
}

/// What the library itself finds wrong with the statement that `num_steps`
/// rows from `(a, b)` end in `x`: a height that is no power of two, or one
/// above `MAX_TRACE_HEIGHT`; or a last row whose right cell is not `x` in
/// the field. The first row is the public start whatever the start is.
pub open spec fn fibonacci_statement_error(a: u64, b: u64, num_steps: usize, x: u64) -> Option<
    ProofError,
> {
    let p = TraceField::BabyBear.modulus();
    if !is_power_of_two(num_steps as nat) {
        Some(ProofError::TraceShape(TraceShapeError::HeightNotPowerOfTwo { height: num_steps }))
    } else if num_steps > MAX_TRACE_HEIGHT {
        Some(
            ProofError::TraceShape(
                TraceShapeError::HeightTooLarge { height: num_steps, max: MAX_TRACE_HEIGHT },
            ),
        )
    } else if x as nat % p != fibonacci_row(p, a as nat, b as nat, (num_steps - 1) as nat).1 {
        Some(
            ProofError::ConstraintViolation(ConstraintViolation { row: (num_steps - 1) as usize }),
        )
    } else {
        None
    }
}

/// A true statement has no error of its own: for any start and any height
/// that is a power of two up to `MAX_TRACE_HEIGHT`, the statement that the
/// sequence ends in the right cell of its last row is handed to the outside
/// prover.
pub proof fn lemma_true_statement_has_no_error(a: u64, b: u64, num_steps: usize)
    requires
        is_power_of_two(num_steps as nat),
        num_steps <= MAX_TRACE_HEIGHT,
    ensures
        fibonacci_statement_error(
            a,
            b,
            num_steps,
            fibonacci_row(
                TraceField::BabyBear.modulus(),
                a as nat,
                b as nat,
                (num_steps - 1) as nat,
            ).1 as u64,
        ) is None,
{
    let p = TraceField::BabyBear.modulus();
    crate::power::lemma_power_of_two_positive(num_steps as nat);
    lemma_fibonacci_row_canonical(p, a as nat, b as nat, (num_steps - 1) as nat);
    let x = fibonacci_row(p, a as nat, b as nat, (num_steps - 1) as nat).1;
    vstd::arithmetic::div_mod::lemma_small_mod(x, p);
}

/// A false statement is never handed to the outside prover: whenever the
/// claimed result differs, in the field, from the right cell of the last
/// row, the statement has an error of its own.
pub proof fn lemma_false_statement_is_refused(a: u64, b: u64, num_steps: usize, x: u64)
    requires
        x as nat % TraceField::BabyBear.modulus() != fibonacci_row(
            TraceField::BabyBear.modulus(),
            a as nat,
            b as nat,
            (num_steps - 1) as nat,
        ).1,
    ensures
        fibonacci_statement_error(a, b, num_steps, x) is Some,
{
}

/// The statement's own errors, read off the constraint system: for a
/// height from 1 on, the Fibonacci trace from `(a, b)` satisfies the system
/// with the statement's public values exactly when `x` is, in the field, the
/// right cell of the last row; and a trace that does not breaks the system
/// in its last row only.
pub proof fn lemma_statement_and_constraints(a: u64, b: u64, num_steps: nat, x: u64, i: int)
    requires
        0 <= i < num_steps,
    ensures
        FibonacciAir::row_holds(
            TraceField::BabyBear.modulus(),
            fibonacci_trace(TraceField::BabyBear.modulus(), a as nat, b as nat, num_steps),
            fibonacci_public_values(a, b, x),
            i,
        ) <==> (i == num_steps - 1 ==> x as nat % TraceField::BabyBear.modulus() == fibonacci_row(
            TraceField::BabyBear.modulus(),
            a as nat,
            b as nat,
            (num_steps - 1) as nat,
        ).1),
{
    let p = TraceField::BabyBear.modulus();
    let trace = fibonacci_trace(p, a as nat, b as nat, num_steps);
    let public_values = fibonacci_public_values(a, b, x);
    lemma_fibonacci_trace_row_holds(p, a as nat, b as nat, num_steps, public_values, i);
    lemma_fibonacci_row_canonical(p, a as nat, b as nat, 0);
    lemma_fibonacci_row_canonical(p, a as nat, b as nat, (num_steps - 1) as nat);
    let last = fibonacci_row(p, a as nat, b as nat, (num_steps - 1) as nat);
    vstd::arithmetic::div_mod::lemma_mod_twice(a as int, p as int);
    vstd::arithmetic::div_mod::lemma_mod_twice(b as int, p as int);
    vstd::arithmetic::div_mod::lemma_mod_twice(x as int, p as int);
    vstd::arithmetic::div_mod::lemma_small_mod(last.1, p);
    vstd::arithmetic::div_mod::lemma_mod_bound(a as int, p as int);
    vstd::arithmetic::div_mod::lemma_mod_bound(b as int, p as int);
    vstd::arithmetic::div_mod::lemma_mod_bound(x as int, p as int);
    assert(trace[0] == seq![(a as nat % p) as u64, (b as nat % p) as u64]);
    assert(FibonacciAir::first_row_holds(p, trace[0], public_values));
    assert(trace[num_steps - 1][1] == last.1 as u64);
}

/// The standard example has no error of its own: eight rows from `(1, 1)`
/// end in 34.
pub proof fn lemma_standard_example()
    ensures
        fibonacci_statement_error(1, 1, 8, 34) is None,
{
    let p = TraceField::BabyBear.modulus();
    assert(crate::fib::fib(8) == 21 && crate::fib::fib(9) == 34) by {
        reveal_with_fuel(crate::fib::fib, 10);
    }
    crate::trace::lemma_fibonacci_row_small(p, 7);
    assert(is_power_of_two(8)) by {
        vstd::arithmetic::power2::lemma2_to64();
        assert(vstd::arithmetic::power2::pow2(3) == 8);
    }
}

/// In a Fibonacci trace every transition holds, so a row can only break
/// the boundary constraint of the first or of the last row.
pub proof fn lemma_fibonacci_trace_row_holds(
    p: nat,
    a: nat,
    b: nat,
    n: nat,
    public_values: Seq<u64>,
    i: int,
)
    requires
        0 < p <= u64::MAX,
        0 <= i < n,
    ensures
        FibonacciAir::row_holds(p, fibonacci_trace(p, a, b, n), public_values, i) <==> {
            &&& i == 0 ==> FibonacciAir::first_row_holds(
                p,
                fibonacci_trace(p, a, b, n)[0],
                public_values,
            )
            &&& i == n - 1 ==> FibonacciAir::last_row_holds(
                p,
                fibonacci_trace(p, a, b, n)[n - 1],
                public_values,
            )
        },
{
    if i + 1 < n {
        let row = fibonacci_row(p, a, b, i as nat);
        let next = fibonacci_row(p, a, b, (i + 1) as nat);
        lemma_fibonacci_row_canonical(p, a, b, i as nat);
        lemma_fibonacci_row_canonical(p, a, b, (i + 1) as nat);
        assert(next == (row.1, (row.0 + row.1) % p));
        vstd::arithmetic::div_mod::lemma_mod_twice((row.0 + row.1) as int, p as int);
    }
}

/// Builds the trace and the public values of the statement that
/// `num_steps` rows from `(start_a, start_b)` end in `expected_result`,
/// evaluates the constraints on them, and has the outside prover prove the
/// trace under `config`, or under the default configuration.
///
/// Fails with what `fibonacci_statement_error` names, before the prover is
/// called. With no such error the prover is called and its proof encoded,
/// and only an error of the commitment scheme, `Proving`, or of the encoder,
/// `Serialization`, stands between the caller and a proof.
pub fn prove_fibonacci_knowledge(
    start_a: u64,
    start_b: u64,
    num_steps: usize,
    expected_result: u64,
    config: Option<FibonacciConfig>,
) -> (result: Result<FibonacciProof, ProofError>)
    ensures
        match fibonacci_statement_error(start_a, start_b, num_steps, expected_result) {
            Some(e) => result == Err::<FibonacciProof, ProofError>(e),
            None => match result {
                Ok(_) => true,
                Err(e) => e == ProofError::Proving || e == ProofError::Serialization,
            },
        },
{
    if !is_power_of_two_usize(num_steps) {
        return Err(ProofError::TraceShape(TraceShapeError::HeightNotPowerOfTwo { height: num_steps }));
    }
    if num_steps > MAX_TRACE_HEIGHT {
        return Err(
            ProofError::TraceShape(
                TraceShapeError::HeightTooLarge { height: num_steps, max: MAX_TRACE_HEIGHT },
            ),
        );
    }
    proof {
        crate::power::lemma_power_of_two_positive(num_steps as nat);
    }
    let config = match config {
        Some(c) => c,
        None => create_fibonacci_config(),
    };
    let trace = fibonacci_trace_over(TraceField::BabyBear, start_a, start_b, num_steps);
    let public_values: Vec<u64> = public_values_of(start_a, start_b, expected_result);
    let air = FibonacciAir::new();
    let ghost p = TraceField::BabyBear.modulus();
    proof {
        assert forall|i: int| 0 <= i < num_steps implies (FibonacciAir::row_holds(
            p,
            trace@,
            public_values@,
            i,
        ) <==> (i == num_steps - 1 ==> expected_result as nat % p == fibonacci_row(
            p,
            start_a as nat,
            start_b as nat,
            (num_steps - 1) as nat,
        ).1)) by {
            lemma_statement_and_constraints(start_a, start_b, num_steps as nat, expected_result, i);
        }
    }
    match air.check(TraceField::BabyBear, &trace, &public_values) {
        Err(violation) => Err(ProofError::ConstraintViolation(violation)),
        Ok(()) => {
            assert(FibonacciAir::row_holds(p, trace@, public_values@, num_steps - 1));
            match proving_outcome(stark_prove(&config, &trace, &public_values)) {
                Err(e) => Err(e),
                Ok(proof) => match serialization_outcome(encode_proof(&proof)) {
                    Err(e) => Err(e),
                    Ok(bytes) => Ok(FibonacciProof { proof, bytes }),
                },
            }
        },
    }
}

/// What a caller is told for the outcome of the outside prover: the proof,
/// or `Proving` where the commitment scheme failed.
pub fn proving_outcome<P>(proved: Option<P>) -> (result: Result<P, ProofError>)
    ensures
        result == match proved {
            Some(proof) => Ok::<P, ProofError>(proof),
            None => Err(ProofError::Proving),
        },
{
    match proved {
        Some(proof) => Ok(proof),
        None => Err(ProofError::Proving),
    }
}

/// What a caller is told for a verdict of the outside verifier: success for
/// an accepted proof, and the verifier's reason for a rejected one.
pub fn verification_outcome(verdict: Result<(), VerificationFailure>) -> (result: Result<
    (),
    ProofError,
>)
    ensures
        result == match verdict {
            Ok(_) => Ok::<(), ProofError>(()),
            Err(failure) => Err(ProofError::Verification(failure)),
        },
{
    match verdict {
        Ok(()) => Ok(()),
        Err(failure) => Err(ProofError::Verification(failure)),
    }
}

/// Has the outside verifier check `proof` against the statement that the
/// sequence from `(start_a, start_b)` ends in `expected_result`: it is
/// handed the public values of `public_values_of`, under `config` or under
/// the default configuration. The verdict is the verifier's: success, or
/// `Verification` with its reason.
pub fn verify_fibonacci_proof(
    proof: &FibonacciProof,
    start_a: u64,
    start_b: u64,
    expected_result: u64,
    config: Option<FibonacciConfig>,
) -> (result: Result<(), ProofError>)
    ensures
        match result {
            Ok(_) => true,
            Err(e) => e is Verification,
        },
{
    let config = match config {
        Some(c) => c,
        None => create_fibonacci_config(),
    };
    let public_values: Vec<u64> = public_values_of(start_a, start_b, expected_result);
    verification_outcome(stark_verify(&config, proof, &public_values))
}

/// Proves the statement that `num_steps` rows from `(start_a, start_b)` end
/// in `expected_result`, and verifies the proof, both under the default
/// configuration.
///
/// Fails with what `fibonacci_statement_error` names, before the prover is
/// called. With no such error, the outcome is the outside prover's and
/// verifier's: success, `Proving`, or `Verification`.
pub fn prove_and_verify_fibonacci(
    start_a: u64,
    start_b: u64,
    num_steps: usize,
    expected_result: u64,
) -> (result: Result<(), ProofError>)
    ensures
        match fibonacci_statement_error(start_a, start_b, num_steps, expected_result) {
            Some(e) => result == Err::<(), ProofError>(e),
            None => match result {
                Ok(_) => true,
                Err(e) => e is Verification || e == ProofError::Proving || e
                    == ProofError::Serialization,
            },
        },
{
    match prove_fibonacci_knowledge(start_a, start_b, num_steps, expected_result, None) {
        Err(e) => Err(e),
        Ok(proof) => verify_fibonacci_proof(&proof, start_a, start_b, expected_result, None),
    }
}

/// The first error that `fibonacci_statement_error` names among the
/// statements `(a, b, num_steps, x)` of a batch, in their order.
pub open spec fn first_statement_error(cases: Seq<(u64, u64, usize, u64)>) -> Option<ProofError>
    decreases cases.len(),
{
    if cases.len() == 0 {
        None
    } else {
        match fibonacci_statement_error(cases[0].0, cases[0].1, cases[0].2, cases[0].3) {
            Some(e) => Some(e),
            None => first_statement_error(cases.skip(1)),
        }
    }
}

/// Whether an error is one that the library finds by itself, before the
/// outside prover is called.
pub open spec fn is_statement_error(e: ProofError) -> bool {
    e is TraceShape || e is ConstraintViolation
}

/// Proves and verifies the statements `(start_a, start_b, num_steps,
/// expected_result)` one after the other, and stops at the first that fails.
///
/// An empty batch succeeds. A success means that no statement had an error
/// of its own. Where the first statement has one, that error is returned.
/// An error of the library's own kind is always the first such error of the
/// batch; any other failure is the outside prover's, encoder's or
/// verifier's, on a statement before the first that has an error.
pub fn batch_prove_fibonacci(test_cases: Vec<(u64, u64, usize, u64)>) -> (result: Result<
    (),
    ProofError,
>)
    ensures
        test_cases@.len() == 0 ==> result is Ok,
        test_cases@.len() > 0 ==> match fibonacci_statement_error(
            test_cases@[0].0,
            test_cases@[0].1,
            test_cases@[0].2,
            test_cases@[0].3,
        ) {
            Some(e) => result == Err::<(), ProofError>(e),
            None => true,
        },
        match result {
            Ok(_) => first_statement_error(test_cases@) is None,
            Err(e) => if is_statement_error(e) {
                first_statement_error(test_cases@) == Some(e)
            } else {
                e is Verification || e == ProofError::Proving || e == ProofError::Serialization
            },
        },
{
    let mut i: usize = 0;
    assert(test_cases@.skip(0) =~= test_cases@);
    while i < test_cases.len()
        invariant
            i <= test_cases@.len(),
            first_statement_error(test_cases@) == first_statement_error(test_cases@.skip(i as int)),
            i > 0 ==> fibonacci_statement_error(
                test_cases@[0].0,
                test_cases@[0].1,
                test_cases@[0].2,
                test_cases@[0].3,
            ) is None,
        decreases test_cases@.len() - i,
    {
        let (start_a, start_b, num_steps, expected_result) = test_cases[i];
        let ghost rest = test_cases@.skip(i as int);
        assert(rest[0] == test_cases@[i as int]);
        assert(rest.skip(1) =~= test_cases@.skip(i + 1));
        match prove_and_verify_fibonacci(start_a, start_b, num_steps, expected_result) {
            Ok(()) => {},
            Err(e) => {
                return Err(e);
            },
        }
        i = i + 1;
    }
    assert(test_cases@.skip(i as int).len() == 0);
    Ok(())
}

/// Proves and verifies that `n` rows from `(1, 1)` end in
/// `expected_result`, under the default configuration.
pub fn prove_fibonacci(n: usize, expected_result: u32) -> (result: Result<(), ProofError>)
    ensures
        match fibonacci_statement_error(1, 1, n, expected_result as u64) {
            Some(e) => result == Err::<(), ProofError>(e),
            None => match result {
                Ok(_) => true,
                Err(e) => e is Verification || e == ProofError::Proving || e
                    == ProofError::Serialization,
            },
        },
{
    prove_and_verify_fibonacci(1, 1, n, expected_result as u64)
}

/// Proves and verifies the standard example: 8 rows from `(1, 1)`, which
/// end in 34. The statement has no error of its own, so the outcome is the
/// outside prover's and verifier's.
pub fn fibonacci_proof_example() -> (result: Result<(), ProofError>)
    ensures
        match result {
            Ok(_) => true,
            Err(e) => e is Verification || e == ProofError::Proving || e
                    == ProofError::Serialization,
        },
{
    proof {
        lemma_standard_example();
    }
    prove_fibonacci(8, 34)
}

} // verus!
