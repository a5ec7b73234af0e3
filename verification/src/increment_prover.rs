//! Proving and verifying increment traces over Goldilocks, with a FRI
//! commitment scheme on Merkle trees built either with Keccak or with
//! Poseidon2.

use crate::air::{ConstraintViolation, IncrementAir, NUM_COLS};
use crate::field::TraceField;
use crate::increment::{counting_trace, lemma_counting_trace_satisfies_air, padded_increment_trace};
use crate::loader::{parse_text, parse_trace};
use crate::matrix::{TraceMatrix, TraceShapeError, MAX_TRACE_HEIGHT};
use crate::power::{is_power_of_two, is_power_of_two_usize, next_power_of_two_spec};
use crate::prover::{proving_outcome, verification_outcome, ProofError, VerificationFailure};
use p3_challenger::{DuplexChallenger, HashChallenger, SerializingChallenger64};
use p3_commit::ExtensionMmcs;
use p3_dft::Radix2DitParallel;
use p3_field::extension::BinomialExtensionField;
use p3_field::PrimeCharacteristicRing;
use p3_fri::{FriParameters, TwoAdicFriPcs};
use p3_goldilocks::{Goldilocks, Poseidon2Goldilocks};
use p3_keccak::{Keccak256Hash, KeccakF};
use p3_matrix::dense::RowMajorMatrix;
use p3_merkle_tree::MerkleTreeMmcs;
use p3_symmetric::{
    CompressionFunctionFromHasher, PaddingFreeSponge, SerializingHasher, TruncatedPermutation,
};
use p3_uni_stark::{prove, verify, Proof, StarkConfig, VerificationError};
use rand::rngs::SmallRng;
use rand::SeedableRng;
use vstd::prelude::*;
use vstd::string::StringSliceAdditionalSpecFns;

verus! {

/// The base field.
pub type Val = Goldilocks;

/// The field that challenges are drawn from.
pub type Challenge = BinomialExtensionField<Val, 2>;

/// The discrete Fourier transform.
pub type Dft = Radix2DitParallel<Val>;

/// The hash of the Keccak transcript.
pub type ByteHash = Keccak256Hash;

/// The Keccak sponge on 64-bit words.
pub type U64Hash = PaddingFreeSponge<KeccakF, 25, 17, 4>;

/// The Keccak sponge on field elements.
pub type FieldHash = SerializingHasher<U64Hash>;

/// The function that compresses two Keccak digests into their parent.
pub type MyCompress = CompressionFunctionFromHasher<U64Hash, 2, 4>;

/// The Keccak Merkle commitment scheme for matrices over the base field.
pub type ValMmcs = MerkleTreeMmcs<[Val; p3_keccak::VECTOR_LEN], [u64; p3_keccak::VECTOR_LEN], FieldHash, MyCompress, 2, 4>;

/// The Keccak configuration.
pub type KeccakStark = StarkConfig<
    TwoAdicFriPcs<Val, Dft, ValMmcs, ExtensionMmcs<Val, Challenge, ValMmcs>>,
    Challenge,
    SerializingChallenger64<Val, HashChallenger<u8, ByteHash, 32>>,
>;

/// The Poseidon2 permutation of width 8 over the base field.
pub type Perm = Poseidon2Goldilocks<8>;

/// The Poseidon2 sponge that hashes the leaves of a Merkle tree.
pub type Poseidon2Hash = PaddingFreeSponge<Perm, 8, 4, 4>;

/// The function that compresses two Poseidon2 digests into their parent.
pub type Poseidon2Compress = TruncatedPermutation<Perm, 2, 4, 8>;

/// The Poseidon2 Merkle commitment scheme for matrices over the base field.
pub type Poseidon2ValMmcs = MerkleTreeMmcs<Val, Val, Poseidon2Hash, Poseidon2Compress, 2, 4>;

/// The Poseidon2 configuration.
pub type Poseidon2Stark = StarkConfig<
    TwoAdicFriPcs<Val, Dft, Poseidon2ValMmcs, ExtensionMmcs<Val, Challenge, Poseidon2ValMmcs>>,
    Challenge,
    DuplexChallenger<Val, Perm, 8, 4>,
>;

/// A STARK configuration on Keccak Merkle trees with a serialising hash
/// transcript. It holds a `StarkConfig` of `p3_uni_stark`.
#[verifier::external_body]
pub struct KeccakConfig {
    inner: KeccakStark,
}

/// A proof under a `KeccakConfig`. It holds a `Proof` of `p3_uni_stark`.
#[verifier::external_body]
pub struct KeccakProof {
    inner: Proof<KeccakStark>,
}

/// A STARK configuration on Poseidon2 Merkle trees with a duplex
/// transcript. It holds a `StarkConfig` of `p3_uni_stark`.
#[verifier::external_body]
pub struct Poseidon2Config {
    inner: Poseidon2Stark,
}

/// A proof under a `Poseidon2Config`. It holds a `Proof` of `p3_uni_stark`.
#[verifier::external_body]
pub struct Poseidon2Proof {
    inner: Proof<Poseidon2Stark>,
}

/// The seed of the generator that the constants of the Poseidon2
/// permutation are drawn from.
pub const POSEIDON2_SEED: u64 = 42;

/// Number of proof-of-work bits of a query in the benchmark parameters.
pub const BENCHMARK_PROOF_OF_WORK_BITS: usize = 16;

/// Number of proof-of-work bits of a query when a given trace is proved.
pub const QUICK_PROOF_OF_WORK_BITS: usize = 1;

/// Builds the Keccak configuration from the benchmark parameters of FRI,
/// with the given number of proof-of-work bits for a query: at most 16, as
/// the prover's grinding takes twice as long with each bit.
///
/// Calls the constructors of the parts, `FriParameters::new_benchmark` and
/// `StarkConfig::new`. Nothing is claimed of the result.
#[verifier::external_body]
fn create_keccak_config(proof_of_work_bits: usize) -> (config: KeccakConfig)
    requires
        proof_of_work_bits <= BENCHMARK_PROOF_OF_WORK_BITS,
{
    let u64_hash = U64Hash::new(KeccakF {  });
    let val_mmcs = ValMmcs::new(FieldHash::new(u64_hash), MyCompress::new(u64_hash), 0);
    let mut fri_params = FriParameters::new_benchmark(ExtensionMmcs::new(val_mmcs.clone()));
    fri_params.query_proof_of_work_bits = proof_of_work_bits;
    let pcs = TwoAdicFriPcs::new(Dft::default(), val_mmcs, fri_params);
    let challenger = SerializingChallenger64::from_hasher(vec![], ByteHash {  });
    KeccakConfig { inner: StarkConfig::new(pcs, challenger) }
}

/// Builds the Poseidon2 configuration from the benchmark parameters of FRI,
/// with the given number of proof-of-work bits for a query, at most 16. The
/// constants of the permutation are drawn from a `SmallRng` seeded with
/// `seed`, a generator that differs from machine to machine.
///
/// Calls the constructors of the parts, `FriParameters::new_benchmark` and
/// `StarkConfig::new`. Nothing is claimed of the result.
#[verifier::external_body]
fn create_poseidon2_config(proof_of_work_bits: usize, seed: u64) -> (config: Poseidon2Config)
    requires
        proof_of_work_bits <= BENCHMARK_PROOF_OF_WORK_BITS,
{
    let perm = Perm::new_from_rng_128(&mut SmallRng::seed_from_u64(seed));
    let val_mmcs = Poseidon2ValMmcs::new(Poseidon2Hash::new(perm.clone()), Poseidon2Compress::new(perm.clone()), 0);
    let mut fri_params = FriParameters::new_benchmark(ExtensionMmcs::new(val_mmcs.clone()));
    fri_params.query_proof_of_work_bits = proof_of_work_bits;
    let pcs = TwoAdicFriPcs::new(Dft::default(), val_mmcs, fri_params);
    Poseidon2Config { inner: StarkConfig::new(pcs, DuplexChallenger::new(perm)) }
}

/// Whether `trace` can be handed to the outside prover as a trace of `air`
/// over Goldilocks: its shape fits, its height is a power of two of at most
/// `MAX_TRACE_HEIGHT`, and it satisfies the constraints.
pub open spec fn provable(air: IncrementAir, trace: TraceMatrix) -> bool {
    &&& trace.wf()
    &&& trace.width == air.width
    &&& air.width >= 1
    &&& is_power_of_two(trace@.len())
    &&& trace@.len() <= MAX_TRACE_HEIGHT
    &&& IncrementAir::satisfied(TraceField::Goldilocks.modulus(), trace@)
}

/// Calls `p3_uni_stark::prove` with the increment constraint system under
/// the Keccak configuration, without public values. Cells go in through
/// `Goldilocks::from_u64`. The trace must satisfy the constraints and have a
/// power-of-two height, or the call may panic. `None` stands for an error of
/// the commitment scheme. Nothing is claimed of the proof.
#[verifier::external_body]
fn keccak_prove(config: &KeccakConfig, air: &IncrementAir, trace: &TraceMatrix) -> (proof: Option<
    KeccakProof,
>)
    requires
        provable(*air, *trace),
{
    let cells = trace.rows.iter().flatten().map(|x| Goldilocks::from_u64(*x)).collect();
    let matrix = RowMajorMatrix::new(cells, trace.width);
    prove(&config.inner, air, matrix, &[]).ok().map(|inner| KeccakProof { inner })
}

/// Calls `p3_uni_stark::verify` with the increment constraint system under
/// the Keccak configuration, and names the variant of its error. Nothing is
/// claimed of the verdict.
#[verifier::external_body]
fn keccak_verify(config: &KeccakConfig, air: &IncrementAir, proof: &KeccakProof) -> (verdict: Result<
    (),
    VerificationFailure,
>) {
    match verify(&config.inner, air, &proof.inner, &[]) {
        Ok(()) => Ok(()),
        Err(VerificationError::InvalidProofShape(_)) => Err(VerificationFailure::InvalidProofShape),
        Err(VerificationError::PeriodicColumn(_)) => Err(VerificationFailure::PeriodicColumn),
        Err(VerificationError::InvalidOpeningArgument(_)) => Err(VerificationFailure::InvalidOpeningArgument),
        Err(VerificationError::OodEvaluationMismatch { .. }) => Err(VerificationFailure::OodEvaluationMismatch),
        Err(VerificationError::RandomizationError) => Err(VerificationFailure::RandomizationError),
        Err(VerificationError::NextPointUnavailable) => Err(VerificationFailure::NextPointUnavailable),
        Err(VerificationError::OodPointInDomain) => Err(VerificationFailure::OodPointInDomain),
        Err(VerificationError::InvalidOodPowWitness) => Err(VerificationFailure::InvalidOodPowWitness),
    }
}

/// Calls `p3_uni_stark::prove` with the increment constraint system under
/// the Poseidon2 configuration, without public values. Cells go in through
/// `Goldilocks::from_u64`. The trace must satisfy the constraints and have a
/// power-of-two height, or the call may panic. `None` stands for an error of
/// the commitment scheme. Nothing is claimed of the proof.
#[verifier::external_body]
fn poseidon2_prove(config: &Poseidon2Config, air: &IncrementAir, trace: &TraceMatrix) -> (proof:
    Option<Poseidon2Proof>)
    requires
        provable(*air, *trace),
{
    let cells = trace.rows.iter().flatten().map(|x| Goldilocks::from_u64(*x)).collect();
    let matrix = RowMajorMatrix::new(cells, trace.width);
    prove(&config.inner, air, matrix, &[]).ok().map(|inner| Poseidon2Proof { inner })
}

/// Calls `p3_uni_stark::verify` with the increment constraint system under
/// the Poseidon2 configuration, and names the variant of its error. Nothing
/// is claimed of the verdict.
#[verifier::external_body]
fn poseidon2_verify(config: &Poseidon2Config, air: &IncrementAir, proof: &Poseidon2Proof) -> (verdict:
    Result<(), VerificationFailure>) {
    match verify(&config.inner, air, &proof.inner, &[]) {
        Ok(()) => Ok(()),
        Err(VerificationError::InvalidProofShape(_)) => Err(VerificationFailure::InvalidProofShape),
        Err(VerificationError::PeriodicColumn(_)) => Err(VerificationFailure::PeriodicColumn),
        Err(VerificationError::InvalidOpeningArgument(_)) => Err(VerificationFailure::InvalidOpeningArgument),
        Err(VerificationError::OodEvaluationMismatch { .. }) => Err(VerificationFailure::OodEvaluationMismatch),
        Err(VerificationError::RandomizationError) => Err(VerificationFailure::RandomizationError),
        Err(VerificationError::NextPointUnavailable) => Err(VerificationFailure::NextPointUnavailable),
        Err(VerificationError::OodPointInDomain) => Err(VerificationFailure::OodPointInDomain),
        Err(VerificationError::InvalidOodPowWitness) => Err(VerificationFailure::InvalidOodPowWitness),
    }
}

/// The Merkle hash of a proof of an increment trace.
#[derive(Clone, Copy, Debug, PartialEq, Eq, Structural)]
pub enum IncrementHash {
    Keccak,
    Poseidon2,
}

/// How much grinding a query of the proof costs.
#[derive(Clone, Copy, Debug, PartialEq, Eq, Structural)]
pub enum ProofOfWork {
    /// One bit.
    Quick,
    /// The 16 bits of the benchmark parameters.
    Benchmark,
}

impl ProofOfWork {
    /// The number of proof-of-work bits.
    pub fn bits(self) -> (n: usize)
        ensures
            n == match self {
                ProofOfWork::Quick => QUICK_PROOF_OF_WORK_BITS,
                ProofOfWork::Benchmark => BENCHMARK_PROOF_OF_WORK_BITS,
            },
    {
        match self {
            ProofOfWork::Quick => QUICK_PROOF_OF_WORK_BITS,
            ProofOfWork::Benchmark => BENCHMARK_PROOF_OF_WORK_BITS,
        }
    }
}

/// Whether `result` is an outcome that the library owes for a trace of
/// the given width and rows: the shape error of a trace without columns, with
/// a height that is no power of two, or with one above `MAX_TRACE_HEIGHT`;
/// else the first row that breaks the increment; else whatever the outside
/// prover and verifier decide.
pub open spec fn increment_outcome(width: usize, rows: Seq<Seq<u64>>, result: Result<
    (),
    ProofError,
>) -> bool {
    let p = TraceField::Goldilocks.modulus();
    if width == 0 {
        result == Err::<(), ProofError>(
            ProofError::TraceShape(TraceShapeError::WidthMismatch { expected: 1, found: 0 }),
        )
    } else if !is_power_of_two(rows.len()) {
        result == Err::<(), ProofError>(
            ProofError::TraceShape(TraceShapeError::HeightNotPowerOfTwo { height: rows.len() as usize }),
        )
    } else if rows.len() > MAX_TRACE_HEIGHT {
        result == Err::<(), ProofError>(
            ProofError::TraceShape(
                TraceShapeError::HeightTooLarge {
                    height: rows.len() as usize,
                    max: MAX_TRACE_HEIGHT,
                },
            ),
        )
    } else if !IncrementAir::satisfied(p, rows) {
        match result {
            Err(ProofError::ConstraintViolation(v)) => v.row < rows.len() && !IncrementAir::row_holds(
                p,
                rows,
                v.row as int,
            ) && forall|j: int| 0 <= j < v.row ==> IncrementAir::row_holds(p, rows, j),
            _ => false,
        }
    } else {
        match result {
            Ok(_) => true,
            Err(e) => e is Verification || e == ProofError::Proving,
        }
    }
}

/// A counting trace has no error of its own, whatever its height up to
/// `MAX_TRACE_HEIGHT`: the library owes it to the outside prover and
/// verifier, and only they decide the outcome.
pub proof fn lemma_counting_trace_has_no_error(width: usize, num_rows: nat, result: Result<
    (),
    ProofError,
>)
    requires
        width >= 1,
        next_power_of_two_spec(num_rows) <= MAX_TRACE_HEIGHT,
        increment_outcome(
            width,
            counting_trace(
                TraceField::Goldilocks.modulus(),
                width as nat,
                next_power_of_two_spec(num_rows),
            ),
            result,
        ),
    ensures
        match result {
            Ok(_) => true,
            Err(e) => e is Verification || e == ProofError::Proving,
        },
{
    let p = TraceField::Goldilocks.modulus();
    let height = next_power_of_two_spec(num_rows);
    lemma_counting_trace_satisfies_air(p, width as nat, height);
    assert(is_power_of_two(height)) by {
        assert(vstd::arithmetic::power2::pow2(crate::power::ceil_log2(num_rows)) == height);
    }
}

/// Checks the shape of `trace` and evaluates the increment constraint on
/// it; then has the outside prover prove it and the outside verifier verify
/// the proof, under the configuration of `hash` and `work`. The constraint
/// system takes its width from the trace.
pub fn prove_increment(trace: &TraceMatrix, hash: IncrementHash, work: ProofOfWork) -> (result:
    Result<(), ProofError>)
    requires
        trace.wf(),
    ensures
        increment_outcome(trace.width, trace@, result),
{
    if trace.width() == 0 {
        return Err(ProofError::TraceShape(TraceShapeError::WidthMismatch { expected: 1, found: 0 }));
    }
    let height: usize = trace.height();
    if !is_power_of_two_usize(height) {
        return Err(ProofError::TraceShape(TraceShapeError::HeightNotPowerOfTwo { height }));
    }
    if height > MAX_TRACE_HEIGHT {
        return Err(
            ProofError::TraceShape(TraceShapeError::HeightTooLarge { height, max: MAX_TRACE_HEIGHT }),
        );
    }
    let air = IncrementAir::new(trace.width());
    match air.check(TraceField::Goldilocks, trace) {
        Err(violation) => Err(ProofError::ConstraintViolation(violation)),
        Ok(()) => {
            match hash {
                IncrementHash::Keccak => {
                    let config = create_keccak_config(work.bits());
                    match proving_outcome(keccak_prove(&config, &air, trace)) {
                        Err(e) => Err(e),
                        Ok(proof) => verification_outcome(keccak_verify(&config, &air, &proof)),
                    }
                },
                IncrementHash::Poseidon2 => {
                    let config = create_poseidon2_config(work.bits(), POSEIDON2_SEED);
                    match proving_outcome(poseidon2_prove(&config, &air, trace)) {
                        Err(e) => Err(e),
                        Ok(proof) => verification_outcome(poseidon2_verify(&config, &air, &proof)),
                    }
                },
            }
        },
    }
}

/// Proves and verifies a given increment trace, on Keccak Merkle trees if
/// `use_keccak` is set and on Poseidon2 Merkle trees if not, with one
/// proof-of-work bit for a query.
pub fn p3_generate_proof(p3_trace: TraceMatrix, use_keccak: bool) -> (result: Result<(), ProofError>)
    requires
        p3_trace.wf(),
    ensures
        increment_outcome(p3_trace.width, p3_trace@, result),
{
    let hash = if use_keccak {
        IncrementHash::Keccak
    } else {
        IncrementHash::Poseidon2
    };
    prove_increment(&p3_trace, hash, ProofOfWork::Quick)
}

/// Reads an increment trace of 73 columns from the text of a trace file,
/// prepares it as `parse_trace` does, then proves and verifies it on Keccak
/// Merkle trees with the benchmark parameters.
///
/// The text must be short enough for the padded height to fit in a machine
/// word.
pub fn generate_proof(content: &str) -> (result: Result<(), ProofError>)
    requires
        content.spec_bytes().len() < usize::MAX / 2,
    ensures
        increment_outcome(
            NUM_COLS,
            padded_increment_trace(
                TraceField::Goldilocks.modulus(),
                parse_text(content.spec_bytes(), NUM_COLS as nat),
            ),
            result,
        ),
{
    let trace = parse_trace(content);
    prove_increment(&trace, IncrementHash::Keccak, ProofOfWork::Benchmark)
}

} // verus!
