//! The choices that make up a proving configuration, the rule that ties the
//! transform to the field, and the parameter tables of each field.

use vstd::arithmetic::power2::{lemma2_to64, lemma_pow2_strictly_increases, lemma_pow2_unfold, pow2};
use vstd::prelude::*;

verus! {

/// The base field of a proof.
#[derive(Clone, Copy, Debug, PartialEq, Eq, Structural)]
pub enum FieldOptions {
    BabyBear,
    KoalaBear,
    Mersenne31,
    Goldilocks,
}

/// What a proof is about: a number of evaluations of one hash permutation.
#[derive(Clone, Copy, Debug, PartialEq, Eq, Structural)]
pub enum ProofOptions {
    Blake3Permutations,
    KeccakFPermutations,
    Poseidon2Permutations,
}

/// The discrete Fourier transform that the caller asks for.
#[derive(Clone, Copy, Debug, PartialEq, Eq, Structural)]
pub enum DftOptions {
    RecursiveDft,
    Radix2DitParallel,
    /// No transform was chosen.
    NoDft,
}

/// The hash that builds the Merkle tree.
#[derive(Clone, Copy, Debug, PartialEq, Eq, Structural)]
pub enum MerkleHashOptions {
    KeccakF,
    Poseidon2,
}

/// A combination of field and transform that cannot be built.
#[derive(Clone, Copy, Debug, PartialEq, Eq, Structural)]
pub enum ConfigurationError {
    /// The field is two-adic and no transform was chosen.
    DftRequired,
    /// The field is Mersenne-31, whose commitment scheme has its own domain,
    /// and a transform was chosen.
    DftNotAvailable,
}

/// The transform of a FRI commitment scheme.
#[derive(Clone, Copy, Debug, PartialEq, Eq, Structural)]
pub enum DftKind {
    /// The recursive kernel, made for domains of `domain_size` points.
    Recursive { domain_size: usize },
    /// The parallel radix-2 kernel with decimation in time.
    Parallel,
}

/// The polynomial commitment scheme of a configuration.
#[derive(Clone, Copy, Debug, PartialEq, Eq, Structural)]
pub enum PcsKind {
    /// FRI on two-adic subgroups, with its transform.
    Fri(DftKind),
    /// The circle scheme, for a field that is not two-adic.
    Circle,
}

/// The Fiat-Shamir transcript of a configuration.
#[derive(Clone, Copy, Debug, PartialEq, Eq, Structural)]
pub enum TranscriptKind {
    /// A hash-based challenger over serialised field elements.
    SerializingHash,
    /// A duplex challenger over the Poseidon2 permutation.
    Duplex,
}

/// The parts of a STARK configuration, as chosen from the caller's options.
#[derive(Clone, Copy, Debug, PartialEq, Eq, Structural)]
pub struct StarkPlan {
    pub field: FieldOptions,
    pub extension_degree: usize,
    pub merkle_hash: MerkleHashOptions,
    /// Words in a Merkle digest.
    pub digest_width: usize,
    pub pcs: PcsKind,
    pub transcript: TranscriptKind,
}

/// The constants of the Poseidon2 constraint system over one field.
#[derive(Clone, Copy, Debug, PartialEq, Eq, Structural)]
pub struct Poseidon2Parameters {
    pub width: usize,
    pub sbox_degree: u64,
    pub sbox_registers: usize,
    pub half_full_rounds: usize,
    pub partial_rounds: usize,
    pub vector_len: usize,
}

/// State width of the Poseidon2 constraint system.
pub const P2_WIDTH: usize = 16;

/// Half the number of full rounds of the Poseidon2 constraint system.
pub const P2_HALF_FULL_ROUNDS: usize = 4;

/// Binary logarithm of the number of permutations packed into one row.
pub const P2_LOG_VECTOR_LEN: u8 = 3;

/// Number of permutations packed into one row.
pub const P2_VECTOR_LEN: usize = 8;

/// Rows that one Keccak-f permutation takes.
pub const KECCAK_ROWS_PER_HASH: usize = 24;

/// The largest binary logarithm of a trace height for which the number of
/// packed permutations fits in a 32-bit word.
pub const MAX_LOG_TRACE_LENGTH: u8 = 28;

impl FieldOptions {
    /// Whether the field's multiplicative group has large subgroups whose
    /// order is a power of two. Only Mersenne-31 has none.
    pub open spec fn two_adic(self) -> bool {
        self != FieldOptions::Mersenne31
    }

    /// Whether the field is two-adic.
    pub fn is_two_adic(self) -> (yes: bool)
        ensures
            yes == self.two_adic(),
    {
        match self {
            FieldOptions::Mersenne31 => false,
            _ => true,
        }
    }

    /// The degree of the binomial extension that challenges are drawn from.
    pub open spec fn extension_degree_spec(self) -> nat {
        match self {
            FieldOptions::BabyBear => 4,
            FieldOptions::KoalaBear => 4,
            FieldOptions::Mersenne31 => 3,
            FieldOptions::Goldilocks => 2,
        }
    }

    /// The degree of the binomial extension that challenges are drawn from.
    pub fn extension_degree(self) -> (d: usize)
        ensures
            d == self.extension_degree_spec(),
    {
        match self {
            FieldOptions::BabyBear => 4,
            FieldOptions::KoalaBear => 4,
            FieldOptions::Mersenne31 => 3,
            FieldOptions::Goldilocks => 2,
        }
    }

    /// The Poseidon2 constants of the field, for the fields that have a
    /// Poseidon2 constraint system.
    pub open spec fn poseidon2_parameters_spec(self) -> Option<Poseidon2Parameters> {
        match self {
            FieldOptions::BabyBear => Some(
                Poseidon2Parameters {
                    width: 16,
                    sbox_degree: 7,
                    sbox_registers: 1,
                    half_full_rounds: 4,
                    partial_rounds: 13,
                    vector_len: 8,
                },
            ),
            FieldOptions::KoalaBear => Some(
                Poseidon2Parameters {
                    width: 16,
                    sbox_degree: 3,
                    sbox_registers: 0,
                    half_full_rounds: 4,
                    partial_rounds: 20,
                    vector_len: 8,
                },
            ),
            FieldOptions::Mersenne31 => Some(
                Poseidon2Parameters {
                    width: 16,
                    sbox_degree: 5,
                    sbox_registers: 1,
                    half_full_rounds: 4,
                    partial_rounds: 14,
                    vector_len: 8,
                },
            ),
            FieldOptions::Goldilocks => None,
        }
    }

    /// The Poseidon2 constants of the field; `None` for Goldilocks, which
    /// has no Poseidon2 constraint system here.
    pub fn poseidon2_parameters(self) -> (params: Option<Poseidon2Parameters>)
        ensures
            params == self.poseidon2_parameters_spec(),
    {
        let (sbox_degree, sbox_registers, partial_rounds): (u64, usize, usize) = match self {
            FieldOptions::BabyBear => (7, 1, 13),
            FieldOptions::KoalaBear => (3, 0, 20),
            FieldOptions::Mersenne31 => (5, 1, 14),
            FieldOptions::Goldilocks => {
                return None;
            },
        };
        Some(
            Poseidon2Parameters {
                width: P2_WIDTH,
                sbox_degree,
                sbox_registers,
                half_full_rounds: P2_HALF_FULL_ROUNDS,
                partial_rounds,
                vector_len: P2_VECTOR_LEN,
            },
        )
    }
}

impl MerkleHashOptions {
    /// Words in a Merkle digest: 4 for Keccak, 8 for Poseidon2.
    pub fn digest_width(self) -> (w: usize)
        ensures
            w == match self {
                MerkleHashOptions::KeccakF => 4usize,
                MerkleHashOptions::Poseidon2 => 8usize,
            },
    {
        match self {
            MerkleHashOptions::KeccakF => 4,
            MerkleHashOptions::Poseidon2 => 8,
        }
    }

    /// The transcript that goes with the hash: a serialising hash
    /// challenger for Keccak, a duplex challenger for Poseidon2.
    pub fn transcript(self) -> (t: TranscriptKind)
        ensures
            t == match self {
                MerkleHashOptions::KeccakF => TranscriptKind::SerializingHash,
                MerkleHashOptions::Poseidon2 => TranscriptKind::Duplex,
            },
    {
        match self {
            MerkleHashOptions::KeccakF => TranscriptKind::SerializingHash,
            MerkleHashOptions::Poseidon2 => TranscriptKind::Duplex,
        }
    }
}

/// The commitment scheme for a field and a choice of transform, with the
/// trace height that a recursive transform is made for: FRI with the chosen
/// transform for a two-adic field, the circle scheme for Mersenne-31. A
/// two-adic field needs a transform, and Mersenne-31 takes none.
pub open spec fn select_pcs_spec(field: FieldOptions, dft: DftOptions, trace_height: nat) -> Result<
    PcsKind,
    ConfigurationError,
> {
    if field.two_adic() {
        match dft {
            DftOptions::RecursiveDft => Ok(
                PcsKind::Fri(DftKind::Recursive { domain_size: (2 * trace_height) as usize }),
            ),
            DftOptions::Radix2DitParallel => Ok(PcsKind::Fri(DftKind::Parallel)),
            DftOptions::NoDft => Err(ConfigurationError::DftRequired),
        }
    } else {
        match dft {
            DftOptions::NoDft => Ok(PcsKind::Circle),
            _ => Err(ConfigurationError::DftNotAvailable),
        }
    }
}

/// The height of a trace whose binary logarithm is `log_trace_length`.
pub fn trace_height(log_trace_length: u8) -> (height: usize)
    requires
        log_trace_length <= MAX_LOG_TRACE_LENGTH,
    ensures
        height == pow2(log_trace_length as nat),
        height <= 0x1000_0000,
{
    let mut height: usize = 1;
    let mut i: u8 = 0;
    proof {
        lemma2_to64();
    }
    while i < log_trace_length
        invariant
            i <= log_trace_length <= 28,
            height == pow2(i as nat),
            height <= 0x1000_0000,
            pow2(28) == 0x1000_0000,
        decreases log_trace_length - i,
    {
        proof {
            lemma_pow2_unfold((i + 1) as nat);
            if i + 1 < 28 {
                lemma_pow2_strictly_increases((i + 1) as nat, 28);
            }
        }
        height = height * 2;
        i = i + 1;
    }
    height
}

/// The number of hash evaluations that fill a trace of the given height:
/// one per row for Blake3, eight per row for the vectorised Poseidon2, and
/// one per 24 rows, rounded down, for Keccak-f.
pub open spec fn num_hashes_spec(objective: ProofOptions, log_trace_length: nat) -> nat {
    match objective {
        ProofOptions::Blake3Permutations => pow2(log_trace_length),
        ProofOptions::Poseidon2Permutations => 8 * pow2(log_trace_length),
        ProofOptions::KeccakFPermutations => pow2(log_trace_length) / 24,
    }
}

/// The number of hash evaluations to prove for a trace of height
/// `2^log_trace_length`.
pub fn num_hashes(objective: ProofOptions, log_trace_length: u8) -> (n: usize)
    requires
        log_trace_length <= MAX_LOG_TRACE_LENGTH,
    ensures
        n == num_hashes_spec(objective, log_trace_length as nat),
{
    let height: usize = trace_height(log_trace_length);
    match objective {
        ProofOptions::Blake3Permutations => height,
        ProofOptions::Poseidon2Permutations => height * P2_VECTOR_LEN,
        ProofOptions::KeccakFPermutations => height / KECCAK_ROWS_PER_HASH,
    }
}

/// Chooses the commitment scheme for a field and a transform.
pub fn select_pcs(field: FieldOptions, dft: DftOptions, log_trace_length: u8) -> (result: Result<
    PcsKind,
    ConfigurationError,
>)
    requires
        log_trace_length <= MAX_LOG_TRACE_LENGTH,
    ensures
        result == select_pcs_spec(field, dft, pow2(log_trace_length as nat)),
        result is Err <==> (field == FieldOptions::Mersenne31) != (dft == DftOptions::NoDft),
{
    if field.is_two_adic() {
        match dft {
            DftOptions::RecursiveDft => {
                let height: usize = trace_height(log_trace_length);
                Ok(PcsKind::Fri(DftKind::Recursive { domain_size: height * 2 }))
            },
            DftOptions::Radix2DitParallel => Ok(PcsKind::Fri(DftKind::Parallel)),
            DftOptions::NoDft => Err(ConfigurationError::DftRequired),
        }
    } else {
        match dft {
            DftOptions::NoDft => Ok(PcsKind::Circle),
            _ => Err(ConfigurationError::DftNotAvailable),
        }
    }
}

/// Assembles the plan of a STARK configuration from the caller's options:
/// the Merkle hash fixes the digest width and the transcript, the field
/// fixes the extension degree, and field and transform together fix the
/// commitment scheme. Fails exactly when `select_pcs` does.
pub fn assemble(
    field: FieldOptions,
    dft: DftOptions,
    merkle_hash: MerkleHashOptions,
    log_trace_length: u8,
) -> (result: Result<StarkPlan, ConfigurationError>)
    requires
        log_trace_length <= MAX_LOG_TRACE_LENGTH,
    ensures
        result == match select_pcs_spec(field, dft, pow2(log_trace_length as nat)) {
            Ok(pcs) => Ok(
                StarkPlan {
                    field,
                    extension_degree: field.extension_degree_spec() as usize,
                    merkle_hash,
                    digest_width: match merkle_hash {
                        MerkleHashOptions::KeccakF => 4usize,
                        MerkleHashOptions::Poseidon2 => 8usize,
                    },
                    pcs,
                    transcript: match merkle_hash {
                        MerkleHashOptions::KeccakF => TranscriptKind::SerializingHash,
                        MerkleHashOptions::Poseidon2 => TranscriptKind::Duplex,
                    },
                },
            ),
            Err(e) => Err(e),
        },
        result is Err <==> (field == FieldOptions::Mersenne31) != (dft == DftOptions::NoDft),
{
    match select_pcs(field, dft, log_trace_length) {
        Ok(pcs) => Ok(
            StarkPlan {
                field,
                extension_degree: field.extension_degree(),
                merkle_hash,
                digest_width: merkle_hash.digest_width(),
                pcs,
                transcript: merkle_hash.transcript(),
            },
        ),
        Err(e) => Err(e),
    }
}

} // verus!
