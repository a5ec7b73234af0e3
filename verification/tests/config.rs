use fib_stark::config::{
    assemble, num_hashes, select_pcs, trace_height, ConfigurationError, DftKind, DftOptions,
    FieldOptions, MerkleHashOptions, PcsKind, Poseidon2Parameters, ProofOptions, StarkPlan,
    TranscriptKind, MAX_LOG_TRACE_LENGTH,
};

#[test]
fn mersenne_31_takes_no_transform() {
    for dft in [DftOptions::RecursiveDft, DftOptions::Radix2DitParallel] {
        assert_eq!(
            select_pcs(FieldOptions::Mersenne31, dft, 7),
            Err(ConfigurationError::DftNotAvailable)
        );
        for hash in [MerkleHashOptions::KeccakF, MerkleHashOptions::Poseidon2] {
            assert_eq!(
                assemble(FieldOptions::Mersenne31, dft, hash, 7),
                Err(ConfigurationError::DftNotAvailable)
            );
        }
    }
    assert_eq!(select_pcs(FieldOptions::Mersenne31, DftOptions::NoDft, 7), Ok(PcsKind::Circle));
}

#[test]
fn two_adic_fields_need_a_transform() {
    for field in [FieldOptions::BabyBear, FieldOptions::KoalaBear, FieldOptions::Goldilocks] {
        assert!(field.is_two_adic());
        assert_eq!(
            select_pcs(field, DftOptions::NoDft, 7),
            Err(ConfigurationError::DftRequired)
        );
        assert_eq!(
            select_pcs(field, DftOptions::Radix2DitParallel, 7),
            Ok(PcsKind::Fri(DftKind::Parallel))
        );
        assert_eq!(
            select_pcs(field, DftOptions::RecursiveDft, 7),
            Ok(PcsKind::Fri(DftKind::Recursive { domain_size: 256 }))
        );
    }
    assert!(!FieldOptions::Mersenne31.is_two_adic());
}

#[test]
fn gating_is_deterministic() {
    let first = assemble(FieldOptions::BabyBear, DftOptions::NoDft, MerkleHashOptions::KeccakF, 3);
    let second = assemble(FieldOptions::BabyBear, DftOptions::NoDft, MerkleHashOptions::KeccakF, 3);
    assert_eq!(first, second);
    assert_eq!(first, Err(ConfigurationError::DftRequired));
}

#[test]
fn blake3_koala_bear_keccak_parallel() {
    let plan = assemble(
        FieldOptions::KoalaBear,
        DftOptions::Radix2DitParallel,
        MerkleHashOptions::KeccakF,
        7,
    );
    assert_eq!(
        plan,
        Ok(StarkPlan {
            field: FieldOptions::KoalaBear,
            extension_degree: 4,
            merkle_hash: MerkleHashOptions::KeccakF,
            digest_width: 4,
            pcs: PcsKind::Fri(DftKind::Parallel),
            transcript: TranscriptKind::SerializingHash,
        })
    );
    assert_eq!(num_hashes(ProofOptions::Blake3Permutations, 7), 128);
}

#[test]
fn keccak_koala_bear_keccak() {
    assert_eq!(num_hashes(ProofOptions::KeccakFPermutations, 7), 5);
    assert_eq!(num_hashes(ProofOptions::KeccakFPermutations, 4), 0);
    assert_eq!(num_hashes(ProofOptions::KeccakFPermutations, 10), 42);
}

#[test]
fn vectorised_poseidon2_mersenne_31_circle() {
    let plan = assemble(
        FieldOptions::Mersenne31,
        DftOptions::NoDft,
        MerkleHashOptions::Poseidon2,
        4,
    );
    assert_eq!(
        plan,
        Ok(StarkPlan {
            field: FieldOptions::Mersenne31,
            extension_degree: 3,
            merkle_hash: MerkleHashOptions::Poseidon2,
            digest_width: 8,
            pcs: PcsKind::Circle,
            transcript: TranscriptKind::Duplex,
        })
    );
    assert_eq!(num_hashes(ProofOptions::Poseidon2Permutations, 7), 1024);
    assert_eq!(num_hashes(ProofOptions::Poseidon2Permutations, 4), 128);
}

#[test]
fn largest_trace_in_use() {
    assert_eq!(trace_height(10), 1024);
    assert_eq!(num_hashes(ProofOptions::Poseidon2Permutations, 10), 8192);
    assert_eq!(trace_height(0), 1);
    assert_eq!(trace_height(MAX_LOG_TRACE_LENGTH), 1 << 28);
    assert_eq!(num_hashes(ProofOptions::Poseidon2Permutations, MAX_LOG_TRACE_LENGTH), 1 << 31);
}

#[test]
fn parameter_tables() {
    assert_eq!(
        FieldOptions::BabyBear.poseidon2_parameters(),
        Some(Poseidon2Parameters {
            width: 16,
            sbox_degree: 7,
            sbox_registers: 1,
            half_full_rounds: 4,
            partial_rounds: 13,
            vector_len: 8,
        })
    );
    assert_eq!(
        FieldOptions::KoalaBear.poseidon2_parameters(),
        Some(Poseidon2Parameters {
            width: 16,
            sbox_degree: 3,
            sbox_registers: 0,
            half_full_rounds: 4,
            partial_rounds: 20,
            vector_len: 8,
        })
    );
    assert_eq!(
        FieldOptions::Mersenne31.poseidon2_parameters(),
        Some(Poseidon2Parameters {
            width: 16,
            sbox_degree: 5,
            sbox_registers: 1,
            half_full_rounds: 4,
            partial_rounds: 14,
            vector_len: 8,
        })
    );
    assert_eq!(FieldOptions::Goldilocks.poseidon2_parameters(), None);
    assert_eq!(FieldOptions::BabyBear.extension_degree(), 4);
    assert_eq!(FieldOptions::KoalaBear.extension_degree(), 4);
    assert_eq!(FieldOptions::Mersenne31.extension_degree(), 3);
    assert_eq!(FieldOptions::Goldilocks.extension_degree(), 2);
    assert_eq!(MerkleHashOptions::KeccakF.digest_width(), 4);
    assert_eq!(MerkleHashOptions::Poseidon2.digest_width(), 8);
    assert_eq!(MerkleHashOptions::KeccakF.transcript(), TranscriptKind::SerializingHash);
    assert_eq!(MerkleHashOptions::Poseidon2.transcript(), TranscriptKind::Duplex);
}
