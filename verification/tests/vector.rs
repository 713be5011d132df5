use codegraph::error::VectorError;
use codegraph::vector::{BatchPlan, Cpu, Kernel, Lanes, ParallelVectorOps, SIMDVectorOps};

const FULL: Cpu = Cpu::X86_64 { avx2: true, fma: true };

fn cosine(a: &[f32], b: &[f32]) -> f32 {
    let mut dot = 0.0f32;
    let mut norm_a = 0.0f32;
    let mut norm_b = 0.0f32;
    for i in 0..a.len() {
        dot += a[i] * b[i];
        norm_a += a[i] * a[i];
        norm_b += b[i] * b[i];
    }
    dot / (norm_a.sqrt() * norm_b.sqrt())
}

#[test]
fn test_parallel_operations() {
    let query = vec![1.0; 256];
    let embeddings: Vec<Vec<f32>> = (0..1000)
        .map(|i| (0..256).map(|j| (i + j) as f32).collect())
        .collect();
    let outcomes: Vec<Result<u32, VectorError>> =
        embeddings.iter().map(|e| Ok(cosine(&query, e).to_bits())).collect();

    let results = ParallelVectorOps::parallel_top_k_search(&outcomes, 10).unwrap();

    assert_eq!(results.len(), 10);
    println!("Top-10 parallel search results: {:?}", &results[0..3]);
    for pair in results.windows(2) {
        assert!(f32::from_bits(pair[0].1) >= f32::from_bits(pair[1].1));
    }
}

#[test]
fn the_best_come_first() {
    let outcomes = vec![
        Ok(0.25f32.to_bits()),
        Ok((-0.5f32).to_bits()),
        Err(VectorError::DimensionMismatch(2, 3)),
        Ok(1.0f32.to_bits()),
        Ok((-1.0f32).to_bits()),
    ];
    let top = ParallelVectorOps::parallel_top_k_search(&outcomes, 3).unwrap();
    assert_eq!(
        top,
        vec![(3, 1.0f32.to_bits()), (0, 0.25f32.to_bits()), (2, 0.0f32.to_bits())]
    );
    let all = ParallelVectorOps::parallel_top_k_search(&outcomes, 9).unwrap();
    assert_eq!(all.len(), 5);
    assert_eq!(all[3], (1, (-0.5f32).to_bits()));
    assert_eq!(all[4], (4, (-1.0f32).to_bits()));
    assert_eq!(ParallelVectorOps::parallel_top_k_search(&outcomes, 0).unwrap(), vec![]);
}

#[test]
fn vector_instructions_need_both_sets() {
    assert!(SIMDVectorOps::is_avx2_available(FULL));
    assert!(!SIMDVectorOps::is_avx2_available(Cpu::X86_64 { avx2: true, fma: false }));
    assert!(!SIMDVectorOps::is_avx2_available(Cpu::X86_64 { avx2: false, fma: true }));
    assert!(!SIMDVectorOps::is_avx2_available(Cpu::Other));
}

#[test]
fn short_vectors_are_taken_one_by_one() {
    let plan = SIMDVectorOps::adaptive_cosine_similarity;
    assert_eq!(plan(FULL, 32, 32), Ok(Kernel::Avx2));
    assert_eq!(plan(FULL, 100, 100), Ok(Kernel::Avx2));
    assert_eq!(plan(FULL, 31, 31), Ok(Kernel::Scalar));
    assert_eq!(plan(Cpu::Other, 100, 100), Ok(Kernel::Scalar));
    for cpu in [FULL, Cpu::Other] {
        assert_eq!(plan(cpu, 100, 99), Err(VectorError::DimensionMismatch(100, 99)));
        assert_eq!(plan(cpu, 1, 2), Err(VectorError::DimensionMismatch(1, 2)));
        assert_eq!(plan(cpu, 0, 0), Ok(Kernel::Scalar));
    }
}

#[test]
fn lanes_are_planned() {
    assert_eq!(
        SIMDVectorOps::plan_avx2(FULL, 19, 19),
        Ok(Lanes { chunks: 2, rest: 16, len: 19 })
    );
    assert_eq!(
        SIMDVectorOps::plan_avx2(FULL, 19, 18),
        Err(VectorError::DimensionMismatch(19, 18))
    );
    assert_eq!(
        SIMDVectorOps::plan_avx2(Cpu::Other, 8, 8),
        Err(VectorError::SimdError("AVX2 not supported on this architecture".to_string()))
    );
    assert_eq!(SIMDVectorOps::check_dimensions(3, 3), Ok(3));
    assert_eq!(
        SIMDVectorOps::check_dimensions(3, 4),
        Err(VectorError::DimensionMismatch(3, 4))
    );
}

#[test]
fn a_batch_comes_to_the_first_mismatch() {
    let batch = SIMDVectorOps::batch_cosine_similarity_avx2;
    assert_eq!(batch(FULL, 4, &vec![4, 4], 2), BatchPlan { results: 2, failure: None });
    assert_eq!(batch(FULL, 4, &vec![], 0), BatchPlan { results: 0, failure: None });
    assert_eq!(
        batch(FULL, 4, &vec![4, 4, 5, 4, 6], 5),
        BatchPlan { results: 2, failure: Some(VectorError::DimensionMismatch(4, 5)) }
    );
    assert_eq!(
        batch(FULL, 4, &vec![5], 2),
        BatchPlan { results: 0, failure: Some(VectorError::BatchSizeMismatch) }
    );
    assert_eq!(
        batch(Cpu::Other, 4, &vec![4], 1).failure,
        Some(VectorError::SimdError("AVX2 not supported on this architecture".to_string()))
    );
}

#[test]
fn a_batch_needs_every_similarity() {
    let one = 1.0f32.to_bits();
    let all = ParallelVectorOps::parallel_batch_similarity(vec![Ok(one), Ok(7)]);
    assert_eq!(all, Ok(vec![one, 7]));
    assert_eq!(ParallelVectorOps::parallel_batch_similarity(vec![]), Ok(vec![]));
    let failed = vec![Ok(one), Err(VectorError::DimensionMismatch(2, 3)), Ok(7)];
    assert_eq!(
        ParallelVectorOps::parallel_batch_similarity(failed),
        Err(VectorError::DimensionMismatch(2, 3))
    );
}

#[test]
fn vectors_of_any_length_are_normalized() {
    assert_eq!(ParallelVectorOps::parallel_normalize_vectors(FULL), Kernel::Avx2);
    assert_eq!(ParallelVectorOps::parallel_normalize_vectors(Cpu::Other), Kernel::Scalar);
}
