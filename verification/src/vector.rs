//! Planning of vector operations, and the ranking of their results.
//!
//! The arithmetic on floating-point numbers is done elsewhere. A similarity comes here as the bit
//! pattern of a single-precision number in the format of IEEE 754.
use crate::error::VectorError;
use rayon::slice::ParallelSliceMut;
use std::cmp::Ordering;
use vstd::arithmetic::power2::{lemma_pow2_pos, lemma_pow2_strictly_increases, lemma_pow2_unfold, pow2};
use vstd::prelude::*;

verus! {

/// The number of single-precision numbers in one vector register.
pub const LANE_WIDTH: usize = 8;

/// The length from which on vectors are worth the vector instructions.
pub const SIMD_MIN_LEN: usize = 32;

/// What is known of the processor.
#[derive(Debug, Clone, Copy, PartialEq, Eq, Structural)]
pub enum Cpu {
    /// An x86-64 processor, with or without each of two instruction sets.
    X86_64 { avx2: bool, fma: bool },
    /// A processor of another architecture.
    Other,
}

/// The implementations of an operation.
#[derive(Debug, Clone, Copy, PartialEq, Eq, Structural)]
pub enum Kernel {
    Avx2,
    Scalar,
}

/// How the elements of a vector are taken: in `chunks` groups that fill a register each, and then one
/// by one from `rest` to `len`.
#[derive(Debug, Clone, Copy, PartialEq, Eq, Structural)]
pub struct Lanes {
    pub chunks: usize,
    pub rest: usize,
    pub len: usize,
}

/// How far a batch comes: the number of results that are computed, and why it then fails, if it does.
#[derive(Debug, PartialEq, Eq)]
pub struct BatchPlan {
    pub results: usize,
    pub failure: Option<VectorError>,
}

/// Whether the processor has both instruction sets that the vector kernels use.
pub open spec fn avx2_available(cpu: Cpu) -> bool {
    cpu == (Cpu::X86_64 { avx2: true, fma: true })
}

/// How `len` elements are taken.
pub open spec fn lanes_of(len: nat) -> (nat, nat) {
    (len / (LANE_WIDTH as nat), len / (LANE_WIDTH as nat) * (LANE_WIDTH as nat))
}

/// SIMD-optimized vector operations for embedding computations.
pub struct SIMDVectorOps;

impl SIMDVectorOps {
    /// Whether AVX2 is available.
    pub fn is_avx2_available(cpu: Cpu) -> (r: bool)
        ensures
            r == avx2_available(cpu),
    {
        match cpu {
            Cpu::X86_64 { avx2, fma } => avx2 && fma,
            Cpu::Other => false,
        }
    }

    /// Two vectors that are combined element by element must have one length.
    pub fn check_dimensions(a_len: usize, b_len: usize) -> (r: Result<usize, VectorError>)
        ensures
            r == if a_len == b_len {
                Ok::<usize, VectorError>(a_len)
            } else {
                Err(VectorError::DimensionMismatch(a_len, b_len))
            },
    {
        if a_len != b_len {
            return Err(VectorError::DimensionMismatch(a_len, b_len));
        }
        Ok(a_len)
    }

    /// How a vector kernel takes the elements of two vectors of these lengths.
    pub fn plan_avx2(cpu: Cpu, a_len: usize, b_len: usize) -> (r: Result<Lanes, VectorError>)
        ensures
            match cpu {
                Cpu::Other => r matches Err(VectorError::SimdError(m)) && m@
                    == "AVX2 not supported on this architecture"@,
                Cpu::X86_64 { .. } => if a_len == b_len {
                    r matches Ok(l) && l.len == a_len && (l.chunks as nat, l.rest as nat) == lanes_of(
                        a_len as nat,
                    )
                } else {
                    r == Err::<Lanes, _>(VectorError::DimensionMismatch(a_len, b_len))
                },
            },
    {
        match cpu {
            Cpu::Other => Err(
                VectorError::SimdError(String::from_str("AVX2 not supported on this architecture")),
            ),
            Cpu::X86_64 { .. } => {
                let len: usize = Self::check_dimensions(a_len, b_len)?;
                let chunks: usize = len / LANE_WIDTH;
                Ok(Lanes { chunks, rest: chunks * LANE_WIDTH, len })
            },
        }
    }

    /// How far a batch comes that computes the similarity of a query with each of some vectors, given
    /// their lengths and the number of places for results.
    pub fn batch_cosine_similarity_avx2(
        cpu: Cpu,
        query_len: usize,
        embedding_lens: &Vec<usize>,
        results: usize,
    ) -> (r: BatchPlan)
        ensures
            match cpu {
                Cpu::Other => r.results == 0 && (r.failure matches Some(VectorError::SimdError(m)) && m@
                    == "AVX2 not supported on this architecture"@),
                Cpu::X86_64 { .. } => r == if embedding_lens@.len() == results {
                    batch_of(query_len, embedding_lens@)
                } else {
                    BatchPlan { results: 0, failure: Some(VectorError::BatchSizeMismatch) }
                },
            },
    {
        match cpu {
            Cpu::Other => return BatchPlan {
                results: 0,
                failure: Some(
                    VectorError::SimdError(
                        String::from_str("AVX2 not supported on this architecture"),
                    ),
                ),
            },
            Cpu::X86_64 { .. } => {},
        }
        let n: usize = embedding_lens.len();
        if n != results {
            return BatchPlan { results: 0, failure: Some(VectorError::BatchSizeMismatch) };
        }
        let mut i: usize = 0;
        while i < n && embedding_lens[i] == query_len
            invariant
                i <= n == embedding_lens@.len(),
                forall|j: int| 0 <= j < i ==> embedding_lens@[j] == query_len,
            decreases n - i,
        {
            i = i + 1;
        }
        proof {
            lemma_fitting(query_len, embedding_lens@, i as int);
        }
        if i < n {
            BatchPlan {
                results: i,
                failure: Some(VectorError::DimensionMismatch(query_len, embedding_lens[i])),
            }
        } else {
            BatchPlan { results: n, failure: None }
        }
    }

    /// The implementation that computes the similarity of two vectors of these lengths.
    pub fn adaptive_cosine_similarity(cpu: Cpu, a_len: usize, b_len: usize) -> (r: Result<
        Kernel,
        VectorError,
    >)
        ensures
            r == if a_len != b_len {
                Err::<Kernel, VectorError>(VectorError::DimensionMismatch(a_len, b_len))
            } else if avx2_available(cpu) && a_len >= SIMD_MIN_LEN {
                Ok(Kernel::Avx2)
            } else {
                Ok(Kernel::Scalar)
            },
            r is Ok <==> a_len == b_len,
            r == Ok::<Kernel, VectorError>(Kernel::Avx2) <==> a_len == b_len && a_len >= 32 && cpu
                == (Cpu::X86_64 { avx2: true, fma: true }),
    {
        if a_len != b_len {
            return Err(VectorError::DimensionMismatch(a_len, b_len));
        }
        if Self::is_avx2_available(cpu) && a_len >= SIMD_MIN_LEN {
            Ok(Kernel::Avx2)
        } else {
            Ok(Kernel::Scalar)
        }
    }
}

/// The number of vectors before the first one whose length is not `len`.
pub open spec fn fitting(len: usize, lens: Seq<usize>) -> nat
    decreases lens.len(),
{
    if lens.len() == 0 || lens[0] != len {
        0
    } else {
        1 + fitting(len, lens.drop_first())
    }
}

/// How far a batch comes whose vectors have the given lengths: to the first one that does not fit.
pub open spec fn batch_of(query_len: usize, lens: Seq<usize>) -> BatchPlan {
    let n = fitting(query_len, lens);
    BatchPlan {
        results: n as usize,
        failure: if n < lens.len() {
            Some(VectorError::DimensionMismatch(query_len, lens[n as int]))
        } else {
            None
        },
    }
}

proof fn lemma_fitting(len: usize, lens: Seq<usize>, n: int)
    requires
        0 <= n <= lens.len(),
        forall|j: int| 0 <= j < n ==> lens[j] == len,
        n < lens.len() ==> lens[n] != len,
    ensures
        fitting(len, lens) == n,
    decreases n,
{
    if n > 0 {
        lemma_fitting(len, lens.drop_first(), n - 1);
    }
}

proof fn lemma_first_mismatch(len: usize, lens: Seq<usize>)
    ensures
        fitting(len, lens) <= lens.len(),
        forall|i: int| 0 <= i < fitting(len, lens) ==> lens[i] == len,
        fitting(len, lens) < lens.len() ==> lens[fitting(len, lens) as int] != len,
    decreases lens.len(),
{
    if lens.len() > 0 && lens[0] == len {
        let rest = lens.drop_first();
        lemma_first_mismatch(len, rest);
        assert forall|i: int| 0 <= i < fitting(len, lens) implies lens[i] == len by {
            if i > 0 {
                assert(lens[i] == rest[i - 1]);
            }
        }
    }
}

/// A batch succeeds exactly if every vector has the length of the query. If it fails, every vector
/// before the one that it fails on has its result, and that one is the first that does not fit.
pub proof fn law_batch_stops_at_first_mismatch(query_len: usize, lens: Seq<usize>)
    requires
        lens.len() <= usize::MAX,
    ensures
        ({
            let plan = batch_of(query_len, lens);
            &&& plan.results <= lens.len()
            &&& forall|i: int| 0 <= i < plan.results ==> lens[i] == query_len
            &&& plan.failure is None <==> plan.results == lens.len()
            &&& plan.failure is Some ==> lens[plan.results as int] != query_len && plan.failure == Some(
                VectorError::DimensionMismatch(query_len, lens[plan.results as int]),
            )
        }),
{
    lemma_first_mismatch(query_len, lens);
}

/// Each element of a vector is taken once: in the one register-sized group that its index falls in,
/// or one by one, and fewer than a register-sized group are taken one by one.
pub proof fn law_lanes_cover_once(len: nat)
    ensures
        ({
            let (chunks, rest) = lanes_of(len);
            &&& rest <= len < rest + LANE_WIDTH
            &&& forall|i: nat, c: nat|
                #![trigger in_group(i, c)]
                c < chunks && in_group(i, c) ==> i < rest && c == i / (LANE_WIDTH as nat)
            &&& forall|i: nat|
                i < rest ==> i / (LANE_WIDTH as nat) < chunks && #[trigger] in_group(
                    i,
                    i / (LANE_WIDTH as nat),
                )
        }),
{
}

/// Whether the element at `i` lies in the register-sized group `c`.
pub open spec fn in_group(i: nat, c: nat) -> bool {
    c * (LANE_WIDTH as nat) <= i < c * (LANE_WIDTH as nat) + LANE_WIDTH
}

/// The bit pattern without its sign bit.
pub open spec fn magnitude(bits: u32) -> int {
    if bits < 0x8000_0000 {
        bits as int
    } else {
        bits - 0x8000_0000
    }
}

/// Whether the bit pattern stands for no number.
pub open spec fn is_nan(bits: u32) -> bool {
    magnitude(bits) > 0x7f80_0000
}

/// Two bit patterns that stand for numbers compare as these integers do: the patterns without sign
/// bit go up with the absolute value, and both zeros are equal.
pub open spec fn rank(bits: u32) -> int {
    if bits < 0x8000_0000 {
        magnitude(bits)
    } else {
        -magnitude(bits)
    }
}

/// The similarity that counts for an outcome: none means zero.
pub open spec fn similarity_or_zero(outcome: Result<u32, VectorError>) -> u32 {
    match outcome {
        Ok(bits) => bits,
        Err(_) => 0,
    }
}

fn rank_of(bits: u32) -> (r: i64)
    ensures
        r == rank(bits),
{
    if bits < 0x8000_0000 {
        bits as i64
    } else {
        0x8000_0000 - bits as i64
    }
}

/// Orders ranked items by falling rank.
fn falling_rank(a: &(i64, usize), b: &(i64, usize)) -> (r: Ordering)
    ensures
        a.0 > b.0 <==> r == Ordering::Less,
        a.0 == b.0 <==> r == Ordering::Equal,
        a.0 < b.0 <==> r == Ordering::Greater,
{
    if a.0 > b.0 {
        Ordering::Less
    } else if a.0 == b.0 {
        Ordering::Equal
    } else {
        Ordering::Greater
    }
}

/// `ParallelSliceMut::par_sort_unstable_by` of `rayon`, with the order of falling rank: the items
/// are the same as before, and none comes before one of higher rank. Nothing is said of the order of
/// items of equal rank.
#[verifier::external_body]
fn sort_by_falling_rank(items: &mut Vec<(i64, usize)>)
    ensures
        final(items)@.to_multiset() == old(items)@.to_multiset(),
        forall|i: int, j: int|
            0 <= i < j < final(items)@.len() ==> final(items)@[i].0 >= final(items)@[j].0,
{
    items.par_sort_unstable_by(|a, b| falling_rank(a, b));
}

/// Parallel vector operations for CPU-bound tasks.
pub struct ParallelVectorOps;

/// `top` lists `k` of the similarities, or all if there are fewer, with their indices: no index twice,
/// by falling similarity, and none is left out that is above one in the list.
pub open spec fn is_top_k(
    outcomes: Seq<Result<u32, VectorError>>,
    k: nat,
    top: Seq<(usize, u32)>,
) -> bool {
    &&& top.len() == if k <= outcomes.len() {
        k
    } else {
        outcomes.len()
    }
    &&& forall|i: int|
        0 <= i < top.len() ==> (#[trigger] top[i]).0 < outcomes.len() && top[i].1
            == similarity_or_zero(outcomes[top[i].0 as int])
    &&& forall|i: int, j: int| 0 <= i < j < top.len() ==> top[i].0 != top[j].0
    &&& forall|i: int, j: int| 0 <= i < j < top.len() ==> rank(top[i].1) >= rank(top[j].1)
    &&& forall|n: int, i: int|
        #![trigger outcomes[n], top[i]]
        0 <= n < outcomes.len() && 0 <= i < top.len() && !lists_index(top, n) ==> rank(top[i].1)
            >= rank(similarity_or_zero(outcomes[n]))
}

/// Whether an item of `top` has the index `n`.
pub open spec fn lists_index(top: Seq<(usize, u32)>, n: int) -> bool {
    exists|i: int| 0 <= i < top.len() && #[trigger] top[i].0 == n
}

/// The ranked items of `outcomes`.
spec fn ranked(outcomes: Seq<Result<u32, VectorError>>) -> Seq<(i64, usize)> {
    Seq::new(
        outcomes.len(),
        |i: int| (rank(similarity_or_zero(outcomes[i])) as i64, i as usize),
    )
}

/// Whether an item of `items` has the index `n`.
spec fn ranks_index(items: Seq<(i64, usize)>, n: int) -> bool {
    exists|i: int| 0 <= i < items.len() && (#[trigger] items[i]).1 == n
}

proof fn lemma_sorted_items(
    outcomes: Seq<Result<u32, VectorError>>,
    sorted: Seq<(i64, usize)>,
)
    requires
        outcomes.len() <= usize::MAX,
        sorted.to_multiset() == ranked(outcomes).to_multiset(),
    ensures
        sorted.len() == outcomes.len(),
        forall|i: int|
            0 <= i < sorted.len() ==> (#[trigger] sorted[i]).1 < outcomes.len() && sorted[i].0 == rank(
                similarity_or_zero(outcomes[sorted[i].1 as int]),
            ),
        forall|i: int, j: int|
            0 <= i < j < sorted.len() ==> (#[trigger] sorted[i]).1 != (#[trigger] sorted[j]).1,
        forall|n: int| 0 <= n < outcomes.len() ==> #[trigger] ranks_index(sorted, n),
{
    let items = ranked(outcomes);
    sorted.to_multiset_ensures();
    items.to_multiset_ensures();
    assert(items.no_duplicates()) by {
        assert forall|i: int, j: int| 0 <= i < items.len() && 0 <= j < items.len() && i != j implies items[i]
            != items[j] by {
            assert(items[i].1 == i && items[j].1 == j);
        }
    }
    items.lemma_multiset_has_no_duplicates();
    sorted.lemma_multiset_has_no_duplicates_conv();
    assert forall|i: int| 0 <= i < sorted.len() implies (#[trigger] sorted[i]).1 < outcomes.len()
        && sorted[i].0 == rank(similarity_or_zero(outcomes[sorted[i].1 as int])) by {
        assert(sorted.contains(sorted[i]));
        assert(sorted.to_multiset().count(sorted[i]) > 0);
        assert(items.contains(sorted[i]));
    }
    assert forall|i: int, j: int| 0 <= i < j < sorted.len() implies (#[trigger] sorted[i]).1 != (
    #[trigger] sorted[j]).1 by {
        assert(sorted[i] != sorted[j]);
    }
    assert forall|n: int| 0 <= n < outcomes.len() implies #[trigger] ranks_index(sorted, n) by {
        assert(items.contains(items[n]));
        assert(items.to_multiset().count(items[n]) > 0);
        assert(sorted.contains(items[n]));
        let i = choose|i: int| 0 <= i < sorted.len() && sorted[i] == items[n];
        assert(sorted[i].1 == n);
    }
}

/// The similarities of `outcomes`, all of which were computed.
pub open spec fn similarities(outcomes: Seq<Result<u32, VectorError>>) -> Seq<u32> {
    outcomes.map_values(|outcome: Result<u32, VectorError>| outcome->Ok_0)
}

impl ParallelVectorOps {
    /// The similarities that were computed, or why one of them could not be. Where several could not
    /// be computed, it is the reason of one of them.
    pub fn parallel_batch_similarity(outcomes: Vec<Result<u32, VectorError>>) -> (r: Result<
        Vec<u32>,
        VectorError,
    >)
        ensures
            r is Ok <==> forall|i: int| 0 <= i < outcomes@.len() ==> #[trigger] outcomes@[i] is Ok,
            match r {
                Ok(all) => {
                    &&& all@ == similarities(outcomes@)
                    &&& all@.len() == outcomes@.len()
                    &&& forall|i: int|
                        0 <= i < outcomes@.len() ==> #[trigger] outcomes@[i] == Ok::<u32, VectorError>(
                            all@[i],
                        )
                },
                Err(e) => exists|i: int|
                    0 <= i < outcomes@.len() && #[trigger] outcomes@[i] == Err::<u32, VectorError>(
                        e,
                    ),
            },
    {
        let mut rest = outcomes;
        let n: usize = rest.len();
        let mut all: Vec<u32> = Vec::new();
        let mut i: usize = 0;
        while i < n
            invariant
                i <= n == rest@.len(),
                rest@ == outcomes@,
                forall|j: int| 0 <= j < i ==> #[trigger] outcomes@[j] is Ok,
                all@ == similarities(outcomes@.take(i as int)),
            decreases n - i,
        {
            match &rest[i] {
                Ok(bits) => all.push(*bits),
                Err(_) => {
                    let failed = rest.remove(i);
                    assert(failed == outcomes@[i as int]);
                    match failed {
                        Ok(bits) => all.push(bits),
                        Err(e) => return Err(e),
                    }
                },
            }
            i = i + 1;
            assert(all@ =~= similarities(outcomes@.take(i as int)));
        }
        assert(outcomes@.take(n as int) =~= outcomes@);
        Ok(all)
    }

    /// The implementation that normalizes vectors of any length.
    pub fn parallel_normalize_vectors(cpu: Cpu) -> (r: Kernel)
        ensures
            r == if avx2_available(cpu) {
                Kernel::Avx2
            } else {
                Kernel::Scalar
            },
            r == Kernel::Avx2 <==> cpu == (Cpu::X86_64 { avx2: true, fma: true }),
    {
        if SIMDVectorOps::is_avx2_available(cpu) {
            Kernel::Avx2
        } else {
            Kernel::Scalar
        }
    }

    /// The `k` best of the similarities that were computed, with their indices. A similarity that
    /// could not be computed counts as zero.
    pub fn parallel_top_k_search(outcomes: &Vec<Result<u32, VectorError>>, k: usize) -> (r: Result<
        Vec<(usize, u32)>,
        VectorError,
    >)
        requires
            outcomes@.len() <= 1 || forall|i: int|
                0 <= i < outcomes@.len() ==> !is_nan(similarity_or_zero(#[trigger] outcomes@[i])),
        ensures
            r matches Ok(top) && is_top_k(outcomes@, k as nat, top@),
    {
        let n: usize = outcomes.len();
        let mut items: Vec<(i64, usize)> = Vec::new();
        let mut i: usize = 0;
        while i < n
            invariant
                i <= n == outcomes@.len(),
                items@ == ranked(outcomes@).take(i as int),
            decreases n - i,
        {
            let bits: u32 = match &outcomes[i] {
                Ok(bits) => *bits,
                Err(_) => 0,
            };
            items.push((rank_of(bits), i));
            i = i + 1;
            assert(items@ =~= ranked(outcomes@).take(i as int));
        }
        assert(items@ =~= ranked(outcomes@));
        sort_by_falling_rank(&mut items);
        let ghost sorted = items@;
        proof {
            lemma_sorted_items(outcomes@, sorted);
        }
        items.truncate(k);
        let len: usize = items.len();
        let mut top: Vec<(usize, u32)> = Vec::new();
        let mut j: usize = 0;
        while j < len
            invariant
                j <= len == items@.len() <= sorted.len(),
                items@ == sorted.take(len as int),
                top@.len() == j,
                forall|m: int|
                    0 <= m < sorted.len() ==> (#[trigger] sorted[m]).1 < outcomes@.len() && sorted[m].0
                        == rank(similarity_or_zero(outcomes@[sorted[m].1 as int])),
                forall|m: int|
                    0 <= m < j ==> (#[trigger] top@[m]).0 == sorted[m].1 && top@[m].1
                        == similarity_or_zero(outcomes@[sorted[m].1 as int]),
            decreases len - j,
        {
            let index: usize = items[j].1;
            assert(sorted[j as int].1 == index);
            let bits: u32 = match &outcomes[index] {
                Ok(bits) => *bits,
                Err(_) => 0,
            };
            top.push((index, bits));
            j = j + 1;
        }
        proof {
            assert forall|m: int, i: int|
                #![trigger outcomes@[m], top@[i]]
                0 <= m < outcomes@.len() && 0 <= i < top@.len() && !lists_index(
                    top@,
                    m,
                ) implies rank(top@[i].1) >= rank(similarity_or_zero(outcomes@[m])) by {
                assert(ranks_index(sorted, m));
                let p = choose|p: int| 0 <= p < sorted.len() && (#[trigger] sorted[p]).1 == m;
                if p < len {
                    assert(top@[p].0 == m);
                }
                assert(sorted[i].0 >= sorted[p].0);
            }
        }
        Ok(top)
    }
}

/// The exponent bits of a single-precision number.
pub open spec fn exponent_bits(bits: u32) -> nat {
    bits as nat / 0x80_0000 % 0x100
}

/// The fraction bits of a single-precision number.
pub open spec fn fraction_bits(bits: u32) -> nat {
    bits as nat % 0x80_0000
}

/// The value of a single-precision number without its sign, in units of the smallest one above zero: a
/// number with exponent bits zero is its fraction; any other has a leading one before its fraction, and
/// doubles with every step of its exponent. Infinity comes out above every finite number.
pub open spec fn scaled_size(bits: u32) -> int {
    if exponent_bits(bits) == 0 {
        fraction_bits(bits) as int
    } else {
        ((0x80_0000 + fraction_bits(bits)) * pow2((exponent_bits(bits) - 1) as nat)) as int
    }
}

/// The value of a single-precision number, in units of the smallest one above zero.
pub open spec fn scaled_value(bits: u32) -> int {
    if bits >= 0x8000_0000 {
        -scaled_size(bits)
    } else {
        scaled_size(bits)
    }
}

proof fn lemma_size_grows(a: u32, b: u32)
    requires
        a < b < 0x8000_0000,
    ensures
        0 <= scaled_size(a) < scaled_size(b),
{
    let (ea, fa) = (exponent_bits(a), fraction_bits(a) as int);
    let (eb, fb) = (exponent_bits(b), fraction_bits(b) as int);
    assert(a == ea * 0x80_0000 + fa);
    assert(b == eb * 0x80_0000 + fb);
    assert(ea <= eb);
    if ea > 0 {
        lemma_pow2_pos((ea - 1) as nat);
    }
    if eb > 0 {
        lemma_pow2_pos((eb - 1) as nat);
    }
    if ea == eb {
        if ea > 0 {
            let p = pow2((ea - 1) as nat) as int;
            assert(0 <= (0x80_0000 + fa) * p < (0x80_0000 + fb) * p) by (nonlinear_arith)
                requires
                    0 <= fa < fb,
                    p > 0,
            ;
        }
    } else if ea == 0 {
        let p = pow2((eb - 1) as nat) as int;
        assert((0x80_0000 + fb) * p >= 0x80_0000) by (nonlinear_arith)
            requires
                fb >= 0,
                p >= 1,
        ;
    } else {
        let p = pow2((ea - 1) as nat) as int;
        let q = pow2((eb - 1) as nat) as int;
        lemma_pow2_unfold(ea);
        if ea < eb - 1 {
            lemma_pow2_strictly_increases(ea, (eb - 1) as nat);
        }
        assert(q >= 2 * p);
        assert(0 <= (0x80_0000 + fa) * p < (0x80_0000 + fb) * q) by (nonlinear_arith)
            requires
                0 <= fa < 0x80_0000,
                0 <= fb,
                p > 0,
                q >= 2 * p,
        ;
    }
}

proof fn lemma_size_without_sign(bits: u32)
    requires
        bits >= 0x8000_0000,
    ensures
        scaled_size(bits) == scaled_size((bits - 0x8000_0000) as u32),
{
    let m = (bits - 0x8000_0000) as u32;
    assert(fraction_bits(bits) == fraction_bits(m));
    assert(exponent_bits(bits) == exponent_bits(m));
}

proof fn lemma_size_orders(a: u32, b: u32)
    requires
        a < 0x8000_0000,
        b < 0x8000_0000,
    ensures
        scaled_size(a) >= 0,
        scaled_size(a) < scaled_size(b) <==> a < b,
        scaled_size(a) == 0 <==> a == 0,
{
    if a < b {
        lemma_size_grows(a, b);
    }
    if b < a {
        lemma_size_grows(b, a);
    }
    if 0 < a {
        lemma_size_grows(0, a);
    }
}

/// The order of ranks is the order of the numbers: of two patterns that stand for numbers, one has the
/// lower rank exactly if its value is less. Turning the sign of a number turns that of its rank, and
/// both zeros have rank zero.
pub proof fn law_rank_is_numeric_order(a: u32, b: u32)
    requires
        !(exponent_bits(a) == 255 && fraction_bits(a) > 0),
        !(exponent_bits(b) == 255 && fraction_bits(b) > 0),
    ensures
        rank(a) < rank(b) <==> scaled_value(a) < scaled_value(b),
        rank(a) == rank(b) <==> scaled_value(a) == scaled_value(b),
        a < b < 0x8000_0000 ==> rank(a) < rank(b),
        a < 0x8000_0000 ==> rank((a + 0x8000_0000) as u32) == -rank(a),
        rank(0) == 0,
        rank(0x8000_0000) == 0,
{
    let ma = if a >= 0x8000_0000 {
        lemma_size_without_sign(a);
        (a - 0x8000_0000) as u32
    } else {
        a
    };
    let mb = if b >= 0x8000_0000 {
        lemma_size_without_sign(b);
        (b - 0x8000_0000) as u32
    } else {
        b
    };
    lemma_size_orders(ma, mb);
    lemma_size_orders(mb, ma);
}

/// A pattern stands for no number exactly if all its exponent bits are set and its fraction is not zero.
pub proof fn law_what_is_no_number(bits: u32)
    ensures
        is_nan(bits) <==> exponent_bits(bits) == 255 && fraction_bits(bits) > 0,
{
    let m = magnitude(bits);
    assert(fraction_bits(bits) == m % 0x80_0000);
    assert(exponent_bits(bits) == m / 0x80_0000);
}

/// The similarity that counts for an outcome: the one that was computed, or zero if none was.
pub open spec fn counts_as(outcome: Result<u32, VectorError>, bits: u32) -> bool {
    outcome == Ok::<u32, VectorError>(bits) || (outcome is Err && bits == 0)
}

/// A search for the best: it lists as many as were asked for, or all if there are fewer; each with an
/// index of its own and with the similarity that was computed for that index, or zero if none was; by
/// falling value; and whatever is left out has a value no greater than any in the list. With at least as
/// many asked for as there are, nothing is left out.
pub proof fn law_top_k_are_the_best(
    outcomes: Seq<Result<u32, VectorError>>,
    k: nat,
    top: Seq<(usize, u32)>,
)
    requires
        is_top_k(outcomes, k, top),
        outcomes.len() <= 1 || forall|i: int|
            0 <= i < outcomes.len() ==> !is_nan(similarity_or_zero(#[trigger] outcomes[i])),
    ensures
        top.len() <= k,
        top.len() <= outcomes.len(),
        top.len() == k || top.len() == outcomes.len(),
        forall|i: int|
            0 <= i < top.len() ==> (#[trigger] top[i]).0 < outcomes.len() && counts_as(
                outcomes[top[i].0 as int],
                top[i].1,
            ),
        forall|i: int, j: int|
            0 <= i < j < top.len() ==> top[i].0 != top[j].0 && scaled_value(top[i].1)
                >= scaled_value(top[j].1),
        forall|n: int, bits: u32, i: int|
            #![trigger counts_as(outcomes[n], bits), top[i]]
            0 <= n < outcomes.len() && 0 <= i < top.len() && counts_as(outcomes[n], bits) && (forall|
                j: int,
            |
                0 <= j < top.len() ==> (#[trigger] top[j]).0 != n) ==> scaled_value(top[i].1)
                >= scaled_value(bits),
{
    assert forall|i: int, j: int| 0 <= i < j < top.len() implies top[i].0 != top[j].0
        && scaled_value(top[i].1) >= scaled_value(top[j].1) by {
        law_what_is_no_number(top[i].1);
        law_what_is_no_number(top[j].1);
        assert(!is_nan(similarity_or_zero(outcomes[top[i].0 as int])));
        assert(!is_nan(similarity_or_zero(outcomes[top[j].0 as int])));
        law_rank_is_numeric_order(top[i].1, top[j].1);
    }
    assert forall|n: int, bits: u32, i: int|
        #![trigger counts_as(outcomes[n], bits), top[i]]
        0 <= n < outcomes.len() && 0 <= i < top.len() && counts_as(outcomes[n], bits) && (forall|
            j: int,
        |
            0 <= j < top.len() ==> (#[trigger] top[j]).0 != n) implies scaled_value(top[i].1)
        >= scaled_value(bits) by {
        assert(bits == similarity_or_zero(outcomes[n]));
        assert(!lists_index(top, n));
        assert(outcomes.len() > 1) by {
            assert(top[i].0 != n);
        }
        law_what_is_no_number(top[i].1);
        law_what_is_no_number(bits);
        assert(!is_nan(similarity_or_zero(outcomes[top[i].0 as int])));
        law_rank_is_numeric_order(top[i].1, bits);
    }
}

/// Vectors are taken in groups of eight, as many as there are, and fewer than eight elements are left.
pub proof fn law_groups_of_eight(len: nat)
    ensures
        lanes_of(len).1 == 8 * lanes_of(len).0,
        lanes_of(len).1 <= len,
        len - lanes_of(len).1 < 8,
{
}

/// Vector instructions are there exactly on a processor of the right architecture that has both sets.
pub proof fn law_both_instruction_sets(avx2: bool, fma: bool)
    ensures
        avx2_available(Cpu::X86_64 { avx2, fma }) <==> avx2 && fma,
        !avx2_available(Cpu::Other),
{
}

/// Where every similarity was computed, the result of a batch has one for each outcome, and it is just the one
/// that was computed, sign and all.
pub proof fn law_batch_gives_the_outcomes(outcomes: Seq<Result<u32, VectorError>>, i: int)
    requires
        forall|j: int| 0 <= j < outcomes.len() ==> #[trigger] outcomes[j] is Ok,
    ensures
        similarities(outcomes).len() == outcomes.len(),
        0 <= i < outcomes.len() ==> outcomes[i] == Ok::<u32, VectorError>(similarities(outcomes)[i]),
{
}

} // verus!
