//! Statistics of one bucket of samples.
use vstd::prelude::*;

verus! {

/// The largest square of an `i32` sample: `(-2^31)^2`.
pub const MAX_SQUARE: u128 = 0x4000_0000_0000_0000;

/// Running minimum of `s`, folded left to right from a seed of zero.
pub open spec fn seeded_min(s: Seq<i32>) -> int
    decreases s.len(),
{
    if s.len() == 0 {
        0
    } else {
        let m = seeded_min(s.drop_last());
        if (s.last() as int) < m {
            s.last() as int
        } else {
            m
        }
    }
}

/// Running maximum of `s`, folded left to right from a seed of zero.
pub open spec fn seeded_max(s: Seq<i32>) -> int
    decreases s.len(),
{
    if s.len() == 0 {
        0
    } else {
        let m = seeded_max(s.drop_last());
        if (s.last() as int) > m {
            s.last() as int
        } else {
            m
        }
    }
}

/// Sum of the squares of the values of `s`.
pub open spec fn sum_squares(s: Seq<i32>) -> int
    decreases s.len(),
{
    if s.len() == 0 {
        0
    } else {
        sum_squares(s.drop_last()) + (s.last() as int) * (s.last() as int)
    }
}

/// Summary of one bucket. The RMS energy of the bucket is
/// `sqrt(sum_squares / count)`.
#[derive(Debug, Clone, Copy, PartialEq, Eq, Structural)]
pub struct SampleOverview {
    pub min: i32,
    pub max: i32,
    pub sum_squares: u128,
    pub count: u32,
}

/// `o` is the summary of the bucket `w`.
pub open spec fn summarizes(o: SampleOverview, w: Seq<i32>) -> bool {
    &&& o.min as int == seeded_min(w)
    &&& o.max as int == seeded_max(w)
    &&& o.sum_squares as int == sum_squares(w)
    &&& o.count as int == w.len()
}

/// With the zero seed, a bucket of negative samples reports a maximum of
/// zero, and a bucket of positive samples reports a minimum of zero.
pub proof fn lemma_zero_seed(s: Seq<i32>)
    ensures
        (forall|j: int| 0 <= j < s.len() ==> s[j] < 0) ==> seeded_max(s) == 0,
        (forall|j: int| 0 <= j < s.len() ==> s[j] > 0) ==> seeded_min(s) == 0,
    decreases s.len(),
{
    if s.len() > 0 {
        let p = s.drop_last();
        lemma_zero_seed(p);
        assert(forall|j: int| 0 <= j < p.len() ==> p[j] == s[j]);
        assert(s.last() == s[s.len() - 1]);
    }
}

/// The zero seed bounds every bucket: its minimum is at most zero and its
/// maximum at least zero, so the minimum never exceeds the maximum.
pub proof fn lemma_seeded_bounds(s: Seq<i32>)
    ensures
        seeded_min(s) <= 0 <= seeded_max(s),
    decreases s.len(),
{
    if s.len() > 0 {
        lemma_seeded_bounds(s.drop_last());
    }
}

proof fn lemma_square_bound(v: i32)
    ensures
        0 <= (v as int) * (v as int) <= MAX_SQUARE,
{
    assert(0 <= (v as int) * (v as int) <= 0x4000_0000_0000_0000) by (nonlinear_arith)
        requires
            -0x8000_0000 <= v as int <= 0x7fff_ffff,
    ;
}

/// Summarises the `len` samples of `samples` that start at `start`.
pub fn summarize_bucket(samples: &Vec<i32>, start: usize, len: u32) -> (r: SampleOverview)
    requires
        start + len <= samples@.len(),
    ensures
        summarizes(r, samples@.subrange(start as int, start + len)),
{
    let ghost s = samples@;
    let mut min: i32 = 0;
    let mut max: i32 = 0;
    let mut acc: u128 = 0;
    let mut j: u32 = 0;
    while j < len
        invariant
            s == samples@,
            start + len <= s.len(),
            j <= len,
            min as int == seeded_min(s.subrange(start as int, start + j)),
            max as int == seeded_max(s.subrange(start as int, start + j)),
            acc as int == sum_squares(s.subrange(start as int, start + j)),
            acc <= (j as u128) * MAX_SQUARE,
        decreases len - j,
    {
        let ghost before = s.subrange(start as int, start + j);
        assert(start + j < samples.len());
        let v = samples[start + j as usize];
        proof {
            let after = s.subrange(start as int, start + j + 1);
            assert(after.drop_last() =~= before);
            assert(after.last() == v);
            lemma_square_bound(v);
        }
        if v < min {
            min = v;
        }
        if v > max {
            max = v;
        }
        let sq = ((v as i64) * (v as i64)) as u128;
        acc = acc + sq;
        j = j + 1;
    }
    SampleOverview { min, max, sum_squares: acc, count: len }
}

} // verus!
