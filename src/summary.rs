//! Decimation of a sample stream into a waveform summary.
use vstd::prelude::*;
use vstd::arithmetic::div_mod::{lemma_fundamental_div_mod, lemma_mod_pos_bound};

use crate::bucket::{summarize_bucket, summarizes, SampleOverview};
use crate::error::SummaryError;

verus! {

/// Bucket size used when the caller does not choose one.
pub const DEFAULT_SAMPLES_PER_BUCKET: u32 = 250;

/// Number of buckets (pixels) asked for when the caller does not choose one.
pub const DEFAULT_TARGET_WIDTH: u32 = 800;

/// What the decoder reports about a stream.
#[derive(Debug, Clone, Copy, PartialEq, Eq, Structural)]
pub struct StreamMetadata {
    pub sample_rate: u32,
    pub bit_depth: u16,
    pub sample_count: u32,
}

/// The resolution a caller asks for. A `samples_per_bucket` of zero asks for
/// a bucket size computed from `target_width`.
#[derive(Debug, Clone, Copy, PartialEq, Eq, Structural)]
pub struct ResolutionRequest {
    pub samples_per_bucket: u32,
    pub target_width: u32,
}

impl Default for ResolutionRequest {
    fn default() -> (r: ResolutionRequest)
        ensures
            r.samples_per_bucket == DEFAULT_SAMPLES_PER_BUCKET,
            r.target_width == DEFAULT_TARGET_WIDTH,
    {
        ResolutionRequest {
            samples_per_bucket: DEFAULT_SAMPLES_PER_BUCKET,
            target_width: DEFAULT_TARGET_WIDTH,
        }
    }
}

/// A duration in seconds, kept exactly as `numerator / denominator`.
#[derive(Debug, Clone, Copy, PartialEq, Eq, Structural)]
pub struct Fraction {
    pub numerator: u128,
    pub denominator: u128,
}

/// The waveform overview of one stream.
#[derive(Debug)]
pub struct WavFileSummary {
    pub source_file: String,
    pub sample_rate: u32,
    pub bits: u16,
    /// The bucket size actually used.
    pub samples_per_pixel: u32,
    /// Length of the whole stream.
    pub time_duration: Fraction,
    /// Time per bucket scaled by the requested target width.
    pub processed_time_duration: Fraction,
    /// Number of buckets.
    pub samples_length: usize,
    /// One summary per bucket, in stream order.
    pub samples: Vec<SampleOverview>,
}

/// Whether `request` can be resolved to a bucket size.
pub open spec fn resolvable(request: ResolutionRequest) -> bool {
    request.samples_per_bucket != 0 || request.target_width != 0
}

/// The bucket size that `request` resolves to for a stream of
/// `sample_count` samples: the requested size, or else the stream length
/// divided by the target width, truncated.
pub open spec fn resolved_size(request: ResolutionRequest, sample_count: u32) -> int
    recommends
        resolvable(request),
{
    if request.samples_per_bucket == 0 {
        sample_count as int / request.target_width as int
    } else {
        request.samples_per_bucket as int
    }
}

/// Number of complete buckets of size `b` in `n` samples; none when `b` is zero.
pub open spec fn bucket_count(n: int, b: int) -> int {
    if b > 0 {
        n / b
    } else {
        0
    }
}

/// The samples of the bucket at `index` when buckets hold `b` samples.
pub open spec fn bucket_window(s: Seq<i32>, b: int, index: int) -> Seq<i32> {
    s.subrange(index * b, index * b + b)
}

/// The target width times the time per bucket; zero without buckets.
pub open spec fn processed_duration(
    metadata: StreamMetadata,
    request: ResolutionRequest,
    buckets: int,
) -> Fraction {
    if buckets == 0 {
        Fraction { numerator: 0, denominator: 1 }
    } else {
        Fraction {
            numerator: (metadata.sample_count as int * request.target_width as int) as u128,
            denominator: (metadata.sample_rate as int * buckets) as u128,
        }
    }
}

/// `r` is the summary of the stream `samples`, named `source`, described by
/// `metadata` and cut at the resolution `request`.
pub open spec fn summary_of(
    r: WavFileSummary,
    source: Seq<char>,
    samples: Seq<i32>,
    metadata: StreamMetadata,
    request: ResolutionRequest,
) -> bool {
    let b = resolved_size(request, metadata.sample_count);
    &&& r.source_file@ == source
    &&& r.sample_rate == metadata.sample_rate
    &&& r.bits == metadata.bit_depth
    &&& r.samples_per_pixel as int == b
    &&& r.time_duration == (Fraction {
        numerator: metadata.sample_count as u128,
        denominator: metadata.sample_rate as u128,
    })
    &&& r.samples_length as int == r.samples@.len()
    &&& r.samples@.len() == bucket_count(samples.len() as int, b)
    &&& forall|i: int|
        0 <= i < r.samples@.len() ==> #[trigger] summarizes(
            r.samples@[i],
            bucket_window(samples, b, i),
        )
    &&& r.processed_time_duration == processed_duration(metadata, request, r.samples@.len() as int)
}

/// Every bucket lies in the first `n - n % b` samples: the last `n % b`
/// samples of a stream belong to no bucket.
pub proof fn lemma_buckets_exclude_tail(n: int, b: int, index: int)
    requires
        n >= 0,
        b > 0,
        0 <= index < bucket_count(n, b),
    ensures
        0 <= index * b,
        index * b + b <= n - n % b,
{
    lemma_fundamental_div_mod(n, b);
    lemma_mod_pos_bound(n, b);
    let q = n / b;
    assert(0 <= index * b && index * b + b <= b * q) by (nonlinear_arith)
        requires
            0 <= index < q,
            b > 0,
    ;
}

/// A stream without samples has no buckets, and its derived duration is
/// zero rather than a division by zero.
pub proof fn lemma_empty_stream(
    r: WavFileSummary,
    source: Seq<char>,
    metadata: StreamMetadata,
    request: ResolutionRequest,
)
    requires
        summary_of(r, source, Seq::<i32>::empty(), metadata, request),
    ensures
        r.samples_length == 0,
        r.samples@ == Seq::<SampleOverview>::empty(),
        r.processed_time_duration == (Fraction { numerator: 0, denominator: 1 }),
{
    assert(r.samples@ =~= Seq::<SampleOverview>::empty());
}

/// Resolves the bucket size of `request` for a stream of `sample_count`
/// samples.
pub fn resolve_samples_per_bucket(request: ResolutionRequest, sample_count: u32) -> (r: Result<
    u32,
    SummaryError,
>)
    ensures
        r is Ok <==> resolvable(request),
        r is Ok ==> r->Ok_0 as int == resolved_size(request, sample_count),
        r is Err ==> r->Err_0 == SummaryError::InvalidResolution,
{
    if request.samples_per_bucket != 0 {
        Ok(request.samples_per_bucket)
    } else if request.target_width == 0 {
        Err(SummaryError::InvalidResolution)
    } else {
        Ok(sample_count / request.target_width)
    }
}

/// Cuts `samples` into buckets at the resolution `request` and summarises
/// each complete bucket. A trailing partial bucket is dropped. Fails when the
/// sample rate is zero, whatever else is given, and otherwise when the
/// request cannot be resolved.
pub fn decimate(
    source: String,
    samples: &Vec<i32>,
    metadata: StreamMetadata,
    request: ResolutionRequest,
) -> (r: Result<WavFileSummary, SummaryError>)
    ensures
        metadata.sample_rate == 0 ==> r == Err::<WavFileSummary, SummaryError>(
            SummaryError::InvalidMetadata,
        ),
        metadata.sample_rate != 0 && !resolvable(request) ==> r == Err::<
            WavFileSummary,
            SummaryError,
        >(SummaryError::InvalidResolution),
        r is Ok <==> metadata.sample_rate != 0 && resolvable(request),
        r is Ok ==> summary_of(r->Ok_0, source@, samples@, metadata, request),
{
    if metadata.sample_rate == 0 {
        return Err(SummaryError::InvalidMetadata);
    }
    let b = match resolve_samples_per_bucket(request, metadata.sample_count) {
        Ok(b) => b,
        Err(e) => {
            return Err(e);
        },
    };
    let ghost s = samples@;
    let n = samples.len();
    let count: usize = if b == 0 {
        0
    } else {
        n / (b as usize)
    };
    let mut buckets: Vec<SampleOverview> = Vec::new();
    let mut k: usize = 0;
    while k < count
        invariant
            s == samples@,
            n == s.len(),
            count as int == bucket_count(n as int, b as int),
            k <= count,
            buckets@.len() == k,
            forall|i: int|
                0 <= i < k ==> #[trigger] summarizes(
                    buckets@[i],
                    bucket_window(s, b as int, i),
                ),
        decreases count - k,
    {
        proof {
            lemma_buckets_exclude_tail(n as int, b as int, k as int);
            lemma_mod_pos_bound(n as int, b as int);
        }
        let start = k * (b as usize);
        let o = summarize_bucket(samples, start, b);
        buckets.push(o);
        k = k + 1;
    }
    let time_duration = Fraction {
        numerator: metadata.sample_count as u128,
        denominator: metadata.sample_rate as u128,
    };
    let processed_time_duration = if count == 0 {
        Fraction { numerator: 0, denominator: 1 }
    } else {
        proof {
            assert((metadata.sample_rate as int) * (count as int) <= 0xffff_ffff_ffff_ffff_ffff_ffff_ffff_ffff) by (nonlinear_arith)
                requires
                    metadata.sample_rate <= 0xffff_ffff,
                    count <= 0xffff_ffff_ffff_ffff,
            ;
            assert((metadata.sample_count as int) * (request.target_width as int) <= 0xffff_ffff_ffff_ffff_ffff_ffff_ffff_ffff) by (nonlinear_arith)
                requires
                    metadata.sample_count <= 0xffff_ffff,
                    request.target_width <= 0xffff_ffff,
            ;
        }
        Fraction {
            numerator: (metadata.sample_count as u128) * (request.target_width as u128),
            denominator: (metadata.sample_rate as u128) * (count as u128),
        }
    };
    Ok(
        WavFileSummary {
            source_file: source,
            sample_rate: metadata.sample_rate,
            bits: metadata.bit_depth,
            samples_per_pixel: b,
            time_duration,
            processed_time_duration,
            samples_length: count,
            samples: buckets,
        },
    )
}

} // verus!
