use waveform_overview::bucket::{summarize_bucket, SampleOverview};
use waveform_overview::error::SummaryError;
use waveform_overview::summary::{
    decimate, resolve_samples_per_bucket, Fraction, ResolutionRequest, StreamMetadata,
    WavFileSummary, DEFAULT_SAMPLES_PER_BUCKET, DEFAULT_TARGET_WIDTH,
};

fn meta(sample_rate: u32, sample_count: u32) -> StreamMetadata {
    StreamMetadata { sample_rate, bit_depth: 16, sample_count }
}

fn request(samples_per_bucket: u32, target_width: u32) -> ResolutionRequest {
    ResolutionRequest { samples_per_bucket, target_width }
}

fn run(samples: &Vec<i32>, spb: u32, width: u32) -> WavFileSummary {
    decimate(
        String::from("clip.wav"),
        samples,
        meta(44100, samples.len() as u32),
        request(spb, width),
    )
    .unwrap()
}

fn rms(o: &SampleOverview) -> f64 {
    (o.sum_squares as f64 / o.count as f64).sqrt()
}

#[test]
fn bucket_count_is_floor_of_length_over_size() {
    let samples: Vec<i32> = (1..=10).collect();
    let s = run(&samples, 3, 800);
    assert_eq!(s.samples_length, 3);
    assert_eq!(s.samples.len(), 3);
    // the last bucket ends at sample 9; sample 10 is in none
    assert_eq!(s.samples[2].max, 9);
    assert_eq!(s.samples[2].sum_squares, 49 + 64 + 81);
    assert!(s.samples.iter().all(|o| o.max < 10));
}

#[test]
fn exact_multiple_keeps_every_sample() {
    let samples: Vec<i32> = vec![1, 2, 3, 4, 5, 6];
    let s = run(&samples, 2, 800);
    assert_eq!(s.samples_length, 3);
    assert_eq!(s.samples[2], SampleOverview { min: 0, max: 6, sum_squares: 61, count: 2 });
}

#[test]
fn rms_of_three_and_minus_four() {
    let samples: Vec<i32> = vec![3, -4];
    let o = summarize_bucket(&samples, 0, 2);
    assert_eq!(o.sum_squares, 25);
    assert_eq!(o.count, 2);
    assert!((rms(&o) - 3.5355339).abs() < 1e-6);
}

#[test]
fn negative_bucket_reports_zero_max() {
    let samples: Vec<i32> = vec![-5, -2, -9];
    let o = summarize_bucket(&samples, 0, 3);
    assert_eq!(o.max, 0);
    assert_eq!(o.min, -9);
}

#[test]
fn positive_bucket_reports_zero_min() {
    let samples: Vec<i32> = vec![4, 1, 7];
    let o = summarize_bucket(&samples, 0, 3);
    assert_eq!(o.min, 0);
    assert_eq!(o.max, 7);
}

#[test]
fn extreme_samples_do_not_overflow() {
    let samples: Vec<i32> = vec![i32::MIN, i32::MAX, i32::MIN];
    let o = summarize_bucket(&samples, 0, 3);
    assert_eq!(o.min, i32::MIN);
    assert_eq!(o.max, i32::MAX);
    let big = (i32::MIN as i128 * i32::MIN as i128) as u128;
    let top = (i32::MAX as i128 * i32::MAX as i128) as u128;
    assert_eq!(o.sum_squares, 2 * big + top);
}

#[test]
fn bucket_starting_mid_stream() {
    let samples: Vec<i32> = vec![100, -3, 2, 50];
    let o = summarize_bucket(&samples, 1, 2);
    assert_eq!(o, SampleOverview { min: -3, max: 2, sum_squares: 13, count: 2 });
}

#[test]
fn auto_resolution_truncates() {
    assert_eq!(resolve_samples_per_bucket(request(0, 800), 8000), Ok(10));
    assert_eq!(resolve_samples_per_bucket(request(0, 800), 8005), Ok(10));
    assert_eq!(resolve_samples_per_bucket(request(250, 800), 8005), Ok(250));
}

#[test]
fn auto_resolution_in_summary() {
    let samples: Vec<i32> = vec![1; 8005];
    let s = run(&samples, 0, 800);
    assert_eq!(s.samples_per_pixel, 10);
    assert_eq!(s.samples_length, 800);
}

#[test]
fn auto_resolution_below_width_gives_no_buckets() {
    let samples: Vec<i32> = vec![1; 10];
    let s = run(&samples, 0, 800);
    assert_eq!(s.samples_per_pixel, 0);
    assert_eq!(s.samples_length, 0);
    assert!(s.samples.is_empty());
}

#[test]
fn zero_width_with_auto_resolution_is_rejected() {
    assert_eq!(
        resolve_samples_per_bucket(request(0, 0), 8000),
        Err(SummaryError::InvalidResolution)
    );
    let samples: Vec<i32> = vec![1, 2, 3];
    let r = decimate(String::from("a"), &samples, meta(8000, 3), request(0, 0));
    assert_eq!(r.unwrap_err(), SummaryError::InvalidResolution);
}

#[test]
fn empty_input_has_no_buckets() {
    let samples: Vec<i32> = Vec::new();
    let s = run(&samples, 250, 800);
    assert_eq!(s.samples_length, 0);
    assert!(s.samples.is_empty());
    assert_eq!(s.processed_time_duration, Fraction { numerator: 0, denominator: 1 });
    assert_eq!(s.time_duration, Fraction { numerator: 0, denominator: 44100 });
}

#[test]
fn zero_sample_rate_is_rejected() {
    let samples: Vec<i32> = vec![1, 2, 3, 4];
    for req in [request(2, 800), request(0, 0), request(0, 800)] {
        let r = decimate(String::from("a"), &samples, meta(0, 4), req);
        assert_eq!(r.unwrap_err(), SummaryError::InvalidMetadata);
    }
}

#[test]
fn durations_are_exact_fractions() {
    let samples: Vec<i32> = vec![0; 2000];
    let r = decimate(String::from("song.wav"), &samples, meta(1000, 2000), request(500, 800));
    let s = r.unwrap();
    assert_eq!(s.source_file, "song.wav");
    assert_eq!(s.sample_rate, 1000);
    assert_eq!(s.bits, 16);
    assert_eq!(s.time_duration, Fraction { numerator: 2000, denominator: 1000 });
    // (2 s / 4 buckets) * 800
    assert_eq!(
        s.processed_time_duration,
        Fraction { numerator: 2000 * 800, denominator: 1000 * 4 }
    );
}

#[test]
fn two_thousand_samples_in_buckets_of_five_hundred() {
    let samples: Vec<i32> = (0..2000).map(|i| (i % 7) as i32 + 1).collect();
    let s = run(&samples, 500, 800);
    assert_eq!(s.samples_length, 4);
    assert_eq!(s.samples[0].min, 0);
    assert_eq!(s.samples[0].max, 7);
    assert_eq!(s.samples[0].count, 500);
}

#[test]
fn default_request_values() {
    let r = ResolutionRequest::default();
    assert_eq!(r.samples_per_bucket, DEFAULT_SAMPLES_PER_BUCKET);
    assert_eq!(r.target_width, DEFAULT_TARGET_WIDTH);
    assert_eq!(r, request(250, 800));
}
