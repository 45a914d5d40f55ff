use short_duration::arith::round_to_nearest;
use short_duration::arith::split;
use short_duration::bucket::Bucket;
use short_duration::bucket::select_bucket;
use short_duration::present;
use short_duration::seam::correct_year_week;
use short_duration::units::Duration;

// One sample from each bucket, in increasing order (ticks).
fn bucket_samples() -> Vec<u64> {
    vec![
        0,                         // 000ms
        156,                       // 016ms
        20_700,                    // 2.07s
        123_300,                   // 12.3s
        1_516_700,                 // 2m32s
        256_300_000,               // 7h07m
        2_592_740_000,             // 3d00h
        9_504_000_000,             // 01w4d
        758_147_040_000,           // 2y21w
        25_920_000_000_000,        // 0082y
        3_155_537_415_240_000,     // 10ky+
    ]
}

#[test]
fn test_exactly_one_bucket_each() {
    let expected: Vec<Bucket> = vec![
        Bucket::ZeroMs,
        Bucket::Millis,
        Bucket::CentiSeconds,
        Bucket::DeciSeconds,
        Bucket::Minutes,
        Bucket::Hours,
        Bucket::Days,
        Bucket::Weeks,
        Bucket::YearsWeeks,
        Bucket::Years,
        Bucket::Overflow,
    ];
    let samples = bucket_samples();
    for (i, &t) in samples.iter().enumerate() {
        assert_eq!(expected[i], select_bucket(Duration::from_ticks(t)));
    }
}

#[test]
fn test_coarsening_is_monotonic() {
    // Dense sweep around every bucket limit, plus the bucket samples.
    let limits: Vec<u64> = vec![
        5,
        9_995,
        99_950,
        999_500,
        5_995_000,
        359_700_000,
        8_622_000_000,
        604_368_000_000,
        3_152_134_440_000,
        3_155_537_415_240_000,
    ];
    let mut points: Vec<u64> = bucket_samples();
    for &l in limits.iter() {
        points.push(l - 1);
        points.push(l);
        points.push(l + 1);
    }
    points.sort();
    let mut prev: Bucket = Bucket::ZeroMs;
    for &t in points.iter() {
        let b = select_bucket(Duration::from_ticks(t));
        assert!(prev <= b);
        prev = b;
    }
}

#[test]
fn test_reconstruction_tolerance() {
    // (ticks, greater unit, lesser unit) for the four paired buckets.
    let cases: Vec<(u64, u64, u64)> = vec![
        (1_516_700, 600_000, 10_000),          // 2m32s
        (256_300_000, 36_000_000, 600_000),    // 7h07m
        (2_592_740_000, 864_000_000, 36_000_000),  // 3d00h
        (9_504_000_000, 6_048_000_000, 864_000_000),  // 01w4d
    ];
    for &(t, greater, lesser) in cases.iter() {
        let (major, rem) = split(t, greater);
        let minor = round_to_nearest(rem, lesser);
        let recon: u64 = major * greater + minor * lesser;
        let err: u64 = if recon > t { recon - t } else { t - recon };
        assert!(2 * err <= lesser);
    }
}

#[test]
fn test_week_field_saturated() {
    // March across the whole years-with-weeks bucket in odd steps and
    // check the displayed fields always fit their widths.
    let start: u64 = 604_368_000_000;
    let end: u64 = 3_152_134_440_000;
    let step: u64 = 2_000_000_001;
    let mut t: u64 = start;
    while t < end {
        let (y, w) = correct_year_week(t);
        assert!(y <= 9);
        assert!(w <= 51);
        t += step;
    }
    let (y, w) = correct_year_week(end - 1);
    assert!(y == 9 && w == 51);
}

#[test]
fn test_rendered_width_is_five() {
    let samples = bucket_samples();
    for &t in samples.iter() {
        assert_eq!(5, present(Duration::from_ticks(t)).len());
    }
}
