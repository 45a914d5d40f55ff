use short_duration::present;
use short_duration::units::Duration;

const MINUTE: f64 = 60.0;
const HOUR: f64 = 3600.0;
const DAY: f64 = 86400.0;
const WEEK: f64 = DAY * 7.0;
const YEAR: f64 = DAY * 365.2425;

fn shown(seconds: f64) -> String {
    let ticks: u64 = (seconds * 10_000.0).round() as u64;
    present(Duration::from_ticks(ticks))
}

#[test]
fn test_basic_formats() {
    assert_eq!("000ms", shown(0.0));
    assert_eq!("016ms", shown(0.0156));
    assert_eq!("2.07s", shown(2.07));
    assert_eq!("12.3s", shown(12.33));
    assert_eq!("2m32s", shown(151.67));
    assert_eq!("7h07m", shown((7.0 * HOUR) + (7.0 * MINUTE) + 10.0));
    assert_eq!("3d00h", shown((3.0 * DAY) + 74.0));
    assert_eq!("01w4d", shown(11.0 * DAY));
    assert_eq!("77w1d", shown((75.0 * WEEK) + (15.0 * DAY)));
    assert_eq!("2y21w", shown((2.0 * YEAR) + (147.0 * DAY)));
    assert_eq!("0082y", shown(30000.0 * DAY));
}

#[test]
fn test_year_boundaries() {
    // The year rounds up at exactly 51w4d02h54m36s past a whole year:
    // the leftover tail is then half of END_OF_YEAR.
    let base: f64 = (1.0 * YEAR) + (51.0 * WEEK) + (4.0 * DAY);
    let offset: f64 = (2.0 * HOUR) + (54.0 * MINUTE) + 36.0;

    assert_eq!("1y51w", shown(base));
    assert_eq!("1y51w", shown(base + offset - 1.0));
    assert_eq!("2y00w", shown(base + offset));

    // Just before ten years the same seam instead leaves the
    // years-with-weeks bucket altogether.
    let almost_ten: f64 = (9.0 * YEAR) + (51.0 * WEEK) + (4.0 * DAY);
    assert_eq!("9y51w", shown(almost_ten));
    assert_eq!("9y51w", shown(almost_ten + offset - 0.0001));
    assert_eq!("0010y", shown(almost_ten + offset));
}

#[test]
fn test_transitions() {
    assert_eq!("999ms", shown(0.9994));
    assert_eq!("1.00s", shown(0.9995));

    assert_eq!("9.99s", shown(9.9949));
    assert_eq!("10.0s", shown(9.995));

    assert_eq!("99.9s", shown(99.949));
    assert_eq!("1m40s", shown(99.95));

    assert_eq!("9m59s", shown(599.49));
    assert_eq!("0h10m", shown(599.5));

    assert_eq!("9h59m", shown((599.0 * MINUTE) + 29.9));
    assert_eq!("0d10h", shown((599.0 * MINUTE) + 30.0));

    assert_eq!("9d23h", shown((239.0 * HOUR) + 1799.0));
    assert_eq!("01w3d", shown((239.0 * HOUR) + 1800.0));

    let base: f64 = (699.0 * DAY) + (12.0 * HOUR);
    assert_eq!("99w6d", shown(base - 1.0));
    assert_eq!("1y48w", shown(base));
}

#[test]
fn test_overflow_bucket() {
    assert_eq!("9999y", shown((9999.5 * YEAR) - 1.0));
    assert_eq!("10ky+", shown(9999.5 * YEAR));
    assert_eq!("10ky+", shown(1.0e12));
    assert_eq!("10ky+", present(Duration::from_ticks(u64::MAX)));
}

#[test]
fn test_half_millisecond_edge() {
    // Below half a millisecond the zero literal applies; at half a
    // millisecond the milliseconds pattern still shows 000 (ties round
    // to even), and one tick later it shows 001.
    assert_eq!("000ms", present(Duration::from_ticks(4)));
    assert_eq!("000ms", present(Duration::from_ticks(5)));
    assert_eq!("001ms", present(Duration::from_ticks(6)));
}

#[test]
fn test_from_seconds() {
    assert_eq!("1m40s", present(Duration::from_seconds(100)));
    assert_eq!("0082y", present(Duration::from_seconds(30000 * 86400)));
}
