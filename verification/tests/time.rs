use statime::messages::{TimeInterval, Timestamp};
use statime::time::{Duration, Instant, LOCAL_LIMIT, UNITS_PER_NANO, UNITS_PER_SECOND};

fn log_interval(log: i8) -> i128 {
    Duration::from_log_interval(log).units
}

#[test]
fn log_intervals() {
    assert_eq!(UNITS_PER_SECOND, 1_000_000_000 * UNITS_PER_NANO);
    assert_eq!(log_interval(0), UNITS_PER_SECOND);
    assert_eq!(log_interval(3), 8 * UNITS_PER_SECOND);
    assert_eq!(log_interval(-1), 500_000_000 * UNITS_PER_NANO);
    assert_eq!(log_interval(65), UNITS_PER_SECOND << 65);
    assert_eq!(log_interval(-41), 1_953_125);
}

#[test]
fn short_log_intervals_are_rounded() {
    // Half a unit more than an even number of units.
    assert_eq!(log_interval(-42), 976_562);
    assert_eq!(log_interval(-43), 488_281);
    assert_eq!(log_interval(-62), 1);
    assert_eq!(log_interval(-63), 0);
    assert_eq!(log_interval(-64), 0);
    assert_eq!(log_interval(-128), 0);
}

#[test]
fn log_intervals_agree_with_floating_point() {
    for log in -128i8..=65 {
        let nanos = 2.0f64.powi(log as i32) * 1_000_000_000.0;
        let units = nanos * UNITS_PER_NANO as f64;
        let expected = if units % 1.0 == 0.5 {
            2.0 * (units / 2.0).round()
        } else {
            units.round()
        };
        assert_eq!(log_interval(log), expected as i128);
    }
}

#[test]
fn arithmetic_of_times() {
    let a = Instant { units: 10 };
    let b = Instant { units: -4 };
    let d = a.since(b);
    assert_eq!(d, Duration { units: 14 });
    assert_eq!(b.plus(d), a);
    assert_eq!(a.minus(d), b);
    assert_eq!(d.plus(d), Duration { units: 28 });
    assert_eq!(d.minus(Duration { units: 20 }), Duration { units: -6 });
    assert_eq!(d.negated(), Duration { units: -14 });
    assert_eq!(d.halved(), Duration { units: 7 });
    assert_eq!(Duration { units: 7 }.halved(), Duration { units: 3 });
    assert_eq!(Duration { units: -7 }.halved(), Duration { units: -3 });
    assert_eq!(Instant::default(), Instant { units: 0 });
}

#[test]
fn local_times_are_limited() {
    assert_eq!(LOCAL_LIMIT, 1 << 122);
    assert!(Instant { units: LOCAL_LIMIT }.check_local());
    assert!(Instant {
        units: -LOCAL_LIMIT
    }
    .check_local());
    assert!(!Instant {
        units: LOCAL_LIMIT + 1
    }
    .check_local());
    assert!(!Instant {
        units: -LOCAL_LIMIT - 1
    }
    .check_local());
}

#[test]
fn times_of_messages() {
    let t = Timestamp {
        seconds: 2,
        nanos: 5,
    };
    assert_eq!(t.to_instant().units, 2_000_000_005 * UNITS_PER_NANO);
    assert_eq!(
        Timestamp::default(),
        Timestamp {
            seconds: 0,
            nanos: 0
        }
    );
    let i = TimeInterval {
        scaled_nanos: -0x1_8000,
    };
    assert_eq!(i.to_duration().units, -UNITS_PER_NANO * 3 / 2);
}
