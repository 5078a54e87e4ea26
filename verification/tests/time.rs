use libvelocity::Timestamp;
use libvelocity::Validity;

#[test]
fn timestamp_counts_nanoseconds_since_the_epoch() {
    assert_eq!(Timestamp::from_unix(0, 0).as_nanos(), 0);
    assert_eq!(Timestamp::from_unix(1, 1).as_nanos(), 1_000_000_001);
    assert_eq!(Timestamp::from_unix(12, 345_678_901).as_nanos(), 12_345_678_901);
    assert_eq!(
        Timestamp::from_unix(u64::MAX, u32::MAX).as_nanos(),
        u64::MAX as u128 * 1_000_000_000 + u32::MAX as u128
    );
}

#[test]
fn nanoseconds_beyond_a_second_carry_over() {
    assert_eq!(Timestamp::from_unix(1, 2_000_000_000), Timestamp::from_unix(3, 0));
    assert_eq!(Validity::new(1, 2_000_000_000).as_nanos(), 3_000_000_000);
}

#[test]
fn unix_secs_drops_what_is_left_of_a_second() {
    assert_eq!(Timestamp::from_unix(0, 999_999_999).unix_secs(), 0);
    assert_eq!(Timestamp::from_unix(41, 999_999_999).unix_secs(), 41);
    assert_eq!(Timestamp::from_unix(42, 0).unix_secs(), 42);
    assert_eq!(Timestamp::from_unix(u64::MAX, 0).unix_secs(), u64::MAX as u128);
}

#[test]
fn validity_counts_nanoseconds() {
    assert_eq!(Validity::from_secs(10).as_nanos(), 10_000_000_000);
    assert_eq!(Validity::new(10, 5).as_nanos(), 10_000_000_005);
    assert_eq!(Validity::from_secs(0).as_nanos(), 0);
    assert_eq!(Validity::from_secs(10).as_nanos(), Validity::new(10, 0).as_nanos());
}

#[test]
fn plus_adds_the_validity() {
    let t = Timestamp::from_unix(100, 999_999_999).plus(Validity::new(10, 1));
    assert_eq!(t, Timestamp::from_unix(111, 0));
    assert_eq!(t.as_nanos(), 111_000_000_000);
}

#[test]
fn is_before_is_strict() {
    let a = Timestamp::from_unix(5, 0);
    let b = Timestamp::from_unix(5, 1);
    assert!(a.is_before(&b));
    assert!(!b.is_before(&a));
    assert!(!a.is_before(&a));
}

#[test]
fn now_reads_a_clock_that_moves_on() {
    let first = Timestamp::now();
    let second = Timestamp::now();
    assert!(!second.is_before(&first));
    // 2020-01-01T00:00:00Z
    assert!(first.unix_secs() > 1_577_836_800);
    assert!(first.as_nanos() <= u64::MAX as u128 * 1_000_000_000 + 999_999_999);
}

#[test]
fn now_keeps_the_part_below_a_second() {
    let mut seen = false;
    for _ in 0..1_000 {
        if Timestamp::now().as_nanos() % 1_000_000_000 != 0 {
            seen = true;
            break;
        }
    }
    assert!(seen);
}

#[test]
fn clock_behind_the_epoch_reads_as_the_epoch() {
    assert_eq!(Timestamp::from_elapsed(None), Timestamp::from_unix(0, 0));
    assert_eq!(Timestamp::from_elapsed(None).as_nanos(), 0);
    assert_eq!(Timestamp::from_elapsed(Some((0, 0))).as_nanos(), 0);
    assert_eq!(Timestamp::from_elapsed(Some((12, 345_678_901))).as_nanos(), 12_345_678_901);
    assert_eq!(
        Timestamp::from_elapsed(Some((u64::MAX, 999_999_999))).as_nanos(),
        u64::MAX as u128 * 1_000_000_000 + 999_999_999
    );
}
