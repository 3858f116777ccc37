use troyonthetrails::text::{i64_to_string, u64_to_string};
use troyonthetrails::utils::{count_to_times_human_readable, minutes_to_human_readable};

#[test]
fn durations_read_as_hours_and_minutes() {
    assert_eq!(minutes_to_human_readable(0), "0 minutes");
    assert_eq!(minutes_to_human_readable(59), "0 minutes");
    assert_eq!(minutes_to_human_readable(60), "1 minute");
    assert_eq!(minutes_to_human_readable(119), "1 minute");
    assert_eq!(minutes_to_human_readable(120), "2 minutes");
    assert_eq!(minutes_to_human_readable(3599), "59 minutes");
    assert_eq!(minutes_to_human_readable(3600), "1 hour");
    assert_eq!(minutes_to_human_readable(3660), "1 hour, 1 minute");
    assert_eq!(minutes_to_human_readable(5400), "1 hour, 30 minute");
    assert_eq!(minutes_to_human_readable(7200), "2 hours");
    assert_eq!(minutes_to_human_readable(7260), "2 hours, 1 minutes");
    assert_eq!(minutes_to_human_readable(9000), "2 hours, 30 minutes");
    assert_eq!(minutes_to_human_readable(360000), "100 hours");
}

#[test]
fn negative_durations_keep_their_sign() {
    assert_eq!(minutes_to_human_readable(-59), "0 minutes");
    assert_eq!(minutes_to_human_readable(-60), "-1 minutes");
    assert_eq!(minutes_to_human_readable(-3600), "-1 hours");
    assert_eq!(minutes_to_human_readable(-3660), "-1 hours, -1 minutes");
    assert_eq!(
        minutes_to_human_readable(i64::MIN),
        "-2562047788015215 hours, -30 minutes"
    );
    assert_eq!(
        minutes_to_human_readable(i64::MAX),
        "2562047788015215 hours, 30 minutes"
    );
}

#[test]
fn counts_read_as_times() {
    assert_eq!(count_to_times_human_readable(0), "");
    assert_eq!(count_to_times_human_readable(1), "1 time");
    assert_eq!(count_to_times_human_readable(2), "2 times");
    assert_eq!(count_to_times_human_readable(-1), "-1 times");
    assert_eq!(count_to_times_human_readable(i32::MAX), "2147483647 times");
    assert_eq!(count_to_times_human_readable(i32::MIN), "-2147483648 times");
}

#[test]
fn integers_are_written_in_decimal() {
    for n in [0u64, 7, 10, 99, 100, 12345, u64::MAX] {
        assert_eq!(u64_to_string(n), n.to_string());
    }
    for i in [0i64, -1, 1, -10, 42, i64::MIN, i64::MAX] {
        assert_eq!(i64_to_string(i), i.to_string());
    }
}
