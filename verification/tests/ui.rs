use crater_ohos::time::Timestamp;
use crater_ohos::ui::format_duration;
use crater_ohos::ui::routes::{estimate, Estimate};

#[test]
fn durations_as_people_read_them() {
    let cases = [
        (0, "0s"),
        (59, "59s"),
        (60, "1m 0s"),
        (61, "1m 1s"),
        (3599, "59m 59s"),
        (3600, "1h 0m"),
        (3661, "1h 1m"),
        (86399, "23h 59m"),
        (86400, "1d 0h"),
        (90000, "1d 1h"),
        (31_536_000, "365d 0h"),
        (-5, "-5s"),
        (-3600, "-3600s"),
        (i64::MAX, "106751991167300d 15h"),
        (i64::MIN, "-9223372036854775808s"),
    ];
    for (seconds, text) in cases {
        assert_eq!(format_duration(seconds), text, "{}", seconds);
    }
}

#[test]
fn estimates() {
    let at = |s: i64| Timestamp::new(s, 0).unwrap();
    // Nothing to do.
    assert_eq!(
        estimate(0, 0, None, at(10)),
        Estimate { percentage: 0, average_task_seconds: None, estimated_remaining_seconds: None }
    );
    // Not started: no average, no estimate.
    assert_eq!(
        estimate(3, 10, None, at(10)),
        Estimate { percentage: 30, average_task_seconds: None, estimated_remaining_seconds: None }
    );
    // Started, nothing done yet.
    assert_eq!(
        estimate(0, 10, Some(at(0)), at(10)),
        Estimate { percentage: 0, average_task_seconds: None, estimated_remaining_seconds: None }
    );
    // 4 of 10 done in 100 seconds: 25 seconds each, 150 seconds to go.
    assert_eq!(
        estimate(4, 10, Some(at(0)), at(100)),
        Estimate {
            percentage: 40,
            average_task_seconds: Some(25),
            estimated_remaining_seconds: Some(150)
        }
    );
    // The average is in whole seconds.
    assert_eq!(
        estimate(3, 4, Some(at(0)), at(100)),
        Estimate {
            percentage: 75,
            average_task_seconds: Some(33),
            estimated_remaining_seconds: Some(33)
        }
    );
    // All done: an average, nothing to estimate.
    assert_eq!(
        estimate(10, 10, Some(at(0)), at(100)),
        Estimate {
            percentage: 100,
            average_task_seconds: Some(10),
            estimated_remaining_seconds: None
        }
    );
    // A clock that is behind the start.
    assert_eq!(
        estimate(2, 4, Some(at(100)), at(95)),
        Estimate {
            percentage: 50,
            average_task_seconds: Some(-2),
            estimated_remaining_seconds: Some(-4)
        }
    );
    let huge = estimate(1, usize::MAX, Some(at(-62_135_596_800)), at(253_402_300_799));
    assert_eq!(huge.percentage, 0);
    assert_eq!(huge.average_task_seconds, Some(315_537_897_599));
    assert_eq!(
        huge.estimated_remaining_seconds,
        Some(315_537_897_599i128 * (usize::MAX as i128 - 1))
    );
}
