use winlock::policy::GRACE_INTERVAL_MS;
use winlock::{policy_value, value_enables, write_result, PolicyError};

#[test]
fn the_persisted_value_is_set_where_the_native_lock_is_disabled() {
    assert_eq!(policy_value(true), 0);
    assert_eq!(policy_value(false), 1);
}

#[test]
fn the_persisted_value_reads_back_as_it_was_asked_for() {
    assert!(value_enables(policy_value(true)));
    assert!(!value_enables(policy_value(false)));
    assert!(value_enables(0));
    assert!(!value_enables(1));
    assert!(!value_enables(2));
}

#[test]
fn a_status_of_zero_is_a_write_that_succeeded() {
    assert_eq!(write_result(0), Ok(()));
}

#[test]
fn every_other_status_is_the_native_error_code() {
    assert_eq!(write_result(5), Err(PolicyError { code: 5 }));
    assert_eq!(write_result(2), Err(PolicyError { code: 2 }));
    assert_eq!(write_result(0x7FFF_FFFF), Err(PolicyError { code: i32::MAX }));
    assert_eq!(write_result(0x8000_0000), Err(PolicyError { code: i32::MIN }));
    assert_eq!(write_result(0x8007_0005), Err(PolicyError { code: -2147024891 }));
    assert_eq!(write_result(u32::MAX), Err(PolicyError { code: -1 }));
}

#[test]
fn the_grace_interval_is_half_a_second() {
    assert_eq!(GRACE_INTERVAL_MS, 500);
}

#[test]
fn writing_the_same_value_twice_leaves_what_one_write_leaves() {
    for before in [0u32, 1] {
        for enabled in [true, false] {
            let once = policy_value(enabled);
            let twice = {
                let _first = policy_value(enabled);
                policy_value(enabled)
            };
            assert_eq!(once, twice);
            assert_eq!(value_enables(twice), enabled);
            assert_eq!(value_enables(once), value_enables(twice));
            let _ = before;
        }
    }
}
