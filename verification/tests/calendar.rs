use spam_db::calendar::{
    is_older_than, slot_for, start_of_day, DAYS_TO_KEEP, RETENTION_WINDOW, SECONDS_PER_DAY,
    SLOT_GRACE, SLOT_GRACE_DAYS,
};

#[test]
fn constants_have_their_documented_values() {
    assert_eq!(DAYS_TO_KEEP, 60);
    assert_eq!(SECONDS_PER_DAY, 86_400);
    assert_eq!(SLOT_GRACE_DAYS, 10);
    assert_eq!(RETENTION_WINDOW, 5_184_000);
    assert_eq!(SLOT_GRACE, 864_000);
}

#[test]
fn slot_for_is_the_day_modulo_sixty() {
    assert_eq!(slot_for(0), 0);
    assert_eq!(slot_for(86_399), 0);
    assert_eq!(slot_for(86_400), 1);
    assert_eq!(slot_for(5 * 86_400 + 17), 5);
    assert_eq!(slot_for(59 * 86_400 + 86_399), 59);
    assert_eq!(slot_for(1_700_000_000), 55);
}

#[test]
fn slot_for_wraps_after_sixty_days() {
    assert_eq!(slot_for(60 * 86_400), 0);
    assert_eq!(slot_for(65 * 86_400), 5);
    assert_eq!(slot_for(125 * 86_400 + 1), 5);
    for day in 0..600u64 {
        let t = day * 86_400 + 4_321;
        assert_eq!(slot_for(t), slot_for(t + 60 * 86_400));
        assert_eq!(slot_for(t + 86_400), (slot_for(t) + 1) % 60);
    }
}

#[test]
fn slot_for_takes_every_timestamp() {
    assert_eq!(slot_for(u64::MAX), (u64::MAX / 86_400) % 60);
    assert!(slot_for(u64::MAX) < 60);
    assert!(slot_for(u64::MAX - 86_400) < 60);
}

#[test]
fn start_of_day_is_midnight_of_the_same_day() {
    assert_eq!(start_of_day(0), 0);
    assert_eq!(start_of_day(3_600), 0);
    assert_eq!(start_of_day(86_399), 0);
    assert_eq!(start_of_day(86_400), 86_400);
    assert_eq!(start_of_day(61 * 86_400 + 5), 61 * 86_400);
    assert_eq!(start_of_day(1_700_000_000), 1_699_920_000);
    assert_eq!(start_of_day(u64::MAX), u64::MAX - u64::MAX % 86_400);
}

#[test]
fn is_older_than_is_strict() {
    assert!(!is_older_than(100, 100, 0));
    assert!(is_older_than(100, 101, 0));
    assert!(!is_older_than(0, 5_184_000, 5_184_000));
    assert!(is_older_than(0, 5_184_001, 5_184_000));
    assert!(!is_older_than(1_000, 865_000, 864_000));
    assert!(is_older_than(1_000, 865_001, 864_000));
}

#[test]
fn is_older_than_never_holds_of_a_later_write() {
    assert!(!is_older_than(200, 100, 0));
    assert!(!is_older_than(u64::MAX, 0, 10));
    assert!(!is_older_than(u64::MAX, u64::MAX, 0));
    assert!(is_older_than(0, u64::MAX, u64::MAX - 1));
    assert!(!is_older_than(0, u64::MAX, u64::MAX));
}
