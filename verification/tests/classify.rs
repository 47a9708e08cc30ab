use canvascli::api::canvas::{classify, Calendar, Course, CourseStatus};
use canvascli::time::Timestamp;

fn course(id: u64, name: &str, end_at: Option<Timestamp>) -> Course {
    Course {
        id,
        name: name.to_string(),
        start_at: None,
        end_at,
        calendar: Calendar { ics: format!("https://example.edu/feeds/{}.ics", id) },
    }
}

#[test]
fn classify_end_before_now_is_inactive() {
    let now = Timestamp::new(1_700_000_000, 0);
    let c = course(1, "CS101", Some(Timestamp::new(1_699_999_999, 999_999_999)));
    assert_eq!(classify(&c, now), CourseStatus::Inactive);
}

#[test]
fn classify_end_exactly_now_is_active() {
    let now = Timestamp::new(1_700_000_000, 5);
    let c = course(1, "CS101", Some(Timestamp::new(1_700_000_000, 5)));
    assert_eq!(classify(&c, now), CourseStatus::Active);
}

#[test]
fn classify_end_after_now_is_active() {
    let now = Timestamp::new(1_700_000_000, 5);
    let c = course(1, "CS101", Some(Timestamp::new(1_700_000_000, 6)));
    assert_eq!(classify(&c, now), CourseStatus::Active);
}

#[test]
fn classify_without_end_is_unknown() {
    let now = Timestamp::new(1_700_000_000, 0);
    let c = course(1, "CS101", None);
    assert_eq!(classify(&c, now), CourseStatus::Unknown);
}

#[test]
fn classify_ignores_the_start() {
    let now = Timestamp::new(100, 0);
    let mut c = course(1, "CS101", Some(Timestamp::new(200, 0)));
    c.start_at = Some(Timestamp::new(150, 0));
    assert_eq!(classify(&c, now), CourseStatus::Active);
}

#[test]
fn classify_before_the_epoch() {
    let now = Timestamp::new(-5, 0);
    assert_eq!(classify(&course(1, "Old", Some(Timestamp::new(-6, 999_999_999))), now), CourseStatus::Inactive);
    assert_eq!(classify(&course(1, "Old", Some(Timestamp::new(-5, 0))), now), CourseStatus::Active);
}

#[test]
fn is_active_at_follows_classify() {
    let now = Timestamp::new(1_700_000_000, 0);
    assert!(course(1, "A", Some(Timestamp::new(1_700_000_000, 0))).is_active_at(now));
    assert!(!course(1, "A", Some(Timestamp::new(1_699_999_999, 0))).is_active_at(now));
    assert!(!course(1, "A", None).is_active_at(now));
}

#[test]
fn is_active_reads_the_clock() {
    // 1970 is over and the year 9999 has not begun on any machine that runs this.
    assert!(!course(1, "Past", Some(Timestamp::new(0, 0))).is_active());
    assert!(course(2, "Future", Some(Timestamp::new(253_402_300_799, 0))).is_active());
    assert!(!course(3, "Open", None).is_active());
}

#[test]
fn timestamp_order_is_by_seconds_then_nanoseconds() {
    let a = Timestamp::new(10, 500);
    assert!(a.is_before(&Timestamp::new(11, 0)));
    assert!(a.is_before(&Timestamp::new(10, 501)));
    assert!(!a.is_before(&Timestamp::new(10, 500)));
    assert!(!a.is_before(&Timestamp::new(10, 499)));
    assert!(!a.is_before(&Timestamp::new(9, 999_999_999)));
    assert!(Timestamp::new(i64::MIN, 0).is_before(&Timestamp::new(i64::MAX, u32::MAX)));
}

#[test]
fn label_shows_name_and_identifier() {
    assert_eq!(course(1, "CS101", None).label(), "CS101 (ID: 1)");
    assert_eq!(course(18_446_744_073_709_551_615, "", None).label(), " (ID: 18446744073709551615)");
}

#[test]
fn is_active_at_the_last_instant_whatever_the_clock_says() {
    assert!(course(4, "Forever", Some(Timestamp::new(i64::MAX, u32::MAX))).is_active());
}
