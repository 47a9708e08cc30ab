use canvascli::api::canvas::{Calendar, Course};
use canvascli::error::Error;
use canvascli::filter::{contains_id, keep, resolve, select, Criterion, Probe};
use canvascli::order::{comes_before, sort_courses};
use canvascli::time::Timestamp;

const NOW: i64 = 1_700_000_000;

fn now() -> Timestamp {
    Timestamp::new(NOW, 0)
}

fn past() -> Option<Timestamp> {
    Some(Timestamp::new(NOW - 86_400, 0))
}

fn future() -> Option<Timestamp> {
    Some(Timestamp::new(NOW + 86_400, 0))
}

fn course(id: u64, name: &str, end_at: Option<Timestamp>) -> Course {
    Course { id, name: name.to_string(), start_at: None, end_at, calendar: Calendar { ics: format!("feed-{}", id) } }
}

fn snapshot() -> Vec<Course> {
    vec![course(1, "CS101", past()), course(2, "CS202", future())]
}

#[test]
fn scenario_active_only_returns_course_two() {
    assert_eq!(select(&snapshot(), &Criterion::ActiveOnly, now()), Ok(vec![course(2, "CS202", future())]));
}

#[test]
fn scenario_all_returns_both_in_remote_order() {
    assert_eq!(select(&snapshot(), &Criterion::All, now()), Ok(snapshot()));
    let reversed = vec![course(2, "CS202", future()), course(1, "CS101", past())];
    assert_eq!(select(&reversed, &Criterion::All, now()), Ok(vec![course(2, "CS202", future()), course(1, "CS101", past())]));
}

#[test]
fn scenario_by_identifier_name_returns_course_one() {
    assert_eq!(select(&snapshot(), &Criterion::ByIdentifier("CS101".to_string()), now()), Ok(vec![course(1, "CS101", past())]));
}

#[test]
fn default_criterion_is_active_only() {
    assert_eq!(Criterion::default(), Criterion::ActiveOnly);
}

#[test]
fn active_only_leaves_out_courses_without_end() {
    let courses = vec![course(1, "A", None), course(2, "B", future()), course(3, "C", Some(now()))];
    assert_eq!(select(&courses, &Criterion::ActiveOnly, now()), Ok(vec![course(2, "B", future()), course(3, "C", Some(now()))]));
}

#[test]
fn by_identifier_matches_the_number() {
    assert_eq!(select(&snapshot(), &Criterion::ByIdentifier("2".to_string()), now()), Ok(vec![course(2, "CS202", future())]));
}

#[test]
fn by_identifier_number_must_be_written_exactly() {
    assert_eq!(select(&snapshot(), &Criterion::ByIdentifier("02".to_string()), now()), Err(Error::NotFound));
    assert_eq!(select(&snapshot(), &Criterion::ByIdentifier("+2".to_string()), now()), Err(Error::NotFound));
    assert_eq!(select(&snapshot(), &Criterion::ByIdentifier(" 2".to_string()), now()), Err(Error::NotFound));
}

#[test]
fn by_identifier_name_ignores_ascii_case() {
    assert_eq!(select(&snapshot(), &Criterion::ByIdentifier("cs202".to_string()), now()), Ok(vec![course(2, "CS202", future())]));
}

#[test]
fn by_identifier_name_must_match_in_full() {
    assert_eq!(select(&snapshot(), &Criterion::ByIdentifier("CS".to_string()), now()), Err(Error::NotFound));
    assert_eq!(select(&snapshot(), &Criterion::ByIdentifier("CS1010".to_string()), now()), Err(Error::NotFound));
}

#[test]
fn by_identifier_unknown_is_not_found() {
    assert_eq!(select(&snapshot(), &Criterion::ByIdentifier("MATH1".to_string()), now()), Err(Error::NotFound));
    assert_eq!(select(&vec![], &Criterion::ByIdentifier("1".to_string()), now()), Err(Error::NotFound));
}

#[test]
fn by_identifier_ambiguous_name_is_an_error() {
    let courses = vec![course(1, "Seminar", past()), course(2, "seminar", future()), course(3, "Other", future())];
    assert_eq!(select(&courses, &Criterion::ByIdentifier("SEMINAR".to_string()), now()), Err(Error::AmbiguousSelection));
}

#[test]
fn by_identifier_number_wins_over_name() {
    let courses = vec![course(7, "12", past()), course(12, "Twelve", future())];
    assert_eq!(resolve(&courses, &"12".to_string()), Ok(course(12, "Twelve", future())));
    let named = vec![course(7, "12", past()), course(13, "Thirteen", future())];
    assert_eq!(resolve(&named, &"12".to_string()), Ok(course(7, "12", past())));
}

#[test]
fn by_identifier_number_resolves_an_ambiguous_name() {
    let courses = vec![course(1, "Seminar", past()), course(2, "Seminar", future())];
    assert_eq!(resolve(&courses, &"2".to_string()), Ok(course(2, "Seminar", future())));
}

#[test]
fn user_filtered_keeps_chosen_in_snapshot_order() {
    let courses = vec![course(3, "C", past()), course(1, "A", None), course(2, "B", future())];
    assert_eq!(select(&courses, &Criterion::UserFiltered(vec![2, 3, 99]), now()), Ok(vec![course(3, "C", past()), course(2, "B", future())]));
    assert_eq!(select(&courses, &Criterion::UserFiltered(vec![]), now()), Ok(vec![]));
}

#[test]
fn selection_from_empty_snapshot_is_empty() {
    assert_eq!(select(&vec![], &Criterion::All, now()), Ok(vec![]));
    assert_eq!(select(&vec![], &Criterion::ActiveOnly, now()), Ok(vec![]));
}

#[test]
fn keep_by_probe() {
    let courses = snapshot();
    assert_eq!(keep(&courses, &Probe::Active(now())), vec![course(2, "CS202", future())]);
    assert_eq!(keep(&courses, &Probe::Chosen(&vec![1])), vec![course(1, "CS101", past())]);
    assert_eq!(keep(&courses, &Probe::Identifier(&"1".to_string())), vec![course(1, "CS101", past())]);
    assert_eq!(keep(&courses, &Probe::Name(&"cs101".to_string())), vec![course(1, "CS101", past())]);
    assert!(contains_id(&vec![4, 5], 5));
    assert!(!contains_id(&vec![4, 5], 6));
}

#[test]
fn sort_puts_latest_end_first_and_open_ended_last() {
    let courses = vec![course(1, "A", past()), course(2, "B", None), course(3, "C", future()), course(4, "D", Some(now()))];
    assert_eq!(sort_courses(courses), vec![course(3, "C", future()), course(4, "D", Some(now())), course(1, "A", past()), course(2, "B", None)]);
}

#[test]
fn sort_is_stable() {
    let courses = vec![course(1, "A", None), course(2, "B", past()), course(3, "C", None), course(4, "D", past())];
    assert_eq!(sort_courses(courses), vec![course(2, "B", past()), course(4, "D", past()), course(1, "A", None), course(3, "C", None)]);
}

#[test]
fn sort_of_nothing_and_of_one() {
    assert_eq!(sort_courses(vec![]), vec![]);
    assert_eq!(sort_courses(vec![course(1, "A", None)]), vec![course(1, "A", None)]);
}

#[test]
fn comes_before_compares_ends() {
    assert!(comes_before(&course(1, "A", future()), &course(2, "B", past())));
    assert!(!comes_before(&course(1, "A", past()), &course(2, "B", future())));
    assert!(comes_before(&course(1, "A", past()), &course(2, "B", None)));
    assert!(!comes_before(&course(1, "A", None), &course(2, "B", past())));
    assert!(!comes_before(&course(1, "A", None), &course(2, "B", None)));
    assert!(!comes_before(&course(1, "A", past()), &course(2, "B", past())));
}
