use canvascli::error::Error;
use canvascli::fingerprint::fingerprint;
use canvascli::publisher::{
    artifact_location, find_by_numeral, find_record, has_distinct_records, has_placed_records,
    list_published, plan_publish, publish,
    publish_many, unpublish, ArtifactWrite, Delivery, PublishPlan, PublishRecord, PublishStatus,
    Receipt, Submission,
};
use canvascli::time::Timestamp;

fn at(secs: i64) -> Timestamp {
    Timestamp::new(secs, 0)
}

fn ics(text: &str) -> Vec<u8> {
    text.as_bytes().to_vec()
}

fn record(course_id: u64, content: &str, secs: i64) -> PublishRecord {
    PublishRecord {
        course_id,
        location: format!("course-{}.ics", course_id),
        published_at: at(secs),
        fingerprint: fingerprint(&ics(content)),
    }
}

fn written(content: &str) -> Delivery {
    Delivery::Fetched { payload: ics(content), artifact: ArtifactWrite::Written }
}

fn skipped(content: &str) -> Delivery {
    Delivery::Fetched { payload: ics(content), artifact: ArtifactWrite::Skipped }
}

fn failed(content: &str) -> Delivery {
    Delivery::Fetched { payload: ics(content), artifact: ArtifactWrite::Failed }
}

#[test]
fn artifact_name_is_fixed_by_the_identifier() {
    assert_eq!(artifact_location(42), "course-42.ics");
    assert_eq!(artifact_location(0), "course-0.ics");
    assert_eq!(artifact_location(u64::MAX), "course-18446744073709551615.ics");
}

#[test]
fn plan_for_unpublished_course_asks_for_a_write() {
    let plan = plan_publish(&vec![], 7, &ics("v1"));
    assert_eq!(plan, PublishPlan { course_id: 7, location: "course-7.ics".to_string(), fingerprint: fingerprint(&ics("v1")), write_artifact: true });
}

#[test]
fn plan_for_unchanged_content_skips_the_write() {
    let records = vec![record(7, "v1", 10)];
    assert!(!plan_publish(&records, 7, &ics("v1")).write_artifact);
    assert!(plan_publish(&records, 7, &ics("v2")).write_artifact);
    assert!(plan_publish(&records, 8, &ics("v1")).write_artifact);
}

#[test]
fn publish_first_time_adds_a_record() {
    let mut records = vec![];
    let outcome = publish(&mut records, 7, &written("v1"), at(100));
    assert_eq!(outcome, Ok(Receipt { status: PublishStatus::Published, record: record(7, "v1", 100) }));
    assert_eq!(records, vec![record(7, "v1", 100)]);
}

#[test]
fn publish_twice_unchanged_keeps_one_record_and_its_fingerprint() {
    let mut records = vec![];
    let first = publish(&mut records, 7, &written("v1"), at(100)).unwrap();
    let second = publish(&mut records, 7, &skipped("v1"), at(200)).unwrap();
    assert_eq!(second.status, PublishStatus::Unchanged);
    assert_eq!(second.record.fingerprint, first.record.fingerprint);
    assert_eq!(second.record.location, first.record.location);
    assert_eq!(second.record.published_at, at(200));
    assert_eq!(records, vec![record(7, "v1", 200)]);
}

#[test]
fn publish_twice_unchanged_with_the_artifact_written_again_is_still_unchanged() {
    let mut records = vec![record(7, "v1", 100)];
    let outcome = publish(&mut records, 7, &written("v1"), at(200));
    assert_eq!(outcome, Ok(Receipt { status: PublishStatus::Unchanged, record: record(7, "v1", 200) }));
    assert_eq!(records.len(), 1);
}

#[test]
fn publish_changed_content_replaces_the_record_in_place() {
    let mut records = vec![record(1, "a", 1), record(7, "v1", 100), record(9, "z", 2)];
    let outcome = publish(&mut records, 7, &written("v2"), at(300));
    assert_eq!(outcome, Ok(Receipt { status: PublishStatus::Published, record: record(7, "v2", 300) }));
    assert_eq!(records, vec![record(1, "a", 1), record(7, "v2", 300), record(9, "z", 2)]);
}

#[test]
fn publish_with_failed_write_is_io_error_and_commits_nothing() {
    let mut records = vec![record(7, "v1", 100)];
    assert_eq!(publish(&mut records, 7, &failed("v2"), at(300)), Err(Error::Io));
    assert_eq!(records, vec![record(7, "v1", 100)]);
    let mut none = vec![];
    assert_eq!(publish(&mut none, 7, &failed("v1"), at(300)), Err(Error::Io));
    assert_eq!(none, vec![]);
}

#[test]
fn publish_with_skipped_write_of_new_content_is_io_error() {
    let mut records = vec![record(7, "v1", 100)];
    assert_eq!(publish(&mut records, 7, &skipped("v2"), at(300)), Err(Error::Io));
    assert_eq!(publish(&mut records, 8, &skipped("v1"), at(300)), Err(Error::Io));
    assert_eq!(records, vec![record(7, "v1", 100)]);
}

#[test]
fn publish_hands_a_fetch_failure_on() {
    let mut records = vec![record(7, "v1", 100)];
    assert_eq!(publish(&mut records, 7, &Delivery::FetchFailed(Error::Network), at(300)), Err(Error::Network));
    assert_eq!(publish(&mut records, 7, &Delivery::FetchFailed(Error::Auth), at(300)), Err(Error::Auth));
    assert_eq!(publish(&mut records, 7, &Delivery::FetchFailed(Error::Parse), at(300)), Err(Error::Parse));
    assert_eq!(records, vec![record(7, "v1", 100)]);
}

#[test]
fn publish_many_isolates_failures_and_keeps_input_order() {
    let mut records = vec![record(2, "b", 50)];
    let batch = vec![
        Submission { course_id: 1, delivery: written("a") },
        Submission { course_id: 2, delivery: Delivery::FetchFailed(Error::Network) },
        Submission { course_id: 3, delivery: failed("c") },
        Submission { course_id: 2, delivery: skipped("b") },
        Submission { course_id: 4, delivery: written("d") },
    ];
    let outcomes = publish_many(&mut records, &batch, at(100));
    assert_eq!(
        outcomes,
        vec![
            Ok(Receipt { status: PublishStatus::Published, record: record(1, "a", 100) }),
            Err(Error::Network),
            Err(Error::Io),
            Ok(Receipt { status: PublishStatus::Unchanged, record: record(2, "b", 100) }),
            Ok(Receipt { status: PublishStatus::Published, record: record(4, "d", 100) }),
        ]
    );
    assert_eq!(records, vec![record(2, "b", 100), record(1, "a", 100), record(4, "d", 100)]);
}

#[test]
fn publish_many_sees_what_earlier_submissions_left() {
    let mut records = vec![];
    let batch = vec![
        Submission { course_id: 1, delivery: written("a") },
        Submission { course_id: 1, delivery: skipped("a") },
    ];
    let outcomes = publish_many(&mut records, &batch, at(5));
    assert_eq!(outcomes[0].as_ref().unwrap().status, PublishStatus::Published);
    assert_eq!(outcomes[1].as_ref().unwrap().status, PublishStatus::Unchanged);
    assert_eq!(records, vec![record(1, "a", 5)]);
}

#[test]
fn publish_many_of_nothing() {
    let mut records = vec![record(1, "a", 1)];
    assert_eq!(publish_many(&mut records, &vec![], at(5)), vec![]);
    assert_eq!(records, vec![record(1, "a", 1)]);
}

#[test]
fn publish_then_unpublish_leaves_no_record() {
    let mut records = vec![record(1, "a", 1)];
    publish(&mut records, 7, &written("v1"), at(100)).unwrap();
    assert_eq!(unpublish(&mut records, 7), Ok(record(7, "v1", 100)));
    assert_eq!(list_published(&records), vec![record(1, "a", 1)]);
    assert_eq!(find_record(&records, 7), records.len());
}

#[test]
fn unpublish_never_published_is_an_error_and_alters_nothing() {
    let mut records = vec![record(1, "a", 1), record(2, "b", 2)];
    assert_eq!(unpublish(&mut records, 7), Err(Error::NotPublished));
    assert_eq!(records, vec![record(1, "a", 1), record(2, "b", 2)]);
    let mut none: Vec<PublishRecord> = vec![];
    assert_eq!(unpublish(&mut none, 7), Err(Error::NotPublished));
}

#[test]
fn unpublish_twice_fails_the_second_time() {
    let mut records = vec![record(7, "v1", 100)];
    assert!(unpublish(&mut records, 7).is_ok());
    assert_eq!(unpublish(&mut records, 7), Err(Error::NotPublished));
}

#[test]
fn unpublish_keeps_the_order_of_the_others() {
    let mut records = vec![record(1, "a", 1), record(2, "b", 2), record(3, "c", 3)];
    assert_eq!(unpublish(&mut records, 2), Ok(record(2, "b", 2)));
    assert_eq!(records, vec![record(1, "a", 1), record(3, "c", 3)]);
}

#[test]
fn list_published_is_a_copy_of_the_records() {
    let records = vec![record(3, "c", 3), record(1, "a", 1)];
    assert_eq!(list_published(&records), records);
    assert_eq!(list_published(&vec![]), vec![]);
}

#[test]
fn find_record_gives_first_index_or_length() {
    let records = vec![record(3, "c", 3), record(1, "a", 1), record(3, "d", 4)];
    assert_eq!(find_record(&records, 3), 0);
    assert_eq!(find_record(&records, 1), 1);
    assert_eq!(find_record(&records, 2), 3);
}

#[test]
fn placed_records_name_their_own_artifact() {
    assert!(has_placed_records(&vec![]));
    assert!(has_placed_records(&vec![record(1, "a", 1), record(20, "b", 1)]));
    let mut stray = record(1, "a", 1);
    stray.location = "course-01.ics".to_string();
    assert!(!has_placed_records(&vec![record(2, "b", 1), stray]));
}

#[test]
fn find_by_numeral_gives_first_index_or_length() {
    let records = vec![record(3, "c", 3), record(10, "a", 1)];
    assert_eq!(find_by_numeral(&records, &"10".to_string()), 1);
    assert_eq!(find_by_numeral(&records, &"3".to_string()), 0);
    assert_eq!(find_by_numeral(&records, &"1".to_string()), 2);
    assert_eq!(find_by_numeral(&records, &"03".to_string()), 2);
    assert_eq!(find_by_numeral(&records, &"".to_string()), 2);
}

#[test]
fn distinct_records_detects_repeats() {
    assert!(has_distinct_records(&vec![]));
    assert!(has_distinct_records(&vec![record(1, "a", 1), record(2, "a", 1)]));
    assert!(!has_distinct_records(&vec![record(1, "a", 1), record(2, "b", 1), record(1, "c", 1)]));
}
