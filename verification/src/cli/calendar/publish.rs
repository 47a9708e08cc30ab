//! Publishing: which courses a publish command addresses, the listing and
//! removal of publish records, and the switch of the recurring refresh.

use crate::api::canvas::{clone_courses, course_views, Course, CourseView};
use crate::cli::calendar::ls::{run_filtered, standing_selection};
use crate::config::{Config, ConfigView};
use crate::error::Error;
use crate::filter::{keep, kept, lemma_kept_is_subsequence, resolve, resolved, Matcher, Probe};
use crate::publisher::{
    artifact_extension,
    artifact_prefix,
    find_by_numeral,
    is_published,
    lemma_numeral_position,
    lemma_position,
    list_published,
    numeral_position,
    record_views,
    unpublish,
    unpublish_records,
    unpublish_result,
    PublishRecord,
    RecordView,
};
use crate::scheduler::{
    disable_action,
    disabled_from,
    enable_action,
    enabled_from,
    ScheduleAction,
};
use crate::text::{decimal_digits, lemma_decimal_injective};
use crate::time::Timestamp;
use vstd::prelude::*;

verus! {

/// Where the artifacts go and how they are named: in `directory` beside
/// the state file, each as `prefix`, the course's identifier in decimal,
/// and `extension`.
#[derive(Debug, PartialEq, Eq)]
pub struct PublishLayout {
    pub directory: String,
    pub prefix: String,
    pub extension: String,
}

/// The directory of the artifacts.
pub open spec fn feed_directory() -> Seq<char> {
    "feeds"@
}

/// The layout of the published feeds. It is fixed, so that a calendar
/// application that was pointed at an artifact once keeps finding it.
pub fn publish_setup() -> (layout: PublishLayout)
    ensures
        layout.directory@ == feed_directory(),
        layout.prefix@ == artifact_prefix(),
        layout.extension@ == artifact_extension(),
{
    PublishLayout {
        directory: "feeds".to_owned(),
        prefix: "course-".to_owned(),
        extension: ".ics".to_owned(),
    }
}

/// The courses that publishing everything addresses: the whole snapshot.
pub fn publish_all(config: &Config) -> (list: Vec<Course>)
    ensures
        course_views(list@) == config@.courses,
{
    clone_courses(&config.courses)
}

/// The courses that publishing by the standing filter addresses.
pub fn publish_filtered(config: &Config, now: Timestamp) -> (list: Vec<Course>)
    ensures
        course_views(list@) == standing_selection(config@, now),
{
    run_filtered(config, now)
}

/// The records of the published courses.
pub fn publish_ls(config: &Config) -> (list: Vec<PublishRecord>)
    ensures
        record_views(list@) == config@.records,
{
    list_published(&config.publish_records)
}

/// The course that an unpublish key stands for. A course of the snapshot
/// whose identifier is written as the key comes first; then a recorded
/// identifier that is written as the key, so that a course which a later
/// sync dropped can still be unpublished; then the key is taken as a name
/// in the snapshot.
pub open spec fn unpublish_target(state: ConfigView, key: Seq<char>) -> Result<u64, Error> {
    let by_id = kept(state.courses, Matcher::Identifier(key));
    let at = numeral_position(state.records, key);
    if by_id.len() > 0 {
        Ok(by_id.first().id)
    } else if at < state.records.len() {
        Ok(state.records[at].course_id)
    } else {
        match resolved(state.courses, key) {
            Ok(course) => Ok(course.id),
            Err(e) => Err(e),
        }
    }
}

/// What unpublishing by key reports: the failure to resolve the key, or
/// what unpublishing the resolved course reports.
pub open spec fn unpublish_course_result(state: ConfigView, key: Seq<char>) -> Result<
    RecordView,
    Error,
> {
    match unpublish_target(state, key) {
        Ok(id) => unpublish_result(state.records, id),
        Err(e) => Err(e),
    }
}

/// The state after unpublishing by key.
pub open spec fn unpublish_course_state(state: ConfigView, key: Seq<char>) -> ConfigView {
    match unpublish_target(state, key) {
        Ok(id) => ConfigView { records: unpublish_records(state.records, id), ..state },
        Err(_) => state,
    }
}

/// Resolves an unpublish key to a course identifier.
pub fn resolve_unpublish(config: &Config, course: &String) -> (r: Result<u64, Error>)
    ensures
        r == unpublish_target(config@, course@),
{
    let by_id = keep(&config.courses, &Probe::Identifier(course));
    if by_id.len() > 0 {
        assert(course_views(by_id@)[0] == by_id@[0]@);
        return Ok(by_id[0].id);
    }
    let at = find_by_numeral(&config.publish_records, course);
    if at < config.publish_records.len() {
        return Ok(config.publish_records[at].course_id);
    }
    match resolve(&config.courses, course) {
        Ok(found) => Ok(found.id),
        Err(e) => Err(e),
    }
}

/// Removes the publish record of the course that the key stands for, and
/// hands the record back so that the caller can remove the artifact.
pub fn unpublish_course(config: &mut Config, course: &String) -> (r: Result<PublishRecord, Error>)
    ensures
        final(config)@ == unpublish_course_state(old(config)@, course@),
        match r {
            Ok(record) => unpublish_course_result(old(config)@, course@) == Ok::<
                RecordView,
                Error,
            >(record@),
            Err(e) => unpublish_course_result(old(config)@, course@) == Err::<RecordView, Error>(
                e,
            ),
        },
        r is Err ==> final(config)@ == old(config)@,
        old(config)@.wf() ==> final(config)@.wf(),
{
    match resolve_unpublish(config, course) {
        Err(e) => Err(e),
        Ok(id) => unpublish(&mut config.publish_records, id),
    }
}

/// A published course can always be unpublished by its identifier:
/// whatever the snapshot holds, the numeral of a recorded identifier
/// resolves to that identifier, and the unpublish hands back a record of
/// that course.
pub proof fn lemma_recorded_course_can_be_unpublished(state: ConfigView, id: u64)
    requires
        is_published(state.records, id),
    ensures
        unpublish_target(state, decimal_digits(id as nat)) == Ok::<u64, Error>(id),
        unpublish_course_result(state, decimal_digits(id as nat)) matches Ok(record)
            && record.course_id == id,
{
    let key = decimal_digits(id as nat);
    let by_id = kept(state.courses, Matcher::Identifier(key));
    lemma_kept_is_subsequence(state.courses, Matcher::Identifier(key));
    lemma_numeral_position(state.records, key);
    lemma_position(state.records, id);
    if by_id.len() > 0 {
        assert(Matcher::Identifier(key).holds(by_id[0]));
        lemma_decimal_injective(by_id[0].id as nat, id as nat);
    } else {
        let at = numeral_position(state.records, key);
        let i = choose|i: int| 0 <= i < state.records.len() && state.records[i].course_id == id;
        assert(decimal_digits(state.records[i].course_id as nat) == key);
        lemma_decimal_injective(state.records[at].course_id as nat, id as nat);
    }
}

/// The course that publishing by key addresses.
pub fn publish_course(config: &Config, course: &String) -> (r: Result<Vec<Course>, Error>)
    ensures
        match r {
            Ok(list) => resolved(config@.courses, course@) matches Ok(found) && course_views(
                list@,
            ) == seq![found],
            Err(e) => resolved(config@.courses, course@) == Err::<CourseView, Error>(e),
        },
{
    match resolve(&config.courses, course) {
        Err(e) => Err(e),
        Ok(found) => {
            let mut list: Vec<Course> = Vec::new();
            list.push(found);
            Ok(list)
        },
    }
}

/// Turns the recurring refresh on and says what to ask of the host.
pub fn autoupdate_enable(config: &mut Config) -> (action: ScheduleAction)
    ensures
        final(config)@ == (ConfigView {
            schedule: enabled_from(old(config)@.schedule),
            ..old(config)@
        }),
        action@ == enable_action(old(config)@.schedule),
        old(config)@.wf() ==> final(config)@.wf(),
{
    config.schedule.enable()
}

/// Turns the recurring refresh off and says what to ask of the host.
pub fn autoupdate_disable(config: &mut Config) -> (action: ScheduleAction)
    ensures
        final(config)@ == (ConfigView {
            schedule: disabled_from(old(config)@.schedule),
            ..old(config)@
        }),
        action@ == disable_action(old(config)@.schedule),
        old(config)@.wf() ==> final(config)@.wf(),
{
    config.schedule.disable()
}

} // verus!
