//! The sync stage: the answer of the remote source replaces the snapshot.

use crate::api::canvas::{reading_of, CanvasClient, Course, CourseView, Reply, course_views};
use crate::config::{Config, ConfigView};
use crate::error::Error;
use crate::filter::{has_course, keep, kept, selected, CriterionView, Matcher, Probe};
use crate::time::Timestamp;
use vstd::prelude::*;

verus! {

/// What a successful sync has to show.
#[derive(Debug, PartialEq, Eq)]
pub enum SyncReport {
    /// The remote source knows no course of this user.
    NoCourses,
    /// The courses of the new snapshot that are active.
    Active(Vec<Course>),
}

/// What a report is, as mathematics.
pub enum ReportView {
    NoCourses,
    Active(Seq<CourseView>),
}

impl View for SyncReport {
    type V = ReportView;

    open spec fn view(&self) -> ReportView {
        match *self {
            SyncReport::NoCourses => ReportView::NoCourses,
            SyncReport::Active(list) => ReportView::Active(course_views(list@)),
        }
    }
}

/// The state after a sync at `now`. An answer that reads as a list of
/// courses replaces the whole snapshot and sets the instant of the last
/// sync; nothing of the former snapshot is kept. Any failure leaves the
/// state as it was.
pub open spec fn synced(state: ConfigView, reply: Reply, now: Timestamp) -> ConfigView {
    match reading_of(state.credential, reply) {
        Ok(fresh) => ConfigView { courses: fresh, last_sync: Some(now), ..state },
        Err(_) => state,
    }
}

/// What a sync at `now` reports.
pub open spec fn sync_report(state: ConfigView, reply: Reply, now: Timestamp) -> Result<
    ReportView,
    Error,
> {
    match reading_of(state.credential, reply) {
        Ok(fresh) => Ok(
            if fresh.len() == 0 {
                ReportView::NoCourses
            } else {
                ReportView::Active(kept(fresh, Matcher::Active(now)))
            },
        ),
        Err(e) => Err(e),
    }
}

/// Takes the answer of the remote source into the state.
pub fn run(config: &mut Config, reply: Reply, now: Timestamp) -> (r: Result<SyncReport, Error>)
    ensures
        final(config)@ == synced(old(config)@, reply, now),
        match r {
            Ok(report) => sync_report(old(config)@, reply, now) == Ok::<ReportView, Error>(
                report@,
            ),
            Err(e) => sync_report(old(config)@, reply, now) == Err::<ReportView, Error>(e),
        },
        old(config)@.wf() ==> final(config)@.wf(),
{
    let client = CanvasClient::new(config.api_token.clone());
    match client.get_courses(reply) {
        Err(e) => Err(e),
        Ok(courses) => {
            let report = if courses.len() == 0 {
                SyncReport::NoCourses
            } else {
                SyncReport::Active(keep(&courses, &Probe::Active(now)))
            };
            config.courses = courses;
            config.last_sync = Some(now);
            Ok(report)
        },
    }
}

/// A sync replaces the snapshot in full. Whatever an earlier sync had
/// brought, after a sync whose answer lacks a course the snapshot is that
/// answer, the course is gone from it, and no selection from it holds the
/// course, whatever the criterion.
pub proof fn lemma_sync_replaces_snapshot(
    state: ConfigView,
    first: Reply,
    second: Reply,
    t1: Timestamp,
    t2: Timestamp,
    criterion: CriterionView,
    at: Timestamp,
    id: u64,
)
    requires
        reading_of(state.credential, second) matches Ok(fresh) && !has_course(fresh, id),
    ensures
        ({
            let after = synced(synced(state, first, t1), second, t2);
            &&& reading_of(state.credential, second) == Ok::<Seq<CourseView>, Error>(
                after.courses,
            )
            &&& after.last_sync == Some(t2)
            &&& !has_course(after.courses, id)
            &&& selected(after.courses, criterion, at) matches Ok(list) ==> !has_course(list, id)
        }),
{
    let after = synced(synced(state, first, t1), second, t2);
    crate::filter::lemma_selected_from_snapshot(after.courses, criterion, at, id);
}

} // verus!
