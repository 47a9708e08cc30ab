//! Listing the calendar feeds: of all courses, of the courses that the
//! standing filter keeps, or of one course.

use crate::api::canvas::{clone_courses, course_views, Course, CourseView};
use crate::config::{Config, ConfigView};
use crate::error::Error;
use crate::filter::{keep, kept, resolve, resolved, selected, CriterionView, Matcher, Probe};
use crate::time::Timestamp;
use vstd::prelude::*;

verus! {

/// The criterion that stands when none is given: the filter that the user
/// chose, or the active courses where no choice was made.
pub open spec fn standing_criterion(state: ConfigView) -> CriterionView {
    match state.selection {
        Some(ids) => CriterionView::UserFiltered(ids),
        None => CriterionView::ActiveOnly,
    }
}

/// What the standing criterion selects at `now`.
pub open spec fn standing_selection(state: ConfigView, now: Timestamp) -> Seq<CourseView> {
    match state.selection {
        Some(ids) => kept(state.courses, Matcher::Chosen(ids)),
        None => kept(state.courses, Matcher::Active(now)),
    }
}

/// What is listed for an optional key: the one course that the key
/// resolves to. Without a key the request is invalid.
pub open spec fn course_listing(courses: Seq<CourseView>, course: Option<String>) -> Result<
    Seq<CourseView>,
    Error,
> {
    match course {
        None => Err(Error::InvalidRequest),
        Some(key) => match resolved(courses, key@) {
            Ok(found) => Ok(seq![found]),
            Err(e) => Err(e),
        },
    }
}

/// The courses that the standing filter keeps.
pub fn run_filtered(config: &Config, now: Timestamp) -> (list: Vec<Course>)
    ensures
        course_views(list@) == standing_selection(config@, now),
        selected(config@.courses, standing_criterion(config@), now) == Ok::<
            Seq<CourseView>,
            Error,
        >(course_views(list@)),
{
    match &config.selection {
        Some(ids) => keep(&config.courses, &Probe::Chosen(ids)),
        None => keep(&config.courses, &Probe::Active(now)),
    }
}

/// Every course of the snapshot.
pub fn run_all(config: &Config) -> (list: Vec<Course>)
    ensures
        course_views(list@) == config@.courses,
{
    clone_courses(&config.courses)
}

/// The one course that the key stands for. A request without a key is
/// invalid.
pub fn run_course(config: &Config, course: &Option<String>) -> (r: Result<Vec<Course>, Error>)
    ensures
        match r {
            Ok(list) => course_listing(config@.courses, *course) == Ok::<Seq<CourseView>, Error>(
                course_views(list@),
            ),
            Err(e) => course_listing(config@.courses, *course) == Err::<Seq<CourseView>, Error>(
                e,
            ),
        },
{
    match course {
        None => Err(Error::InvalidRequest),
        Some(key) => match resolve(&config.courses, key) {
            Ok(found) => {
                let mut list: Vec<Course> = Vec::new();
                list.push(found);
                assert(course_views(list@) =~= seq![found@]);
                Ok(list)
            },
            Err(e) => Err(e),
        },
    }
}

} // verus!
