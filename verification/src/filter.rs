//! The filter engine: narrowing a snapshot of courses to the courses that a
//! criterion asks for. Selection reads the snapshot it is given and nothing
//! else.

use crate::api::canvas::{course_views, status_at, Course, CourseStatus, CourseView};
use crate::error::Error;
use crate::publisher::{find_record, is_published, record_views, PublishRecord, RecordView};
use crate::text::{decimal_digits, eq_ignore_case, fold_case, render_decimal};
use crate::time::Timestamp;
use vstd::prelude::*;

verus! {

/// What a selection asks for.
#[derive(Debug, PartialEq, Eq)]
pub enum Criterion {
    /// Every course of the snapshot, whatever its status.
    All,
    /// The courses that are active.
    ActiveOnly,
    /// The one course that goes by this identifier or, failing that, by
    /// this name.
    ByIdentifier(String),
    /// The courses whose identifiers were chosen beforehand.
    UserFiltered(Vec<u64>),
}

/// What a criterion is, as mathematics.
pub enum CriterionView {
    All,
    ActiveOnly,
    ByIdentifier(Seq<char>),
    UserFiltered(Seq<u64>),
}

impl View for Criterion {
    type V = CriterionView;

    open spec fn view(&self) -> CriterionView {
        match *self {
            Criterion::All => CriterionView::All,
            Criterion::ActiveOnly => CriterionView::ActiveOnly,
            Criterion::ByIdentifier(key) => CriterionView::ByIdentifier(key@),
            Criterion::UserFiltered(ids) => CriterionView::UserFiltered(ids@),
        }
    }
}

impl Default for Criterion {
    /// Where no criterion is given, the active courses are meant.
    fn default() -> (c: Self)
        ensures
            c@ == CriterionView::ActiveOnly,
    {
        Criterion::ActiveOnly
    }
}

/// A condition under which a course is kept.
pub enum Matcher {
    /// Active at the instant.
    Active(Timestamp),
    /// Identifier among the chosen ones.
    Chosen(Seq<u64>),
    /// Identifier written as exactly this decimal numeral.
    Identifier(Seq<char>),
    /// Name equal to this one, ASCII letter case set aside.
    Name(Seq<char>),
    /// Recorded as published.
    Published(Seq<RecordView>),
}

impl Matcher {
    /// Whether the course meets the condition.
    pub open spec fn holds(self, course: CourseView) -> bool {
        match self {
            Matcher::Active(now) => status_at(course.end_at, now) == CourseStatus::Active,
            Matcher::Chosen(ids) => ids.contains(course.id),
            Matcher::Identifier(key) => decimal_digits(course.id as nat) == key,
            Matcher::Name(key) => fold_case(course.name) == fold_case(key),
            Matcher::Published(records) => is_published(records, course.id),
        }
    }
}

/// The condition as a predicate.
pub open spec fn keeps(matcher: Matcher) -> spec_fn(CourseView) -> bool {
    |course: CourseView| matcher.holds(course)
}

/// The courses that meet the condition, in the order of the snapshot.
pub open spec fn kept(courses: Seq<CourseView>, matcher: Matcher) -> Seq<CourseView> {
    courses.filter(keeps(matcher))
}

/// Whether a course with this identifier is among the courses.
pub open spec fn has_course(courses: Seq<CourseView>, id: u64) -> bool {
    exists|i: int| 0 <= i < courses.len() && courses[i].id == id
}

/// The course that a key stands for. A course whose identifier is written
/// exactly as the key wins; the first such course where the snapshot holds
/// several. Failing that, the key is taken as a name: one course by that
/// name is the answer, none is `NotFound`, several are
/// `AmbiguousSelection`.
pub open spec fn resolved(courses: Seq<CourseView>, key: Seq<char>) -> Result<CourseView, Error> {
    let by_id = kept(courses, Matcher::Identifier(key));
    let by_name = kept(courses, Matcher::Name(key));
    if by_id.len() > 0 {
        Ok(by_id.first())
    } else if by_name.len() == 1 {
        Ok(by_name.first())
    } else if by_name.len() == 0 {
        Err(Error::NotFound)
    } else {
        Err(Error::AmbiguousSelection)
    }
}

/// What a criterion selects from a snapshot at the instant `now`.
pub open spec fn selected(courses: Seq<CourseView>, criterion: CriterionView, now: Timestamp) -> Result<
    Seq<CourseView>,
    Error,
> {
    match criterion {
        CriterionView::All => Ok(courses),
        CriterionView::ActiveOnly => Ok(kept(courses, Matcher::Active(now))),
        CriterionView::ByIdentifier(key) => match resolved(courses, key) {
            Ok(course) => Ok(seq![course]),
            Err(e) => Err(e),
        },
        CriterionView::UserFiltered(ids) => Ok(kept(courses, Matcher::Chosen(ids))),
    }
}

/// The executable form of a `Matcher`.
pub enum Probe<'a> {
    Active(Timestamp),
    Chosen(&'a Vec<u64>),
    Identifier(&'a String),
    Name(&'a String),
    Published(&'a Vec<PublishRecord>),
}

impl<'a> View for Probe<'a> {
    type V = Matcher;

    open spec fn view(&self) -> Matcher {
        match *self {
            Probe::Active(now) => Matcher::Active(now),
            Probe::Chosen(ids) => Matcher::Chosen(ids@),
            Probe::Identifier(key) => Matcher::Identifier(key@),
            Probe::Name(key) => Matcher::Name(key@),
            Probe::Published(records) => Matcher::Published(record_views(records@)),
        }
    }
}

/// Whether an identifier is among the chosen ones.
pub fn contains_id(ids: &Vec<u64>, id: u64) -> (r: bool)
    ensures
        r == ids@.contains(id),
{
    let mut i: usize = 0;
    while i < ids.len()
        invariant
            i <= ids.len(),
            forall|k: int| 0 <= k < i ==> ids@[k] != id,
        decreases ids.len() - i,
    {
        if ids[i] == id {
            return true;
        }
        i += 1;
    }
    false
}

impl<'a> Probe<'a> {
    /// Decides `Matcher::holds`.
    pub fn test(&self, course: &Course) -> (r: bool)
        ensures
            r == self@.holds(course@),
    {
        match self {
            Probe::Active(now) => course.is_active_at(*now),
            Probe::Chosen(ids) => contains_id(ids, course.id),
            Probe::Identifier(key) => render_decimal(course.id) == **key,
            Probe::Name(key) => eq_ignore_case(course.name.as_str(), key.as_str()),
            Probe::Published(records) => {
                proof {
                    crate::publisher::lemma_position(record_views(records@), course.id);
                }
                find_record(records, course.id) < records.len()
            },
        }
    }
}

/// Copies the courses that meet a condition, in the order of the snapshot.
pub fn keep(courses: &Vec<Course>, probe: &Probe) -> (out: Vec<Course>)
    ensures
        course_views(out@) == kept(course_views(courses@), probe@),
{
    let ghost views = course_views(courses@);
    let mut out: Vec<Course> = Vec::new();
    let mut i: usize = 0;
    proof {
        reveal(Seq::filter);
    }
    while i < courses.len()
        invariant
            i <= courses.len(),
            views == course_views(courses@),
            course_views(out@) == kept(views.take(i as int), probe@),
        decreases courses.len() - i,
    {
        proof {
            reveal(Seq::filter);
            assert(views.take(i + 1).drop_last() =~= views.take(i as int));
        }
        if probe.test(&courses[i]) {
            out.push(courses[i].clone());
        }
        i += 1;
    }
    assert(views.take(i as int) =~= views);
    out
}

/// Resolves a key to one course of the snapshot.
pub fn resolve(courses: &Vec<Course>, key: &String) -> (r: Result<Course, Error>)
    ensures
        match r {
            Ok(course) => resolved(course_views(courses@), key@) == Ok::<CourseView, Error>(
                course@,
            ),
            Err(e) => resolved(course_views(courses@), key@) == Err::<CourseView, Error>(e),
        },
{
    let by_id = keep(courses, &Probe::Identifier(key));
    if by_id.len() > 0 {
        return Ok(by_id[0].clone());
    }
    let by_name = keep(courses, &Probe::Name(key));
    if by_name.len() == 1 {
        Ok(by_name[0].clone())
    } else if by_name.len() == 0 {
        Err(Error::NotFound)
    } else {
        Err(Error::AmbiguousSelection)
    }
}

/// Selects from a snapshot what a criterion asks for, in the order of the
/// snapshot. Only a selection by identifier can fail.
pub fn select(courses: &Vec<Course>, criterion: &Criterion, now: Timestamp) -> (r: Result<
    Vec<Course>,
    Error,
>)
    ensures
        match r {
            Ok(list) => selected(course_views(courses@), criterion@, now) == Ok::<
                Seq<CourseView>,
                Error,
            >(course_views(list@)),
            Err(e) => selected(course_views(courses@), criterion@, now) == Err::<
                Seq<CourseView>,
                Error,
            >(e),
        },
        !(criterion is ByIdentifier) ==> r is Ok,
{
    match criterion {
        Criterion::All => Ok(crate::api::canvas::clone_courses(courses)),
        Criterion::ActiveOnly => Ok(keep(courses, &Probe::Active(now))),
        Criterion::ByIdentifier(key) => match resolve(courses, key) {
            Ok(course) => {
                let mut list: Vec<Course> = Vec::new();
                list.push(course);
                assert(course_views(list@) =~= seq![course@]);
                Ok(list)
            },
            Err(e) => Err(e),
        },
        Criterion::UserFiltered(ids) => Ok(keep(courses, &Probe::Chosen(ids))),
    }
}

/// What is kept is part of the snapshot: every kept course meets the
/// condition and stands in the snapshot, and the kept courses stand in the
/// order in which the snapshot has them.
pub proof fn lemma_kept_is_subsequence(courses: Seq<CourseView>, matcher: Matcher)
    ensures
        kept(courses, matcher).len() <= courses.len(),
        forall|k: int|
            0 <= k < kept(courses, matcher).len() ==> matcher.holds(
                #[trigger] kept(courses, matcher)[k],
            ) && courses.contains(kept(courses, matcher)[k]),
        forall|i: int|
            0 <= i < courses.len() && matcher.holds(courses[i]) ==> kept(
                courses,
                matcher,
            ).contains(#[trigger] courses[i]),
    decreases courses.len(),
{
    reveal(Seq::filter);
    let out = kept(courses, matcher);
    if courses.len() > 0 {
        let head = courses.drop_last();
        lemma_kept_is_subsequence(head, matcher);
        let sub = kept(head, matcher);
        assert forall|k: int| 0 <= k < out.len() implies matcher.holds(#[trigger] out[k])
            && courses.contains(out[k]) by {
            if k < sub.len() {
                let w = choose|w: int| 0 <= w < head.len() && head[w] == sub[k];
                assert(courses[w] == out[k]);
            }
        }
        assert forall|i: int| 0 <= i < courses.len() && matcher.holds(courses[i]) implies out.contains(
            #[trigger] courses[i],
        ) by {
            if i < head.len() {
                let w = choose|w: int| 0 <= w < sub.len() && sub[w] == head[i];
                assert(out[w] == courses[i]);
            }
        }
    }
}

/// A selection holds courses of the snapshot only: a course that the
/// snapshot lacks is in no selection from it, whatever the criterion.
pub proof fn lemma_selected_from_snapshot(
    courses: Seq<CourseView>,
    criterion: CriterionView,
    now: Timestamp,
    id: u64,
)
    requires
        !has_course(courses, id),
    ensures
        selected(courses, criterion, now) matches Ok(list) ==> !has_course(list, id),
{
    match criterion {
        CriterionView::All => {},
        CriterionView::ActiveOnly => {
            lemma_absent_stays_absent(courses, Matcher::Active(now), id);
        },
        CriterionView::ByIdentifier(key) => {
            lemma_absent_stays_absent(courses, Matcher::Identifier(key), id);
            lemma_absent_stays_absent(courses, Matcher::Name(key), id);
        },
        CriterionView::UserFiltered(ids) => {
            lemma_absent_stays_absent(courses, Matcher::Chosen(ids), id);
        },
    }
}

/// Keeping by a condition brings in no course that the snapshot lacks.
pub proof fn lemma_absent_stays_absent(courses: Seq<CourseView>, matcher: Matcher, id: u64)
    requires
        !has_course(courses, id),
    ensures
        !has_course(kept(courses, matcher), id),
        forall|k: int| 0 <= k < kept(courses, matcher).len() ==> kept(courses, matcher)[k].id != id,
{
    lemma_kept_is_subsequence(courses, matcher);
    let out = kept(courses, matcher);
    assert forall|k: int| 0 <= k < out.len() implies out[k].id != id by {
        let w = choose|w: int| 0 <= w < courses.len() && courses[w] == out[k];
        assert(courses[w].id != id);
    }
}

} // verus!
