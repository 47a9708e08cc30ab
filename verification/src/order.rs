//! The order in which courses are shown: the course that ends latest
//! first, courses without an end last, and courses that end together in
//! the order in which they came.

use crate::api::canvas::{course_views, Course, CourseView};
use vstd::prelude::*;
use vstd::seq_lib::*;

verus! {

/// `a` is shown strictly before `b`: `a` ends later than `b`, or `a` has
/// an end and `b` has none.
pub open spec fn precedes(a: CourseView, b: CourseView) -> bool {
    match (a.end_at, b.end_at) {
        (Some(x), Some(y)) => y.before(x),
        (Some(_), None) => true,
        (None, _) => false,
    }
}

/// No course is shown before one that precedes it.
pub open spec fn in_order(courses: Seq<CourseView>) -> bool {
    forall|i: int, j: int| 0 <= i < j < courses.len() ==> !precedes(courses[j], courses[i])
}

/// Where a course goes among courses that are in order: before the first
/// one that it precedes, or at the end.
pub open spec fn slot(sorted: Seq<CourseView>, course: CourseView) -> int
    decreases sorted.len(),
{
    if sorted.len() == 0 || precedes(course, sorted.first()) {
        0
    } else {
        1 + slot(sorted.drop_first(), course)
    }
}

/// The courses in the order in which they are shown: each course in turn
/// is set into its slot among those before it.
pub open spec fn sorted_courses(courses: Seq<CourseView>) -> Seq<CourseView>
    decreases courses.len(),
{
    if courses.len() == 0 {
        courses
    } else {
        let head = sorted_courses(courses.drop_last());
        head.insert(slot(head, courses.last()), courses.last())
    }
}

/// `slot` is in range, passes over no course that the given one precedes,
/// and stops at one that it precedes.
pub proof fn lemma_slot(sorted: Seq<CourseView>, course: CourseView)
    ensures
        0 <= slot(sorted, course) <= sorted.len(),
        forall|k: int| 0 <= k < slot(sorted, course) ==> !precedes(course, sorted[k]),
        slot(sorted, course) < sorted.len() ==> precedes(course, sorted[slot(sorted, course)]),
    decreases sorted.len(),
{
    if sorted.len() > 0 && !precedes(course, sorted.first()) {
        let rest = sorted.drop_first();
        lemma_slot(rest, course);
        let p = slot(rest, course);
        assert forall|k: int| 0 <= k < 1 + p implies !precedes(course, sorted[k]) by {
            if k > 0 {
                assert(rest[k - 1] == sorted[k]);
            }
        }
    }
}

/// An index that passes over no course that the given one precedes, and
/// that stops at one it precedes or at the end, is the slot.
pub proof fn lemma_slot_is(sorted: Seq<CourseView>, course: CourseView, i: int)
    requires
        0 <= i <= sorted.len(),
        forall|k: int| 0 <= k < i ==> !precedes(course, sorted[k]),
        i < sorted.len() ==> precedes(course, sorted[i]),
    ensures
        slot(sorted, course) == i,
{
    lemma_slot(sorted, course);
}

/// Sorting brings the courses in order, keeps every course as often as it
/// came, and leaves courses that are already in order as they are.
pub proof fn lemma_sorted_courses(courses: Seq<CourseView>)
    ensures
        in_order(sorted_courses(courses)),
        sorted_courses(courses).len() == courses.len(),
        sorted_courses(courses).to_multiset() == courses.to_multiset(),
        in_order(courses) ==> sorted_courses(courses) == courses,
    decreases courses.len(),
{
    broadcast use {to_multiset_insert, to_multiset_build};

    if courses.len() > 0 {
        let init = courses.drop_last();
        let last = courses.last();
        lemma_sorted_courses(init);
        let head = sorted_courses(init);
        lemma_slot(head, last);
        let at = slot(head, last);
        let out = head.insert(at, last);
        assert forall|i: int, j: int| 0 <= i < j < out.len() implies !precedes(out[j], out[i]) by {
            if i == at && j - 1 > at {
                assert(!precedes(head[j - 1], head[at]));
            }
        }
        assert(init.push(last) =~= courses);
        if in_order(courses) {
            lemma_slot_is(init, last, init.len() as int);
        }
    }
}

/// Decides `precedes`.
pub fn comes_before(a: &Course, b: &Course) -> (r: bool)
    ensures
        r == precedes(a@, b@),
{
    match (a.end_at, b.end_at) {
        (Some(x), Some(y)) => y.is_before(&x),
        (Some(_), None) => true,
        (None, _) => false,
    }
}

fn find_slot(sorted: &Vec<Course>, course: &Course) -> (at: usize)
    ensures
        at == slot(course_views(sorted@), course@),
        at <= sorted.len(),
{
    let mut at: usize = 0;
    while at < sorted.len() && !comes_before(course, &sorted[at])
        invariant
            at <= sorted.len(),
            forall|k: int| 0 <= k < at ==> !precedes(course@, course_views(sorted@)[k]),
        decreases sorted.len() - at,
    {
        at += 1;
    }
    proof {
        lemma_slot_is(course_views(sorted@), course@, at as int);
    }
    at
}

/// Brings courses into the order in which they are shown.
pub fn sort_courses(courses: Vec<Course>) -> (sorted: Vec<Course>)
    ensures
        course_views(sorted@) == sorted_courses(course_views(courses@)),
        sorted.len() == courses.len(),
        in_order(course_views(sorted@)),
        course_views(sorted@).to_multiset() == course_views(courses@).to_multiset(),
{
    let ghost views = course_views(courses@);
    let mut sorted: Vec<Course> = Vec::new();
    let mut i: usize = 0;
    while i < courses.len()
        invariant
            i <= courses.len(),
            views == course_views(courses@),
            course_views(sorted@) == sorted_courses(views.take(i as int)),
        decreases courses.len() - i,
    {
        proof {
            assert(views.take(i + 1).drop_last() =~= views.take(i as int));
        }
        let course = courses[i].clone();
        let at = find_slot(&sorted, &course);
        sorted.insert(at, course);
        i += 1;
    }
    proof {
        assert(views.take(i as int) =~= views);
        lemma_sorted_courses(views);
    }
    sorted
}

} // verus!
