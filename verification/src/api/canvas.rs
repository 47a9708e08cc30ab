//! Courses as the remote source reports them, their classification against
//! the clock, and the reading of the remote source's answers.

use crate::error::Error;
use crate::text::{decimal_digits, push_decimal};
use crate::time::{utc_now, Timestamp};
use vstd::prelude::*;
use vstd::string::*;

verus! {

/// The reference to a course's calendar feed: an opaque locator.
#[derive(Debug, PartialEq, Eq)]
pub struct Calendar {
    pub ics: String,
}

impl View for Calendar {
    type V = Seq<char>;

    open spec fn view(&self) -> Seq<char> {
        self.ics@
    }
}

impl Clone for Calendar {
    fn clone(&self) -> (c: Self)
        ensures
            c@ == self@,
    {
        Calendar { ics: self.ics.clone() }
    }
}

/// A course of one sync snapshot.
#[derive(Debug, PartialEq, Eq)]
pub struct Course {
    pub id: u64,
    pub name: String,
    pub start_at: Option<Timestamp>,
    pub end_at: Option<Timestamp>,
    pub calendar: Calendar,
}

/// What a course is, as mathematics.
pub struct CourseView {
    pub id: u64,
    pub name: Seq<char>,
    pub start_at: Option<Timestamp>,
    pub end_at: Option<Timestamp>,
    pub feed: Seq<char>,
}

impl View for Course {
    type V = CourseView;

    open spec fn view(&self) -> CourseView {
        CourseView {
            id: self.id,
            name: self.name@,
            start_at: self.start_at,
            end_at: self.end_at,
            feed: self.calendar@,
        }
    }
}

impl Clone for Course {
    fn clone(&self) -> (c: Self)
        ensures
            c@ == self@,
    {
        Course {
            id: self.id,
            name: self.name.clone(),
            start_at: self.start_at,
            end_at: self.end_at,
            calendar: self.calendar.clone(),
        }
    }
}

/// The views of a sequence of courses, in the same order.
pub open spec fn course_views(courses: Seq<Course>) -> Seq<CourseView> {
    courses.map_values(|c: Course| c@)
}

/// Copies a list of courses.
pub fn clone_courses(courses: &Vec<Course>) -> (copy: Vec<Course>)
    ensures
        course_views(copy@) == course_views(courses@),
{
    let mut copy: Vec<Course> = Vec::new();
    let mut i: usize = 0;
    while i < courses.len()
        invariant
            i <= courses.len(),
            copy.len() == i,
            forall|k: int| 0 <= k < i ==> copy@[k]@ == courses@[k]@,
        decreases courses.len() - i,
    {
        copy.push(courses[i].clone());
        i += 1;
    }
    copy
}

/// Where a course stands relative to an instant.
#[derive(Clone, Copy, Debug, PartialEq, Eq, Structural)]
pub enum CourseStatus {
    Active,
    Inactive,
    Unknown,
}

/// The status of a course that ends at `end_at`, seen at `now`: unknown
/// without an end, inactive when the end lies strictly before `now`, active
/// otherwise.
pub open spec fn status_at(end_at: Option<Timestamp>, now: Timestamp) -> CourseStatus {
    match end_at {
        None => CourseStatus::Unknown,
        Some(end) => if end.before(now) {
            CourseStatus::Inactive
        } else {
            CourseStatus::Active
        },
    }
}

/// Classifies a course at the instant `now`.
pub fn classify(course: &Course, now: Timestamp) -> (status: CourseStatus)
    ensures
        status == status_at(course@.end_at, now),
        course.end_at is None ==> status == CourseStatus::Unknown,
        course.end_at matches Some(end) && end.before(now) ==> status == CourseStatus::Inactive,
        course.end_at matches Some(end) && !end.before(now) ==> status == CourseStatus::Active,
{
    match course.end_at {
        None => CourseStatus::Unknown,
        Some(end) => if end.is_before(&now) {
            CourseStatus::Inactive
        } else {
            CourseStatus::Active
        },
    }
}

impl Course {
    /// Whether the course is active at `now`.
    pub fn is_active_at(&self, now: Timestamp) -> (active: bool)
        ensures
            active == (status_at(self@.end_at, now) == CourseStatus::Active),
    {
        classify(self, now) == CourseStatus::Active
    }

    /// Whether the course is active by the system clock: the answer of
    /// `is_active_at` for the instant that the clock gives, whichever it is.
    pub fn is_active(&self) -> (active: bool)
        ensures
            exists|now: Timestamp|
                active == (#[trigger] status_at(self@.end_at, now) == CourseStatus::Active),
            self.end_at is None ==> !active,
    {
        let now = utc_now();
        self.is_active_at(now)
    }

    /// The line that shows the course in a listing: its name, then its
    /// identifier in brackets.
    pub open spec fn label_of(course: CourseView) -> Seq<char> {
        course.name + " (ID: "@ + decimal_digits(course.id as nat) + ")"@
    }

    /// Builds the listing line of the course.
    pub fn label(&self) -> (line: String)
        ensures
            line@ == Self::label_of(self@),
    {
        let mut line = self.name.clone();
        line.append(" (ID: ");
        push_decimal(&mut line, self.id);
        line.append(")");
        line
    }
}

/// No identifier occurs twice.
pub open spec fn distinct_ids(courses: Seq<CourseView>) -> bool {
    forall|i: int, j: int| 0 <= i < j < courses.len() ==> courses[i].id != courses[j].id
}

/// Decides `distinct_ids`.
pub fn has_distinct_ids(courses: &Vec<Course>) -> (r: bool)
    ensures
        r == distinct_ids(course_views(courses@)),
{
    let ghost views = course_views(courses@);
    let mut j: usize = 0;
    while j < courses.len()
        invariant
            j <= courses.len(),
            views == course_views(courses@),
            forall|a: int, b: int| 0 <= a < b < j ==> views[a].id != views[b].id,
        decreases courses.len() - j,
    {
        let mut i: usize = 0;
        while i < j
            invariant
                i <= j < courses.len(),
                views == course_views(courses@),
                forall|a: int| 0 <= a < i ==> views[a].id != views[j as int].id,
            decreases j - i,
        {
            if courses[i].id == courses[j].id {
                assert(views[i as int].id == views[j as int].id);
                return false;
            }
            i += 1;
        }
        j += 1;
    }
    true
}

/// What came back from the one request that lists the courses.
#[derive(Debug, PartialEq, Eq)]
pub enum Reply {
    /// No answer: the connection failed, the name did not resolve, or the
    /// request ran out of time.
    NoReply,
    /// An answer with its status code and, where its body held a list of
    /// courses, that list.
    Http { status: u16, courses: Option<Vec<Course>> },
}

/// The failure that a status code stands for: 401 and 403 are failures of
/// the credential, any other status outside 200 to 299 is a failure of the
/// network, and a status from 200 to 299 is none.
pub open spec fn status_failure(status: u16) -> Option<Error> {
    if status == 401 || status == 403 {
        Some(Error::Auth)
    } else if status < 200 || status > 299 {
        Some(Error::Network)
    } else {
        None
    }
}

/// Decides `status_failure`.
pub fn check_status(status: u16) -> (failure: Option<Error>)
    ensures
        failure == status_failure(status),
{
    if status == 401 || status == 403 {
        Some(Error::Auth)
    } else if status < 200 || status > 299 {
        Some(Error::Network)
    } else {
        None
    }
}

/// How an answer is read. Without a credential nothing is asked. A missing
/// answer is a failure of the network, and a status code may stand for a
/// failure. A body that is no list of courses, or one that names an
/// identifier twice, is a failure to parse. Anything else is the list, in
/// the remote order.
pub open spec fn reading_of(credential: Seq<char>, reply: Reply) -> Result<Seq<CourseView>, Error> {
    if credential.len() == 0 {
        Err(Error::Auth)
    } else {
        match reply {
            Reply::NoReply => Err(Error::Network),
            Reply::Http { status, courses } => match status_failure(status) {
                Some(failure) => Err(failure),
                None => match courses {
                    None => Err(Error::Parse),
                    Some(list) => if distinct_ids(course_views(list@)) {
                        Ok(course_views(list@))
                    } else {
                        Err(Error::Parse)
                    },
                },
            },
        }
    }
}

/// What came back from the request for one calendar feed.
#[derive(Debug, PartialEq, Eq)]
pub enum FeedReply {
    /// No answer: the connection failed, the name did not resolve, or the
    /// request ran out of time.
    NoReply,
    /// An answer with its status code and, where its body arrived in full,
    /// that body.
    Http { status: u16, payload: Option<Vec<u8>> },
}

/// How the answer to a request for a feed is read. A missing answer is a
/// failure of the network, and a status code may stand for a failure. A
/// body that did not arrive in full is a failure of the network too.
/// Anything else is the payload, byte for byte.
pub open spec fn feed_of(reply: FeedReply) -> Result<Seq<u8>, Error> {
    match reply {
        FeedReply::NoReply => Err(Error::Network),
        FeedReply::Http { status, payload } => match status_failure(status) {
            Some(failure) => Err(failure),
            None => match payload {
                None => Err(Error::Network),
                Some(bytes) => Ok(bytes@),
            },
        },
    }
}

/// Reads the answer to the request for one calendar feed.
pub fn read_feed(reply: FeedReply) -> (r: Result<Vec<u8>, Error>)
    ensures
        match r {
            Ok(payload) => feed_of(reply) == Ok::<Seq<u8>, Error>(payload@),
            Err(e) => feed_of(reply) == Err::<Seq<u8>, Error>(e),
        },
{
    match reply {
        FeedReply::NoReply => Err(Error::Network),
        FeedReply::Http { status, payload } => match check_status(status) {
            Some(failure) => Err(failure),
            None => match payload {
                None => Err(Error::Network),
                Some(bytes) => Ok(bytes),
            },
        },
    }
}

/// The seconds after which a request is given up.
pub const REQUEST_TIMEOUT_SECS: u64 = 5;

/// An explicit description of how the remote source is asked: where, with
/// which credential, and for how long at most. It cannot be formatted for
/// display, so that the credential is never echoed.
#[derive(PartialEq, Eq)]
pub struct CanvasClient {
    pub base_url: String,
    pub api_token: String,
    pub timeout_secs: u64,
}

impl CanvasClient {
    /// A client for the given credential.
    pub fn new(api_token: String) -> (client: Self)
        ensures
            client.api_token@ == api_token@,
            client.base_url@ == "https://canvas.upenn.edu/api/v1"@,
            client.timeout_secs == REQUEST_TIMEOUT_SECS,
    {
        CanvasClient {
            base_url: "https://canvas.upenn.edu/api/v1".to_owned(),
            api_token,
            timeout_secs: REQUEST_TIMEOUT_SECS,
        }
    }

    /// Whether there is a credential to ask with.
    pub fn has_credential(&self) -> (r: bool)
        ensures
            r == (self.api_token@.len() > 0),
    {
        !self.api_token.as_str().is_empty()
    }

    /// The address of the request that lists the courses.
    pub fn courses_url(&self) -> (url: String)
        ensures
            url@ == self.base_url@ + "/courses"@,
    {
        let mut url = self.base_url.clone();
        url.append("/courses");
        url
    }

    /// The value of the `Authorization` header: the bearer token.
    pub fn authorization(&self) -> (value: String)
        ensures
            value@ == "Bearer "@ + self.api_token@,
    {
        let mut value = "Bearer ".to_owned();
        value.append(self.api_token.as_str());
        value
    }

    /// Reads the answer to the request that lists the courses.
    pub fn get_courses(&self, reply: Reply) -> (r: Result<Vec<Course>, Error>)
        ensures
            match r {
                Ok(courses) => reading_of(self.api_token@, reply) == Ok::<Seq<CourseView>, Error>(
                    course_views(courses@),
                ),
                Err(e) => reading_of(self.api_token@, reply) == Err::<Seq<CourseView>, Error>(e),
            },
            r matches Ok(courses) ==> distinct_ids(course_views(courses@)),
    {
        if !self.has_credential() {
            return Err(Error::Auth);
        }
        match reply {
            Reply::NoReply => Err(Error::Network),
            Reply::Http { status, courses } => match check_status(status) {
                Some(failure) => Err(failure),
                None => match courses {
                    None => Err(Error::Parse),
                    Some(list) => {
                        if has_distinct_ids(&list) {
                            Ok(list)
                        } else {
                            Err(Error::Parse)
                        }
                    },
                },
            },
        }
    }
}

} // verus!
