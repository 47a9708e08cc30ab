//! Synchronisation, filtering and publishing of course calendar feeds.
//!
//! The crate is the decision-making core of a calendar utility for a
//! learning-management system. It keeps a snapshot of the user's courses in
//! step with the remote source, tells active courses from inactive ones,
//! narrows the snapshot to the courses that are to be published, and keeps
//! one record for each published course.
//!
//! Every function here is a function from plain values to plain values: the
//! caller performs the network and file operations and hands their outcomes
//! in. The stages of the pipeline are the `run_` functions of this module;
//! each takes the durable state and what the caller brought, and says what
//! the state becomes and what is to be shown or done.
//!
//! - [`api::canvas`]: courses, their classification, the reading of answers
//! - [`filter`]: selection from a snapshot by a criterion
//! - [`publisher`]: publish records and their fingerprints
//! - [`scheduler`]: the switch of the recurring refresh
//! - [`config`], [`store`]: the durable state, its loading and saving
//! - [`command`], [`args`]: the command tree and what each command stands for
//! - [`order`], [`text`], [`time`], [`fingerprint`], [`error`]: what the
//!   others are built from

pub mod api;
pub mod args;
pub mod cli;
pub mod command;
pub mod config;
pub mod error;
pub mod filter;
pub mod fingerprint;
pub mod order;
pub mod publisher;
pub mod scheduler;
pub mod setup;
pub mod store;
pub mod text;
pub mod time;

pub use api::canvas;

use crate::api::canvas::{clone_courses, course_views, Course, CourseView, Reply};
use crate::args::CliArgs;
use crate::cli::calendar::ls::{course_listing, standing_selection};
use crate::cli::calendar::publish::{
    unpublish_course_result,
    unpublish_course_state,
    PublishLayout,
};
use crate::cli::sync::{sync_report, synced, ReportView, SyncReport};
use crate::command::{Invocation, InvocationView};
use crate::config::{fresh_state, Config, ConfigView};
use crate::error::{Context, Error, Failure};
use crate::filter::{keep, kept, Matcher, Probe};
use crate::publisher::{artifact_extension, artifact_prefix, record_views, PublishRecord, RecordView};
use crate::scheduler::{
    disable_action,
    disabled_from,
    enable_action,
    enabled_from,
    ScheduleAction,
};
use crate::text::trimmed;
use crate::time::Timestamp;
use vstd::prelude::*;

verus! {

/// The stages that the flat command line asks for.
#[derive(Clone, Copy, Debug, PartialEq, Eq, Structural)]
pub struct Args {
    pub setup: bool,
    pub sync: bool,
}

/// The invocations that a pair of flags asks for, in the order in which
/// they run: the setup before the sync.
pub open spec fn invocations_of(setup: bool, sync: bool) -> Seq<InvocationView> {
    let first = if setup {
        seq![InvocationView::Setup]
    } else {
        Seq::empty()
    };
    if sync {
        first.push(InvocationView::Sync)
    } else {
        first
    }
}

/// The views of a sequence of invocations, in the same order.
pub open spec fn invocation_views(list: Seq<Invocation>) -> Seq<InvocationView> {
    list.map_values(|i: Invocation| i@)
}

impl Args {
    /// Takes the flags over as they were parsed.
    pub fn from_cli(cli: &CliArgs) -> (args: Args)
        ensures
            args.setup == cli.setup,
            args.sync == cli.sync,
    {
        Args { setup: cli.setup, sync: cli.sync }
    }

    /// The invocations that the flags ask for.
    pub fn invocations(&self) -> (list: Vec<Invocation>)
        ensures
            invocation_views(list@) == invocations_of(self.setup, self.sync),
    {
        let mut list: Vec<Invocation> = Vec::new();
        if self.setup {
            list.push(Invocation::Setup);
        }
        if self.sync {
            list.push(Invocation::Sync);
        }
        list
    }
}

/// A result with its failure set into the context of a stage.
pub open spec fn in_context<T>(result: Result<T, Error>, context: Context) -> Result<T, Failure> {
    match result {
        Ok(value) => Ok(value),
        Err(error) => Err(Failure { context, error }),
    }
}

/// The first state, made from the line in which the user gave the token.
pub fn run_setup(line: &str) -> (config: Config)
    ensures
        config@ == fresh_state(trimmed(line@)),
        config@.wf(),
{
    setup::run(line)
}

/// The sync stage. The answer of the remote source replaces the snapshot;
/// a failure leaves the state as it was and is reported as one of the sync.
pub fn run_sync(config: &mut Config, reply: Reply, now: Timestamp) -> (r: Result<
    SyncReport,
    Failure,
>)
    ensures
        final(config)@ == synced(old(config)@, reply, now),
        match r {
            Ok(report) => sync_report(old(config)@, reply, now) == Ok::<ReportView, Error>(
                report@,
            ),
            Err(failure) => failure.context == Context::Sync && sync_report(
                old(config)@,
                reply,
                now,
            ) == Err::<ReportView, Error>(failure.error),
        },
        old(config)@.wf() ==> final(config)@.wf(),
{
    match cli::sync::run(config, reply, now) {
        Ok(report) => Ok(report),
        Err(e) => Err(Context::Sync.wrap(e)),
    }
}

/// The courses that a listing of courses shows: all of them where `all` is
/// set, else the published ones where `published` is set, else the active
/// ones.
pub open spec fn courses_listed(state: ConfigView, all: bool, published: bool, now: Timestamp) -> Seq<
    CourseView,
> {
    if all {
        state.courses
    } else if published {
        kept(state.courses, Matcher::Published(state.records))
    } else {
        kept(state.courses, Matcher::Active(now))
    }
}

/// Lists courses.
pub fn run_course_ls(config: &Config, all: bool, published: bool, now: Timestamp) -> (list: Vec<
    Course,
>)
    ensures
        course_views(list@) == courses_listed(config@, all, published, now),
{
    if all {
        clone_courses(&config.courses)
    } else if published {
        keep(&config.courses, &Probe::Published(&config.publish_records))
    } else {
        keep(&config.courses, &Probe::Active(now))
    }
}

/// The courses whose feeds a listing of feeds shows: those of the standing
/// filter where `filtered` is set, else the one course that the key stands
/// for, else all.
pub open spec fn feeds_listed(
    state: ConfigView,
    course: Option<String>,
    filtered: bool,
    now: Timestamp,
) -> Result<Seq<CourseView>, Failure> {
    if filtered {
        Ok(standing_selection(state, now))
    } else if course is Some {
        in_context(course_listing(state.courses, course), Context::CalendarLs)
    } else {
        Ok(state.courses)
    }
}

/// Lists calendar feeds.
pub fn run_calendar_ls(config: &Config, course: &Option<String>, filtered: bool, now: Timestamp) -> (r:
    Result<Vec<Course>, Failure>)
    ensures
        match r {
            Ok(list) => feeds_listed(config@, *course, filtered, now) == Ok::<
                Seq<CourseView>,
                Failure,
            >(course_views(list@)),
            Err(failure) => feeds_listed(config@, *course, filtered, now) == Err::<
                Seq<CourseView>,
                Failure,
            >(failure),
        },
{
    if filtered {
        Ok(cli::calendar::ls::run_filtered(config, now))
    } else if course.is_some() {
        match cli::calendar::ls::run_course(config, course) {
            Ok(list) => Ok(list),
            Err(e) => Err(Context::CalendarLs.wrap(e)),
        }
    } else {
        Ok(cli::calendar::ls::run_all(config))
    }
}

/// Takes the user's choice of identifiers as the standing filter, and
/// shows what it selects from the snapshot.
pub fn run_calendar_filter(config: &mut Config, chosen: Vec<u64>) -> (list: Vec<Course>)
    ensures
        final(config)@ == (ConfigView { selection: Some(chosen@), ..old(config)@ }),
        course_views(list@) == kept(old(config)@.courses, Matcher::Chosen(chosen@)),
        old(config)@.wf() ==> final(config)@.wf(),
{
    let list = keep(&config.courses, &Probe::Chosen(&chosen));
    config.selection = Some(chosen);
    list
}

/// The courses that a publish command addresses: the one that the key
/// stands for; else all where `all` is set; else those of the standing
/// filter where `filtered` is set. A command that says none of these is an
/// invalid request.
pub open spec fn publish_set(
    state: ConfigView,
    course: Option<String>,
    all: bool,
    filtered: bool,
    now: Timestamp,
) -> Result<Seq<CourseView>, Failure> {
    if course is Some {
        in_context(course_listing(state.courses, course), Context::Publish)
    } else if all {
        Ok(state.courses)
    } else if filtered {
        Ok(standing_selection(state, now))
    } else {
        Err(Failure { context: Context::Publish, error: Error::InvalidRequest })
    }
}

/// Resolves a publish command to the courses that are to be published.
pub fn run_calendar_publish(
    config: &Config,
    course: &Option<String>,
    all: bool,
    filtered: bool,
    now: Timestamp,
) -> (r: Result<Vec<Course>, Failure>)
    ensures
        match r {
            Ok(list) => publish_set(config@, *course, all, filtered, now) == Ok::<
                Seq<CourseView>,
                Failure,
            >(course_views(list@)),
            Err(failure) => publish_set(config@, *course, all, filtered, now) == Err::<
                Seq<CourseView>,
                Failure,
            >(failure),
        },
{
    if let Some(key) = course {
        match cli::calendar::publish::publish_course(config, key) {
            Ok(list) => Ok(list),
            Err(e) => Err(Context::Publish.wrap(e)),
        }
    } else if all {
        Ok(cli::calendar::publish::publish_all(config))
    } else if filtered {
        Ok(cli::calendar::publish::publish_filtered(config, now))
    } else {
        Err(Context::Publish.wrap(Error::InvalidRequest))
    }
}

/// The layout of the published feeds.
pub fn run_calendar_publish_setup() -> (layout: PublishLayout)
    ensures
        layout.directory@ == cli::calendar::publish::feed_directory(),
        layout.prefix@ == artifact_prefix(),
        layout.extension@ == artifact_extension(),
{
    cli::calendar::publish::publish_setup()
}

/// The records of the published courses.
pub fn run_calendar_publish_ls(config: &Config) -> (list: Vec<PublishRecord>)
    ensures
        record_views(list@) == config@.records,
{
    cli::calendar::publish::publish_ls(config)
}

/// What an unpublish command reports: without a key it is an invalid
/// request; with one, what unpublishing by that key reports.
pub open spec fn unpublish_request(state: ConfigView, course: Option<String>) -> Result<
    RecordView,
    Failure,
> {
    match course {
        None => Err(Failure { context: Context::Unpublish, error: Error::InvalidRequest }),
        Some(key) => in_context(unpublish_course_result(state, key@), Context::Unpublish),
    }
}

/// The state after an unpublish command.
pub open spec fn unpublish_request_state(state: ConfigView, course: Option<String>) -> ConfigView {
    match course {
        None => state,
        Some(key) => unpublish_course_state(state, key@),
    }
}

/// Unpublishes the course that the key stands for and hands its record
/// back. A command without a key is an invalid request and alters nothing.
pub fn run_calendar_unpublish(config: &mut Config, course: &Option<String>) -> (r: Result<
    PublishRecord,
    Failure,
>)
    ensures
        final(config)@ == unpublish_request_state(old(config)@, *course),
        match r {
            Ok(record) => unpublish_request(old(config)@, *course) == Ok::<RecordView, Failure>(
                record@,
            ),
            Err(failure) => unpublish_request(old(config)@, *course) == Err::<
                RecordView,
                Failure,
            >(failure),
        },
        r is Err ==> final(config)@ == old(config)@,
        old(config)@.wf() ==> final(config)@.wf(),
{
    match course {
        None => Err(Context::Unpublish.wrap(Error::InvalidRequest)),
        Some(key) => match cli::calendar::publish::unpublish_course(config, key) {
            Ok(record) => Ok(record),
            Err(e) => Err(Context::Unpublish.wrap(e)),
        },
    }
}

/// Turns the recurring refresh on and says what to ask of the host.
pub fn run_calendar_autoupdate_enable(config: &mut Config) -> (action: ScheduleAction)
    ensures
        final(config)@ == (ConfigView {
            schedule: enabled_from(old(config)@.schedule),
            ..old(config)@
        }),
        action@ == enable_action(old(config)@.schedule),
        old(config)@.wf() ==> final(config)@.wf(),
{
    cli::calendar::publish::autoupdate_enable(config)
}

/// Turns the recurring refresh off and says what to ask of the host.
pub fn run_calendar_autoupdate_disable(config: &mut Config) -> (action: ScheduleAction)
    ensures
        final(config)@ == (ConfigView {
            schedule: disabled_from(old(config)@.schedule),
            ..old(config)@
        }),
        action@ == disable_action(old(config)@.schedule),
        old(config)@.wf() ==> final(config)@.wf(),
{
    cli::calendar::publish::autoupdate_disable(config)
}

} // verus!
