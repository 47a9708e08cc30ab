//! The switch of the recurring refresh.
//!
//! The scheduler keeps no timer. It holds whether the refresh is enabled and
//! says what the host's recurring-task facility must be asked for when that
//! changes; the caller does the asking.

use vstd::prelude::*;

verus! {

/// The interval between two refreshes: four hours, in seconds.
pub const AUTOUPDATE_INTERVAL_SECS: u64 = 14_400;

/// Whether the refresh is enabled, its interval, and the handle that the
/// host gave to the registered job, where it gave one.
#[derive(Debug, PartialEq, Eq)]
pub struct ScheduleState {
    pub enabled: bool,
    pub interval_secs: u64,
    pub job: Option<String>,
}

/// What a schedule is, as mathematics.
pub struct ScheduleView {
    pub enabled: bool,
    pub interval_secs: u64,
    pub job: Option<Seq<char>>,
}

/// The view of an optional job handle.
pub open spec fn handle_view(job: Option<String>) -> Option<Seq<char>> {
    match job {
        Some(name) => Some(name@),
        None => None,
    }
}

impl View for ScheduleState {
    type V = ScheduleView;

    open spec fn view(&self) -> ScheduleView {
        ScheduleView {
            enabled: self.enabled,
            interval_secs: self.interval_secs,
            job: handle_view(self.job),
        }
    }
}

impl ScheduleView {
    /// The interval is the fixed one, and only an enabled schedule has a job.
    pub open spec fn wf(self) -> bool {
        &&& self.interval_secs == AUTOUPDATE_INTERVAL_SECS
        &&& (self.job is Some ==> self.enabled)
    }
}

/// What the caller must ask of the host after a transition.
#[derive(Debug, PartialEq, Eq)]
pub enum ScheduleAction {
    /// Nothing: the schedule already was as asked.
    Nothing,
    /// Register a trigger that fires at this interval.
    Register { interval_secs: u64 },
    /// Remove the trigger; `job` is the handle it was registered under.
    Deregister { job: Option<String> },
}

/// What an action is, as mathematics.
pub enum ActionView {
    Nothing,
    Register { interval_secs: u64 },
    Deregister { job: Option<Seq<char>> },
}

impl View for ScheduleAction {
    type V = ActionView;

    open spec fn view(&self) -> ActionView {
        match *self {
            ScheduleAction::Nothing => ActionView::Nothing,
            ScheduleAction::Register { interval_secs } => ActionView::Register { interval_secs },
            ScheduleAction::Deregister { job } => ActionView::Deregister { job: handle_view(job) },
        }
    }
}

/// The schedule before anything was asked of it: disabled, without a job.
pub open spec fn initial_schedule() -> ScheduleView {
    ScheduleView { enabled: false, interval_secs: AUTOUPDATE_INTERVAL_SECS, job: None }
}

/// The schedule after `enable`: an enabled schedule stays as it is, a
/// disabled one becomes enabled at the fixed interval.
pub open spec fn enabled_from(s: ScheduleView) -> ScheduleView {
    if s.enabled {
        s
    } else {
        ScheduleView { enabled: true, interval_secs: AUTOUPDATE_INTERVAL_SECS, job: None }
    }
}

/// What `enable` asks of the host.
pub open spec fn enable_action(s: ScheduleView) -> ActionView {
    if s.enabled {
        ActionView::Nothing
    } else {
        ActionView::Register { interval_secs: AUTOUPDATE_INTERVAL_SECS }
    }
}

/// The schedule after `disable`: a disabled schedule stays as it is, an
/// enabled one becomes disabled and forgets its job.
pub open spec fn disabled_from(s: ScheduleView) -> ScheduleView {
    if s.enabled {
        ScheduleView { enabled: false, interval_secs: s.interval_secs, job: None }
    } else {
        s
    }
}

/// What `disable` asks of the host.
pub open spec fn disable_action(s: ScheduleView) -> ActionView {
    if s.enabled {
        ActionView::Deregister { job: s.job }
    } else {
        ActionView::Nothing
    }
}

/// The schedule after the host's handle was noted: only an enabled schedule
/// takes one.
pub open spec fn with_job(s: ScheduleView, job: Seq<char>) -> ScheduleView {
    if s.enabled {
        ScheduleView { enabled: true, interval_secs: s.interval_secs, job: Some(job) }
    } else {
        s
    }
}

impl ScheduleState {
    /// The initial schedule.
    pub fn new() -> (s: Self)
        ensures
            s@ == initial_schedule(),
            s@.wf(),
    {
        ScheduleState { enabled: false, interval_secs: AUTOUPDATE_INTERVAL_SECS, job: None }
    }

    /// Decides `wf`.
    pub fn is_valid(&self) -> (r: bool)
        ensures
            r == self@.wf(),
    {
        self.interval_secs == AUTOUPDATE_INTERVAL_SECS && (self.job.is_none() || self.enabled)
    }

    /// Turns the refresh on. On an enabled schedule this changes nothing and
    /// asks for nothing, so that no second job is registered.
    pub fn enable(&mut self) -> (action: ScheduleAction)
        ensures
            final(self)@ == enabled_from(old(self)@),
            action@ == enable_action(old(self)@),
            old(self)@.wf() ==> final(self)@.wf(),
    {
        if self.enabled {
            ScheduleAction::Nothing
        } else {
            self.enabled = true;
            self.interval_secs = AUTOUPDATE_INTERVAL_SECS;
            self.job = None;
            ScheduleAction::Register { interval_secs: AUTOUPDATE_INTERVAL_SECS }
        }
    }

    /// Turns the refresh off. On a disabled schedule this changes nothing
    /// and asks for nothing.
    pub fn disable(&mut self) -> (action: ScheduleAction)
        ensures
            final(self)@ == disabled_from(old(self)@),
            action@ == disable_action(old(self)@),
            old(self)@.wf() ==> final(self)@.wf(),
    {
        if self.enabled {
            self.enabled = false;
            let job = self.job.take();
            ScheduleAction::Deregister { job }
        } else {
            ScheduleAction::Nothing
        }
    }

    /// Notes the handle under which the host registered the job. A disabled
    /// schedule takes none; the result says whether the handle was noted.
    pub fn attach_job(&mut self, job: String) -> (attached: bool)
        ensures
            attached == old(self).enabled,
            final(self)@ == with_job(old(self)@, job@),
            old(self)@.wf() ==> final(self)@.wf(),
    {
        if self.enabled {
            self.job = Some(job);
            true
        } else {
            false
        }
    }
}

/// Enabling twice is enabling once: the second call leaves the schedule as
/// the first made it, and asks the host for nothing.
pub proof fn lemma_enable_idempotent(s: ScheduleView)
    ensures
        enabled_from(s).enabled,
        enabled_from(enabled_from(s)) == enabled_from(s),
        enable_action(enabled_from(s)) == ActionView::Nothing,
{
}

/// Disabling a disabled schedule changes nothing and asks for nothing; and
/// disabling twice is disabling once.
pub proof fn lemma_disable_idempotent(s: ScheduleView)
    ensures
        !s.enabled ==> disabled_from(s) == s && disable_action(s) == ActionView::Nothing,
        !disabled_from(s).enabled,
        disabled_from(disabled_from(s)) == disabled_from(s),
        disable_action(disabled_from(s)) == ActionView::Nothing,
{
}

} // verus!
