//! The command tree, and the one pipeline invocation that each command
//! stands for.

use vstd::prelude::*;

verus! {

/// A parsed command line.
#[derive(Debug, PartialEq, Eq)]
pub struct Cli {
    pub command: Commands,
}

/// The commands at the top.
#[allow(inconsistent_fields)]
#[derive(Debug, PartialEq, Eq)]
pub enum Commands {
    /// Capture the credential.
    Setup,
    /// Sync the courses from the remote source.
    Sync,
    /// Commands on courses.
    Course { command: CourseCommands },
    /// Commands on calendar feeds.
    Calendar { command: CalendarCommands },
}

/// The commands on courses.
#[derive(Clone, Copy, Debug, PartialEq, Eq, Structural)]
pub enum CourseCommands {
    /// List courses: all of them, the published ones, or the active ones.
    Ls { all: bool, published: bool },
}

/// The commands on calendar feeds.
#[derive(Debug, PartialEq, Eq)]
pub enum CalendarCommands {
    /// List feeds, of one course or by the standing filter.
    Ls { course: Option<String>, filtered: bool },
    /// Choose the filter.
    Filter,
    /// Publish feeds, or set publishing up.
    Publish { setup: Option<PublishSetupCommand>, course: Option<String>, all: bool, filtered: bool },
    /// List the published feeds.
    PublishLs,
    /// Unpublish the feed of one course.
    Unpublish { course: Option<String> },
    /// Switch the recurring refresh.
    Autoupdate { command: AutoupdateCommands },
}

/// The one subcommand of publishing.
#[derive(Clone, Copy, Debug, PartialEq, Eq, Structural)]
pub enum PublishSetupCommand {
    Setup,
}

/// The two positions of the recurring refresh.
#[derive(Clone, Copy, Debug, PartialEq, Eq, Structural)]
pub enum AutoupdateCommands {
    Enable,
    Disable,
}

/// One invocation of the pipeline, with the arguments it takes from the
/// command line.
#[derive(Debug, PartialEq, Eq)]
pub enum Invocation {
    Setup,
    Sync,
    CourseLs { all: bool, published: bool },
    CalendarLs { course: Option<String>, filtered: bool },
    CalendarFilter,
    CalendarPublishSetup,
    CalendarPublish { course: Option<String>, all: bool, filtered: bool },
    CalendarPublishLs,
    CalendarUnpublish { course: Option<String> },
    AutoupdateEnable,
    AutoupdateDisable,
}

/// What an invocation is, as mathematics.
pub enum InvocationView {
    Setup,
    Sync,
    CourseLs { all: bool, published: bool },
    CalendarLs { course: Option<Seq<char>>, filtered: bool },
    CalendarFilter,
    CalendarPublishSetup,
    CalendarPublish { course: Option<Seq<char>>, all: bool, filtered: bool },
    CalendarPublishLs,
    CalendarUnpublish { course: Option<Seq<char>> },
    AutoupdateEnable,
    AutoupdateDisable,
}

/// The view of an optional key.
pub open spec fn key_view(key: Option<String>) -> Option<Seq<char>> {
    match key {
        Some(text) => Some(text@),
        None => None,
    }
}

impl View for Invocation {
    type V = InvocationView;

    open spec fn view(&self) -> InvocationView {
        match *self {
            Invocation::Setup => InvocationView::Setup,
            Invocation::Sync => InvocationView::Sync,
            Invocation::CourseLs { all, published } => InvocationView::CourseLs { all, published },
            Invocation::CalendarLs { course, filtered } => InvocationView::CalendarLs {
                course: key_view(course),
                filtered,
            },
            Invocation::CalendarFilter => InvocationView::CalendarFilter,
            Invocation::CalendarPublishSetup => InvocationView::CalendarPublishSetup,
            Invocation::CalendarPublish { course, all, filtered } => {
                InvocationView::CalendarPublish { course: key_view(course), all, filtered }
            },
            Invocation::CalendarPublishLs => InvocationView::CalendarPublishLs,
            Invocation::CalendarUnpublish { course } => InvocationView::CalendarUnpublish {
                course: key_view(course),
            },
            Invocation::AutoupdateEnable => InvocationView::AutoupdateEnable,
            Invocation::AutoupdateDisable => InvocationView::AutoupdateDisable,
        }
    }
}

/// The invocation that a command stands for. Each command stands for
/// exactly one; publishing with the setup subcommand is the setup of
/// publishing, whatever else the command line says.
pub open spec fn invocation_of(command: Commands) -> InvocationView {
    match command {
        Commands::Setup => InvocationView::Setup,
        Commands::Sync => InvocationView::Sync,
        Commands::Course { command: CourseCommands::Ls { all, published } } => {
            InvocationView::CourseLs { all, published }
        },
        Commands::Calendar { command } => match command {
            CalendarCommands::Ls { course, filtered } => InvocationView::CalendarLs {
                course: key_view(course),
                filtered,
            },
            CalendarCommands::Filter => InvocationView::CalendarFilter,
            CalendarCommands::Publish { setup, course, all, filtered } => if setup is Some {
                InvocationView::CalendarPublishSetup
            } else {
                InvocationView::CalendarPublish { course: key_view(course), all, filtered }
            },
            CalendarCommands::PublishLs => InvocationView::CalendarPublishLs,
            CalendarCommands::Unpublish { course } => InvocationView::CalendarUnpublish {
                course: key_view(course),
            },
            CalendarCommands::Autoupdate { command: AutoupdateCommands::Enable } => {
                InvocationView::AutoupdateEnable
            },
            CalendarCommands::Autoupdate { command: AutoupdateCommands::Disable } => {
                InvocationView::AutoupdateDisable
            },
        },
    }
}

impl InvocationView {
    /// Whether the invocation can alter the durable state, so that the
    /// state is written back after it: the first setup, a sync, the choice
    /// of a filter, publishing, unpublishing, and the switching of the
    /// recurring refresh. Listings alter nothing.
    pub open spec fn alters_state(self) -> bool {
        match self {
            InvocationView::Setup => true,
            InvocationView::Sync => true,
            InvocationView::CourseLs { .. } => false,
            InvocationView::CalendarLs { .. } => false,
            InvocationView::CalendarFilter => true,
            InvocationView::CalendarPublishSetup => false,
            InvocationView::CalendarPublish { .. } => true,
            InvocationView::CalendarPublishLs => false,
            InvocationView::CalendarUnpublish { .. } => true,
            InvocationView::AutoupdateEnable => true,
            InvocationView::AutoupdateDisable => true,
        }
    }
}

fn clone_key(key: &Option<String>) -> (copy: Option<String>)
    ensures
        key_view(copy) == key_view(*key),
{
    match key {
        Some(text) => Some(text.clone()),
        None => None,
    }
}

impl Cli {
    /// The invocation that the command line stands for.
    pub fn invocation(&self) -> (invocation: Invocation)
        ensures
            invocation@ == invocation_of(self.command),
    {
        match &self.command {
            Commands::Setup => Invocation::Setup,
            Commands::Sync => Invocation::Sync,
            Commands::Course { command } => match command {
                CourseCommands::Ls { all, published } => Invocation::CourseLs {
                    all: *all,
                    published: *published,
                },
            },
            Commands::Calendar { command } => match command {
                CalendarCommands::Ls { course, filtered } => Invocation::CalendarLs {
                    course: clone_key(course),
                    filtered: *filtered,
                },
                CalendarCommands::Filter => Invocation::CalendarFilter,
                CalendarCommands::Publish { setup, course, all, filtered } => {
                    if setup.is_some() {
                        Invocation::CalendarPublishSetup
                    } else {
                        Invocation::CalendarPublish {
                            course: clone_key(course),
                            all: *all,
                            filtered: *filtered,
                        }
                    }
                },
                CalendarCommands::PublishLs => Invocation::CalendarPublishLs,
                CalendarCommands::Unpublish { course } => Invocation::CalendarUnpublish {
                    course: clone_key(course),
                },
                CalendarCommands::Autoupdate { command } => match command {
                    AutoupdateCommands::Enable => Invocation::AutoupdateEnable,
                    AutoupdateCommands::Disable => Invocation::AutoupdateDisable,
                },
            },
        }
    }
}

impl Invocation {
    /// Decides `alters_state`.
    pub fn alters_state(&self) -> (r: bool)
        ensures
            r == self@.alters_state(),
    {
        match self {
            Invocation::Setup => true,
            Invocation::Sync => true,
            Invocation::CourseLs { .. } => false,
            Invocation::CalendarLs { .. } => false,
            Invocation::CalendarFilter => true,
            Invocation::CalendarPublishSetup => false,
            Invocation::CalendarPublish { .. } => true,
            Invocation::CalendarPublishLs => false,
            Invocation::CalendarUnpublish { .. } => true,
            Invocation::AutoupdateEnable => true,
            Invocation::AutoupdateDisable => true,
        }
    }
}

} // verus!
