//! The durable state: the credential, the last snapshot of courses, the
//! publish records, the schedule and the chosen filter.

use crate::api::canvas::{course_views, distinct_ids, has_distinct_ids, Course, CourseView};
use crate::publisher::{
    distinct_records,
    has_distinct_records,
    has_placed_records,
    record_views,
    well_placed,
    PublishRecord,
    RecordView,
};
use crate::scheduler::{initial_schedule, ScheduleState, ScheduleView};
use crate::time::Timestamp;
use vstd::prelude::*;

verus! {

/// Everything that outlasts one run.
///
/// The state cannot be formatted for display: it holds the credential,
/// which is never echoed.
#[derive(PartialEq, Eq)]
pub struct Config {
    /// The bearer token; empty where none was captured yet.
    pub api_token: String,
    /// The courses of the last successful sync, in the remote order.
    pub courses: Vec<Course>,
    /// The instant of the last successful sync.
    pub last_sync: Option<Timestamp>,
    /// One record for each published course.
    pub publish_records: Vec<PublishRecord>,
    /// The switch of the recurring refresh.
    pub schedule: ScheduleState,
    /// The identifiers that the user chose to filter by, where a choice
    /// was made.
    pub selection: Option<Vec<u64>>,
}

/// What the state is, as mathematics.
pub struct ConfigView {
    pub credential: Seq<char>,
    pub courses: Seq<CourseView>,
    pub last_sync: Option<Timestamp>,
    pub records: Seq<RecordView>,
    pub schedule: ScheduleView,
    pub selection: Option<Seq<u64>>,
}

/// The view of an optional choice of identifiers.
pub open spec fn selection_view(selection: Option<Vec<u64>>) -> Option<Seq<u64>> {
    match selection {
        Some(ids) => Some(ids@),
        None => None,
    }
}

impl View for Config {
    type V = ConfigView;

    open spec fn view(&self) -> ConfigView {
        ConfigView {
            credential: self.api_token@,
            courses: course_views(self.courses@),
            last_sync: self.last_sync,
            records: record_views(self.publish_records@),
            schedule: self.schedule@,
            selection: selection_view(self.selection),
        }
    }
}

impl ConfigView {
    /// No identifier occurs twice in the snapshot, no course has two
    /// publish records, every record names the artifact that belongs to
    /// its course, and the schedule is valid.
    pub open spec fn wf(self) -> bool {
        &&& distinct_ids(self.courses)
        &&& distinct_records(self.records)
        &&& well_placed(self.records)
        &&& self.schedule.wf()
    }
}

/// The state right after the credential was captured: nothing synced,
/// nothing published, the refresh disabled, no filter chosen.
pub open spec fn fresh_state(credential: Seq<char>) -> ConfigView {
    ConfigView {
        credential,
        courses: Seq::empty(),
        last_sync: None,
        records: Seq::empty(),
        schedule: initial_schedule(),
        selection: None,
    }
}

/// The state of a first run: as fresh, and without a credential.
pub open spec fn empty_state() -> ConfigView {
    fresh_state(Seq::empty())
}

impl Config {
    /// The fresh state for a credential.
    pub fn new(api_token: String) -> (config: Self)
        ensures
            config@ == fresh_state(api_token@),
            config@.wf(),
    {
        let config = Config {
            api_token,
            courses: Vec::new(),
            last_sync: None,
            publish_records: Vec::new(),
            schedule: ScheduleState::new(),
            selection: None,
        };
        assert(config@.courses =~= Seq::empty());
        assert(config@.records =~= Seq::empty());
        config
    }

    /// The state of a first run.
    pub fn empty() -> (config: Self)
        ensures
            config@ == empty_state(),
            config@.wf(),
    {
        Config::new(String::new())
    }

    /// Decides `wf`.
    pub fn is_valid(&self) -> (r: bool)
        ensures
            r == self@.wf(),
    {
        has_distinct_ids(&self.courses) && has_distinct_records(&self.publish_records)
            && has_placed_records(&self.publish_records) && self.schedule.is_valid()
    }
}

/// The path type of the standard library. Nothing is known of a path but
/// that it is the one that was handed over.
#[verifier::external_type_specification]
#[verifier::external_body]
pub struct ExPathBuf(std::path::PathBuf);

/// Where the state file lies: below `base`, or below the current working
/// directory where `base` is `None`, in `directory`, under `file_name`.
#[derive(Debug, PartialEq, Eq)]
pub struct ConfigPath {
    pub base: Option<std::path::PathBuf>,
    pub directory: String,
    pub file_name: String,
    /// Whether the directory has to be made before the path is used.
    pub create_directory: bool,
}

/// The directory of the state file below the platform's configuration
/// directory.
pub open spec fn platform_directory() -> Seq<char> {
    "canvas-calendar-cli"@
}

/// The hidden directory of the state file below the working directory.
pub open spec fn fallback_directory() -> Seq<char> {
    ".canvas-calendar-cli"@
}

/// The name of the state file.
pub open spec fn state_file_name() -> Seq<char> {
    "config.json"@
}

/// Asks `dirs::config_dir` for the user's configuration directory.
///
/// Nothing is claimed of the answer: it depends on the platform and on
/// the environment of the process, and there may be none.
#[verifier::external_body]
fn platform_config_dir() -> Option<std::path::PathBuf> {
    dirs::config_dir()
}

/// Places the state file for a given platform configuration directory.
/// With one, the file goes into this program's directory below it. Without
/// one it goes into a hidden directory below the working directory, which
/// is then to be made.
pub fn locate_config(platform_dir: Option<std::path::PathBuf>) -> (path: ConfigPath)
    ensures
        path.base == platform_dir,
        path.file_name@ == state_file_name(),
        path.directory@ == if platform_dir is Some {
            platform_directory()
        } else {
            fallback_directory()
        },
        path.create_directory == (platform_dir is None),
{
    match platform_dir {
        Some(dir) => ConfigPath {
            base: Some(dir),
            directory: "canvas-calendar-cli".to_owned(),
            file_name: "config.json".to_owned(),
            create_directory: false,
        },
        None => ConfigPath {
            base: None,
            directory: ".canvas-calendar-cli".to_owned(),
            file_name: "config.json".to_owned(),
            create_directory: true,
        },
    }
}

/// Places the state file on this machine. Which configuration directory
/// the platform names is not known here; whatever it is, the file is
/// placed as `locate_config` places it.
pub fn get_config_path() -> (path: ConfigPath)
    ensures
        path.file_name@ == state_file_name(),
        path.directory@ == if path.base is Some {
            platform_directory()
        } else {
            fallback_directory()
        },
        path.create_directory == (path.base is None),
{
    locate_config(platform_config_dir())
}

} // verus!
