use canvascli::api::canvas::{Calendar, Course};
use canvascli::config::{get_config_path, locate_config, Config, ConfigPath};
use canvascli::error::Error;
use canvascli::publisher::PublishRecord;
use canvascli::scheduler::ScheduleState;
use canvascli::setup;
use canvascli::store::{load, save, SavePlan, SaveStep, StoredFile};
use canvascli::time::Timestamp;
use std::path::PathBuf;

fn course(id: u64) -> Course {
    Course { id, name: format!("Course {}", id), start_at: None, end_at: Some(Timestamp::new(1_800_000_000, 0)), calendar: Calendar { ics: format!("feed-{}", id) } }
}

fn record(course_id: u64) -> PublishRecord {
    PublishRecord { course_id, location: format!("course-{}.ics", course_id), published_at: Timestamp::new(5, 0), fingerprint: 99 }
}

fn state() -> Config {
    Config {
        api_token: "tok".to_string(),
        courses: vec![course(1), course(2)],
        last_sync: Some(Timestamp::new(1_700_000_000, 1)),
        publish_records: vec![record(2)],
        schedule: ScheduleState { enabled: true, interval_secs: 14_400, job: Some("job".to_string()) },
        selection: Some(vec![2]),
    }
}

#[test]
fn empty_state_has_nothing() {
    let c = Config::empty();
    assert_eq!(c.api_token, "");
    assert!(c.courses.is_empty());
    assert_eq!(c.last_sync, None);
    assert!(c.publish_records.is_empty());
    assert_eq!(c.schedule, ScheduleState::new());
    assert_eq!(c.selection, None);
    assert!(c.is_valid());
}

#[test]
fn new_state_holds_the_credential_only() {
    let c = Config::new("abc".to_string());
    assert_eq!(c.api_token, "abc");
    assert!(c.courses.is_empty() && c.publish_records.is_empty());
    assert!(c.is_valid());
}

#[test]
fn setup_trims_the_captured_line() {
    assert!(setup::run("  my-token \n") == Config::new("my-token".to_string()));
    assert!(setup::run("\n") == Config::new(String::new()));
}

#[test]
fn load_missing_file_is_the_empty_state() {
    assert!(load(StoredFile::Missing) == Ok(Config::empty()));
}

#[test]
fn load_unreadable_file_is_io_error() {
    assert!(load(StoredFile::Unreadable) == Err(Error::Io));
}

#[test]
fn load_undecodable_file_is_corrupt() {
    assert!(load(StoredFile::Undecodable) == Err(Error::CorruptState));
}

#[test]
fn load_valid_state_returns_it() {
    assert!(load(StoredFile::Decoded(state())) == Ok(state()));
}

#[test]
fn load_state_with_repeated_course_is_corrupt() {
    let mut s = state();
    s.courses.push(course(1));
    assert!(load(StoredFile::Decoded(s)) == Err(Error::CorruptState));
}

#[test]
fn load_state_with_two_records_for_a_course_is_corrupt() {
    let mut s = state();
    s.publish_records.push(record(2));
    assert!(load(StoredFile::Decoded(s)) == Err(Error::CorruptState));
}

#[test]
fn load_state_with_a_record_that_points_elsewhere_is_corrupt() {
    let mut s = state();
    s.publish_records[0].location = "../config.json".to_string();
    assert!(!s.is_valid());
    assert!(load(StoredFile::Decoded(s)) == Err(Error::CorruptState));
    let mut t = state();
    t.publish_records[0].location = "course-3.ics".to_string();
    assert!(load(StoredFile::Decoded(t)) == Err(Error::CorruptState));
}

#[test]
fn load_state_with_wrong_interval_is_corrupt() {
    let mut s = state();
    s.schedule.interval_secs = 60;
    assert!(load(StoredFile::Decoded(s)) == Err(Error::CorruptState));
}

#[test]
fn save_plans_temp_write_sync_rename() {
    assert_eq!(
        save(&state(), "config.json"),
        Ok(SavePlan {
            target_name: "config.json".to_string(),
            temp_name: "config.json.tmp".to_string(),
            steps: vec![SaveStep::WriteTemp, SaveStep::SyncTemp, SaveStep::Rename],
        })
    );
}

#[test]
fn save_refuses_an_invalid_state() {
    let mut s = state();
    s.publish_records.push(record(2));
    assert_eq!(save(&s, "config.json"), Err(Error::CorruptState));
}

#[test]
fn saved_state_loads_as_itself() {
    let s = state();
    assert!(save(&s, "config.json").is_ok());
    assert!(load(StoredFile::Decoded(state())) == Ok(s));
}

#[test]
fn config_path_below_platform_directory() {
    let path = locate_config(Some(PathBuf::from("/home/alice/.config")));
    assert_eq!(
        path,
        ConfigPath {
            base: Some(PathBuf::from("/home/alice/.config")),
            directory: "canvas-calendar-cli".to_string(),
            file_name: "config.json".to_string(),
            create_directory: false,
        }
    );
}

#[test]
fn config_path_falls_back_to_working_directory() {
    let path = locate_config(None);
    assert_eq!(
        path,
        ConfigPath { base: None, directory: ".canvas-calendar-cli".to_string(), file_name: "config.json".to_string(), create_directory: true }
    );
}

#[test]
fn config_path_on_this_machine_is_consistent() {
    let path = get_config_path();
    assert_eq!(path.file_name, "config.json");
    if path.base.is_some() {
        assert_eq!(path.directory, "canvas-calendar-cli");
        assert!(!path.create_directory);
    } else {
        assert_eq!(path.directory, ".canvas-calendar-cli");
        assert!(path.create_directory);
    }
}

/// The target and the temporary file, each with its content or absent.
type Files = (Option<Vec<u8>>, Option<Vec<u8>>);

fn take_step(files: Files, step: SaveStep, bytes: &[u8]) -> Files {
    match step {
        SaveStep::WriteTemp => (files.0, Some(bytes.to_vec())),
        SaveStep::SyncTemp => files,
        SaveStep::Rename => (files.1, None),
    }
}

#[test]
fn interrupted_save_leaves_the_prior_state_file() {
    let plan = save(&state(), "config.json").unwrap();
    let prior: Files = (Some(b"old state".to_vec()), None);
    for done in 0..plan.steps.len() {
        let mut files = prior.clone();
        for step in &plan.steps[..done] {
            files = take_step(files, *step, b"new state");
        }
        assert_eq!(files.0, Some(b"old state".to_vec()));
    }
}

#[test]
fn completed_save_leaves_the_new_state_file() {
    let plan = save(&state(), "config.json").unwrap();
    let mut files: Files = (Some(b"old state".to_vec()), None);
    for step in &plan.steps {
        files = take_step(files, *step, b"new state");
    }
    assert_eq!(files, (Some(b"new state".to_vec()), None));
}
