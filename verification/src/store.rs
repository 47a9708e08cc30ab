//! The state store: what is made of the state file when it is read, and
//! the steps by which it is replaced.
//!
//! Reading and writing are the caller's. The store judges what was read,
//! and lays down the order of the writes so that the state file is never
//! seen half written.

use crate::config::{empty_state, Config, ConfigView};
use crate::error::Error;
use vstd::prelude::*;
use vstd::string::*;

verus! {

/// What the caller found where the state file is kept.
#[derive(PartialEq, Eq)]
pub enum StoredFile {
    /// There is no file.
    Missing,
    /// There is a file, and it could not be read.
    Unreadable,
    /// The file was read, and its content is no state.
    Undecodable,
    /// The file was read and decoded to this state.
    Decoded(Config),
}

/// What loading makes of the file. A missing file is the empty state of a
/// first run. A file that cannot be read is an `Io` failure. A file whose
/// content is no state, or a state that breaks its own rules, is corrupt.
pub open spec fn loaded(file: StoredFile) -> Result<ConfigView, Error> {
    match file {
        StoredFile::Missing => Ok(empty_state()),
        StoredFile::Unreadable => Err(Error::Io),
        StoredFile::Undecodable => Err(Error::CorruptState),
        StoredFile::Decoded(config) => if config@.wf() {
            Ok(config@)
        } else {
            Err(Error::CorruptState)
        },
    }
}

/// Loads the state from what the caller found.
pub fn load(file: StoredFile) -> (r: Result<Config, Error>)
    ensures
        match r {
            Ok(config) => loaded(file) == Ok::<ConfigView, Error>(config@) && config@.wf(),
            Err(e) => loaded(file) == Err::<ConfigView, Error>(e),
        },
{
    match file {
        StoredFile::Missing => Ok(Config::empty()),
        StoredFile::Unreadable => Err(Error::Io),
        StoredFile::Undecodable => Err(Error::CorruptState),
        StoredFile::Decoded(config) => {
            if config.is_valid() {
                Ok(config)
            } else {
                Err(Error::CorruptState)
            }
        },
    }
}

/// One step of replacing the state file.
#[derive(Clone, Copy, Debug, PartialEq, Eq, Structural)]
pub enum SaveStep {
    /// Write the new content to the temporary file.
    WriteTemp,
    /// Force the temporary file to the disk.
    SyncTemp,
    /// Rename the temporary file onto the state file.
    Rename,
}

/// The steps of a save, in their order.
pub open spec fn save_steps() -> Seq<SaveStep> {
    seq![SaveStep::WriteTemp, SaveStep::SyncTemp, SaveStep::Rename]
}

/// The name of the temporary file beside a state file.
pub open spec fn temp_name_of(target: Seq<char>) -> Seq<char> {
    target + ".tmp"@
}

/// How a state file is replaced: which temporary file is used, and in
/// which order the steps are taken.
#[derive(Debug, PartialEq, Eq)]
pub struct SavePlan {
    pub target_name: String,
    pub temp_name: String,
    pub steps: Vec<SaveStep>,
}

/// Plans the save of a state under `target_name`. A state that breaks its
/// own rules is refused as corrupt, so that nothing is written that
/// loading would reject.
pub fn save(config: &Config, target_name: &str) -> (r: Result<SavePlan, Error>)
    ensures
        match r {
            Ok(plan) => {
                &&& config@.wf()
                &&& plan.target_name@ == target_name@
                &&& plan.temp_name@ == temp_name_of(target_name@)
                &&& plan.steps@ == save_steps()
            },
            Err(e) => !config@.wf() && e == Error::CorruptState,
        },
{
    if !config.is_valid() {
        return Err(Error::CorruptState);
    }
    let mut temp_name = target_name.to_owned();
    temp_name.append(".tmp");
    let mut steps: Vec<SaveStep> = Vec::new();
    steps.push(SaveStep::WriteTemp);
    steps.push(SaveStep::SyncTemp);
    steps.push(SaveStep::Rename);
    Ok(SavePlan { target_name: target_name.to_owned(), temp_name, steps })
}

/// The two files that a save touches, each with its content or absent.
pub struct Disk {
    pub target: Option<Seq<u8>>,
    pub temp: Option<Seq<u8>>,
}

/// The disk after a step was taken in full, `bytes` being the new content.
pub open spec fn step_applied(disk: Disk, step: SaveStep, bytes: Seq<u8>) -> Disk {
    match step {
        SaveStep::WriteTemp => Disk { target: disk.target, temp: Some(bytes) },
        SaveStep::SyncTemp => disk,
        SaveStep::Rename => Disk { target: disk.temp, temp: None },
    }
}

/// The disk after a step was cut short. A write that was cut short leaves
/// the temporary file with whatever had reached it, here `torn`; forcing
/// and renaming happen in full or not at all.
pub open spec fn step_interrupted(disk: Disk, step: SaveStep, torn: Seq<u8>) -> Disk {
    match step {
        SaveStep::WriteTemp => Disk { target: disk.target, temp: Some(torn) },
        SaveStep::SyncTemp => disk,
        SaveStep::Rename => disk,
    }
}

/// The disk after the steps were taken in full, one after the other.
pub open spec fn steps_applied(disk: Disk, steps: Seq<SaveStep>, bytes: Seq<u8>) -> Disk
    decreases steps.len(),
{
    if steps.len() == 0 {
        disk
    } else {
        step_applied(steps_applied(disk, steps.drop_last(), bytes), steps.last(), bytes)
    }
}

/// The disk as a crash leaves it that comes after `done` steps of a save
/// and cuts the next one short.
pub open spec fn crash_state(disk: Disk, bytes: Seq<u8>, done: int, torn: Seq<u8>) -> Disk {
    let reached = steps_applied(disk, save_steps().take(done), bytes);
    if 0 <= done < save_steps().len() {
        step_interrupted(reached, save_steps()[done], torn)
    } else {
        reached
    }
}

/// A save that runs to its end leaves the new content under the state
/// file's name, and no temporary file.
pub proof fn lemma_completed_save(disk: Disk, bytes: Seq<u8>)
    ensures
        steps_applied(disk, save_steps(), bytes) == (Disk { target: Some(bytes), temp: None }),
{
    reveal_with_fuel(steps_applied, 4);
}

/// A save that is cut short leaves the state file as it was. Whichever
/// step the crash falls into, and whatever a torn write left in the
/// temporary file, the content under the state file's name is the prior one.
pub proof fn lemma_interrupted_save_keeps_prior_state(
    disk: Disk,
    bytes: Seq<u8>,
    done: int,
    torn: Seq<u8>,
)
    requires
        0 <= done < save_steps().len(),
    ensures
        crash_state(disk, bytes, done, torn).target == disk.target,
{
    reveal_with_fuel(steps_applied, 4);
}

/// What was saved is what is loaded: a state that `save` accepts, decoded
/// again from what was written, loads as itself.
pub proof fn lemma_saved_state_loads(config: Config)
    requires
        config@.wf(),
    ensures
        loaded(StoredFile::Decoded(config)) == Ok::<ConfigView, Error>(config@),
{
}

} // verus!
