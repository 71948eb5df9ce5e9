//! The order of steps by which an encoded image reaches its destination.
//!
//! A file is never written in place. The bytes go to a staging file in the
//! destination's directory, are flushed and synced there, and only then the
//! staging file is renamed onto the destination. This module holds the decisions
//! of that protocol: which step comes next, and what a failed step means. The
//! caller performs each step on the file system and reports how it went.

use vstd::prelude::*;

verus! {

/// The suffix of the staging file's name.
pub const STAGING_SUFFIX: &'static str = ".tmp";

/// The directory of the staging file where the destination names no parent.
pub const CURRENT_DIR: &'static str = ".";

/// The size of the buffer through which the encoded bytes are written: 64 KiB.
pub const WRITE_BUFFER_BYTES: usize = 65536;

/// The directory in which the staging file is created: the destination's parent,
/// or the current directory where the destination names none. Staging file and
/// destination are then on one file system, and the rename is a single move.
pub fn staging_dir<'a>(parent: Option<&'a str>) -> (dir: &'a str)
    ensures
        dir@ == (match parent {
            Some(named) => named@,
            None => CURRENT_DIR@,
        }),
{
    match parent {
        Some(named) => named,
        None => CURRENT_DIR,
    }
}

/// The phase in which a save failed.
#[derive(Debug, Clone, Copy, PartialEq, Eq, Structural)]
pub enum SaveError {
    /// The staging file could not be created.
    TempFileCreation,
    /// The codec refused the image, or its bytes did not reach the staging file.
    Encode,
    /// The staging file could not be synced to the disk.
    Sync,
    /// The staging file could not be renamed onto the destination.
    Persist,
}

/// One step on the file system.
#[derive(Debug, Clone, Copy, PartialEq, Eq, Structural)]
pub enum SaveStep {
    /// Create the staging file in the destination's directory.
    CreateStaging,
    /// Encode the image and write the bytes to the staging file through the buffer.
    WriteEncoded,
    /// Flush the buffer into the staging file.
    Flush,
    /// Sync the staging file to the disk.
    Sync,
    /// Rename the staging file onto the destination.
    Persist,
    /// Remove the staging file.
    Discard,
}

/// How far a save has come.
#[derive(Debug, Clone, Copy, PartialEq, Eq, Structural)]
pub enum SaveState {
    /// Nothing is done yet.
    Start,
    /// The staging file exists and is empty.
    Staged,
    /// The encoded bytes are written, some of them perhaps still in the buffer.
    Written,
    /// All encoded bytes are in the staging file.
    Flushed,
    /// The staging file is on the disk.
    Synced,
    /// A step failed while the staging file existed; it is still there.
    Aborting(SaveError),
    /// The destination holds the encoded image. Nothing is left to do.
    Finished,
    /// The save failed and no staging file is left. Nothing is left to do.
    Failed(SaveError),
}

impl SaveError {
    /// The words of the message for each phase.
    pub open spec fn context_chars(self) -> Seq<char> {
        match self {
            SaveError::TempFileCreation => "Failed to create temporary file"@,
            SaveError::Encode => "Failed to encode image"@,
            SaveError::Sync => "Failed to sync to disk"@,
            SaveError::Persist => "Failed to persist file"@,
        }
    }

    /// A message that names the phase that failed.
    pub fn context(&self) -> (message: String)
        ensures
            message@ == self.context_chars(),
    {
        match self {
            SaveError::TempFileCreation => "Failed to create temporary file".to_owned(),
            SaveError::Encode => "Failed to encode image".to_owned(),
            SaveError::Sync => "Failed to sync to disk".to_owned(),
            SaveError::Persist => "Failed to persist file".to_owned(),
        }
    }
}

impl SaveStep {
    /// The error that a failure of this step stands for. `Discard` does not fail.
    pub open spec fn error_of(self) -> Option<SaveError> {
        match self {
            SaveStep::CreateStaging => Some(SaveError::TempFileCreation),
            SaveStep::WriteEncoded => Some(SaveError::Encode),
            SaveStep::Flush => Some(SaveError::Encode),
            SaveStep::Sync => Some(SaveError::Sync),
            SaveStep::Persist => Some(SaveError::Persist),
            SaveStep::Discard => None,
        }
    }
}

impl SaveState {
    /// The step to perform in this state, `None` where the save is over.
    pub open spec fn step_of(self) -> Option<SaveStep> {
        match self {
            SaveState::Start => Some(SaveStep::CreateStaging),
            SaveState::Staged => Some(SaveStep::WriteEncoded),
            SaveState::Written => Some(SaveStep::Flush),
            SaveState::Flushed => Some(SaveStep::Sync),
            SaveState::Synced => Some(SaveStep::Persist),
            SaveState::Aborting(_) => Some(SaveStep::Discard),
            SaveState::Finished => None,
            SaveState::Failed(_) => None,
        }
    }

    /// The state after this state's step went well or failed. A failure before
    /// the staging file exists ends the save; a later one leaves the staging file
    /// to be discarded first. Discarding leads to `Failed` however it went.
    pub open spec fn after(self, succeeded: bool) -> SaveState {
        match self {
            SaveState::Start => if succeeded {
                SaveState::Staged
            } else {
                SaveState::Failed(SaveError::TempFileCreation)
            },
            SaveState::Staged => if succeeded {
                SaveState::Written
            } else {
                SaveState::Aborting(SaveError::Encode)
            },
            SaveState::Written => if succeeded {
                SaveState::Flushed
            } else {
                SaveState::Aborting(SaveError::Encode)
            },
            SaveState::Flushed => if succeeded {
                SaveState::Synced
            } else {
                SaveState::Aborting(SaveError::Sync)
            },
            SaveState::Synced => if succeeded {
                SaveState::Finished
            } else {
                SaveState::Aborting(SaveError::Persist)
            },
            SaveState::Aborting(error) => SaveState::Failed(error),
            SaveState::Finished => SaveState::Finished,
            SaveState::Failed(error) => SaveState::Failed(error),
        }
    }

    /// What the caller of the save is told, `None` while steps are left.
    pub open spec fn outcome_of(self) -> Option<Result<(), SaveError>> {
        match self {
            SaveState::Finished => Some(Ok(())),
            SaveState::Failed(error) => Some(Err(error)),
            _ => None,
        }
    }

    /// The error of a save that has failed, `None` of one that has not.
    pub open spec fn failure_of(self) -> Option<SaveError> {
        match self {
            SaveState::Aborting(error) => Some(error),
            SaveState::Failed(error) => Some(error),
            _ => None,
        }
    }

    /// A staging file exists in this state.
    pub open spec fn holds_staging(self) -> bool {
        !(self is Start || self is Finished || self is Failed)
    }

    /// The state in which every save begins.
    pub fn begin() -> (state: SaveState)
        ensures
            state == SaveState::Start,
    {
        SaveState::Start
    }

    /// The step to perform next, `None` where the save is over.
    pub fn next_step(&self) -> (step: Option<SaveStep>)
        ensures
            step == self.step_of(),
            step is None <==> self.outcome_of() is Some,
    {
        match self {
            SaveState::Start => Some(SaveStep::CreateStaging),
            SaveState::Staged => Some(SaveStep::WriteEncoded),
            SaveState::Written => Some(SaveStep::Flush),
            SaveState::Flushed => Some(SaveStep::Sync),
            SaveState::Synced => Some(SaveStep::Persist),
            SaveState::Aborting(_) => Some(SaveStep::Discard),
            SaveState::Finished => None,
            SaveState::Failed(_) => None,
        }
    }

    /// The state after the step of [`SaveState::next_step`] was performed and
    /// went well (`succeeded`) or failed. A state without a step stays as it is.
    pub fn advance(self, succeeded: bool) -> (next: SaveState)
        ensures
            next == self.after(succeeded),
            !succeeded && self.step_of() is Some && !(self is Aborting) ==> next.failure_of()
                == self.step_of().unwrap().error_of(),
            succeeded && !(self is Aborting) ==> next.failure_of() == self.failure_of(),
            next is Finished ==> (self is Finished || (self is Synced && succeeded)),
    {
        match self {
            SaveState::Start => if succeeded {
                SaveState::Staged
            } else {
                SaveState::Failed(SaveError::TempFileCreation)
            },
            SaveState::Staged => if succeeded {
                SaveState::Written
            } else {
                SaveState::Aborting(SaveError::Encode)
            },
            SaveState::Written => if succeeded {
                SaveState::Flushed
            } else {
                SaveState::Aborting(SaveError::Encode)
            },
            SaveState::Flushed => if succeeded {
                SaveState::Synced
            } else {
                SaveState::Aborting(SaveError::Sync)
            },
            SaveState::Synced => if succeeded {
                SaveState::Finished
            } else {
                SaveState::Aborting(SaveError::Persist)
            },
            SaveState::Aborting(error) => SaveState::Failed(error),
            SaveState::Finished => SaveState::Finished,
            SaveState::Failed(error) => SaveState::Failed(error),
        }
    }

    /// What the caller of the save is told, `None` while steps are left.
    pub fn outcome(&self) -> (told: Option<Result<(), SaveError>>)
        ensures
            told == self.outcome_of(),
    {
        match self {
            SaveState::Finished => Some(Ok(())),
            SaveState::Failed(error) => Some(Err(*error)),
            _ => None,
        }
    }
}

/// A file in the model of the disk: what it holds, and whether that is synced.
pub struct File {
    pub bytes: Seq<u8>,
    pub synced: bool,
}

/// A model of the two files that a save touches. `None` is a file that does not
/// exist.
pub struct Disk {
    pub destination: Option<File>,
    pub staging: Option<File>,
}

/// What a step does to the disk in the model. `encoded` is the image's encoding;
/// `torn` is whatever a failed or unflushed write leaves behind.
/// - A created staging file is empty; a failed creation leaves nothing.
/// - Writing leaves the staging file torn until a flush went well.
/// - Syncing changes no bytes.
/// - Renaming puts the staging file in the destination's place, in one move.
/// - Discarding removes the staging file.
pub open spec fn effect(
    disk: Disk,
    step: SaveStep,
    succeeded: bool,
    encoded: Seq<u8>,
    torn: Seq<u8>,
) -> Disk {
    match step {
        SaveStep::CreateStaging => if succeeded {
            Disk { staging: Some(File { bytes: Seq::empty(), synced: false }), ..disk }
        } else {
            disk
        },
        SaveStep::WriteEncoded => Disk {
            staging: Some(File { bytes: torn, synced: false }),
            ..disk
        },
        SaveStep::Flush => Disk {
            staging: Some(File { bytes: if succeeded { encoded } else { torn }, synced: false }),
            ..disk
        },
        SaveStep::Sync => if succeeded && disk.staging is Some {
            Disk { staging: Some(File { synced: true, ..disk.staging.unwrap() }), ..disk }
        } else {
            disk
        },
        SaveStep::Persist => if succeeded {
            Disk { destination: disk.staging, staging: None }
        } else {
            disk
        },
        SaveStep::Discard => Disk { staging: None, ..disk },
    }
}

/// The state and the disk after the steps of a save were performed from `state`
/// on, the step at position `at` and each later one going as `outcomes` says,
/// until the save is over or the outcomes run out.
pub open spec fn run(
    state: SaveState,
    disk: Disk,
    outcomes: Seq<bool>,
    at: int,
    encoded: Seq<u8>,
    torn: Seq<u8>,
) -> (SaveState, Disk)
    decreases outcomes.len() - at,
{
    if at < 0 || at >= outcomes.len() || state.step_of() is None {
        (state, disk)
    } else {
        run(
            state.after(outcomes[at]),
            effect(disk, state.step_of().unwrap(), outcomes[at], encoded, torn),
            outcomes,
            at + 1,
            encoded,
            torn,
        )
    }
}

/// A whole save in the model: from `Start`, with outcomes for every step.
pub open spec fn save_run(disk: Disk, outcomes: Seq<bool>, encoded: Seq<u8>, torn: Seq<u8>) -> (
    SaveState,
    Disk,
) {
    run(SaveState::Start, disk, outcomes, 0, encoded, torn)
}

/// The first five steps all went well.
pub open spec fn all_went_well(outcomes: Seq<bool>) -> bool {
    outcomes.len() >= 5 && outcomes[0] && outcomes[1] && outcomes[2] && outcomes[3] && outcomes[4]
}

/// A save is over after six steps at most.
pub proof fn lemma_save_ends(disk: Disk, outcomes: Seq<bool>, encoded: Seq<u8>, torn: Seq<u8>)
    requires
        outcomes.len() >= 6,
    ensures
        save_run(disk, outcomes, encoded, torn).0.outcome_of() is Some,
{
    reveal_with_fuel(run, 7);
}

/// One staging file per save: through every run, the staging file exists in
/// just the states that say so, from its creation to the rename or the discard.
pub proof fn lemma_staging_follows_state(
    state: SaveState,
    disk: Disk,
    outcomes: Seq<bool>,
    at: int,
    encoded: Seq<u8>,
    torn: Seq<u8>,
)
    requires
        state.holds_staging() <==> disk.staging is Some,
    ensures
        ({
            let (end, after) = run(state, disk, outcomes, at, encoded, torn);
            end.holds_staging() <==> after.staging is Some
        }),
    decreases outcomes.len() - at,
{
    if 0 <= at < outcomes.len() && state.step_of() is Some {
        lemma_staging_follows_state(
            state.after(outcomes[at]),
            effect(disk, state.step_of().unwrap(), outcomes[at], encoded, torn),
            outcomes,
            at + 1,
            encoded,
            torn,
        );
    }
}

/// A save is atomic: however its steps go, it ends with the destination either
/// holding the whole encoding, synced, or being what it was before; and no
/// staging file is left. It succeeds exactly when the five steps from creating
/// the staging file to renaming it all went well.
pub proof fn lemma_save_is_atomic(disk: Disk, outcomes: Seq<bool>, encoded: Seq<u8>, torn: Seq<u8>)
    requires
        disk.staging is None,
        outcomes.len() >= 6,
    ensures
        ({
            let (end, after) = save_run(disk, outcomes, encoded, torn);
            &&& after.staging is None
            &&& end is Finished || end is Failed
            &&& end is Finished <==> all_went_well(outcomes)
            &&& end is Finished ==> after.destination == Some(File { bytes: encoded, synced: true })
            &&& end is Failed ==> after.destination == disk.destination
        }),
{
    reveal_with_fuel(run, 7);
}

/// How the steps of a save of an image go: as the file system has them, but
/// that the write step fails where the codec makes no file of the image.
/// `encoding` is what the codec makes of the image, `None` for its error.
pub open spec fn outcomes_with_codec(encoding: Option<Seq<u8>>, outcomes: Seq<bool>) -> Seq<bool> {
    if encoding is None && outcomes.len() > 1 {
        outcomes.update(1, false)
    } else {
        outcomes
    }
}

/// A whole save of an image in the model.
pub open spec fn save_of(
    encoding: Option<Seq<u8>>,
    disk: Disk,
    outcomes: Seq<bool>,
    torn: Seq<u8>,
) -> (SaveState, Disk) {
    save_run(
        disk,
        outcomes_with_codec(encoding, outcomes),
        match encoding {
            Some(bytes) => bytes,
            None => Seq::empty(),
        },
        torn,
    )
}

/// A save that finishes leaves at the destination, whole and synced, the very
/// file that the codec made of the image. A save of an image that the codec
/// refuses fails before the rename, in the staging or in the encoding, and
/// leaves the destination as it was.
pub proof fn lemma_saved_file_is_the_encoding(
    encoding: Option<Seq<u8>>,
    disk: Disk,
    outcomes: Seq<bool>,
    torn: Seq<u8>,
)
    requires
        disk.staging is None,
        outcomes.len() >= 6,
    ensures
        ({
            let (end, after) = save_of(encoding, disk, outcomes, torn);
            &&& after.staging is None
            &&& end is Finished <==> encoding is Some && all_went_well(outcomes)
            &&& end is Finished ==> after.destination == Some(
                File { bytes: encoding.unwrap(), synced: true },
            )
            &&& end is Failed ==> after.destination == disk.destination
            &&& encoding is None ==> end == SaveState::Failed(SaveError::TempFileCreation) || end
                == SaveState::Failed(SaveError::Encode)
        }),
{
    let went = outcomes_with_codec(encoding, outcomes);
    let bytes = match encoding {
        Some(bytes) => bytes,
        None => Seq::empty(),
    };
    lemma_save_is_atomic(disk, went, bytes, torn);
    reveal_with_fuel(run, 7);
}

/// A failed save names the first step that failed: the error is that step's.
pub proof fn lemma_failure_names_first_failed_step(
    disk: Disk,
    outcomes: Seq<bool>,
    encoded: Seq<u8>,
    torn: Seq<u8>,
    failed: int,
)
    requires
        outcomes.len() >= 6,
        0 <= failed < 5,
        !outcomes[failed],
        forall|earlier: int| 0 <= earlier < failed ==> outcomes[earlier],
    ensures
        save_run(disk, outcomes, encoded, torn).0 == SaveState::Failed(
            step_at(failed).error_of().unwrap(),
        ),
{
    reveal_with_fuel(run, 7);
}

/// The step at each position of a save in which nothing fails.
pub open spec fn step_at(position: int) -> SaveStep {
    if position == 0 {
        SaveStep::CreateStaging
    } else if position == 1 {
        SaveStep::WriteEncoded
    } else if position == 2 {
        SaveStep::Flush
    } else if position == 3 {
        SaveStep::Sync
    } else {
        SaveStep::Persist
    }
}

} // verus!
