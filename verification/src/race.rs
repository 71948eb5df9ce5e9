//! Two saves to one destination at once, in the model of the disk.
//!
//! Each save has a staging file of its own; the destination is shared. Their
//! steps may interleave in any order and fail anywhere. The destination then
//! holds what it held before or the whole encoding of one of the two, never
//! something torn and never a mix.

use crate::durable::effect;
use crate::durable::Disk;
use crate::durable::File;
use crate::durable::SaveState;
use vstd::prelude::*;

verus! {

/// The disk that two saves share: one destination, a staging file for each.
pub struct SharedDisk {
    pub destination: Option<File>,
    pub first_staging: Option<File>,
    pub second_staging: Option<File>,
}

/// The two saves and their disk.
pub struct Race {
    pub first: SaveState,
    pub second: SaveState,
    pub disk: SharedDisk,
}

/// One move of a schedule: which save performs its next step, how the step
/// goes, and what the step leaves behind where it tears.
pub struct Move {
    pub by_first: bool,
    pub succeeded: bool,
    pub torn: Seq<u8>,
}

/// The race before either save has done anything.
pub open spec fn race_start(destination: Option<File>) -> Race {
    Race {
        first: SaveState::Start,
        second: SaveState::Start,
        disk: SharedDisk { destination, first_staging: None, second_staging: None },
    }
}

/// The race after one move. A save that is over does nothing.
pub open spec fn race_step(race: Race, moved: Move, first_bytes: Seq<u8>, second_bytes: Seq<u8>) -> Race {
    if moved.by_first {
        match race.first.step_of() {
            None => race,
            Some(step) => {
                let seen = Disk {
                    destination: race.disk.destination,
                    staging: race.disk.first_staging,
                };
                let left = effect(seen, step, moved.succeeded, first_bytes, moved.torn);
                Race {
                    first: race.first.after(moved.succeeded),
                    second: race.second,
                    disk: SharedDisk {
                        destination: left.destination,
                        first_staging: left.staging,
                        second_staging: race.disk.second_staging,
                    },
                }
            },
        }
    } else {
        match race.second.step_of() {
            None => race,
            Some(step) => {
                let seen = Disk {
                    destination: race.disk.destination,
                    staging: race.disk.second_staging,
                };
                let left = effect(seen, step, moved.succeeded, second_bytes, moved.torn);
                Race {
                    first: race.first,
                    second: race.second.after(moved.succeeded),
                    disk: SharedDisk {
                        destination: left.destination,
                        first_staging: race.disk.first_staging,
                        second_staging: left.staging,
                    },
                }
            },
        }
    }
}

/// The race after the moves of the schedule from position `at` on.
pub open spec fn race_run(
    race: Race,
    schedule: Seq<Move>,
    at: int,
    first_bytes: Seq<u8>,
    second_bytes: Seq<u8>,
) -> Race
    decreases schedule.len() - at,
{
    if at < 0 || at >= schedule.len() {
        race
    } else {
        race_run(
            race_step(race, schedule[at], first_bytes, second_bytes),
            schedule,
            at + 1,
            first_bytes,
            second_bytes,
        )
    }
}

/// The file that a finished save leaves at the destination.
pub open spec fn saved(bytes: Seq<u8>) -> Option<File> {
    Some(File { bytes, synced: true })
}

/// A staging file that is flushed holds the whole encoding; one that is synced
/// holds it synced.
pub open spec fn staging_whole(state: SaveState, staging: Option<File>, bytes: Seq<u8>) -> bool {
    &&& state is Flushed ==> staging == Some(File { bytes, synced: false })
    &&& state is Synced ==> staging == saved(bytes)
}

/// What holds of a race at every moment: the destination is whole, and so is
/// every staging file that may still be renamed onto it.
pub open spec fn untorn(
    race: Race,
    before: Option<File>,
    first_bytes: Seq<u8>,
    second_bytes: Seq<u8>,
) -> bool {
    &&& race.disk.destination == before || race.disk.destination == saved(first_bytes)
        || race.disk.destination == saved(second_bytes)
    &&& race.first is Finished || race.second is Finished ==> race.disk.destination == saved(
        first_bytes,
    ) || race.disk.destination == saved(second_bytes)
    &&& staging_whole(race.first, race.disk.first_staging, first_bytes)
    &&& staging_whole(race.second, race.disk.second_staging, second_bytes)
}

/// One move keeps the race untorn.
pub proof fn lemma_move_keeps_untorn(
    race: Race,
    moved: Move,
    before: Option<File>,
    first_bytes: Seq<u8>,
    second_bytes: Seq<u8>,
)
    requires
        untorn(race, before, first_bytes, second_bytes),
    ensures
        untorn(race_step(race, moved, first_bytes, second_bytes), before, first_bytes, second_bytes),
{
}

/// Last rename wins: right after a save's rename went well, the destination
/// holds that save's encoding.
pub proof fn lemma_last_rename_wins(
    race: Race,
    moved: Move,
    before: Option<File>,
    first_bytes: Seq<u8>,
    second_bytes: Seq<u8>,
)
    requires
        untorn(race, before, first_bytes, second_bytes),
        moved.succeeded,
    ensures
        moved.by_first && race.first is Synced ==> race_step(
            race,
            moved,
            first_bytes,
            second_bytes,
        ).disk.destination == saved(first_bytes),
        !moved.by_first && race.second is Synced ==> race_step(
            race,
            moved,
            first_bytes,
            second_bytes,
        ).disk.destination == saved(second_bytes),
{
}

/// No torn writes: whatever the schedule, a race that is untorn stays so.
pub proof fn lemma_run_keeps_untorn(
    race: Race,
    schedule: Seq<Move>,
    at: int,
    before: Option<File>,
    first_bytes: Seq<u8>,
    second_bytes: Seq<u8>,
)
    requires
        untorn(race, before, first_bytes, second_bytes),
    ensures
        untorn(
            race_run(race, schedule, at, first_bytes, second_bytes),
            before,
            first_bytes,
            second_bytes,
        ),
    decreases schedule.len() - at,
{
    if 0 <= at < schedule.len() {
        lemma_move_keeps_untorn(race, schedule[at], before, first_bytes, second_bytes);
        lemma_run_keeps_untorn(
            race_step(race, schedule[at], first_bytes, second_bytes),
            schedule,
            at + 1,
            before,
            first_bytes,
            second_bytes,
        );
    }
}

/// Two saves to one destination, interleaved and failing in any way, leave the
/// destination holding what it held before or the whole encoding of one of the
/// two; once either save has finished, it holds the encoding of one of the two.
pub proof fn lemma_concurrent_saves_do_not_tear(
    before: Option<File>,
    schedule: Seq<Move>,
    first_bytes: Seq<u8>,
    second_bytes: Seq<u8>,
)
    ensures
        ({
            let end = race_run(race_start(before), schedule, 0, first_bytes, second_bytes);
            &&& end.disk.destination == before || end.disk.destination == saved(first_bytes)
                || end.disk.destination == saved(second_bytes)
            &&& end.first is Finished || end.second is Finished ==> end.disk.destination == saved(
                first_bytes,
            ) || end.disk.destination == saved(second_bytes)
        }),
{
    lemma_run_keeps_untorn(race_start(before), schedule, 0, before, first_bytes, second_bytes);
}

} // verus!
