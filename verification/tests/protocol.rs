use file_encoder::durable::staging_dir;
use file_encoder::durable::SaveError;
use file_encoder::durable::SaveState;
use file_encoder::durable::SaveStep;
use file_encoder::durable::CURRENT_DIR;
use file_encoder::durable::STAGING_SUFFIX;
use file_encoder::durable::WRITE_BUFFER_BYTES;

/// Runs a save whose steps go as `outcomes` says, and hands back the steps that
/// were performed and the state at the end.
fn walk(outcomes: &[bool]) -> (Vec<SaveStep>, SaveState) {
    let mut state = SaveState::begin();
    let mut steps = Vec::new();
    let mut at = 0;
    while let Some(step) = state.next_step() {
        steps.push(step);
        let succeeded = outcomes.get(at).copied().unwrap_or(true);
        state = state.advance(succeeded);
        at += 1;
    }
    (steps, state)
}

#[test]
fn protocol_constants() {
    assert_eq!(WRITE_BUFFER_BYTES, 64 * 1024);
    assert_eq!(STAGING_SUFFIX, ".tmp");
    assert_eq!(CURRENT_DIR, ".");
}

#[test]
fn a_save_begins_by_creating_the_staging_file() {
    assert_eq!(SaveState::begin(), SaveState::Start);
    assert_eq!(SaveState::begin().next_step(), Some(SaveStep::CreateStaging));
    assert_eq!(SaveState::begin().outcome(), None);
}

#[test]
fn steps_come_in_order_when_nothing_fails() {
    let (steps, end) = walk(&[]);
    assert_eq!(
        steps,
        vec![
            SaveStep::CreateStaging,
            SaveStep::WriteEncoded,
            SaveStep::Flush,
            SaveStep::Sync,
            SaveStep::Persist,
        ]
    );
    assert_eq!(end, SaveState::Finished);
    assert_eq!(end.outcome(), Some(Ok(())));
}

#[test]
fn staging_failure_ends_the_save_at_once() {
    let (steps, end) = walk(&[false]);
    assert_eq!(steps, vec![SaveStep::CreateStaging]);
    assert_eq!(end, SaveState::Failed(SaveError::TempFileCreation));
    assert_eq!(end.outcome(), Some(Err(SaveError::TempFileCreation)));
}

#[test]
fn encode_failure_discards_the_staging_file() {
    let (steps, end) = walk(&[true, false]);
    assert_eq!(steps, vec![SaveStep::CreateStaging, SaveStep::WriteEncoded, SaveStep::Discard]);
    assert_eq!(end.outcome(), Some(Err(SaveError::Encode)));
}

#[test]
fn flush_failure_counts_as_encode_failure() {
    let (steps, end) = walk(&[true, true, false]);
    assert_eq!(
        steps,
        vec![SaveStep::CreateStaging, SaveStep::WriteEncoded, SaveStep::Flush, SaveStep::Discard]
    );
    assert_eq!(end.outcome(), Some(Err(SaveError::Encode)));
}

#[test]
fn sync_failure_discards_the_staging_file() {
    let (steps, end) = walk(&[true, true, true, false]);
    assert_eq!(steps.last(), Some(&SaveStep::Discard));
    assert!(!steps.contains(&SaveStep::Persist));
    assert_eq!(end.outcome(), Some(Err(SaveError::Sync)));
}

#[test]
fn persist_failure_discards_the_staging_file() {
    let (steps, end) = walk(&[true, true, true, true, false]);
    assert_eq!(
        steps,
        vec![
            SaveStep::CreateStaging,
            SaveStep::WriteEncoded,
            SaveStep::Flush,
            SaveStep::Sync,
            SaveStep::Persist,
            SaveStep::Discard,
        ]
    );
    assert_eq!(end.outcome(), Some(Err(SaveError::Persist)));
}

#[test]
fn discarding_ends_in_failure_however_it_goes() {
    let aborting = SaveState::Aborting(SaveError::Sync);
    assert_eq!(aborting.next_step(), Some(SaveStep::Discard));
    assert_eq!(aborting.advance(true), SaveState::Failed(SaveError::Sync));
    assert_eq!(aborting.advance(false), SaveState::Failed(SaveError::Sync));
}

#[test]
fn a_save_that_is_over_stays_as_it_is() {
    assert_eq!(SaveState::Finished.next_step(), None);
    assert_eq!(SaveState::Finished.advance(true), SaveState::Finished);
    assert_eq!(SaveState::Finished.advance(false), SaveState::Finished);
    let failed = SaveState::Failed(SaveError::Persist);
    assert_eq!(failed.next_step(), None);
    assert_eq!(failed.advance(true), failed);
    assert_eq!(failed.advance(false), failed);
}

#[test]
fn rename_never_follows_a_failure() {
    for failed in 0..4 {
        let mut outcomes = vec![true; 6];
        outcomes[failed] = false;
        let (steps, end) = walk(&outcomes);
        assert!(!steps.contains(&SaveStep::Persist));
        assert!(matches!(end, SaveState::Failed(_)));
    }
}

#[test]
fn every_phase_has_its_message() {
    assert_eq!(SaveError::TempFileCreation.context(), "Failed to create temporary file");
    assert_eq!(SaveError::Encode.context(), "Failed to encode image");
    assert_eq!(SaveError::Sync.context(), "Failed to sync to disk");
    assert_eq!(SaveError::Persist.context(), "Failed to persist file");
}

#[test]
fn staging_file_goes_to_the_parent_of_the_destination() {
    assert_eq!(staging_dir(Some("pictures/holiday")), "pictures/holiday");
    assert_eq!(staging_dir(Some("/")), "/");
    assert_eq!(staging_dir(Some("")), "");
}

#[test]
fn staging_file_goes_to_the_current_directory_without_a_parent() {
    assert_eq!(staging_dir(None), ".");
    assert_eq!(staging_dir(None), CURRENT_DIR);
}
