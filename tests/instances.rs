use spacial_audio::{plan_update, retain_unstopped, sole_receiver, writes_for_emitter, InstanceTable, PlaybackState};

fn table(entries: &[(u64, PlaybackState)]) -> InstanceTable {
    let mut t = InstanceTable::new();
    for (id, s) in entries {
        t.set_state(*id, *s);
    }
    t
}

#[test]
fn table_reports_recorded_states() {
    let mut t = table(&[(1, PlaybackState::Playing), (2, PlaybackState::Stopped)]);
    assert_eq!(t.state(1), Some(PlaybackState::Playing));
    assert_eq!(t.state(2), Some(PlaybackState::Stopped));
    assert_eq!(t.state(3), None);
    assert!(t.contains(1));
    assert!(!t.contains(3));
    assert!(t.is_stopped(2));
    assert!(!t.is_stopped(1));
    assert!(!t.is_stopped(3));
    t.set_state(1, PlaybackState::Stopped);
    assert!(t.is_stopped(1));
}

#[test]
fn cleanup_removes_only_stopped_handles() {
    let t = table(&[
        (1, PlaybackState::Playing),
        (2, PlaybackState::Stopped),
        (3, PlaybackState::Paused),
        (4, PlaybackState::Stopping),
        (5, PlaybackState::Pausing),
        (6, PlaybackState::Stopped),
    ]);
    let mut handles = vec![1, 2, 3, 4, 5, 6];
    retain_unstopped(&mut handles, &t);
    assert_eq!(handles, vec![1, 3, 4, 5]);
}

#[test]
fn cleanup_keeps_handles_missing_from_store() {
    let t = table(&[(2, PlaybackState::Stopped)]);
    let mut handles = vec![9, 2, 7];
    retain_unstopped(&mut handles, &t);
    assert_eq!(handles, vec![9, 7]);
}

#[test]
fn cleanup_of_empty_list_stays_empty() {
    let t = table(&[(1, PlaybackState::Stopped)]);
    let mut handles: Vec<u64> = Vec::new();
    retain_unstopped(&mut handles, &t);
    assert!(handles.is_empty());
}

#[test]
fn cleanup_keeps_order_and_duplicates_of_live_handles() {
    let t = table(&[(1, PlaybackState::Playing), (2, PlaybackState::Stopped)]);
    let mut handles = vec![2, 1, 2, 1];
    retain_unstopped(&mut handles, &t);
    assert_eq!(handles, vec![1, 1]);
}

#[test]
fn only_a_single_receiver_spatializes() {
    assert!(!sole_receiver(0));
    assert!(sole_receiver(1));
    assert!(!sole_receiver(2));
}

#[test]
fn update_without_receiver_writes_nothing() {
    let t = table(&[(1, PlaybackState::Playing), (2, PlaybackState::Playing)]);
    let emitters = vec![vec![1], vec![2]];
    assert!(plan_update(0, &emitters, &t).is_empty());
}

#[test]
fn update_with_two_receivers_writes_nothing() {
    let t = table(&[(1, PlaybackState::Playing), (2, PlaybackState::Playing)]);
    let emitters = vec![vec![1], vec![2]];
    assert!(plan_update(2, &emitters, &t).is_empty());
    assert!(plan_update(5, &emitters, &t).is_empty());
}

#[test]
fn update_writes_every_held_instance_in_order() {
    let t = table(&[
        (1, PlaybackState::Playing),
        (2, PlaybackState::Stopped),
        (4, PlaybackState::Paused),
    ]);
    let emitters = vec![vec![1, 3, 2], vec![], vec![4]];
    assert_eq!(plan_update(1, &emitters, &t), vec![(0, 1), (0, 2), (2, 4)]);
}

#[test]
fn update_with_no_emitters_writes_nothing() {
    let t = table(&[(1, PlaybackState::Playing)]);
    let emitters: Vec<Vec<u64>> = Vec::new();
    assert!(plan_update(1, &emitters, &t).is_empty());
}

#[test]
fn emitter_writes_are_appended() {
    let t = table(&[(5, PlaybackState::Playing), (6, PlaybackState::Playing)]);
    let mut out = vec![(0, 1)];
    writes_for_emitter(3, &vec![6, 7, 5], &t, &mut out);
    assert_eq!(out, vec![(0, 1), (3, 6), (3, 5)]);
}
