use mediasync::controller::{Controller, MarkerKind, TickOutcome};
use mediasync::ipc::PlayerCommand;
use mediasync::playlist::MediaItem;
use mediasync::recorder::RecorderAction;

fn three_items() -> Vec<MediaItem> {
    vec![
        MediaItem::new("/media/one.mp4".to_string(), "First".to_string()),
        MediaItem::new("/media/two.mp4".to_string(), "Second".to_string()),
        MediaItem::new("/media/three.mp4".to_string(), "Third".to_string()),
    ]
}

#[test]
fn empty_playlist_is_refused() {
    assert!(Controller::new(Vec::new()).is_none());
}

#[test]
fn initial_state() {
    let c = Controller::new(three_items()).unwrap();
    assert_eq!(c.cursor, None);
    assert!(c.is_paused);
    assert!(!c.recorder_running);
}

#[test]
fn begin_recording_sets_flag() {
    let mut c = Controller::new(three_items()).unwrap();
    let action = c.begin_recording();
    assert_eq!(action, RecorderAction::Start);
    assert!(c.recorder_running);
    assert_eq!(c.cursor, None);
}

#[test]
fn idle_tick_changes_nothing() {
    let mut c = Controller::new(three_items()).unwrap();
    let out = c.tick(false, false, false);
    assert_eq!(out, TickOutcome::Idle);
    assert_eq!(out.consumed_marker(), None);
    assert_eq!(c.cursor, None);
    assert!(c.is_paused);
}

#[test]
fn pause_before_first_load_is_consumed_but_inert() {
    let mut c = Controller::new(three_items()).unwrap();
    let out = c.tick(false, true, false);
    assert_eq!(out, TickOutcome::NothingLoaded);
    assert_eq!(out.consumed_marker(), Some(MarkerKind::PauseToggle));
    assert_eq!(c.cursor, None);
    assert!(c.is_paused);
}

#[test]
fn player_exit_preempts_everything() {
    let mut c = Controller::new(three_items()).unwrap();
    let out = c.tick(true, true, true);
    assert_eq!(out, TickOutcome::Shutdown);
    assert_eq!(out.consumed_marker(), None);
    assert_eq!(c.cursor, None);
}

#[test]
fn cursor_advances_one_step_per_event_and_saturates() {
    let mut c = Controller::new(three_items()).unwrap();
    for expected in 0..3usize {
        let out = c.tick(true, false, false);
        assert!(matches!(out, TickOutcome::Loaded { index, .. } if index == expected));
        assert_eq!(c.cursor, Some(expected));
        assert!(!c.is_paused);
    }
    let out = c.tick(true, false, false);
    assert_eq!(out, TickOutcome::EndOfList);
    assert_eq!(c.cursor, Some(2));
    let out = c.tick(true, false, false);
    assert_eq!(out, TickOutcome::EndOfList);
    assert_eq!(c.cursor, Some(2));
}

#[test]
fn marker_deleted_means_no_retrigger() {
    let mut c = Controller::new(three_items()).unwrap();
    let out = c.tick(true, false, false);
    assert_eq!(out.consumed_marker(), Some(MarkerKind::Advance));
    // The next tick reports the marker gone: nothing fires again.
    let out = c.tick(false, false, false);
    assert_eq!(out, TickOutcome::Idle);
    assert_eq!(c.cursor, Some(0));
    assert!(!c.is_paused);
}

#[test]
fn both_markers_present_only_advance_fires() {
    let mut c = Controller::new(three_items()).unwrap();
    let out = c.tick(true, true, false);
    assert_eq!(out.consumed_marker(), Some(MarkerKind::Advance));
    assert!(matches!(out, TickOutcome::Loaded { .. }));
    assert_eq!(c.cursor, Some(0));
    assert!(!c.is_paused);
    // The pause marker is still there on the next tick and fires alone.
    let out = c.tick(false, true, false);
    assert_eq!(out.consumed_marker(), Some(MarkerKind::PauseToggle));
    assert!(matches!(out, TickOutcome::Toggled { .. }));
    assert_eq!(c.cursor, Some(0));
    assert!(c.is_paused);
}

#[test]
fn pause_toggle_parity() {
    let mut c = Controller::new(three_items()).unwrap();
    c.tick(true, false, false);
    assert!(!c.is_paused);
    let out = c.tick(false, true, false);
    assert_eq!(
        out,
        TickOutcome::Toggled { toggle: PlayerCommand::CyclePause, recorder: RecorderAction::Pause }
    );
    assert!(c.is_paused);
    let out = c.tick(false, true, false);
    assert_eq!(
        out,
        TickOutcome::Toggled {
            toggle: PlayerCommand::CyclePause,
            recorder: RecorderAction::Resume
        }
    );
    assert!(!c.is_paused);
    assert_eq!(c.cursor, Some(0));
}

#[test]
fn end_to_end_scenario() {
    let mut c = Controller::new(three_items()).unwrap();

    // Advance: item 0 loaded, unpaused, notification carries its label.
    let out = c.tick(true, false, false);
    assert_eq!(
        out,
        TickOutcome::Loaded {
            index: 0,
            load: PlayerCommand::LoadFile { path: "/media/one.mp4".to_string() },
            unpause: PlayerCommand::SetPause { pause: false },
            notice: "First".to_string(),
        }
    );
    assert_eq!(c.cursor, Some(0));
    assert!(!c.is_paused);

    // Pause: cursor unchanged, paused, recorder paused.
    let out = c.tick(false, true, false);
    assert_eq!(
        out,
        TickOutcome::Toggled { toggle: PlayerCommand::CyclePause, recorder: RecorderAction::Pause }
    );
    assert_eq!(c.cursor, Some(0));
    assert!(c.is_paused);

    // Advance: cursor 1, unpaused by force; the load path itself carries
    // no recorder command.
    let out = c.tick(true, false, false);
    match &out {
        TickOutcome::Loaded { index, unpause, notice, .. } => {
            assert_eq!(*index, 1);
            assert_eq!(*unpause, PlayerCommand::SetPause { pause: false });
            assert_eq!(notice, "Second");
        }
        other => panic!("expected a load, got {:?}", other),
    }
    assert_eq!(c.cursor, Some(1));
    assert!(!c.is_paused);

    // Two more advances: cursor reaches 2, then the list's end is logged
    // and the cursor stays.
    let out = c.tick(true, false, false);
    assert!(matches!(out, TickOutcome::Loaded { index: 2, .. }));
    assert_eq!(c.cursor, Some(2));
    let out = c.tick(true, false, false);
    assert_eq!(out, TickOutcome::EndOfList);
    assert_eq!(c.cursor, Some(2));
}
