//! Loader pipeline behaviour: success, failure, supersession, observers.

use audio_engine::errors::LoadError;
use audio_engine::events::{BusEvent, LoaderEvent, PlayerEvent};
use audio_engine::player::{LoadOutcome, LoadResolution, PlaybackState, Player};

#[test]
fn load_file_success_event_order() {
    let mut p = Player::new();
    p.register_observer();
    let t = p.begin_load_file("sample_5s.wav".to_string());
    let r = p.finish_load(
        t,
        LoadOutcome::Loaded { sample_rate: 44100, channels: 2, duration_micros: Some(5_000_000) },
    );
    assert_eq!(r, LoadResolution::Completed);
    assert_eq!(p.duration(), Some(5_000_000));
    assert_eq!(p.playback_state(), PlaybackState::Ready);
    assert_eq!(
        p.take_events(),
        vec![
            BusEvent::Player(PlayerEvent::LoadStart),
            BusEvent::Player(PlayerEvent::LoadedMetadata),
            BusEvent::Player(PlayerEvent::LoadedData),
            BusEvent::Player(PlayerEvent::DurationChange),
            BusEvent::Loader(LoaderEvent::Completed),
        ]
    );
}

#[test]
fn load_url_failure_reports_both_channels() {
    let mut p = Player::new();
    p.register_observer();
    let t = p.begin_load_url("https://bad.host/x.mp3".to_string());
    let err = LoadError::Network {
        message: "could not reach bad.host".to_string(),
    };
    let r = p.finish_load(t, LoadOutcome::Failed(err.clone()));
    assert_eq!(r, LoadResolution::Failed(err));
    assert_eq!(p.playback_state(), PlaybackState::Error);
    assert_eq!(p.duration(), None);
    assert_eq!(p.position(), 0);
    assert!(p.paused());
    assert!(!p.ended());
    assert_eq!(
        p.take_events(),
        vec![
            BusEvent::Player(PlayerEvent::LoadStart),
            BusEvent::Player(PlayerEvent::Error {
                message: "could not reach bad.host".to_string(),
            }),
        ]
    );
}

#[test]
fn failed_load_is_recoverable_by_new_load() {
    let mut p = Player::new();
    p.register_observer();
    let t = p.begin_load_url("https://bad.host/x.mp3".to_string());
    p.finish_load(
        t,
        LoadOutcome::Failed(LoadError::Network { message: "timeout".to_string() }),
    );
    p.take_events();
    let t2 = p.begin_load_file("sample.wav".to_string());
    let r = p.finish_load(
        t2,
        LoadOutcome::Loaded { sample_rate: 44100, channels: 2, duration_micros: Some(2_000_000) },
    );
    assert_eq!(r, LoadResolution::Completed);
    assert_eq!(p.playback_state(), PlaybackState::Ready);
    assert_eq!(p.duration(), Some(2_000_000));
}

#[test]
fn superseded_load_aborts_and_never_attaches() {
    let mut p = Player::new();
    p.register_observer();
    let t_url = p.begin_load_url("https://slow.host/a.mp3".to_string());
    let t_file = p.begin_load_file("other.wav".to_string());
    // The superseded load's eventual completion is discarded silently.
    let r_url = p.finish_load(
        t_url,
        LoadOutcome::Loaded { sample_rate: 22050, channels: 1, duration_micros: Some(9_000_000) },
    );
    assert_eq!(r_url, LoadResolution::Superseded);
    assert_eq!(p.duration(), None);
    assert_eq!(p.playback_state(), PlaybackState::Loading);
    let r_file = p.finish_load(
        t_file,
        LoadOutcome::Loaded { sample_rate: 44100, channels: 2, duration_micros: Some(3_000_000) },
    );
    assert_eq!(r_file, LoadResolution::Completed);
    assert_eq!(p.duration(), Some(3_000_000));
    let events = p.take_events();
    assert_eq!(
        events,
        vec![
            BusEvent::Player(PlayerEvent::LoadStart),
            BusEvent::Loader(LoaderEvent::Aborted),
            BusEvent::Player(PlayerEvent::LoadStart),
            BusEvent::Player(PlayerEvent::LoadedMetadata),
            BusEvent::Player(PlayerEvent::LoadedData),
            BusEvent::Player(PlayerEvent::DurationChange),
            BusEvent::Loader(LoaderEvent::Completed),
        ]
    );
    let aborted = events
        .iter()
        .filter(|e| **e == BusEvent::Loader(LoaderEvent::Aborted))
        .count();
    let completed = events
        .iter()
        .filter(|e| **e == BusEvent::Loader(LoaderEvent::Completed))
        .count();
    assert_eq!(aborted, 1);
    assert_eq!(completed, 1);
}

#[test]
fn load_replacing_attached_source_emits_emptied_first() {
    let mut p = Player::new();
    p.register_observer();
    let t = p.begin_load_file("first.wav".to_string());
    p.finish_load(
        t,
        LoadOutcome::Loaded { sample_rate: 44100, channels: 2, duration_micros: Some(1_000_000) },
    );
    p.take_events();
    p.begin_load_file("second.wav".to_string());
    assert_eq!(p.duration(), None);
    assert_eq!(p.position(), 0);
    assert_eq!(
        p.take_events(),
        vec![
            BusEvent::Player(PlayerEvent::Emptied),
            BusEvent::Player(PlayerEvent::LoadStart),
        ]
    );
}

#[test]
fn stale_ticket_after_settlement_is_discarded() {
    let mut p = Player::new();
    p.register_observer();
    let t = p.begin_load_file("a.wav".to_string());
    p.finish_load(
        t,
        LoadOutcome::Loaded { sample_rate: 44100, channels: 2, duration_micros: Some(1_000_000) },
    );
    p.take_events();
    // A second settlement of the same ticket must change nothing.
    let r = p.finish_load(
        t,
        LoadOutcome::Failed(LoadError::Decode { message: "late".to_string() }),
    );
    assert_eq!(r, LoadResolution::Superseded);
    assert_eq!(p.playback_state(), PlaybackState::Ready);
    assert_eq!(p.duration(), Some(1_000_000));
    assert_eq!(p.take_events(), vec![]);
}

#[test]
fn load_is_current_tracks_supersession() {
    let mut p = Player::new();
    let t1 = p.begin_load_url("https://host/a.mp3".to_string());
    assert!(p.load_is_current(t1));
    let t2 = p.begin_load_file("b.wav".to_string());
    assert!(!p.load_is_current(t1));
    assert!(p.load_is_current(t2));
    p.finish_load(
        t2,
        LoadOutcome::Loaded { sample_rate: 8000, channels: 1, duration_micros: None },
    );
    assert!(!p.load_is_current(t2));
}

#[test]
fn no_observer_means_no_buffering() {
    let mut p = Player::new();
    let t = p.begin_load_file("sample.wav".to_string());
    p.finish_load(
        t,
        LoadOutcome::Loaded { sample_rate: 44100, channels: 2, duration_micros: Some(1_000_000) },
    );
    p.play();
    assert_eq!(p.take_events(), vec![]);
    // Registration only catches events emitted from then on.
    p.register_observer();
    assert_eq!(p.take_events(), vec![]);
    p.pause();
    assert_eq!(p.take_events(), vec![BusEvent::Player(PlayerEvent::Pause)]);
}

#[test]
fn load_error_messages_round_trip() {
    let cases = vec![
        LoadError::NotFound { message: "no such file".to_string() },
        LoadError::Io { message: "read interrupted".to_string() },
        LoadError::Network { message: "status 404".to_string() },
        LoadError::Decode { message: "bad header".to_string() },
    ];
    for e in cases {
        let mut p = Player::new();
        p.register_observer();
        let t = p.begin_load_file("x".to_string());
        let r = p.finish_load(t, LoadOutcome::Failed(e.clone()));
        assert_eq!(r, LoadResolution::Failed(e.clone()));
        let events = p.take_events();
        assert_eq!(
            events[1],
            BusEvent::Player(PlayerEvent::Error { message: e.message() })
        );
    }
}
