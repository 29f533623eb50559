//! The host-facing event encoding and the sample clock.

use audio_engine::clock::micros_from_samples;
use audio_engine::errors::LoadError;
use audio_engine::events::{BusEvent, LoaderEvent, PlayerEvent};

fn kind(e: &PlayerEvent) -> String {
    e.event_data().event_type
}

#[test]
fn player_event_kinds_match_media_element_names() {
    assert_eq!(kind(&PlayerEvent::Play), "play");
    assert_eq!(kind(&PlayerEvent::Pause), "pause");
    assert_eq!(kind(&PlayerEvent::Waiting), "waiting");
    assert_eq!(kind(&PlayerEvent::Playing), "playing");
    assert_eq!(kind(&PlayerEvent::Ended), "ended");
    assert_eq!(kind(&PlayerEvent::Emptied), "emptied");
    assert_eq!(kind(&PlayerEvent::DurationChange), "durationchange");
    assert_eq!(kind(&PlayerEvent::VolumeChange), "volumechange");
    assert_eq!(kind(&PlayerEvent::Seeking), "seeking");
    assert_eq!(kind(&PlayerEvent::Seeked), "seeked");
    assert_eq!(kind(&PlayerEvent::LoadStart), "loadstart");
    assert_eq!(kind(&PlayerEvent::LoadedData), "loadeddata");
    assert_eq!(kind(&PlayerEvent::LoadedMetadata), "loadedmetadata");
    assert_eq!(
        kind(&PlayerEvent::Error { message: "boom".to_string() }),
        "error"
    );
}

#[test]
fn only_error_events_carry_a_message() {
    let e = PlayerEvent::Error { message: "device lost".to_string() };
    assert_eq!(e.event_data().message, Some("device lost".to_string()));
    assert_eq!(PlayerEvent::Play.event_data().message, None);
    assert_eq!(PlayerEvent::Ended.event_data().message, None);
}

#[test]
fn loader_event_kinds() {
    let c = LoaderEvent::Completed.event_data();
    assert_eq!(c.event_type, "completed");
    assert_eq!(c.message, None);
    let a = LoaderEvent::Aborted.event_data();
    assert_eq!(a.event_type, "aborted");
    assert_eq!(a.message, None);
}

#[test]
fn bus_event_encoding_delegates_to_family() {
    let p = BusEvent::Player(PlayerEvent::Seeked).event_data();
    assert_eq!(p.event_type, "seeked");
    assert_eq!(p.message, None);
    let l = BusEvent::Loader(LoaderEvent::Aborted).event_data();
    assert_eq!(l.event_type, "aborted");
    let e = BusEvent::Player(PlayerEvent::Error { message: "x".to_string() }).event_data();
    assert_eq!(e.event_type, "error");
    assert_eq!(e.message, Some("x".to_string()));
}

#[test]
fn load_error_message_accessor() {
    let e = LoadError::NotFound { message: "missing.wav".to_string() };
    assert_eq!(e.message(), "missing.wav");
}

#[test]
fn sample_clock_exact_values() {
    assert_eq!(micros_from_samples(44100, 44100), 1_000_000);
    assert_eq!(micros_from_samples(22050, 44100), 500_000);
    assert_eq!(micros_from_samples(66150, 44100), 1_500_000);
    assert_eq!(micros_from_samples(1, 48000), 20);
    assert_eq!(micros_from_samples(0, 48000), 0);
}

#[test]
fn sample_clock_zero_rate_never_advances() {
    assert_eq!(micros_from_samples(123456, 0), 0);
}

#[test]
fn sample_clock_saturates() {
    assert_eq!(micros_from_samples(u64::MAX, 1), u64::MAX);
}
