//! The two event families the engine emits, and their host-facing encoding.

use vstd::prelude::*;
use vstd::string::StringExecFns;

verus! {

/// A transport or lifecycle event of the player, mirroring the media-element
/// event model. Events are immutable values, produced once per causing
/// transition.
#[derive(Clone, Debug, PartialEq, Eq)]
pub enum PlayerEvent {
    Play,
    Pause,
    Waiting,
    Playing,
    Ended,
    Emptied,
    DurationChange,
    VolumeChange,
    Seeking,
    Seeked,
    LoadStart,
    LoadedData,
    LoadedMetadata,
    /// A load failed; carries the human-readable diagnostic.
    Error { message: String },
}

/// A structural event of the loader pipeline, independent of playback state.
#[derive(Clone, Copy, Debug, PartialEq, Eq, Structural)]
pub enum LoaderEvent {
    /// The pipeline is ready and its source was handed over for attachment.
    Completed,
    /// The load was cancelled by a newer one; nothing further is emitted.
    Aborted,
}

/// One delivered event, tagged with its family.
#[derive(Clone, Debug, PartialEq, Eq)]
pub enum BusEvent {
    Player(PlayerEvent),
    Loader(LoaderEvent),
}

/// The discriminated value the host observer receives: an event kind, and a
/// message for error events.
#[derive(Clone, Debug, PartialEq, Eq)]
pub struct JsPlayerEventData {
    pub event_type: String,
    pub message: Option<String>,
}

/// The kind string of a player-family event.
pub open spec fn player_event_name(e: PlayerEvent) -> Seq<char> {
    match e {
        PlayerEvent::Play => "play"@,
        PlayerEvent::Pause => "pause"@,
        PlayerEvent::Waiting => "waiting"@,
        PlayerEvent::Playing => "playing"@,
        PlayerEvent::Ended => "ended"@,
        PlayerEvent::Emptied => "emptied"@,
        PlayerEvent::DurationChange => "durationchange"@,
        PlayerEvent::VolumeChange => "volumechange"@,
        PlayerEvent::Seeking => "seeking"@,
        PlayerEvent::Seeked => "seeked"@,
        PlayerEvent::LoadStart => "loadstart"@,
        PlayerEvent::LoadedData => "loadeddata"@,
        PlayerEvent::LoadedMetadata => "loadedmetadata"@,
        PlayerEvent::Error { .. } => "error"@,
    }
}

/// The message of a player-family event: the diagnostic for `Error`, absent
/// for every other kind.
pub open spec fn player_event_message(e: PlayerEvent) -> Option<String> {
    match e {
        PlayerEvent::Error { message } => Some(message),
        _ => None,
    }
}

/// The kind string of a loader-family event.
pub open spec fn loader_event_name(e: LoaderEvent) -> Seq<char> {
    match e {
        LoaderEvent::Completed => "completed"@,
        LoaderEvent::Aborted => "aborted"@,
    }
}

impl PlayerEvent {
    /// Encodes this event for the host observer: the kind string and, for
    /// `Error`, the diagnostic.
    pub fn event_data(&self) -> (r: JsPlayerEventData)
        ensures
            r.event_type@ == player_event_name(*self),
            r.message == player_event_message(*self),
    {
        match self {
            PlayerEvent::Play => JsPlayerEventData {
                event_type: String::from_str("play"),
                message: None,
            },
            PlayerEvent::Pause => JsPlayerEventData {
                event_type: String::from_str("pause"),
                message: None,
            },
            PlayerEvent::Waiting => JsPlayerEventData {
                event_type: String::from_str("waiting"),
                message: None,
            },
            PlayerEvent::Playing => JsPlayerEventData {
                event_type: String::from_str("playing"),
                message: None,
            },
            PlayerEvent::Ended => JsPlayerEventData {
                event_type: String::from_str("ended"),
                message: None,
            },
            PlayerEvent::Emptied => JsPlayerEventData {
                event_type: String::from_str("emptied"),
                message: None,
            },
            PlayerEvent::DurationChange => JsPlayerEventData {
                event_type: String::from_str("durationchange"),
                message: None,
            },
            PlayerEvent::VolumeChange => JsPlayerEventData {
                event_type: String::from_str("volumechange"),
                message: None,
            },
            PlayerEvent::Seeking => JsPlayerEventData {
                event_type: String::from_str("seeking"),
                message: None,
            },
            PlayerEvent::Seeked => JsPlayerEventData {
                event_type: String::from_str("seeked"),
                message: None,
            },
            PlayerEvent::LoadStart => JsPlayerEventData {
                event_type: String::from_str("loadstart"),
                message: None,
            },
            PlayerEvent::LoadedData => JsPlayerEventData {
                event_type: String::from_str("loadeddata"),
                message: None,
            },
            PlayerEvent::LoadedMetadata => JsPlayerEventData {
                event_type: String::from_str("loadedmetadata"),
                message: None,
            },
            PlayerEvent::Error { message } => JsPlayerEventData {
                event_type: String::from_str("error"),
                message: Some(message.clone()),
            },
        }
    }
}

impl LoaderEvent {
    /// Encodes this event for the host observer.
    pub fn event_data(&self) -> (r: JsPlayerEventData)
        ensures
            r.event_type@ == loader_event_name(*self),
            r.message is None,
    {
        match self {
            LoaderEvent::Completed => JsPlayerEventData {
                event_type: String::from_str("completed"),
                message: None,
            },
            LoaderEvent::Aborted => JsPlayerEventData {
                event_type: String::from_str("aborted"),
                message: None,
            },
        }
    }
}

/// The kind string of an event of either family.
pub open spec fn bus_event_name(e: BusEvent) -> Seq<char> {
    match e {
        BusEvent::Player(p) => player_event_name(p),
        BusEvent::Loader(l) => loader_event_name(l),
    }
}

/// The message of an event of either family.
pub open spec fn bus_event_message(e: BusEvent) -> Option<String> {
    match e {
        BusEvent::Player(p) => player_event_message(p),
        BusEvent::Loader(_) => None,
    }
}

impl BusEvent {
    /// Encodes this event for the host observer.
    pub fn event_data(&self) -> (r: JsPlayerEventData)
        ensures
            r.event_type@ == bus_event_name(*self),
            r.message == bus_event_message(*self),
    {
        match self {
            BusEvent::Player(e) => e.event_data(),
            BusEvent::Loader(e) => e.event_data(),
        }
    }
}

} // verus!
