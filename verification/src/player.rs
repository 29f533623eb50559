//! The player: the state machine composing the output-sink state, the loader
//! bookkeeping, the sample clock and the event bus.
//!
//! The engine is pure state. The host owns the output device, the decoder
//! and the loader tasks; it drives this machine with the outcomes it
//! observes (`finish_load`, `sync_position`, `handle_exhausted`) and
//! dispatches the events the machine emits (`take_events`). Every transition
//! is specified by a `*_step` function on [`PlayerModel`], and each exec
//! method's contract says it performs exactly that step.

use vstd::prelude::*;
use crate::bus::{deliver, lemma_deliver_concat, lemma_deliver_empty, BusModel, EventBus};
use crate::clock::{micros_from_samples, micros_of_samples};
use crate::errors::{LoadError, SeekError};
use crate::events::{BusEvent, LoaderEvent, PlayerEvent};

verus! {

/// Where a source came from.
#[derive(Clone, Debug, PartialEq, Eq)]
pub enum Origin {
    /// A local file path.
    File(String),
    /// A remote URL.
    Url(String),
}

/// One loaded audio asset: its origin and the structure the decoder
/// reported. Owned exclusively by the player; at most one is live.
#[derive(Clone, Debug, PartialEq, Eq)]
pub struct Source {
    pub origin: Origin,
    /// Sample frames per second.
    pub sample_rate: u32,
    /// Interleaved channel count.
    pub channels: u16,
    /// Total length in microseconds; absent for some streamed formats.
    pub duration_micros: Option<u64>,
}

/// What the loader pipeline reported for one load.
#[derive(Clone, Debug, PartialEq, Eq)]
pub enum LoadOutcome {
    /// Decode succeeded: the source's structure, ready for attachment.
    Loaded { sample_rate: u32, channels: u16, duration_micros: Option<u64> },
    /// Some pipeline step failed.
    Failed(LoadError),
}

/// What the caller awaiting a load sees once it settles.
#[derive(Clone, Debug, PartialEq, Eq)]
pub enum LoadResolution {
    /// The load reached attachment; the player is ready.
    Completed,
    /// The load failed; the same error also rode the `Error` event.
    Failed(LoadError),
    /// A newer load superseded this one; its outcome was discarded.
    Superseded,
}

/// The transport states of the player.
#[derive(Clone, Copy, Debug, PartialEq, Eq, Structural)]
pub enum PlaybackState {
    /// No source.
    Idle,
    /// A loader task is in flight.
    Loading,
    /// A source is attached and paused at the start or the last sought
    /// position.
    Ready,
    Playing,
    Paused,
    /// The source was consumed to its end.
    Ended,
    /// The current source failed; recoverable by a new load.
    Error,
}

/// The player as its mathematical value.
#[verifier::ext_equal]
pub struct PlayerModel {
    pub state: PlaybackState,
    /// Volume in thousandths of unit gain; player-scoped, never negative.
    pub volume_milli: u32,
    /// The attached source, if any.
    pub source: Option<Source>,
    /// The playhead, in microseconds.
    pub position_micros: u64,
    /// Generation tag of the most recent load; the newest load wins.
    pub generation: u64,
    /// Origin of the in-flight load, if one is pending.
    pub inflight: Option<Origin>,
    pub bus: BusModel,
}

/// Well-formedness: the structural invariant every reachable player
/// satisfies. A player never holds a source while `Idle` (or while loading,
/// or after a failure), always holds one while `Ready`, `Playing`, `Paused`
/// or `Ended`, has an in-flight origin exactly while `Loading`, and keeps
/// the playhead at zero without a source and within the known duration with
/// one.
pub open spec fn wf(m: PlayerModel) -> bool {
    &&& (m.source is Some <==> (m.state is Ready || m.state is Playing || m.state is Paused
        || m.state is Ended))
    &&& (m.inflight is Some <==> m.state is Loading)
    &&& (m.source is None ==> m.position_micros == 0)
    &&& (match m.source {
        Some(s) => match s.duration_micros {
            Some(d) => m.position_micros <= d,
            None => true,
        },
        None => true,
    })
}

/// The freshly constructed player: idle, unit volume, no observer.
pub open spec fn init_model() -> PlayerModel {
    PlayerModel {
        state: PlaybackState::Idle,
        volume_milli: 1000,
        source: None,
        position_micros: 0,
        generation: 0,
        inflight: None,
        bus: BusModel { observer_attached: false, queue: Seq::<BusEvent>::empty() },
    }
}

/// The total duration of the attached source, if known.
pub open spec fn spec_duration(m: PlayerModel) -> Option<u64> {
    match m.source {
        Some(s) => s.duration_micros,
        None => None,
    }
}

/// Whether the player reports itself paused: every state but `Playing`.
pub open spec fn spec_paused(m: PlayerModel) -> bool {
    !(m.state is Playing)
}

/// `play` starts the attached stream from `Ready` or `Paused`.
pub open spec fn play_allowed(m: PlayerModel) -> bool {
    m.state is Ready || m.state is Paused
}

/// What `play` does: from `Ready` or `Paused` the player starts rendering at
/// the held position and `Play` then `Playing` fire; in every other state it
/// is a no-op with no event.
pub open spec fn play_step(m: PlayerModel) -> PlayerModel {
    if play_allowed(m) {
        PlayerModel {
            state: PlaybackState::Playing,
            bus: deliver(
                m.bus,
                seq![
                    BusEvent::Player(PlayerEvent::Play),
                    BusEvent::Player(PlayerEvent::Playing),
                ],
            ),
            ..m
        }
    } else {
        m
    }
}

/// What `pause` does: a playing player pauses, holding its position, and
/// `Pause` fires; otherwise nothing happens.
pub open spec fn pause_step(m: PlayerModel) -> PlayerModel {
    if m.state is Playing {
        PlayerModel {
            state: PlaybackState::Paused,
            bus: deliver(m.bus, seq![BusEvent::Player(PlayerEvent::Pause)]),
            ..m
        }
    } else {
        m
    }
}

/// `stop` acts on a player with an attached, unexhausted source.
pub open spec fn stop_allowed(m: PlayerModel) -> bool {
    m.state is Playing || m.state is Paused || m.state is Ready
}

/// What `stop` does: the attached stream is detached and discarded, the
/// playhead resets, the player returns to `Idle` and `Emptied` fires. The
/// volume is player-scoped and survives. In other states nothing happens.
pub open spec fn stop_step(m: PlayerModel) -> PlayerModel {
    if stop_allowed(m) {
        PlayerModel {
            state: PlaybackState::Idle,
            source: None,
            position_micros: 0,
            bus: deliver(m.bus, seq![BusEvent::Player(PlayerEvent::Emptied)]),
            ..m
        }
    } else {
        m
    }
}

/// A seek target past the known end lands exactly on the duration.
pub open spec fn clamp_to_duration(target: u64, duration: Option<u64>) -> u64 {
    match duration {
        Some(d) => if target > d {
            d
        } else {
            target
        },
        None => target,
    }
}

/// `seek` needs an attached stream: it is refused while a load is in flight
/// or while no source is held.
pub open spec fn seek_allowed(m: PlayerModel) -> bool {
    !(m.state is Loading) && m.source is Some
}

/// What `seek` does: with an attached stream the playhead moves to the
/// target clamped to the known duration, the state is kept, and `Seeking`
/// then `Seeked` fire. A refused seek mutates nothing.
pub open spec fn seek_step(m: PlayerModel, target_micros: u64) -> PlayerModel {
    if seek_allowed(m) {
        PlayerModel {
            position_micros: clamp_to_duration(target_micros, spec_duration(m)),
            bus: deliver(
                m.bus,
                seq![
                    BusEvent::Player(PlayerEvent::Seeking),
                    BusEvent::Player(PlayerEvent::Seeked),
                ],
            ),
            ..m
        }
    } else {
        m
    }
}

/// What `set_volume` does in every state: the player-scoped volume changes
/// and `VolumeChange` fires.
pub open spec fn set_volume_step(m: PlayerModel, volume_milli: u32) -> PlayerModel {
    PlayerModel {
        volume_milli,
        bus: deliver(m.bus, seq![BusEvent::Player(PlayerEvent::VolumeChange)]),
        ..m
    }
}

/// The generation tag of the next load: strictly newer than every live
/// ticket.
pub open spec fn next_generation(g: u64) -> u64 {
    if g == u64::MAX {
        0
    } else {
        (g + 1) as u64
    }
}

/// The events a `begin_load` emits: `Aborted` for a superseded in-flight
/// load, `Emptied` for a retired source, then `LoadStart`.
pub open spec fn begin_load_events(m: PlayerModel) -> Seq<BusEvent> {
    (if m.state is Loading {
        seq![BusEvent::Loader(LoaderEvent::Aborted)]
    } else {
        Seq::<BusEvent>::empty()
    }) + (if m.source is Some {
        seq![BusEvent::Player(PlayerEvent::Emptied)]
    } else {
        Seq::<BusEvent>::empty()
    }) + seq![BusEvent::Player(PlayerEvent::LoadStart)]
}

/// What beginning a load does: a prior in-flight load is cancelled (its
/// `Aborted` fires exactly once, here), a prior source is retired first
/// (`Emptied`), and the player enters `Loading` under a fresh generation tag
/// as `LoadStart` fires.
pub open spec fn begin_load_step(m: PlayerModel, origin: Origin) -> PlayerModel {
    PlayerModel {
        state: PlaybackState::Loading,
        source: None,
        position_micros: 0,
        generation: next_generation(m.generation),
        inflight: Some(origin),
        volume_milli: m.volume_milli,
        bus: deliver(m.bus, begin_load_events(m)),
    }
}

/// Whether a ticket still names the in-flight load: the newest `begin_load`
/// wins, every earlier ticket is stale.
pub open spec fn load_current(m: PlayerModel, ticket: u64) -> bool {
    m.state is Loading && m.inflight is Some && ticket == m.generation
}

/// What settling a load does. A stale ticket changes nothing: the superseded
/// outcome is discarded silently. A current, successful load attaches its
/// source at position zero and `LoadedMetadata`, `LoadedData`,
/// `DurationChange` and the loader-family `Completed` fire in that order. A
/// current, failed load leaves the player empty in the `Error` state —
/// functionally idle, recoverable by a new load — and `Error{message}`
/// fires.
pub open spec fn finish_load_step(m: PlayerModel, ticket: u64, outcome: LoadOutcome) -> PlayerModel {
    if !load_current(m, ticket) {
        m
    } else {
        match outcome {
            LoadOutcome::Loaded { sample_rate, channels, duration_micros } => PlayerModel {
                state: PlaybackState::Ready,
                source: Some(
                    Source {
                        origin: m.inflight.unwrap(),
                        sample_rate,
                        channels,
                        duration_micros,
                    },
                ),
                position_micros: 0,
                inflight: None,
                bus: deliver(
                    m.bus,
                    seq![
                        BusEvent::Player(PlayerEvent::LoadedMetadata),
                        BusEvent::Player(PlayerEvent::LoadedData),
                        BusEvent::Player(PlayerEvent::DurationChange),
                        BusEvent::Loader(LoaderEvent::Completed),
                    ],
                ),
                ..m
            },
            LoadOutcome::Failed(e) => PlayerModel {
                state: PlaybackState::Error,
                source: None,
                position_micros: 0,
                inflight: None,
                bus: deliver(
                    m.bus,
                    seq![BusEvent::Player(PlayerEvent::Error { message: e.spec_message() })],
                ),
                ..m
            },
        }
    }
}

/// What the caller awaiting the load identified by `ticket` sees.
pub open spec fn finish_load_resolution(
    m: PlayerModel,
    ticket: u64,
    outcome: LoadOutcome,
) -> LoadResolution {
    if !load_current(m, ticket) {
        LoadResolution::Superseded
    } else {
        match outcome {
            LoadOutcome::Loaded { .. } => LoadResolution::Completed,
            LoadOutcome::Failed(e) => LoadResolution::Failed(e),
        }
    }
}

/// What exhaustion of the stream does: a playing player ends, the playhead
/// lands on the known duration, and `Ended` fires; otherwise nothing
/// happens.
pub open spec fn exhausted_step(m: PlayerModel) -> PlayerModel {
    if m.state is Playing {
        PlayerModel {
            state: PlaybackState::Ended,
            position_micros: match spec_duration(m) {
                Some(d) => d,
                None => m.position_micros,
            },
            bus: deliver(m.bus, seq![BusEvent::Player(PlayerEvent::Ended)]),
            ..m
        }
    } else {
        m
    }
}

/// The sample clock's reading, saturated to the representable range.
pub open spec fn micros_sat(samples: u64, sample_rate: u32) -> u64 {
    if micros_of_samples(samples as nat, sample_rate as nat) > u64::MAX {
        u64::MAX
    } else {
        micros_of_samples(samples as nat, sample_rate as nat) as u64
    }
}

/// What syncing the clock does: while playing, the playhead follows the
/// consumed-frame count reported by the output pipeline, clamped to the
/// known duration; no event fires. In any other state the report is ignored.
pub open spec fn sync_step(m: PlayerModel, consumed_samples: u64) -> PlayerModel {
    if m.state is Playing && m.source is Some {
        let s = m.source.unwrap();
        PlayerModel {
            position_micros: clamp_to_duration(
                micros_sat(consumed_samples, s.sample_rate),
                s.duration_micros,
            ),
            ..m
        }
    } else {
        m
    }
}

/// What registering the observer does: it is attached, replacing any prior
/// one; everything else is kept.
pub open spec fn register_observer_step(m: PlayerModel) -> PlayerModel {
    PlayerModel {
        bus: BusModel { observer_attached: true, queue: m.bus.queue },
        ..m
    }
}

/// What draining the queue does: the queued events leave, in order, exactly
/// once.
pub open spec fn take_events_step(m: PlayerModel) -> PlayerModel {
    PlayerModel {
        bus: BusModel { observer_attached: m.bus.observer_attached, queue: Seq::<BusEvent>::empty() },
        ..m
    }
}

/// The player.
pub struct Player {
    pub state: PlaybackState,
    pub volume_milli: u32,
    pub source: Option<Source>,
    pub position_micros: u64,
    pub generation: u64,
    pub inflight: Option<Origin>,
    pub bus: EventBus,
}

impl View for Player {
    type V = PlayerModel;

    open spec fn view(&self) -> PlayerModel {
        PlayerModel {
            state: self.state,
            volume_milli: self.volume_milli,
            source: self.source,
            position_micros: self.position_micros,
            generation: self.generation,
            inflight: self.inflight,
            bus: self.bus@,
        }
    }
}

impl Player {
    /// A new engine instance: idle, no source, unit volume, no observer.
    pub fn new() -> (r: Player)
        ensures
            r@ == init_model(),
    {
        let p = Player {
            state: PlaybackState::Idle,
            volume_milli: 1000,
            source: None,
            position_micros: 0,
            generation: 0,
            inflight: None,
            bus: EventBus::new(),
        };
        proof {
            assert(p@ =~= init_model());
        }
        p
    }

    /// Starts playback of the attached stream, emitting `Play` then
    /// `Playing`. Without a resumable attached stream — no source loaded, a
    /// load in flight, already playing, ended, or failed — it is a no-op: no
    /// state change, no event.
    pub fn play(&mut self)
        ensures
            final(self)@ == play_step(old(self)@),
    {
        match self.state {
            PlaybackState::Ready | PlaybackState::Paused => {
                self.state = PlaybackState::Playing;
                self.bus.emit(BusEvent::Player(PlayerEvent::Play));
                self.bus.emit(BusEvent::Player(PlayerEvent::Playing));
                proof {
                    lemma_deliver_concat(
                        old(self)@.bus,
                        seq![BusEvent::Player(PlayerEvent::Play)],
                        seq![BusEvent::Player(PlayerEvent::Playing)],
                    );
                    assert(seq![BusEvent::Player(PlayerEvent::Play)]
                        + seq![BusEvent::Player(PlayerEvent::Playing)] =~= seq![
                        BusEvent::Player(PlayerEvent::Play),
                        BusEvent::Player(PlayerEvent::Playing),
                    ]);
                    assert(self@ =~= play_step(old(self)@));
                }
            },
            _ => {
                proof {
                    assert(self@ =~= play_step(old(self)@));
                }
            },
        }
    }

    /// Pauses a playing stream, holding the playhead, and emits `Pause`; in
    /// any other state it is a no-op.
    pub fn pause(&mut self)
        ensures
            final(self)@ == pause_step(old(self)@),
    {
        if matches!(self.state, PlaybackState::Playing) {
            self.state = PlaybackState::Paused;
            self.bus.emit(BusEvent::Player(PlayerEvent::Pause));
            proof {
                assert(self@ =~= pause_step(old(self)@));
            }
        } else {
            proof {
                assert(self@ =~= pause_step(old(self)@));
            }
        }
    }

    /// Detaches and discards the attached stream, resets the playhead,
    /// returns to `Idle` and emits `Emptied`; the player-scoped volume
    /// survives. Without an attached, unexhausted source it is a no-op.
    pub fn stop(&mut self)
        ensures
            final(self)@ == stop_step(old(self)@),
    {
        match self.state {
            PlaybackState::Playing | PlaybackState::Paused | PlaybackState::Ready => {
                self.state = PlaybackState::Idle;
                self.source = None;
                self.position_micros = 0;
                self.bus.emit(BusEvent::Player(PlayerEvent::Emptied));
                proof {
                    assert(self@ =~= stop_step(old(self)@));
                }
            },
            _ => {
                proof {
                    assert(self@ =~= stop_step(old(self)@));
                }
            },
        }
    }

    /// Moves the playhead to `target_micros`, clamped exactly to the known
    /// duration, keeping the state, and emits `Seeking` then `Seeked`. While
    /// a load is in flight, or without a source, the seek is refused with
    /// `InvalidSeek` and nothing — the playhead included — changes.
    pub fn seek(&mut self, target_micros: u64) -> (r: Result<(), SeekError>)
        ensures
            final(self)@ == seek_step(old(self)@, target_micros),
            r == if seek_allowed(old(self)@) {
                Result::<(), SeekError>::Ok(())
            } else {
                Result::<(), SeekError>::Err(SeekError::InvalidSeek)
            },
    {
        if matches!(self.state, PlaybackState::Loading) {
            return Err(SeekError::InvalidSeek);
        }
        let dur: Option<u64> = match &self.source {
            Some(s) => s.duration_micros,
            None => None,
        };
        if self.source.is_none() {
            return Err(SeekError::InvalidSeek);
        }
        let new_pos: u64 = match dur {
            Some(d) => if target_micros > d {
                d
            } else {
                target_micros
            },
            None => target_micros,
        };
        self.position_micros = new_pos;
        self.bus.emit(BusEvent::Player(PlayerEvent::Seeking));
        self.bus.emit(BusEvent::Player(PlayerEvent::Seeked));
        proof {
            lemma_deliver_concat(
                old(self)@.bus,
                seq![BusEvent::Player(PlayerEvent::Seeking)],
                seq![BusEvent::Player(PlayerEvent::Seeked)],
            );
            assert(seq![BusEvent::Player(PlayerEvent::Seeking)]
                + seq![BusEvent::Player(PlayerEvent::Seeked)] =~= seq![
                BusEvent::Player(PlayerEvent::Seeking),
                BusEvent::Player(PlayerEvent::Seeked),
            ]);
            assert(self@ =~= seek_step(old(self)@, target_micros));
        }
        Ok(())
    }

    /// Sets the player-scoped volume, in thousandths of unit gain, and emits
    /// `VolumeChange`; the setting survives stops and new loads.
    pub fn set_volume(&mut self, volume_milli: u32)
        ensures
            final(self)@ == set_volume_step(old(self)@, volume_milli),
    {
        self.volume_milli = volume_milli;
        self.bus.emit(BusEvent::Player(PlayerEvent::VolumeChange));
        proof {
            assert(self@ =~= set_volume_step(old(self)@, volume_milli));
        }
    }

    /// Begins loading a local file, superseding any in-flight load; returns
    /// the generation ticket that `finish_load` must present.
    pub fn begin_load_file(&mut self, path: String) -> (ticket: u64)
        ensures
            final(self)@ == begin_load_step(old(self)@, Origin::File(path)),
            ticket == final(self)@.generation,
    {
        self.begin_load(Origin::File(path))
    }

    /// Begins loading from a URL, superseding any in-flight load; returns
    /// the generation ticket that `finish_load` must present.
    pub fn begin_load_url(&mut self, url: String) -> (ticket: u64)
        ensures
            final(self)@ == begin_load_step(old(self)@, Origin::Url(url)),
            ticket == final(self)@.generation,
    {
        self.begin_load(Origin::Url(url))
    }

    /// Begins a load: cancels a superseded in-flight load (`Aborted`),
    /// retires a prior source (`Emptied`), then enters `Loading` under a
    /// fresh generation tag (`LoadStart`).
    fn begin_load(&mut self, origin: Origin) -> (ticket: u64)
        ensures
            final(self)@ == begin_load_step(old(self)@, origin),
            ticket == final(self)@.generation,
    {
        let ghost b0 = self.bus@;
        if matches!(self.state, PlaybackState::Loading) {
            self.bus.emit(BusEvent::Loader(LoaderEvent::Aborted));
        }
        let ghost b1 = self.bus@;
        if self.source.is_some() {
            self.bus.emit(BusEvent::Player(PlayerEvent::Emptied));
            self.source = None;
        }
        let ghost b2 = self.bus@;
        self.bus.emit(BusEvent::Player(PlayerEvent::LoadStart));
        self.position_micros = 0;
        self.state = PlaybackState::Loading;
        self.generation = if self.generation == u64::MAX {
            0
        } else {
            self.generation + 1
        };
        self.inflight = Some(origin);
        proof {
            let a = if old(self)@.state is Loading {
                seq![BusEvent::Loader(LoaderEvent::Aborted)]
            } else {
                Seq::<BusEvent>::empty()
            };
            let e = if old(self)@.source is Some {
                seq![BusEvent::Player(PlayerEvent::Emptied)]
            } else {
                Seq::<BusEvent>::empty()
            };
            let l = seq![BusEvent::Player(PlayerEvent::LoadStart)];
            if !(old(self)@.state is Loading) {
                lemma_deliver_empty(b0);
            }
            assert(b1 == deliver(b0, a));
            if !(old(self)@.source is Some) {
                lemma_deliver_empty(b1);
            }
            assert(b2 == deliver(b1, e));
            lemma_deliver_concat(b0, a, e);
            lemma_deliver_concat(b0, a + e, l);
            assert(self.bus@ == deliver(b0, (a + e) + l));
            assert(self@ =~= begin_load_step(old(self)@, origin));
        }
        self.generation
    }

    /// Whether `ticket` still names the in-flight load; a loader task polls
    /// this between pipeline steps to cancel cooperatively once superseded.
    pub fn load_is_current(&self, ticket: u64) -> (r: bool)
        ensures
            r == load_current(self@, ticket),
    {
        matches!(self.state, PlaybackState::Loading) && self.inflight.is_some() && ticket
            == self.generation
    }

    /// Settles the load named by `ticket` with what the loader pipeline
    /// reported. A stale ticket — one superseded by a newer `begin_load` —
    /// changes nothing; its outcome is discarded silently. A current,
    /// successful load attaches its source paused at position zero and emits
    /// `LoadedMetadata`, `LoadedData`, `DurationChange`, then the
    /// loader-family `Completed`. A current, failed load leaves the player
    /// empty in the `Error` state — functionally idle, recoverable by a new
    /// load — and emits `Error` carrying the diagnostic, so the awaiting
    /// caller and the observer see consistent failure information.
    pub fn finish_load(&mut self, ticket: u64, outcome: LoadOutcome) -> (r: LoadResolution)
        ensures
            final(self)@ == finish_load_step(old(self)@, ticket, outcome),
            r == finish_load_resolution(old(self)@, ticket, outcome),
    {
        if !(matches!(self.state, PlaybackState::Loading) && ticket == self.generation) {
            return LoadResolution::Superseded;
        }
        match self.inflight.take() {
            None => LoadResolution::Superseded,
            Some(origin) => match outcome {
                LoadOutcome::Loaded { sample_rate, channels, duration_micros } => {
                    self.source = Some(Source { origin, sample_rate, channels, duration_micros });
                    self.position_micros = 0;
                    self.state = PlaybackState::Ready;
                    let ghost b0 = self.bus@;
                    self.bus.emit(BusEvent::Player(PlayerEvent::LoadedMetadata));
                    self.bus.emit(BusEvent::Player(PlayerEvent::LoadedData));
                    self.bus.emit(BusEvent::Player(PlayerEvent::DurationChange));
                    self.bus.emit(BusEvent::Loader(LoaderEvent::Completed));
                    proof {
                        let e1 = seq![BusEvent::Player(PlayerEvent::LoadedMetadata)];
                        let e2 = seq![BusEvent::Player(PlayerEvent::LoadedData)];
                        let e3 = seq![BusEvent::Player(PlayerEvent::DurationChange)];
                        let e4 = seq![BusEvent::Loader(LoaderEvent::Completed)];
                        lemma_deliver_concat(b0, e1, e2);
                        lemma_deliver_concat(b0, e1 + e2, e3);
                        lemma_deliver_concat(b0, (e1 + e2) + e3, e4);
                        assert(((e1 + e2) + e3) + e4 =~= seq![
                            BusEvent::Player(PlayerEvent::LoadedMetadata),
                            BusEvent::Player(PlayerEvent::LoadedData),
                            BusEvent::Player(PlayerEvent::DurationChange),
                            BusEvent::Loader(LoaderEvent::Completed),
                        ]);
                        assert(self@ =~= finish_load_step(old(self)@, ticket, outcome));
                    }
                    LoadResolution::Completed
                },
                LoadOutcome::Failed(e) => {
                    self.source = None;
                    self.position_micros = 0;
                    self.state = PlaybackState::Error;
                    let message = e.message();
                    self.bus.emit(BusEvent::Player(PlayerEvent::Error { message }));
                    proof {
                        assert(self@ =~= finish_load_step(old(self)@, ticket, outcome));
                    }
                    LoadResolution::Failed(e)
                },
            },
        }
    }

    /// The host's output pipeline reports the attached stream ran out: a
    /// playing player ends, the playhead lands on the known duration, and
    /// `Ended` fires; in any other state the report is ignored.
    pub fn handle_exhausted(&mut self)
        ensures
            final(self)@ == exhausted_step(old(self)@),
    {
        if !matches!(self.state, PlaybackState::Playing) {
            return;
        }
        let dur: Option<u64> = match &self.source {
            Some(s) => s.duration_micros,
            None => None,
        };
        if let Some(d) = dur {
            self.position_micros = d;
        }
        self.state = PlaybackState::Ended;
        self.bus.emit(BusEvent::Player(PlayerEvent::Ended));
        proof {
            assert(self@ =~= exhausted_step(old(self)@));
        }
    }

    /// The host's output pipeline reports its consumed-frame count: while
    /// playing, the playhead follows the sample clock, clamped to the known
    /// duration; otherwise the report is ignored. No event fires.
    pub fn sync_position(&mut self, consumed_samples: u64)
        ensures
            final(self)@ == sync_step(old(self)@, consumed_samples),
    {
        if !matches!(self.state, PlaybackState::Playing) {
            return;
        }
        let rate: u32;
        let dur: Option<u64>;
        match &self.source {
            Some(s) => {
                rate = s.sample_rate;
                dur = s.duration_micros;
            },
            None => {
                return;
            },
        }
        let micros = micros_from_samples(consumed_samples, rate);
        let new_pos: u64 = match dur {
            Some(d) => if micros > d {
                d
            } else {
                micros
            },
            None => micros,
        };
        self.position_micros = new_pos;
        proof {
            assert(micros == micros_sat(consumed_samples, rate));
            assert(self@ =~= sync_step(old(self)@, consumed_samples));
        }
    }

    /// Registers the host's observer; a prior registration is replaced.
    /// Events emitted from now on are queued for it.
    pub fn register_observer(&mut self)
        ensures
            final(self)@ == register_observer_step(old(self)@),
    {
        self.bus.register();
        proof {
            assert(self@ =~= register_observer_step(old(self)@));
        }
    }

    /// Hands every queued event, oldest first, to the host for dispatch to
    /// the observer; each event is delivered at most once.
    pub fn take_events(&mut self) -> (r: Vec<BusEvent>)
        ensures
            r@ == old(self)@.bus.queue,
            final(self)@ == take_events_step(old(self)@),
    {
        let r = self.bus.take_delivered();
        proof {
            assert(self@ =~= take_events_step(old(self)@));
        }
        r
    }

    /// Whether the player is paused: true in every state but `Playing`.
    pub fn paused(&self) -> (r: bool)
        ensures
            r == spec_paused(self@),
    {
        !matches!(self.state, PlaybackState::Playing)
    }

    /// Whether the attached source was consumed to its end.
    pub fn ended(&self) -> (r: bool)
        ensures
            r == (self@.state is Ended),
    {
        matches!(self.state, PlaybackState::Ended)
    }

    /// The playhead, in microseconds; zero when nothing is attached.
    pub fn position(&self) -> (r: u64)
        ensures
            r == self@.position_micros,
    {
        self.position_micros
    }

    /// The attached source's total duration in microseconds, if known.
    pub fn duration(&self) -> (r: Option<u64>)
        ensures
            r == spec_duration(self@),
    {
        match &self.source {
            Some(s) => s.duration_micros,
            None => None,
        }
    }

    /// The attached source's sample rate in frames per second, if one is
    /// attached; the host needs it to key the clock's frame count.
    pub fn sample_rate(&self) -> (r: Option<u32>)
        ensures
            r == match self@.source {
                Some(s) => Some(s.sample_rate),
                None => None::<u32>,
            },
    {
        match &self.source {
            Some(s) => Some(s.sample_rate),
            None => None,
        }
    }

    /// The player-scoped volume, in thousandths of unit gain.
    pub fn volume(&self) -> (r: u32)
        ensures
            r == self@.volume_milli,
    {
        self.volume_milli
    }

    /// The current transport state.
    pub fn playback_state(&self) -> (r: PlaybackState)
        ensures
            r == self@.state,
    {
        self.state
    }
}

/// Law: every transition preserves well-formedness, and a fresh player is
/// well-formed. In particular a player never holds a live source while
/// `Idle`, and always holds one while `Playing`.
pub proof fn lemma_steps_preserve_wf(
    m: PlayerModel,
    origin: Origin,
    ticket: u64,
    outcome: LoadOutcome,
    target_micros: u64,
    volume_milli: u32,
    consumed_samples: u64,
)
    requires
        wf(m),
    ensures
        wf(init_model()),
        wf(play_step(m)),
        wf(pause_step(m)),
        wf(stop_step(m)),
        wf(seek_step(m, target_micros)),
        wf(set_volume_step(m, volume_milli)),
        wf(begin_load_step(m, origin)),
        wf(finish_load_step(m, ticket, outcome)),
        wf(exhausted_step(m)),
        wf(sync_step(m, consumed_samples)),
        wf(register_observer_step(m)),
        wf(take_events_step(m)),
{
}

/// Law: of loads racing one another, the last wins. A `begin_load` issued
/// while another load is in flight leaves the earlier ticket stale: settling
/// the stale ticket changes nothing — it attaches no source and emits no
/// event — whatever its outcome, while the newest ticket stays live.
pub proof fn lemma_superseded_load_discarded(
    m: PlayerModel,
    o1: Origin,
    o2: Origin,
    outcome: LoadOutcome,
)
    ensures
        ({
            let m1 = begin_load_step(m, o1);
            let t1 = m1.generation;
            let m2 = begin_load_step(m1, o2);
            let t2 = m2.generation;
            &&& !load_current(m2, t1)
            &&& finish_load_step(m2, t1, outcome) == m2
            &&& finish_load_resolution(m2, t1, outcome) is Superseded
            &&& load_current(m2, t2)
        }),
{
}

/// Law: settling the newest ticket with a successful outcome attaches that
/// load's source — its origin and duration, never a superseded load's.
pub proof fn lemma_last_load_wins(
    m: PlayerModel,
    o1: Origin,
    o2: Origin,
    sample_rate: u32,
    channels: u16,
    duration_micros: Option<u64>,
)
    ensures
        ({
            let m1 = begin_load_step(m, o1);
            let m2 = begin_load_step(m1, o2);
            let m3 = finish_load_step(
                m2,
                m2.generation,
                LoadOutcome::Loaded { sample_rate, channels, duration_micros },
            );
            &&& m3.state is Ready
            &&& m3.source == Some(Source { origin: o2, sample_rate, channels, duration_micros })
            &&& spec_duration(m3) == duration_micros
        }),
{
}

/// Law: a superseded in-flight load contributes exactly one `Aborted` to the
/// delivered stream, fired when the newer load supersedes it; its own
/// completion events never appear.
pub proof fn lemma_supersede_emits_aborted_once(m: PlayerModel, o2: Origin)
    requires
        wf(m),
        m.state is Loading,
        m.bus.observer_attached,
    ensures
        begin_load_step(m, o2).bus.queue == m.bus.queue + seq![
            BusEvent::Loader(LoaderEvent::Aborted),
            BusEvent::Player(PlayerEvent::LoadStart),
        ],
{
    assert(begin_load_events(m) =~= seq![
        BusEvent::Loader(LoaderEvent::Aborted),
        BusEvent::Player(PlayerEvent::LoadStart),
    ]);
}

/// Law: a load that runs to completion delivers, in causal order,
/// `LoadStart`, `LoadedMetadata`, `LoadedData`, `DurationChange`, then the
/// loader-family `Completed`, and nothing else.
pub proof fn lemma_completed_load_event_order(
    m: PlayerModel,
    origin: Origin,
    sample_rate: u32,
    channels: u16,
    duration_micros: Option<u64>,
)
    requires
        wf(m),
        !(m.state is Loading),
        m.source is None,
        m.bus.observer_attached,
    ensures
        ({
            let m1 = begin_load_step(m, origin);
            let m2 = finish_load_step(
                m1,
                m1.generation,
                LoadOutcome::Loaded { sample_rate, channels, duration_micros },
            );
            m2.bus.queue == m.bus.queue + seq![
                BusEvent::Player(PlayerEvent::LoadStart),
                BusEvent::Player(PlayerEvent::LoadedMetadata),
                BusEvent::Player(PlayerEvent::LoadedData),
                BusEvent::Player(PlayerEvent::DurationChange),
                BusEvent::Loader(LoaderEvent::Completed),
            ]
        }),
{
    let s1 = seq![BusEvent::Player(PlayerEvent::LoadStart)];
    let s2 = seq![
        BusEvent::Player(PlayerEvent::LoadedMetadata),
        BusEvent::Player(PlayerEvent::LoadedData),
        BusEvent::Player(PlayerEvent::DurationChange),
        BusEvent::Loader(LoaderEvent::Completed),
    ];
    assert(begin_load_events(m) =~= s1);
    assert((m.bus.queue + s1) + s2 =~= m.bus.queue + (s1 + s2));
    assert(s1 + s2 =~= seq![
        BusEvent::Player(PlayerEvent::LoadStart),
        BusEvent::Player(PlayerEvent::LoadedMetadata),
        BusEvent::Player(PlayerEvent::LoadedData),
        BusEvent::Player(PlayerEvent::DurationChange),
        BusEvent::Loader(LoaderEvent::Completed),
    ]);
}

/// Law: `play` on a player holding no source is a no-op: the state, the
/// playhead and the whole player are unchanged, and no event fires.
pub proof fn lemma_play_without_source_is_noop(m: PlayerModel)
    requires
        wf(m),
        m.source is None,
    ensures
        play_step(m) == m,
{
}

/// Law: seeking past the known end clamps to the duration exactly: after
/// the call the position equals the duration, not a sample more.
pub proof fn lemma_seek_clamps_to_duration(m: PlayerModel, target_micros: u64, d: u64)
    requires
        wf(m),
        seek_allowed(m),
        spec_duration(m) == Some(d),
        target_micros > d,
    ensures
        seek_step(m, target_micros).position_micros == d,
        spec_duration(seek_step(m, target_micros)) == Some(d),
{
}

/// Law: the volume is player-scoped, not source-scoped: it survives a
/// `stop`, a whole new load, and `play`, whatever the load's outcome.
pub proof fn lemma_volume_persists(m: PlayerModel, origin: Origin, outcome: LoadOutcome)
    ensures
        ({
            let m1 = stop_step(m);
            let m2 = begin_load_step(m1, origin);
            let m3 = finish_load_step(m2, m2.generation, outcome);
            let m4 = play_step(m3);
            m4.volume_milli == m.volume_milli
        }),
{
}

/// Law: `pause` then `play` resumes playback exactly at the position held
/// at pause time — the playhead is integral microseconds, so no tolerance
/// is needed; the sample clock's sub-sample precision is
/// `clock::lemma_sample_clock_precision`.
pub proof fn lemma_pause_play_resumes_position(m: PlayerModel)
    requires
        wf(m),
        m.state is Playing,
    ensures
        ({
            let m2 = play_step(pause_step(m));
            &&& m2.state is Playing
            &&& m2.position_micros == m.position_micros
            &&& spec_duration(m2) == spec_duration(m)
        }),
{
}

} // verus!
