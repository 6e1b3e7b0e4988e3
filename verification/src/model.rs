//! The closed vocabulary of the controller: events, commands, outcomes and
//! the requests it hands to the owner of the playback engine.

use vstd::prelude::*;

verus! {

/// How long the event loop waits for an engine event before it takes a
/// poll timeout, in milliseconds.
pub const POLL_TIMEOUT_MS: u64 = 100;

/// How long the keyboard loop sleeps between two looks at the termination
/// flag, in milliseconds.
pub const KEYBOARD_WAKE_MS: u64 = 50;

/// Nanoseconds in a second.
pub const NANOS_PER_SECOND: u64 = 1_000_000_000;

/// A kind of selectable stream.
#[derive(Clone, Copy, Debug, PartialEq, Eq, Structural)]
pub enum TrackKind {
    Video,
    Audio,
    Text,
}

/// The states a playback engine element moves through.
#[derive(Clone, Copy, Debug, PartialEq, Eq, Structural)]
pub enum EngineState {
    VoidPending,
    Null,
    Ready,
    Paused,
    Playing,
}

/// An asynchronous notification from the playback engine.
#[derive(Clone, Debug, PartialEq, Eq)]
pub enum Event {
    /// The engine failed at run time; the text is its message.
    Error(String),
    /// The end of the stream was reached.
    Eos,
    /// The duration of the media changed; a cached value is stale.
    DurationChanged,
    /// An element went from `old` to `new`. `own` tells whether that element
    /// is the one this session drives.
    StateChanged { old: EngineState, new: EngineState, own: bool },
}

/// A request decoded from a keystroke.
#[derive(Clone, Copy, Debug, PartialEq, Eq, Structural)]
pub enum Command {
    SelectAudioTrack(u32),
    SelectTextTrack(u32),
    Quit,
}

/// What became of an event or a command.
#[derive(Clone, Copy, Debug, PartialEq, Eq, Structural)]
pub enum Outcome {
    /// It took effect.
    Applied,
    /// The track index is not below the number of tracks the engine reports.
    OutOfRange,
    /// It caused no transition.
    Ignored,
}

/// The track counts the engine reported when a command was validated.
#[derive(Clone, Copy, Debug, PartialEq, Eq, Structural)]
pub struct TrackCounts {
    pub n_video: u32,
    pub n_audio: u32,
    pub n_text: u32,
}

/// The selection last applied through the controller, per kind. `None`
/// means the controller has not selected a track of that kind.
#[derive(Clone, Copy, Debug, PartialEq, Eq, Structural)]
pub struct TrackSelection {
    pub video_index: Option<u32>,
    pub audio_index: Option<u32>,
    pub text_index: Option<u32>,
}

/// The one-shot seek a session performs: once the position has passed
/// `threshold_ns`, jump to `target_ns`. Both are in nanoseconds.
#[derive(Clone, Copy, Debug, PartialEq, Eq, Structural)]
pub struct SeekPolicy {
    pub threshold_ns: u64,
    pub target_ns: u64,
}

/// What the owner of the engine has to do after a step of the controller.
#[derive(Clone, Copy, Debug, PartialEq, Eq, Structural)]
pub enum Action {
    /// Nothing.
    Nothing,
    /// Enumerate the streams and report them.
    AnalyzeStreams,
    /// Make `index` the current track of `kind`.
    SelectTrack { kind: TrackKind, index: u32 },
    /// Seek to `target_ns` nanoseconds.
    Seek { target_ns: u64 },
}

/// The result of one step: what became of the input, and what to do.
#[derive(Clone, Copy, Debug, PartialEq, Eq, Structural)]
pub struct Reaction {
    pub outcome: Outcome,
    pub action: Action,
}

/// What the engine answered when polled on a timeout, in nanoseconds.
/// `duration` is only consulted while the session has no cached duration.
#[derive(Clone, Copy, Debug, PartialEq, Eq, Structural)]
pub struct Probe {
    pub position: Option<u64>,
    pub duration: Option<u64>,
    pub seekable: bool,
}

/// One progress line: the position and, where known, the duration.
#[derive(Clone, Copy, Debug, PartialEq, Eq, Structural)]
pub struct Progress {
    pub position: u64,
    pub duration: Option<u64>,
}

/// The result of a poll timeout.
#[derive(Clone, Copy, Debug, PartialEq, Eq, Structural)]
pub struct Tick {
    pub progress: Option<Progress>,
    pub action: Action,
}

/// Where a live session stands.
#[derive(Clone, Copy, Debug, PartialEq, Eq, Structural)]
pub enum Phase {
    /// Playback was requested and is not confirmed yet.
    Starting,
    /// The engine confirmed playback.
    Playing,
    /// The session is over and waits for teardown.
    Terminating,
}

} // verus!
