//! The session state and its transitions.
//!
//! Every transition is a total function of the state and the input. The
//! spec functions `after_*` and `reaction_to_*` say what each one yields;
//! the methods compute exactly that.

use vstd::prelude::*;
use crate::model::{
    Action, Command, EngineState, Event, Outcome, Phase, Probe, Progress, Reaction, SeekPolicy,
    Tick, TrackCounts, TrackKind, TrackSelection,
};

verus! {

/// The state of one session.
#[derive(Clone, Debug, PartialEq, Eq)]
pub struct SessionState {
    /// The engine has confirmed playback.
    pub playing: bool,
    /// The session is over; set once, never cleared.
    pub terminate: bool,
    /// The one-shot seek was handed to the engine.
    pub seek_requested: bool,
    /// The engine carried the one-shot seek out.
    pub seek_done: bool,
    /// The cached duration in nanoseconds.
    pub duration: Option<u64>,
    /// The selection last applied by a validated command.
    pub track_selection: TrackSelection,
    /// The message of the first engine error, once there was one.
    pub failure: Option<String>,
    /// The one-shot seek of this session, if it has one.
    pub seek_policy: Option<SeekPolicy>,
}

/// The state of a session whose engine has just accepted the request to play.
pub open spec fn initial(seek_policy: Option<SeekPolicy>) -> SessionState {
    SessionState {
        playing: false,
        terminate: false,
        seek_requested: false,
        seek_done: false,
        duration: None,
        track_selection: TrackSelection { video_index: None, audio_index: None, text_index: None },
        failure: None,
        seek_policy,
    }
}

/// Whether `ev` confirms playback of a session in state `s`: the session's
/// own element reached `Playing` while the session was still starting.
pub open spec fn confirms_playback(s: SessionState, ev: Event) -> bool {
    &&& ev matches Event::StateChanged { old: _, new, own }
    &&& own
    &&& new == EngineState::Playing
    &&& !s.playing
    &&& !s.terminate
}

/// The state after `ev`.
pub open spec fn after_event(s: SessionState, ev: Event) -> SessionState {
    match ev {
        Event::Error(msg) => SessionState {
            terminate: true,
            failure: if s.failure is None { Some(msg) } else { s.failure },
            ..s
        },
        Event::Eos => SessionState { terminate: true, ..s },
        Event::DurationChanged => SessionState { duration: None, ..s },
        Event::StateChanged { .. } => if confirms_playback(s, ev) {
            SessionState { playing: true, ..s }
        } else {
            s
        },
    }
}

/// What the controller answers to `ev` in state `s`.
pub open spec fn reaction_to_event(s: SessionState, ev: Event) -> Reaction {
    match ev {
        Event::StateChanged { .. } => if confirms_playback(s, ev) {
            Reaction { outcome: Outcome::Applied, action: Action::AnalyzeStreams }
        } else {
            Reaction { outcome: Outcome::Ignored, action: Action::Nothing }
        },
        _ => Reaction { outcome: Outcome::Applied, action: Action::Nothing },
    }
}

/// What the controller answers to `cmd` in state `s`, the engine reporting
/// `counts` tracks.
pub open spec fn reaction_to_command(s: SessionState, cmd: Command, counts: TrackCounts) -> Reaction {
    if s.terminate {
        Reaction { outcome: Outcome::Ignored, action: Action::Nothing }
    } else {
        match cmd {
            Command::Quit => Reaction { outcome: Outcome::Applied, action: Action::Nothing },
            Command::SelectAudioTrack(i) => if i < counts.n_audio {
                Reaction {
                    outcome: Outcome::Applied,
                    action: Action::SelectTrack { kind: TrackKind::Audio, index: i },
                }
            } else {
                Reaction { outcome: Outcome::OutOfRange, action: Action::Nothing }
            },
            Command::SelectTextTrack(i) => if i < counts.n_text {
                Reaction {
                    outcome: Outcome::Applied,
                    action: Action::SelectTrack { kind: TrackKind::Text, index: i },
                }
            } else {
                Reaction { outcome: Outcome::OutOfRange, action: Action::Nothing }
            },
        }
    }
}

/// The state after `cmd`, the engine reporting `counts` tracks.
pub open spec fn after_command(s: SessionState, cmd: Command, counts: TrackCounts) -> SessionState {
    if reaction_to_command(s, cmd, counts).outcome != Outcome::Applied {
        s
    } else {
        match cmd {
            Command::Quit => SessionState { terminate: true, ..s },
            Command::SelectAudioTrack(i) => SessionState {
                track_selection: TrackSelection { audio_index: Some(i), ..s.track_selection },
                ..s
            },
            Command::SelectTextTrack(i) => SessionState {
                track_selection: TrackSelection { text_index: Some(i), ..s.track_selection },
                ..s
            },
        }
    }
}

/// Whether a poll timeout is acted on at all: the session plays, is not
/// over, and the engine told its position.
pub open spec fn timeout_counts(s: SessionState, probe: Probe) -> bool {
    s.playing && !s.terminate && probe.position is Some
}

/// Whether a poll timeout with `probe` makes the session issue its seek.
pub open spec fn seek_due(s: SessionState, probe: Probe) -> bool {
    &&& timeout_counts(s, probe)
    &&& probe.seekable
    &&& !s.seek_requested
    &&& s.seek_policy matches Some(policy)
    &&& probe.position matches Some(position)
    &&& position > policy.threshold_ns
}

/// The duration known after a poll timeout that is acted on: the cached
/// one, or else what the engine answered.
pub open spec fn duration_after(s: SessionState, probe: Probe) -> Option<u64> {
    if s.duration is Some { s.duration } else { probe.duration }
}

/// The state after a poll timeout.
pub open spec fn after_timeout(s: SessionState, probe: Probe) -> SessionState {
    if timeout_counts(s, probe) {
        SessionState {
            duration: duration_after(s, probe),
            seek_requested: s.seek_requested || seek_due(s, probe),
            ..s
        }
    } else {
        s
    }
}

/// What a poll timeout yields.
pub open spec fn tick_of(s: SessionState, probe: Probe) -> Tick {
    if timeout_counts(s, probe) {
        Tick {
            progress: Some(
                Progress { position: probe.position->0, duration: duration_after(s, probe) },
            ),
            action: if seek_due(s, probe) {
                Action::Seek { target_ns: s.seek_policy->0.target_ns }
            } else {
                Action::Nothing
            },
        }
    } else {
        Tick { progress: None, action: Action::Nothing }
    }
}

/// Whether the next poll timeout has to ask the engine for the duration:
/// the session is live and holds none.
pub open spec fn duration_wanted(s: SessionState) -> bool {
    s.playing && !s.terminate && s.duration is None
}

/// The state after the engine answered the seek: a seek that was requested
/// and succeeded is done.
pub open spec fn after_seek_result(s: SessionState, ok: bool) -> SessionState {
    SessionState { seek_done: s.seek_done || (s.seek_requested && ok), ..s }
}

impl SessionState {
    /// What holds of every session: a seek that is done was requested, and
    /// a session that failed is over.
    pub open spec fn wf(&self) -> bool {
        &&& self.seek_done ==> self.seek_requested
        &&& self.failure is Some ==> self.terminate
    }

    /// Where the session stands.
    pub open spec fn spec_phase(&self) -> Phase {
        if self.terminate {
            Phase::Terminating
        } else if self.playing {
            Phase::Playing
        } else {
            Phase::Starting
        }
    }

    /// The state of a session whose engine has just accepted the request to
    /// play.
    pub fn new(seek_policy: Option<SeekPolicy>) -> (s: SessionState)
        ensures
            s == initial(seek_policy),
            s.wf(),
    {
        SessionState {
            playing: false,
            terminate: false,
            seek_requested: false,
            seek_done: false,
            duration: None,
            track_selection: TrackSelection {
                video_index: None,
                audio_index: None,
                text_index: None,
            },
            failure: None,
            seek_policy,
        }
    }

    /// Whether the session is over. Both loops poll this and leave when it
    /// holds.
    pub fn should_terminate(&self) -> (r: bool)
        ensures
            r == self.terminate,
    {
        self.terminate
    }

    /// Whether an engine error ended the session.
    pub fn failed(&self) -> (r: bool)
        ensures
            r == (self.failure is Some),
    {
        self.failure.is_some()
    }

    /// Where the session stands.
    #[verifier::when_used_as_spec(spec_phase)]
    pub fn phase(&self) -> (r: Phase)
        ensures
            r == self.spec_phase(),
    {
        if self.terminate {
            Phase::Terminating
        } else if self.playing {
            Phase::Playing
        } else {
            Phase::Starting
        }
    }

    /// Takes one engine event.
    ///
    /// An error or the end of the stream ends the session, in any state; the
    /// first error message is kept. A duration change drops the cached
    /// duration, in any state. A state change counts only when it confirms
    /// playback of a starting session: it is answered with a request to
    /// analyse the streams. Every other state change is ignored.
    pub fn handle_event(&mut self, ev: Event) -> (r: Reaction)
        ensures
            *final(self) == after_event(*old(self), ev),
            r == reaction_to_event(*old(self), ev),
            old(self).wf() ==> final(self).wf(),
            old(self).terminate ==> final(self).terminate,
            ev is DurationChanged ==> final(self).duration is None,
            final(self).track_selection == old(self).track_selection,
    {
        match ev {
            Event::Error(msg) => {
                self.terminate = true;
                if self.failure.is_none() {
                    self.failure = Some(msg);
                }
                Reaction { outcome: Outcome::Applied, action: Action::Nothing }
            },
            Event::Eos => {
                self.terminate = true;
                Reaction { outcome: Outcome::Applied, action: Action::Nothing }
            },
            Event::DurationChanged => {
                self.duration = None;
                Reaction { outcome: Outcome::Applied, action: Action::Nothing }
            },
            Event::StateChanged { old: _, new, own } => {
                let to_playing = match new {
                    EngineState::Playing => true,
                    _ => false,
                };
                if own && to_playing && !self.playing && !self.terminate {
                    self.playing = true;
                    Reaction { outcome: Outcome::Applied, action: Action::AnalyzeStreams }
                } else {
                    Reaction { outcome: Outcome::Ignored, action: Action::Nothing }
                }
            },
        }
    }

    /// Takes one user command, validated against the track counts the engine
    /// reports now.
    ///
    /// A session that is over ignores every command. `Quit` ends the
    /// session. A selection whose index is below the count of its kind is
    /// recorded and answered with the request to select that track; any
    /// other index is out of range and changes nothing.
    pub fn apply_command(&mut self, cmd: Command, counts: TrackCounts) -> (r: Reaction)
        ensures
            *final(self) == after_command(*old(self), cmd, counts),
            r == reaction_to_command(*old(self), cmd, counts),
            old(self).wf() ==> final(self).wf(),
            old(self).terminate ==> final(self).terminate,
            old(self).terminate ==> r.outcome == Outcome::Ignored && *final(self) == *old(self),
            r.outcome != Outcome::Applied ==> *final(self) == *old(self),
            final(self).track_selection.audio_index != old(self).track_selection.audio_index
                ==> (final(self).track_selection.audio_index matches Some(i) && i < counts.n_audio),
            final(self).track_selection.text_index != old(self).track_selection.text_index
                ==> (final(self).track_selection.text_index matches Some(i) && i < counts.n_text),
    {
        if self.terminate {
            return Reaction { outcome: Outcome::Ignored, action: Action::Nothing };
        }
        match cmd {
            Command::Quit => {
                self.terminate = true;
                Reaction { outcome: Outcome::Applied, action: Action::Nothing }
            },
            Command::SelectAudioTrack(i) => {
                if i < counts.n_audio {
                    self.track_selection.audio_index = Some(i);
                    Reaction {
                        outcome: Outcome::Applied,
                        action: Action::SelectTrack { kind: TrackKind::Audio, index: i },
                    }
                } else {
                    Reaction { outcome: Outcome::OutOfRange, action: Action::Nothing }
                }
            },
            Command::SelectTextTrack(i) => {
                if i < counts.n_text {
                    self.track_selection.text_index = Some(i);
                    Reaction {
                        outcome: Outcome::Applied,
                        action: Action::SelectTrack { kind: TrackKind::Text, index: i },
                    }
                } else {
                    Reaction { outcome: Outcome::OutOfRange, action: Action::Nothing }
                }
            },
        }
    }

    /// Whether a poll timeout should ask the engine for the position: only
    /// a playing session reports progress.
    pub fn wants_progress(&self) -> (r: bool)
        ensures
            r == (self.playing && !self.terminate),
    {
        self.playing && !self.terminate
    }

    /// Whether the next poll timeout should ask the engine for the duration:
    /// only a playing session with no cached duration needs it.
    pub fn needs_duration(&self) -> (r: bool)
        ensures
            r == duration_wanted(*self),
    {
        self.playing && !self.terminate && self.duration.is_none()
    }

    /// Takes one poll timeout with what the engine answered.
    ///
    /// Nothing happens unless the session plays, is not over, and the
    /// position is known. Then an empty duration cache takes the probe's
    /// duration, the position and duration are handed back as progress, and
    /// the one-shot seek is issued if the stream is seekable, the position
    /// has passed the policy's threshold and no seek was issued before.
    pub fn on_timeout(&mut self, probe: Probe) -> (r: Tick)
        ensures
            *final(self) == after_timeout(*old(self), probe),
            r == tick_of(*old(self), probe),
            old(self).wf() ==> final(self).wf(),
            final(self).terminate == old(self).terminate,
            final(self).track_selection == old(self).track_selection,
            r.action is Seek ==> !old(self).seek_requested && final(self).seek_requested,
    {
        if !self.playing || self.terminate {
            return Tick { progress: None, action: Action::Nothing };
        }
        let position: u64 = match probe.position {
            Some(p) => p,
            None => {
                return Tick { progress: None, action: Action::Nothing };
            },
        };
        if self.duration.is_none() {
            self.duration = probe.duration;
        }
        let progress = Some(Progress { position, duration: self.duration });
        let mut action = Action::Nothing;
        if probe.seekable && !self.seek_requested {
            match self.seek_policy {
                Some(policy) => {
                    if position > policy.threshold_ns {
                        self.seek_requested = true;
                        action = Action::Seek { target_ns: policy.target_ns };
                    }
                },
                None => {},
            }
        }
        Tick { progress, action }
    }

    /// Records what the engine answered to the one-shot seek. A seek that
    /// failed is not tried again.
    pub fn seek_finished(&mut self, ok: bool)
        ensures
            *final(self) == after_seek_result(*old(self), ok),
            old(self).wf() ==> final(self).wf(),
            final(self).seek_done ==> old(self).seek_done || old(self).seek_requested,
    {
        if self.seek_requested && ok {
            self.seek_done = true;
        }
    }
}

} // verus!
