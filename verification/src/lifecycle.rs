//! The two ends of a session: what to ask of the engine to start one, and
//! how a session that is over is torn down.

use vstd::prelude::*;
use crate::keyboard::DigitBinding;
use crate::model::{EngineState, SeekPolicy, TrackKind};
use crate::session::{initial, SessionState};

verus! {

/// The kinds of track a session plays.
#[derive(Clone, Copy, Debug, PartialEq, Eq, Structural)]
pub struct EnabledKinds {
    pub video: bool,
    pub audio: bool,
    pub text: bool,
}

/// What a session is started with.
#[derive(Clone, Debug, PartialEq, Eq)]
pub struct SessionConfig {
    /// The media to play.
    pub uri: String,
    /// A separate subtitle source.
    pub subtitle_uri: Option<String>,
    /// The font description for subtitles.
    pub subtitle_font: Option<String>,
    /// The kinds of track to play.
    pub enabled: EnabledKinds,
    /// A hint of the connection speed, in kbit/s.
    pub connection_speed: Option<u64>,
    /// The kind of track the digit keys select.
    pub digit_binding: DigitBinding,
    /// The one-shot seek, if the session is to make one.
    pub seek_policy: Option<SeekPolicy>,
}

/// One request to the engine while a session is set up.
#[derive(Clone, Debug, PartialEq, Eq)]
pub enum EngineRequest {
    SetUri(String),
    SetSubtitleUri(String),
    SetSubtitleFont(String),
    SetConnectionSpeed(u64),
    /// Switch playing of `kind` on or off.
    SetTrackFlag { kind: TrackKind, enabled: bool },
    SetState(EngineState),
}

/// What the engine answered to the set-up.
#[derive(Clone, Copy, Debug, PartialEq, Eq, Structural)]
pub struct StartReport {
    /// The engine could be constructed.
    pub engine_built: bool,
    /// The engine accepted the request to play.
    pub playing_accepted: bool,
}

/// Why a session did not start.
#[derive(Clone, Copy, Debug, PartialEq, Eq, Structural)]
pub enum StartError {
    /// The engine could not be constructed.
    EngineInit,
    /// The engine refused the request to play.
    StateChangeRejected,
}

/// One step of a teardown.
#[derive(Clone, Copy, Debug, PartialEq, Eq, Structural)]
pub enum TeardownStep {
    /// Wait for the keyboard loop to leave.
    JoinKeyboard,
    /// Take the terminal out of raw mode, whether or not the loop failed.
    RestoreTerminal,
    /// Ask the engine for its `Null` state.
    SetEngineNull,
}

/// A session that is over and is being torn down.
#[derive(Clone, Debug, PartialEq, Eq)]
pub struct Teardown {
    /// The steps to carry out, in order.
    pub steps: Vec<TeardownStep>,
    /// The engine error that ended the session, if one did.
    pub failure: Option<String>,
}

/// What the owner observed while carrying out the teardown.
#[derive(Clone, Copy, Debug, PartialEq, Eq, Structural)]
pub struct TeardownReport {
    pub terminal_restored: bool,
    pub null_accepted: bool,
}

/// How a session ended.
#[derive(Clone, Debug, PartialEq, Eq)]
pub struct SessionEnd {
    /// The engine error that ended the session: with one it ended failed,
    /// without one it ended stopped.
    pub failure: Option<String>,
    /// Every teardown step went through.
    pub teardown_clean: bool,
}

/// A sequence of the value in `o`, or the empty one.
pub open spec fn optional<T>(o: Option<T>) -> Seq<T> {
    match o {
        Some(x) => seq![x],
        None => Seq::empty(),
    }
}

/// The requests that set a session up, in order: the media, the subtitle
/// source and font and the connection speed where the configuration has
/// them, one flag for each kind of track, and last the request to play.
pub open spec fn setup_requests(config: SessionConfig) -> Seq<EngineRequest> {
    seq![EngineRequest::SetUri(config.uri)]
        + optional(config.subtitle_uri).map_values(|s: String| EngineRequest::SetSubtitleUri(s))
        + optional(config.subtitle_font).map_values(|s: String| EngineRequest::SetSubtitleFont(s))
        + optional(config.connection_speed).map_values(|n: u64| EngineRequest::SetConnectionSpeed(n))
        + seq![
            EngineRequest::SetTrackFlag { kind: TrackKind::Audio, enabled: config.enabled.audio },
            EngineRequest::SetTrackFlag { kind: TrackKind::Video, enabled: config.enabled.video },
            EngineRequest::SetTrackFlag { kind: TrackKind::Text, enabled: config.enabled.text },
            EngineRequest::SetState(EngineState::Playing),
        ]
}

/// What `start` returns for a report.
pub open spec fn start_result(config: SessionConfig, report: StartReport) -> Result<
    SessionState,
    StartError,
> {
    if !report.engine_built {
        Err(StartError::EngineInit)
    } else if !report.playing_accepted {
        Err(StartError::StateChangeRejected)
    } else {
        Ok(initial(config.seek_policy))
    }
}

/// The steps of every teardown.
pub open spec fn teardown_steps() -> Seq<TeardownStep> {
    seq![TeardownStep::JoinKeyboard, TeardownStep::RestoreTerminal, TeardownStep::SetEngineNull]
}

/// How many times `step` stands in `steps`.
pub open spec fn occurrences(steps: Seq<TeardownStep>, step: TeardownStep) -> nat {
    steps.filter(|s: TeardownStep| s == step).len()
}

/// The requests that set a session up, in order.
pub fn start_requests(config: &SessionConfig) -> (r: Vec<EngineRequest>)
    ensures
        r@ == setup_requests(*config),
{
    let mut out: Vec<EngineRequest> = Vec::new();
    out.push(EngineRequest::SetUri(config.uri.clone()));
    match &config.subtitle_uri {
        Some(s) => {
            out.push(EngineRequest::SetSubtitleUri(s.clone()));
        },
        None => {},
    }
    match &config.subtitle_font {
        Some(s) => {
            out.push(EngineRequest::SetSubtitleFont(s.clone()));
        },
        None => {},
    }
    match config.connection_speed {
        Some(n) => {
            out.push(EngineRequest::SetConnectionSpeed(n));
        },
        None => {},
    }
    out.push(EngineRequest::SetTrackFlag { kind: TrackKind::Audio, enabled: config.enabled.audio });
    out.push(EngineRequest::SetTrackFlag { kind: TrackKind::Video, enabled: config.enabled.video });
    out.push(EngineRequest::SetTrackFlag { kind: TrackKind::Text, enabled: config.enabled.text });
    out.push(EngineRequest::SetState(EngineState::Playing));
    assert(out@ =~= setup_requests(*config));
    out
}

/// Concludes the set-up: a session in its initial state if the engine was
/// constructed and accepted the request to play, and else the error that
/// tells which of the two failed.
pub fn start(config: &SessionConfig, report: StartReport) -> (r: Result<SessionState, StartError>)
    ensures
        r == start_result(*config, report),
        r matches Ok(s) ==> s.wf(),
{
    if !report.engine_built {
        Err(StartError::EngineInit)
    } else if !report.playing_accepted {
        Err(StartError::StateChangeRejected)
    } else {
        Ok(SessionState::new(config.seek_policy))
    }
}

impl SessionState {
    /// Hands a session that is over to its teardown. A session that is not
    /// over is handed back as it is. The session is consumed, so a session
    /// is torn down at most once.
    pub fn begin_shutdown(self) -> (r: Result<Teardown, SessionState>)
        ensures
            self.terminate ==> (r matches Ok(t) && t.steps@ == teardown_steps() && t.failure
                == self.failure),
            !self.terminate ==> r == Err::<Teardown, SessionState>(self),
    {
        if !self.terminate {
            return Err(self);
        }
        let mut steps: Vec<TeardownStep> = Vec::new();
        steps.push(TeardownStep::JoinKeyboard);
        steps.push(TeardownStep::RestoreTerminal);
        steps.push(TeardownStep::SetEngineNull);
        assert(steps@ =~= teardown_steps());
        Ok(Teardown { steps, failure: self.failure })
    }
}

impl Teardown {
    /// Concludes the teardown. A step that failed is recorded and nothing
    /// more: the session has ended either way.
    pub fn finish(self, report: TeardownReport) -> (end: SessionEnd)
        ensures
            end.failure == self.failure,
            end.teardown_clean == (report.terminal_restored && report.null_accepted),
    {
        SessionEnd {
            failure: self.failure,
            teardown_clean: report.terminal_restored && report.null_accepted,
        }
    }
}

impl SessionEnd {
    /// Whether the session ended stopped, with a clean teardown.
    pub fn is_success(&self) -> (r: bool)
        ensures
            r == (self.failure is None && self.teardown_clean),
    {
        self.failure.is_none() && self.teardown_clean
    }
}

/// Every teardown restores the terminal exactly once and asks the engine
/// for its `Null` state exactly once.
pub proof fn teardown_acts_once()
    ensures
        occurrences(teardown_steps(), TeardownStep::RestoreTerminal) == 1,
        occurrences(teardown_steps(), TeardownStep::SetEngineNull) == 1,
        occurrences(teardown_steps(), TeardownStep::JoinKeyboard) == 1,
{
    reveal_with_fuel(Seq::filter, 4);
    assert(teardown_steps().drop_last().drop_last().drop_last() =~= Seq::empty());
}

} // verus!
