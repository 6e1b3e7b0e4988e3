use playback_session::keyboard::DigitBinding;
use playback_session::lifecycle::{
    start, start_requests, EnabledKinds, EngineRequest, SessionConfig, SessionEnd, StartError,
    StartReport, Teardown, TeardownReport, TeardownStep,
};
use playback_session::model::{
    Command, EngineState, Event, SeekPolicy, TrackCounts, TrackKind, KEYBOARD_WAKE_MS,
    NANOS_PER_SECOND, POLL_TIMEOUT_MS,
};
use playback_session::session::SessionState;

fn multilingual() -> SessionConfig {
    SessionConfig {
        uri: String::from("https://example.org/multilingual.webm"),
        subtitle_uri: None,
        subtitle_font: None,
        enabled: EnabledKinds { video: true, audio: true, text: false },
        connection_speed: Some(56),
        digit_binding: DigitBinding::Audio,
        seek_policy: None,
    }
}

fn subtitled() -> SessionConfig {
    SessionConfig {
        uri: String::from("https://example.org/trailer.ogv"),
        subtitle_uri: Some(String::from("https://example.org/trailer_gr.srt")),
        subtitle_font: Some(String::from("Sans, 18")),
        enabled: EnabledKinds { video: true, audio: true, text: true },
        connection_speed: None,
        digit_binding: DigitBinding::Text,
        seek_policy: Some(SeekPolicy {
            threshold_ns: 10 * NANOS_PER_SECOND,
            target_ns: 30 * NANOS_PER_SECOND,
        }),
    }
}

fn count(steps: &[TeardownStep], step: TeardownStep) -> usize {
    let mut n = 0;
    for s in steps {
        if *s == step {
            n += 1;
        }
    }
    n
}

#[test]
fn timing_constants() {
    assert_eq!(POLL_TIMEOUT_MS, 100);
    assert_eq!(KEYBOARD_WAKE_MS, 50);
    assert_eq!(NANOS_PER_SECOND, 1_000_000_000);
}

#[test]
fn setup_with_connection_speed_and_without_subtitles() {
    assert_eq!(
        start_requests(&multilingual()),
        vec![
            EngineRequest::SetUri(String::from("https://example.org/multilingual.webm")),
            EngineRequest::SetConnectionSpeed(56),
            EngineRequest::SetTrackFlag { kind: TrackKind::Audio, enabled: true },
            EngineRequest::SetTrackFlag { kind: TrackKind::Video, enabled: true },
            EngineRequest::SetTrackFlag { kind: TrackKind::Text, enabled: false },
            EngineRequest::SetState(EngineState::Playing),
        ]
    );
}

#[test]
fn setup_with_subtitles() {
    assert_eq!(
        start_requests(&subtitled()),
        vec![
            EngineRequest::SetUri(String::from("https://example.org/trailer.ogv")),
            EngineRequest::SetSubtitleUri(String::from("https://example.org/trailer_gr.srt")),
            EngineRequest::SetSubtitleFont(String::from("Sans, 18")),
            EngineRequest::SetTrackFlag { kind: TrackKind::Audio, enabled: true },
            EngineRequest::SetTrackFlag { kind: TrackKind::Video, enabled: true },
            EngineRequest::SetTrackFlag { kind: TrackKind::Text, enabled: true },
            EngineRequest::SetState(EngineState::Playing),
        ]
    );
}

#[test]
fn setup_with_everything() {
    let mut config = subtitled();
    config.connection_speed = Some(1000);
    config.enabled = EnabledKinds { video: false, audio: false, text: false };
    let requests = start_requests(&config);
    assert_eq!(requests.len(), 8);
    assert_eq!(requests[3], EngineRequest::SetConnectionSpeed(1000));
    assert_eq!(requests[4], EngineRequest::SetTrackFlag { kind: TrackKind::Audio, enabled: false });
    assert_eq!(requests[7], EngineRequest::SetState(EngineState::Playing));
}

#[test]
fn start_fails_when_the_engine_cannot_be_built() {
    let r = start(&multilingual(), StartReport { engine_built: false, playing_accepted: false });
    assert_eq!(r, Err(StartError::EngineInit));
    let r = start(&multilingual(), StartReport { engine_built: false, playing_accepted: true });
    assert_eq!(r, Err(StartError::EngineInit));
}

#[test]
fn start_fails_when_playing_is_refused() {
    let r = start(&multilingual(), StartReport { engine_built: true, playing_accepted: false });
    assert_eq!(r, Err(StartError::StateChangeRejected));
}

#[test]
fn start_gives_a_fresh_session_with_the_configured_seek() {
    let r = start(&subtitled(), StartReport { engine_built: true, playing_accepted: true });
    let expected = SessionState::new(Some(SeekPolicy {
        threshold_ns: 10_000_000_000,
        target_ns: 30_000_000_000,
    }));
    assert_eq!(r, Ok(expected));
    let r = start(&multilingual(), StartReport { engine_built: true, playing_accepted: true });
    assert_eq!(r, Ok(SessionState::new(None)));
}

#[test]
fn live_session_is_not_torn_down() {
    let s = SessionState::new(None);
    assert_eq!(s.clone().begin_shutdown(), Err(s));
}

#[test]
fn error_still_restores_terminal_and_asks_for_null_once() {
    let mut s = SessionState::new(None);
    s.handle_event(Event::Error(String::from("decode failure")));
    let teardown = s.begin_shutdown().unwrap();
    assert_eq!(
        teardown.steps,
        vec![TeardownStep::JoinKeyboard, TeardownStep::RestoreTerminal, TeardownStep::SetEngineNull]
    );
    assert_eq!(count(&teardown.steps, TeardownStep::RestoreTerminal), 1);
    assert_eq!(count(&teardown.steps, TeardownStep::SetEngineNull), 1);
    assert_eq!(teardown.failure, Some(String::from("decode failure")));
    let end = teardown.finish(TeardownReport { terminal_restored: true, null_accepted: true });
    assert_eq!(
        end,
        SessionEnd { failure: Some(String::from("decode failure")), teardown_clean: true }
    );
    assert!(!end.is_success());
}

#[test]
fn interrupt_while_playing_ends_with_one_null_request() {
    let mut s = SessionState::new(None);
    s.handle_event(Event::StateChanged {
        old: EngineState::Paused,
        new: EngineState::Playing,
        own: true,
    });
    assert!(s.playing);
    s.apply_command(Command::Quit, TrackCounts { n_video: 1, n_audio: 1, n_text: 0 });
    assert!(s.terminate);
    let teardown = s.begin_shutdown().unwrap();
    assert_eq!(count(&teardown.steps, TeardownStep::SetEngineNull), 1);
    assert_eq!(count(&teardown.steps, TeardownStep::RestoreTerminal), 1);
    assert_eq!(count(&teardown.steps, TeardownStep::JoinKeyboard), 1);
    assert_eq!(teardown.failure, None);
    let end = teardown.finish(TeardownReport { terminal_restored: true, null_accepted: true });
    assert_eq!(end, SessionEnd { failure: None, teardown_clean: true });
    assert!(end.is_success());
}

#[test]
fn teardown_failure_is_recorded_and_nothing_more() {
    let teardown = Teardown {
        steps: vec![
            TeardownStep::JoinKeyboard,
            TeardownStep::RestoreTerminal,
            TeardownStep::SetEngineNull,
        ],
        failure: None,
    };
    let end = teardown
        .clone()
        .finish(TeardownReport { terminal_restored: true, null_accepted: false });
    assert_eq!(end, SessionEnd { failure: None, teardown_clean: false });
    assert!(!end.is_success());
    let end = teardown.finish(TeardownReport { terminal_restored: false, null_accepted: true });
    assert_eq!(end, SessionEnd { failure: None, teardown_clean: false });
}
