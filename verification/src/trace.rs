//! Whole sessions: what holds of every sequence of inputs.
//!
//! The two loops of a session deliver their inputs to the controller one at
//! a time, in whatever order they win the state. A session is therefore a
//! sequence of inputs, and the laws below hold of every such sequence.

use vstd::prelude::*;
use crate::model::{
    Action, Command, Event, Outcome, Phase, Probe, Progress, SeekPolicy, TrackCounts,
};
use crate::session::{
    after_command, after_event, after_seek_result, after_timeout, duration_wanted, initial,
    reaction_to_command, reaction_to_event, tick_of, SessionState,
};

verus! {

/// Anything that can reach the controller.
#[derive(Clone, Debug, PartialEq, Eq)]
pub enum Input {
    /// An engine event.
    Event(Event),
    /// A user command, with the track counts the engine reported for it.
    Command(Command, TrackCounts),
    /// A poll timeout, with what the engine answered.
    Timeout(Probe),
    /// The engine's answer to the one-shot seek.
    SeekResult(bool),
}

/// The state after one input.
pub open spec fn step(s: SessionState, input: Input) -> SessionState {
    match input {
        Input::Event(ev) => after_event(s, ev),
        Input::Command(cmd, counts) => after_command(s, cmd, counts),
        Input::Timeout(probe) => after_timeout(s, probe),
        Input::SeekResult(ok) => after_seek_result(s, ok),
    }
}

/// The request that one input makes the controller hand out.
pub open spec fn action_of(s: SessionState, input: Input) -> Action {
    match input {
        Input::Event(ev) => reaction_to_event(s, ev).action,
        Input::Command(cmd, counts) => reaction_to_command(s, cmd, counts).action,
        Input::Timeout(probe) => tick_of(s, probe).action,
        Input::SeekResult(_) => Action::Nothing,
    }
}

/// The state after a sequence of inputs.
pub open spec fn run(s: SessionState, inputs: Seq<Input>) -> SessionState
    decreases inputs.len(),
{
    if inputs.len() == 0 {
        s
    } else {
        run(step(s, inputs[0]), inputs.drop_first())
    }
}

/// How many seeks the controller hands out along a sequence of inputs.
pub open spec fn seeks_issued(s: SessionState, inputs: Seq<Input>) -> nat
    decreases inputs.len(),
{
    if inputs.len() == 0 {
        0
    } else {
        let here: nat = if action_of(s, inputs[0]) is Seek { 1 } else { 0 };
        here + seeks_issued(step(s, inputs[0]), inputs.drop_first())
    }
}

/// How many stream analyses the controller asks for along a sequence of
/// inputs.
pub open spec fn analyses_requested(s: SessionState, inputs: Seq<Input>) -> nat
    decreases inputs.len(),
{
    if inputs.len() == 0 {
        0
    } else {
        let here: nat = if action_of(s, inputs[0]) is AnalyzeStreams { 1 } else { 0 };
        here + analyses_requested(step(s, inputs[0]), inputs.drop_first())
    }
}

/// Whether an input is a poll timeout on which the engine told a duration.
pub open spec fn answers_duration(input: Input) -> bool {
    input matches Input::Timeout(probe) && probe.duration is Some
}

impl SessionState {
    /// Takes one input of any kind and returns the request it causes.
    pub fn feed(&mut self, input: Input) -> (action: Action)
        ensures
            *final(self) == step(*old(self), input),
            action == action_of(*old(self), input),
            old(self).wf() ==> final(self).wf(),
            old(self).terminate ==> final(self).terminate,
    {
        match input {
            Input::Event(ev) => self.handle_event(ev).action,
            Input::Command(cmd, counts) => self.apply_command(cmd, counts).action,
            Input::Timeout(probe) => self.on_timeout(probe).action,
            Input::SeekResult(ok) => {
                self.seek_finished(ok);
                Action::Nothing
            },
        }
    }
}

/// Running a sequence is running its first `k` inputs and then the rest.
pub proof fn run_splits(s: SessionState, inputs: Seq<Input>, k: int)
    requires
        0 <= k <= inputs.len(),
    ensures
        run(s, inputs) == run(run(s, inputs.take(k)), inputs.skip(k)),
    decreases k,
{
    if k == 0 {
        assert(inputs.skip(0) =~= inputs);
        assert(inputs.take(0).len() == 0);
    } else {
        let rest = inputs.drop_first();
        run_splits(step(s, inputs[0]), rest, k - 1);
        assert(inputs.take(k).drop_first() =~= rest.take(k - 1));
        assert(inputs.skip(k) =~= rest.skip(k - 1));
        assert(inputs.take(k)[0] == inputs[0]);
    }
}

/// A session that is over stays over, whatever comes next.
pub proof fn over_stays_over(s: SessionState, inputs: Seq<Input>)
    requires
        s.terminate,
    ensures
        run(s, inputs).terminate,
    decreases inputs.len(),
{
    if inputs.len() > 0 {
        over_stays_over(step(s, inputs[0]), inputs.drop_first());
    }
}

/// The termination flag is monotonic along every session: if it is set
/// after the first `i` inputs, it is set after the first `j`, for every
/// `j` from `i` on.
pub proof fn terminate_is_monotonic(s: SessionState, inputs: Seq<Input>, i: int, j: int)
    requires
        0 <= i <= j <= inputs.len(),
        run(s, inputs.take(i)).terminate,
    ensures
        run(s, inputs.take(j)).terminate,
{
    let upto = inputs.take(j);
    run_splits(s, upto, i);
    assert(upto.take(i) =~= inputs.take(i));
    over_stays_over(run(s, inputs.take(i)), upto.skip(i));
}

/// Every input keeps a well-formed session well-formed.
pub proof fn run_keeps_well_formed(s: SessionState, inputs: Seq<Input>)
    requires
        s.wf(),
    ensures
        run(s, inputs).wf(),
    decreases inputs.len(),
{
    if inputs.len() > 0 {
        run_keeps_well_formed(step(s, inputs[0]), inputs.drop_first());
    }
}

/// In every state a session can reach from its start, a seek that is done
/// was requested, and a session that failed is over.
pub proof fn seek_done_implies_requested(policy: Option<SeekPolicy>, inputs: Seq<Input>)
    ensures
        run(initial(policy), inputs).seek_done ==> run(initial(policy), inputs).seek_requested,
        run(initial(policy), inputs).failure is Some ==> run(initial(policy), inputs).terminate,
{
    run_keeps_well_formed(initial(policy), inputs);
}

/// Along every sequence of inputs, from every state, the controller hands
/// out at most one seek, and none once a seek was requested.
pub proof fn seek_issued_at_most_once(s: SessionState, inputs: Seq<Input>)
    ensures
        seeks_issued(s, inputs) <= 1,
        s.seek_requested ==> seeks_issued(s, inputs) == 0,
    decreases inputs.len(),
{
    if inputs.len() > 0 {
        seek_issued_at_most_once(step(s, inputs[0]), inputs.drop_first());
    }
}

/// Once a seek was requested it stays requested.
pub proof fn seek_request_stays(s: SessionState, inputs: Seq<Input>)
    requires
        s.seek_requested,
    ensures
        run(s, inputs).seek_requested,
    decreases inputs.len(),
{
    if inputs.len() > 0 {
        seek_request_stays(step(s, inputs[0]), inputs.drop_first());
    }
}

/// From a state in which no seek was requested, a seek is requested at
/// the end exactly when one seek was handed out on the way.
pub proof fn seek_requested_means_one_issued(s: SessionState, inputs: Seq<Input>)
    requires
        !s.seek_requested,
    ensures
        run(s, inputs).seek_requested <==> seeks_issued(s, inputs) == 1,
    decreases inputs.len(),
{
    if inputs.len() > 0 {
        let next = step(s, inputs[0]);
        let rest = inputs.drop_first();
        if next.seek_requested {
            assert(action_of(s, inputs[0]) is Seek);
            seek_issued_at_most_once(next, rest);
            seek_request_stays(next, rest);
        } else {
            assert(!(action_of(s, inputs[0]) is Seek));
            seek_requested_means_one_issued(next, rest);
        }
    }
}

/// A session whose seek is done at the end handed out exactly one seek
/// since its start.
pub proof fn finished_seek_was_issued_once(policy: Option<SeekPolicy>, inputs: Seq<Input>)
    requires
        run(initial(policy), inputs).seek_done,
    ensures
        seeks_issued(initial(policy), inputs) == 1,
{
    run_keeps_well_formed(initial(policy), inputs);
    seek_requested_means_one_issued(initial(policy), inputs);
}

/// Along every sequence of inputs, from every state, the controller asks
/// for at most one stream analysis, and for none once playback was
/// confirmed.
pub proof fn analysis_requested_at_most_once(s: SessionState, inputs: Seq<Input>)
    ensures
        analyses_requested(s, inputs) <= 1,
        s.playing ==> analyses_requested(s, inputs) == 0,
    decreases inputs.len(),
{
    if inputs.len() > 0 {
        analysis_requested_at_most_once(step(s, inputs[0]), inputs.drop_first());
    }
}

/// A selection of an audio track whose index is not below the number of
/// audio tracks is out of range and leaves a live session as it was.
pub proof fn audio_index_out_of_range_is_rejected(s: SessionState, i: u32, counts: TrackCounts)
    requires
        !s.terminate,
        i >= counts.n_audio,
    ensures
        reaction_to_command(s, Command::SelectAudioTrack(i), counts).outcome == Outcome::OutOfRange,
        after_command(s, Command::SelectAudioTrack(i), counts) == s,
{
}

/// The same for a text track.
pub proof fn text_index_out_of_range_is_rejected(s: SessionState, i: u32, counts: TrackCounts)
    requires
        !s.terminate,
        i >= counts.n_text,
    ensures
        reaction_to_command(s, Command::SelectTextTrack(i), counts).outcome == Outcome::OutOfRange,
        after_command(s, Command::SelectTextTrack(i), counts) == s,
{
}

/// Once a session is over, every command is ignored and changes nothing.
pub proof fn commands_after_the_end_are_ignored(s: SessionState, cmd: Command, counts: TrackCounts)
    requires
        s.terminate,
    ensures
        reaction_to_command(s, cmd, counts).outcome == Outcome::Ignored,
        after_command(s, cmd, counts) == s,
{
}

/// A session without a cached duration has none until the engine tells one
/// on a poll timeout.
pub proof fn duration_stays_unknown(s: SessionState, inputs: Seq<Input>)
    requires
        s.duration is None,
        forall|i: int| 0 <= i < inputs.len() ==> !answers_duration(#[trigger] inputs[i]),
    ensures
        run(s, inputs).duration is None,
    decreases inputs.len(),
{
    if inputs.len() > 0 {
        let rest = inputs.drop_first();
        assert(!answers_duration(inputs[0]));
        assert forall|i: int| 0 <= i < rest.len() implies !answers_duration(#[trigger] rest[i]) by {
            assert(rest[i] == inputs[i + 1]);
        }
        duration_stays_unknown(step(s, inputs[0]), rest);
    }
}

/// After a duration change, in whatever state it arrived, the duration
/// reads as unknown until a poll timeout brings a fresh one.
pub proof fn duration_change_invalidates_cache(s: SessionState, inputs: Seq<Input>)
    requires
        forall|i: int| 0 <= i < inputs.len() ==> !answers_duration(#[trigger] inputs[i]),
    ensures
        after_event(s, Event::DurationChanged).duration is None,
        run(after_event(s, Event::DurationChanged), inputs).duration is None,
{
    duration_stays_unknown(after_event(s, Event::DurationChanged), inputs);
}

/// Whether a session is live: it plays and is not over.
pub open spec fn live(s: SessionState) -> bool {
    s.playing && !s.terminate
}

/// The state of a live session after a run of poll timeouts on which the
/// engine told the position.
pub open spec fn after_timeouts(s: SessionState, probes: Seq<Probe>) -> SessionState
    decreases probes.len(),
{
    if probes.len() == 0 {
        s
    } else {
        after_timeouts(after_timeout(s, probes[0]), probes.drop_first())
    }
}

/// On a live session, a poll timeout with a known position reports that
/// position with the duration the session then knows: the cached one, or
/// else the one the engine told. The session stays live.
pub proof fn timeout_reports_known_duration(s: SessionState, probe: Probe)
    requires
        live(s),
        probe.position is Some,
    ensures
        tick_of(s, probe).progress == Some(
            Progress { position: probe.position->0, duration: after_timeout(s, probe).duration },
        ),
        after_timeout(s, probe).duration == if s.duration is Some {
            s.duration
        } else {
            probe.duration
        },
        live(after_timeout(s, probe)),
{
}

/// After a duration change on a live session, the duration is asked for
/// on every poll timeout and reported as unknown for as long as the
/// engine tells none: through any run of timeouts with a position and no
/// duration the session stays live, holds no duration and wants one, and
/// each of them reports no duration.
pub proof fn duration_is_requeried_until_told(s: SessionState, quiet: Seq<Probe>)
    requires
        live(s),
        s.duration is None,
        forall|i: int|
            0 <= i < quiet.len() ==> (#[trigger] quiet[i]).position is Some && quiet[i].duration
                is None,
    ensures
        live(after_timeouts(s, quiet)),
        after_timeouts(s, quiet).duration is None,
        duration_wanted(after_timeouts(s, quiet)),
        forall|i: int|
            0 <= i < quiet.len() ==> tick_of(
                after_timeouts(s, quiet.take(i)),
                #[trigger] quiet[i],
            ).progress == Some(Progress { position: quiet[i].position->0, duration: None }),
    decreases quiet.len(),
{
    if quiet.len() > 0 {
        let next = after_timeout(s, quiet[0]);
        let rest = quiet.drop_first();
        assert(quiet[0].position is Some && quiet[0].duration is None);
        assert(live(next) && next.duration is None);
        assert forall|i: int| 0 <= i < rest.len() implies (#[trigger] rest[i]).position is Some
            && rest[i].duration is None by {
            assert(rest[i] == quiet[i + 1]);
        }
        duration_is_requeried_until_told(next, rest);
        assert forall|i: int| 0 <= i < quiet.len() implies tick_of(
            after_timeouts(s, quiet.take(i)),
            #[trigger] quiet[i],
        ).progress == Some(Progress { position: quiet[i].position->0, duration: None }) by {
            if i == 0 {
                assert(quiet.take(0).len() == 0);
            } else {
                assert(quiet.take(i).drop_first() =~= rest.take(i - 1));
                assert(quiet.take(i)[0] == quiet[0]);
                assert(after_timeouts(s, quiet.take(i)) == after_timeouts(next, rest.take(i - 1)));
                assert(quiet[i] == rest[i - 1]);
            }
        }
    }
}

/// The whole course after a duration change on a live session: while the
/// engine tells no duration, the timeouts report none and the session
/// keeps asking; the first timeout on which the engine tells one reports
/// it and caches it; from then on the session asks no more, and every
/// later timeout reports the cached duration, whatever the engine would
/// tell.
pub proof fn duration_after_change(
    s: SessionState,
    quiet: Seq<Probe>,
    fresh: Probe,
    later: Seq<Probe>,
)
    requires
        live(s),
        forall|i: int|
            0 <= i < quiet.len() ==> (#[trigger] quiet[i]).position is Some && quiet[i].duration
                is None,
        fresh.position is Some,
        fresh.duration is Some,
        forall|i: int| 0 <= i < later.len() ==> (#[trigger] later[i]).position is Some,
    ensures
        ({
            let cleared = after_event(s, Event::DurationChanged);
            let waiting = after_timeouts(cleared, quiet);
            let told = after_timeout(waiting, fresh);
            &&& cleared.duration is None
            &&& duration_wanted(waiting)
            &&& tick_of(waiting, fresh).progress == Some(
                Progress { position: fresh.position->0, duration: fresh.duration },
            )
            &&& told.duration == fresh.duration
            &&& !duration_wanted(told)
            &&& after_timeouts(told, later).duration == fresh.duration
            &&& !duration_wanted(after_timeouts(told, later))
            &&& forall|i: int|
                0 <= i < later.len() ==> tick_of(
                    after_timeouts(told, later.take(i)),
                    #[trigger] later[i],
                ).progress == Some(
                    Progress { position: later[i].position->0, duration: fresh.duration },
                )
        }),
{
    let cleared = after_event(s, Event::DurationChanged);
    duration_is_requeried_until_told(cleared, quiet);
    let told = after_timeout(after_timeouts(cleared, quiet), fresh);
    cached_duration_is_served(told, later);
}

/// A live session that holds a duration serves it on every poll timeout
/// with a position, asks the engine for none, and keeps it.
pub proof fn cached_duration_is_served(s: SessionState, probes: Seq<Probe>)
    requires
        live(s),
        s.duration is Some,
        forall|i: int| 0 <= i < probes.len() ==> (#[trigger] probes[i]).position is Some,
    ensures
        live(after_timeouts(s, probes)),
        after_timeouts(s, probes).duration == s.duration,
        !duration_wanted(after_timeouts(s, probes)),
        forall|i: int|
            0 <= i < probes.len() ==> tick_of(
                after_timeouts(s, probes.take(i)),
                #[trigger] probes[i],
            ).progress == Some(Progress { position: probes[i].position->0, duration: s.duration }),
    decreases probes.len(),
{
    if probes.len() > 0 {
        let next = after_timeout(s, probes[0]);
        let rest = probes.drop_first();
        assert(probes[0].position is Some);
        assert forall|i: int| 0 <= i < rest.len() implies (#[trigger] rest[i]).position is Some by {
            assert(rest[i] == probes[i + 1]);
        }
        cached_duration_is_served(next, rest);
        assert forall|i: int| 0 <= i < probes.len() implies tick_of(
            after_timeouts(s, probes.take(i)),
            #[trigger] probes[i],
        ).progress == Some(
            Progress { position: probes[i].position->0, duration: s.duration },
        ) by {
            if i == 0 {
                assert(probes.take(0).len() == 0);
            } else {
                assert(probes.take(i).drop_first() =~= rest.take(i - 1));
                assert(probes.take(i)[0] == probes[0]);
                assert(after_timeouts(s, probes.take(i)) == after_timeouts(
                    next,
                    rest.take(i - 1),
                ));
                assert(probes[i] == rest[i - 1]);
            }
        }
    }
}

/// Whether an input is a poll timeout on which the engine told the
/// duration `d`.
pub open spec fn brings_duration(input: Input, d: Option<u64>) -> bool {
    input matches Input::Timeout(probe) && probe.duration == d
}

/// A cached duration is never older than the last duration change: if the
/// input at `k` is a duration change and the session holds a duration at
/// the end, then a poll timeout after `k` brought that very duration.
pub proof fn cached_duration_is_fresh(s: SessionState, inputs: Seq<Input>, k: int)
    requires
        0 <= k < inputs.len(),
        inputs[k] == Input::Event(Event::DurationChanged),
        run(s, inputs).duration is Some,
    ensures
        exists|j: int|
            k < j < inputs.len() && brings_duration(#[trigger] inputs[j], run(s, inputs).duration),
{
    let before = run(s, inputs.take(k));
    let rest = inputs.skip(k + 1);
    run_splits(s, inputs, k + 1);
    run_splits(s, inputs.take(k + 1), k);
    assert(inputs.take(k + 1).take(k) =~= inputs.take(k));
    assert(inputs.take(k + 1).skip(k) =~= seq![inputs[k]]);
    assert(seq![inputs[k]].drop_first() =~= Seq::<Input>::empty());
    assert(run(before, seq![inputs[k]]) == run(step(before, inputs[k]), Seq::<Input>::empty()));
    let cleared = run(s, inputs.take(k + 1));
    assert(cleared == after_event(before, Event::DurationChanged));
    duration_comes_from_a_timeout(cleared, rest);
    let j = choose|j: int|
        0 <= j < rest.len() && brings_duration(#[trigger] rest[j], run(cleared, rest).duration);
    assert(inputs[k + 1 + j] == rest[j]);
}

/// A duration that the session holds at the end was there at the start,
/// or a poll timeout brought it.
pub proof fn duration_comes_from_a_timeout(s: SessionState, inputs: Seq<Input>)
    requires
        run(s, inputs).duration is Some,
    ensures
        run(s, inputs).duration == s.duration || exists|j: int|
            0 <= j < inputs.len() && brings_duration(#[trigger] inputs[j], run(s, inputs).duration),
    decreases inputs.len(),
{
    if inputs.len() > 0 {
        let rest = inputs.drop_first();
        let next = step(s, inputs[0]);
        duration_comes_from_a_timeout(next, rest);
        let d = run(s, inputs).duration;
        if d == next.duration {
            if d != s.duration {
                assert(brings_duration(inputs[0], d));
            }
        } else {
            let j = choose|j: int| 0 <= j < rest.len() && brings_duration(#[trigger] rest[j], d);
            assert(inputs[j + 1] == rest[j]);
        }
    }
}

/// How far a session has come: starting, playing, over.
pub open spec fn progress_rank(s: SessionState) -> nat {
    match s.spec_phase() {
        Phase::Starting => 0,
        Phase::Playing => 1,
        Phase::Terminating => 2,
    }
}

/// A session never moves back: from starting it goes to playing or is
/// over, from playing it is over, and once over it stays so.
pub proof fn phases_only_advance(s: SessionState, inputs: Seq<Input>)
    ensures
        progress_rank(s) <= progress_rank(run(s, inputs)),
        s.playing ==> run(s, inputs).playing,
        s.failure is Some ==> run(s, inputs).failure == s.failure,
    decreases inputs.len(),
{
    if inputs.len() > 0 {
        phases_only_advance(step(s, inputs[0]), inputs.drop_first());
    }
}

/// No poll timeout and no engine event changes the track selection.
pub proof fn only_commands_select_tracks(s: SessionState, input: Input)
    requires
        !(input is Command),
    ensures
        step(s, input).track_selection == s.track_selection,
{
}

} // verus!
