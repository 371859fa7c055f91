//! What the channel-hop loop guarantees over whole runs.

use crate::hop::{
    initial, streaming, Action, AfterStream, Event, ExitReason, HopState,
    MAX_CONSECUTIVE_SWEEP_FAILURES, REPORT_INTERVAL_NANOS, SWEEP_BACKOFF_MILLIS,
};
use vstd::prelude::*;

verus! {

/// The state after `events` came in one after the other, beginning in `start`.
pub open spec fn run(start: HopState, events: Seq<Event>) -> HopState
    decreases events.len(),
{
    if events.len() == 0 {
        start
    } else {
        run(start, events.drop_last()).next(events.last())
    }
}

/// Whether each of `events` can come of the action that is pending when it comes.
pub open spec fn accepted(start: HopState, events: Seq<Event>) -> bool
    decreases events.len(),
{
    events.len() == 0 || (accepted(start, events.drop_last()) && run(
        start,
        events.drop_last(),
    ).accepts(events.last()))
}

/// An attempt to stream a channel failed, at whichever stage.
pub open spec fn is_failure(event: Event) -> bool {
    event == Event::Tuned(false) || event == Event::Opened(false) || event == Event::Started(false)
}

/// How many of `events` are such that `counts` holds.
pub open spec fn count(events: Seq<Event>, counts: spec_fn(Event) -> bool) -> nat
    decreases events.len(),
{
    if events.len() == 0 {
        0
    } else if counts(events.last()) {
        count(events.drop_last(), counts) + 1
    } else {
        count(events.drop_last(), counts)
    }
}

/// How many of `events` are such that `counts` holds, from the last start of a stream
/// on, or from the beginning if there is none.
pub open spec fn count_since_stream(events: Seq<Event>, counts: spec_fn(Event) -> bool) -> nat
    decreases events.len(),
{
    if events.len() == 0 || events.last() == Event::Started(true) {
        0
    } else if counts(events.last()) {
        count_since_stream(events.drop_last(), counts) + 1
    } else {
        count_since_stream(events.drop_last(), counts)
    }
}

/// What came before the last event came in the run, and so did the last event.
proof fn lemma_prefix_has_no_new_event(events: Seq<Event>)
    requires
        events.len() > 0,
    ensures
        forall|e: Event| events.drop_last().contains(e) ==> events.contains(e),
        events.contains(events.last()),
{
    let before = events.drop_last();
    assert forall|e: Event| before.contains(e) implies events.contains(e) by {
        let i = choose|i: int| 0 <= i < before.len() && before[i] == e;
        assert(events[i] == e);
    }
}

/// Every state that a run reaches is well formed, and is about the same channels.
pub proof fn law_runs_stay_well_formed(start: HopState, events: Seq<Event>)
    requires
        start.wf(),
        accepted(start, events),
    ensures
        run(start, events).wf(),
        run(start, events).channels == start.channels,
    decreases events.len(),
{
    if events.len() > 0 {
        law_runs_stay_well_formed(start, events.drop_last());
        lemma_step(run(start, events.drop_last()), events.last());
    }
}

proof fn lemma_step(s: HopState, event: Event)
    requires
        s.wf(),
        s.accepts(event),
    ensures
        s.next(event).wf(),
        s.next(event).channels == s.channels,
{
    assert((s.channel + 1) % s.channels < s.channels) by (nonlinear_arith)
        requires
            s.channels > 0,
    ;
}

/// The loop starts well formed.
pub proof fn law_initial_is_well_formed(channels: nat, now: i128)
    requires
        0 < channels <= usize::MAX,
    ensures
        initial(channels, now as int).wf(),
{
}

/// Every state but the exits has an event that can follow, even if no stream starts
/// and nobody raises the stop flag: the loop is never stuck short of an exit. (The
/// count of switches must not be full when a dwell ends.)
pub proof fn law_never_stuck(s: HopState)
    requires
        s.wf(),
        s.action == Action::StopStream(AfterStream::Hop) ==> s.switches < i32::MAX,
        !(s.action is Exit),
    ensures
        exists|event: Event|
            s.accepts(event) && event != Event::Started(true) && event != Event::Stop(true),
{
    let event = match s.action {
        Action::PollStop | Action::PollStopStreaming => Event::Stop(false),
        Action::BackOff => Event::Slept,
        Action::Tune => Event::Tuned(false),
        Action::OpenStream => Event::Opened(false),
        Action::StartStream => Event::Started(false),
        Action::ReadClock => Event::Timed { now: 0, deadline: Some(0) },
        Action::Receive => Event::ReceiveFailed,
        Action::Deliver { .. } => Event::Delivered(false),
        Action::Recycle => Event::Recycled,
        Action::Report { .. } => Event::Reported,
        _ => Event::Closed,
    };
    assert(s.accepts(event));
}

/// Failed attempts that the counters of `s` stand for.
pub open spec fn backlog(s: HopState) -> nat {
    if s.action is BackOff {
        s.sweeps * s.channels
    } else {
        s.sweeps * s.channels + s.failures
    }
}

/// Pauses that the counters of `s` stand for.
pub open spec fn pauses(s: HopState) -> int {
    if s.action is BackOff {
        s.sweeps - 1
    } else {
        s.sweeps as int
    }
}

proof fn lemma_backlog_step(s: HopState, event: Event)
    requires
        s.wf(),
        s.accepts(event),
    ensures
        event == Event::Started(true) ==> backlog(s.next(event)) == 0 && pauses(s.next(event)) == 0,
        is_failure(event) ==> backlog(s.next(event)) == backlog(s) + 1,
        event != Event::Started(true) && !is_failure(event) ==> backlog(s.next(event)) == backlog(s),
        event is Slept ==> pauses(s.next(event)) == pauses(s) + 1,
        event != Event::Started(true) && !(event is Slept) ==> pauses(s.next(event)) == pauses(s),
{
    assert((s.sweeps + 1) * s.channels == s.sweeps * s.channels + s.channels) by (nonlinear_arith);
    assert(0 * s.channels == 0);
}

/// The loop knows how many attempts failed in a row and how often it paused: its
/// counters stand for exactly that many.
pub proof fn law_counters_are_exact(channels: nat, now: i128, events: Seq<Event>)
    requires
        0 < channels <= usize::MAX,
        accepted(initial(channels, now as int), events),
    ensures
        backlog(run(initial(channels, now as int), events)) == count_since_stream(
            events,
            |e: Event| is_failure(e),
        ),
        pauses(run(initial(channels, now as int), events)) == count_since_stream(
            events,
            |e: Event| e is Slept,
        ),
    decreases events.len(),
{
    let start = initial(channels, now as int);
    if events.len() > 0 {
        law_counters_are_exact(channels, now, events.drop_last());
        law_runs_stay_well_formed(start, events.drop_last());
        lemma_backlog_step(run(start, events.drop_last()), events.last());
    } else {
        assert(0 * channels == 0);
    }
}

/// The device is given up exactly when the allowed number of sweeps has failed in a
/// row, each followed by a pause: no run shows more failures or pauses in a row, and one
/// that gave up shows that many of both. So the device has then been out of reach for
/// five seconds of pauses.
pub proof fn law_gives_up_on_schedule(channels: nat, now: i128, events: Seq<Event>)
    requires
        0 < channels <= usize::MAX,
        accepted(initial(channels, now as int), events),
    ensures
        count_since_stream(events, |e: Event| is_failure(e)) <= MAX_CONSECUTIVE_SWEEP_FAILURES
            * channels,
        run(initial(channels, now as int), events).action == Action::Exit(ExitReason::GaveUp) ==> {
            &&& count_since_stream(events, |e: Event| is_failure(e))
                == MAX_CONSECUTIVE_SWEEP_FAILURES * channels
            &&& count_since_stream(events, |e: Event| e is Slept) == MAX_CONSECUTIVE_SWEEP_FAILURES
            &&& count_since_stream(events, |e: Event| e is Slept) * SWEEP_BACKOFF_MILLIS == 5000
        },
        count_since_stream(events, |e: Event| e is Slept) <= MAX_CONSECUTIVE_SWEEP_FAILURES,
        count_since_stream(events, |e: Event| e is Slept) == MAX_CONSECUTIVE_SWEEP_FAILURES ==> run(
            initial(channels, now as int),
            events,
        ).action == Action::Exit(ExitReason::GaveUp),
        count_since_stream(events, |e: Event| is_failure(e)) == MAX_CONSECUTIVE_SWEEP_FAILURES
            * channels ==> {
            ||| run(initial(channels, now as int), events).action is PollStop
            ||| run(initial(channels, now as int), events).action is BackOff
            ||| run(initial(channels, now as int), events).action is Exit
        },
{
    let start = initial(channels, now as int);
    let s = run(start, events);
    law_counters_are_exact(channels, now, events);
    law_runs_stay_well_formed(start, events);
    lemma_backlog_bound(s);
}

proof fn lemma_backlog_bound(s: HopState)
    requires
        s.wf(),
    ensures
        0 <= backlog(s) <= MAX_CONSECUTIVE_SWEEP_FAILURES * s.channels,
        s.action is Tune || s.action is OpenStream || s.action is StartStream || streaming(s.action) || s.action is StopStream ==> backlog(s)
            < MAX_CONSECUTIVE_SWEEP_FAILURES * s.channels,
        s.action is PollStop && backlog(s) == MAX_CONSECUTIVE_SWEEP_FAILURES * s.channels
            ==> s.sweeps == MAX_CONSECUTIVE_SWEEP_FAILURES - 1 && s.failures == s.channels,
{
    let n = s.channels as int;
    let k = s.sweeps as int;
    let m = MAX_CONSECUTIVE_SWEEP_FAILURES as int;
    assert(0 <= k * n) by (nonlinear_arith)
        requires
            k >= 0,
            n > 0,
    ;
    if k < m {
        assert(k * n <= (m - 1) * n) by (nonlinear_arith)
            requires
                k <= m - 1,
                n > 0,
        ;
        if k < m - 1 {
            assert(k * n <= (m - 2) * n) by (nonlinear_arith)
                requires
                    k <= m - 2,
                    n > 0,
            ;
        }
    }
}

/// Events that are still possible in `s` while no stream starts.
pub open spec fn patience(s: HopState) -> int {
    let attempts = MAX_CONSECUTIVE_SWEEP_FAILURES * s.channels - backlog(s);
    match s.action {
        Action::PollStop => 5 * attempts + 2,
        Action::BackOff => 5 * attempts + 1,
        Action::Tune => 5 * attempts,
        Action::OpenStream => 5 * attempts - 1,
        Action::StartStream => 5 * attempts - 2,
        _ => 0,
    }
}

/// Whether no stream is running and the loop has not ended.
pub open spec fn searching(action: Action) -> bool {
    match action {
        Action::PollStop | Action::BackOff | Action::Tune => true,
        Action::OpenStream | Action::StartStream => true,
        _ => false,
    }
}

/// A device on which no stream starts is not retried forever, be it that it never
/// streamed or that it was lost later. From any state without a stream, such a run is
/// over after a bounded number of events; it ends in an exit, which is giving the device
/// up unless the stop flag was raised.
pub proof fn law_dead_device_ends_the_loop(start: HopState, events: Seq<Event>)
    requires
        start.wf(),
        searching(start.action),
        accepted(start, events),
        !events.contains(Event::Started(true)),
    ensures
        events.len() + patience(run(start, events)) <= patience(start),
        0 <= patience(run(start, events)),
        patience(start) <= 5 * MAX_CONSECUTIVE_SWEEP_FAILURES * start.channels + 2,
        searching(run(start, events).action) || run(start, events).action is Exit,
        run(start, events).action is Exit && !events.contains(Event::Stop(true)) ==> run(
            start,
            events,
        ).action == Action::Exit(ExitReason::GaveUp),
    decreases events.len(),
{
    lemma_backlog_bound(start);
    let most = MAX_CONSECUTIVE_SWEEP_FAILURES as int;
    let n = start.channels as int;
    assert(5 * most * n == 5 * (most * n)) by (nonlinear_arith);
    if events.len() > 0 {
        let before = events.drop_last();
        let s = run(start, before);
        let event = events.last();
        lemma_prefix_has_no_new_event(events);
        law_dead_device_ends_the_loop(start, before);
        law_runs_stay_well_formed(start, before);
        lemma_step(s, event);
        lemma_backlog_step(s, event);
        lemma_backlog_bound(s);
        lemma_backlog_bound(s.next(event));
    }
}

/// Whether the current channel has been tuned to and not been left yet.
pub open spec fn visiting(action: Action) -> bool {
    action is OpenStream || action is StartStream || streaming(action) || action is StopStream
}

/// Channels are tried in turn, the first one again after the last: the attempt that
/// follows `k` earlier ones, counted from the beginning, is of channel `k` modulo the
/// number of channels. A channel that fails and one that was dwelled on are left alike.
pub proof fn law_channels_are_tried_in_turn(channels: nat, now: i128, events: Seq<Event>)
    requires
        0 < channels <= usize::MAX,
        accepted(initial(channels, now as int), events),
    ensures
        run(initial(channels, now as int), events).action is Tune ==> run(
            initial(channels, now as int),
            events,
        ).channel == count(events, |e: Event| e is Tuned) % channels,
        visiting(run(initial(channels, now as int), events).action) ==> run(
            initial(channels, now as int),
            events,
        ).channel == (count(events, |e: Event| e is Tuned) - 1) % channels as int,
{
    lemma_turns(channels, now, events);
}

proof fn lemma_turns(channels: nat, now: i128, events: Seq<Event>)
    requires
        0 < channels <= usize::MAX,
        accepted(initial(channels, now as int), events),
    ensures
        ({
            let s = run(initial(channels, now as int), events);
            let tuned = count(events, |e: Event| e is Tuned);
            &&& s.action is PollStop || s.action is BackOff || s.action is Tune ==> s.channel
                == tuned % channels
            &&& visiting(s.action) ==> tuned > 0 && s.channel == (tuned - 1) % channels as int
        }),
    decreases events.len(),
{
    let start = initial(channels, now as int);
    if events.len() == 0 {
        assert(0nat % channels == 0) by (nonlinear_arith)
            requires
                channels > 0,
        ;
    } else {
        let before = events.drop_last();
        lemma_turns(channels, now, before);
        law_runs_stay_well_formed(start, before);
        let tuned = count(before, |e: Event| e is Tuned) as int;
        let n = channels as int;
        assert((tuned % n + 1) % n == (tuned + 1) % n) by (nonlinear_arith)
            requires
                n > 0,
        {
            vstd::arithmetic::div_mod::lemma_add_mod_noop_right(1, tuned, n);
        }
        assert(((tuned - 1) % n + 1) % n == tuned % n) by (nonlinear_arith)
            requires
                n > 0,
        {
            vstd::arithmetic::div_mod::lemma_add_mod_noop_right(1, tuned - 1, n);
        }
    }
}

/// With a single channel there is nowhere to hop to: once streaming, the loop keeps
/// its stream, however the deadlines fall, until the stop flag is raised or a packet
/// is not taken.
pub proof fn law_single_channel_streams_on(start: HopState, events: Seq<Event>)
    requires
        start.wf(),
        start.channels == 1,
        streaming(start.action),
        accepted(start, events),
        !events.contains(Event::Stop(true)),
        !events.contains(Event::Delivered(false)),
    ensures
        streaming(run(start, events).action),
    decreases events.len(),
{
    if events.len() > 0 {
        let before = events.drop_last();
        lemma_prefix_has_no_new_event(events);
        law_single_channel_streams_on(start, before);
        law_runs_stay_well_formed(start, before);
    }
}

/// With more than one channel a dwell ends at the first reading of the clock that is
/// not before the deadline, and at no earlier one.
pub proof fn law_dwell_ends_at_the_deadline(s: HopState, now: i128, deadline: i128)
    requires
        s.wf(),
        s.channels > 1,
        s.action is ReadClock,
    ensures
        s.next(Event::Timed { now, deadline: Some(deadline) }).action == if now >= deadline {
            Action::StopStream(AfterStream::Hop)
        } else {
            Action::Receive
        },
{
}

/// Whether a stream has been started and not been stopped.
pub open spec fn stream_open(action: Action) -> bool {
    streaming(action) || action is StopStream
}

/// Every stream that was started is stopped before the loop tunes again or ends: at
/// any time at most one is open, and it is one that the current action belongs to.
pub proof fn law_streams_are_stopped(channels: nat, now: i128, events: Seq<Event>)
    requires
        0 < channels <= usize::MAX,
        accepted(initial(channels, now as int), events),
    ensures
        count(events, |e: Event| e == Event::Started(true)) == count(
            events,
            |e: Event| e is Closed,
        ) + (if stream_open(run(initial(channels, now as int), events).action) {
            1int
        } else {
            0int
        }),
    decreases events.len(),
{
    if events.len() > 0 {
        law_streams_are_stopped(channels, now, events.drop_last());
    }
}

/// No buffer is lost: each receive ends in a packet or in the pool, and the next one
/// does not begin before that.
pub proof fn law_buffers_are_accounted_for(channels: nat, now: i128, events: Seq<Event>)
    requires
        0 < channels <= usize::MAX,
        accepted(initial(channels, now as int), events),
    ensures
        count(events, |e: Event| e is Received || e is ReceiveFailed) == count(
            events,
            |e: Event| e is Delivered || e is Recycled,
        ) + (if run(initial(channels, now as int), events).action is Deliver || run(
            initial(channels, now as int),
            events,
        ).action is Recycle {
            1int
        } else {
            0int
        }),
    decreases events.len(),
{
    if events.len() > 0 {
        law_buffers_are_accounted_for(channels, now, events.drop_last());
    }
}

/// Events until the stop flag is polled again, at the most.
pub open spec fn events_to_poll(action: Action) -> nat {
    match action {
        Action::PollStop | Action::PollStopStreaming | Action::Exit(_) => 0,
        Action::StartStream | Action::Report { .. } | Action::StopStream(_) => 1,
        Action::OpenStream | Action::Deliver { .. } | Action::Recycle => 2,
        Action::Tune | Action::Receive => 3,
        Action::BackOff | Action::ReadClock => 4,
    }
}

/// The stop flag is polled at every turn: each event brings the next poll nearer, and
/// none is more than four events away.
pub proof fn law_stop_flag_is_polled(s: HopState, event: Event)
    requires
        s.wf(),
        s.accepts(event),
    ensures
        events_to_poll(s.next(event).action) <= 4,
        events_to_poll(s.action) > 0 ==> events_to_poll(s.next(event).action) < events_to_poll(
            s.action,
        ),
{
}

/// A raised stop flag ends the loop at the poll that sees it, once the stream, if one
/// is running, has been stopped.
pub proof fn law_stop_flag_is_obeyed(s: HopState)
    requires
        s.wf(),
        s.accepts(Event::Stop(true)),
    ensures
        s.action is PollStop ==> s.next(Event::Stop(true)).action == Action::Exit(
            ExitReason::Stopped,
        ),
        s.action is PollStopStreaming ==> {
            &&& s.next(Event::Stop(true)).action == Action::StopStream(
                AfterStream::Exit(ExitReason::Stopped),
            )
            &&& s.next(Event::Stop(true)).accepts(Event::Closed)
            &&& s.next(Event::Stop(true)).next(Event::Closed).action == Action::Exit(
                ExitReason::Stopped,
            )
        },
        s.action is PollStop || s.action is PollStopStreaming,
{
}

/// Whether the loop has ended for `reason`, or is about to.
pub open spec fn ending(action: Action, reason: ExitReason) -> bool {
    action == Action::Exit(reason) || action == Action::StopStream(AfterStream::Exit(reason))
}

/// The loop ends for a cause: because the stop flag was raised, because a packet was
/// not taken, or because the device was given up.
pub proof fn law_exit_has_its_cause(channels: nat, now: i128, events: Seq<Event>)
    requires
        0 < channels <= usize::MAX,
        accepted(initial(channels, now as int), events),
    ensures
        ending(run(initial(channels, now as int), events).action, ExitReason::Stopped)
            ==> events.contains(Event::Stop(true)),
        ending(run(initial(channels, now as int), events).action, ExitReason::ReceiverGone)
            ==> events.contains(Event::Delivered(false)),
    decreases events.len(),
{
    if events.len() > 0 {
        let before = events.drop_last();
        lemma_prefix_has_no_new_event(events);
        law_exit_has_its_cause(channels, now, before);
        law_runs_stay_well_formed(initial(channels, now as int), before);
    }
}

/// An exit is final: no event follows it.
pub proof fn law_exit_is_final(s: HopState, event: Event)
    requires
        s.wf(),
        s.action is Exit,
    ensures
        !s.accepts(event),
{
}

/// Reports are at least the report interval apart, and each begins a new count.
pub proof fn law_reports_are_spaced(s: HopState, event: Event)
    requires
        s.wf(),
        s.accepts(event),
    ensures
        s.next(event).action is Report ==> {
            &&& s.next(event).last_report >= s.last_report + REPORT_INTERVAL_NANOS
            &&& s.next(event).switches == 0
            &&& s.next(event).action->switches == s.switches
        },
        !(s.next(event).action is Report) ==> s.next(event).last_report == s.last_report,
{
}

} // verus!
