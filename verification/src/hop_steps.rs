//! What each event leads to in the channel-hop loop, and what it leaves alone.

use crate::hop::{initial, streaming, Action, AfterStream, Event, ExitReason, HopState};
use crate::hop_laws::{accepted, count, ending, law_runs_stay_well_formed, run};
use crate::overrun::{overruns, ReceiveFault};
use vstd::prelude::*;

verus! {

/// Which events can come when: each kind of event belongs to one kind of action, and
/// comes of it whatever it says. The two limits are that a reading of the clock brings a
/// deadline if there is another channel, and that the count of switches is not full.
pub proof fn law_events_belong_to_actions(s: HopState, event: Event)
    requires
        s.wf(),
    ensures
        s.accepts(event) <==> match event {
            Event::Stop(_) => s.action is PollStop || s.action is PollStopStreaming,
            Event::Slept => s.action is BackOff,
            Event::Tuned(_) => s.action is Tune,
            Event::Opened(_) => s.action is OpenStream,
            Event::Started(_) => s.action is StartStream,
            Event::Timed { deadline, .. } => s.action is ReadClock && (s.channels == 1 || deadline
                is Some),
            Event::Received { .. } => s.action is Receive,
            Event::ReceiveFailed => s.action is Receive,
            Event::Delivered(_) => s.action is Deliver,
            Event::Recycled => s.action is Recycle,
            Event::Reported => s.action is Report,
            Event::Closed => s.action is StopStream && (s.action == Action::StopStream(
                AfterStream::Hop,
            ) ==> s.switches < 2147483647),
        },
{
}

/// A loop over any number of channels begins at the first one with nothing counted, its
/// clock and its report set to the time it began.
pub proof fn law_a_loop_begins_clean(channels: nat, now: i128)
    requires
        0 < channels <= usize::MAX,
    ensures
        initial(channels, now as int).wf(),
        initial(channels, now as int) == (HopState {
            channels,
            channel: 0,
            failures: 0,
            sweeps: 0,
            switches: 0,
            last_report: now as int,
            now: now as int,
            action: Action::PollStop,
        }),
{
}

/// What is counted, and when. Nothing but the events named here touches a counter, the
/// current channel or the times.
pub proof fn law_what_an_event_changes(s: HopState, event: Event)
    requires
        s.wf(),
        s.accepts(event),
    ensures
        ({
            let t = s.next(event);
            let failed = event == Event::Tuned(false) || event == Event::Opened(false) || event
                == Event::Started(false);
            let hopped = event is Closed && s.action == Action::StopStream(AfterStream::Hop);
            let sweep_over = event == Event::Stop(false) && s.action is PollStop && s.failures
                == s.channels;
            &&& t.channels == s.channels
            &&& t.channel == if !failed && !hopped {
                s.channel
            } else if s.channel + 1 < s.channels {
                s.channel + 1
            } else {
                0
            }
            &&& t.failures == if failed {
                s.failures + 1
            } else if event is Slept || event == Event::Started(true) {
                0
            } else {
                s.failures
            }
            &&& t.sweeps == if sweep_over {
                s.sweeps + 1
            } else if event == Event::Started(true) {
                0
            } else {
                s.sweeps
            }
            &&& t.switches == if hopped {
                s.switches + 1
            } else if t.action is Report {
                0
            } else {
                s.switches
            }
            &&& t.last_report == if t.action is Report {
                s.now
            } else {
                s.last_report
            }
            &&& t.now == match event {
                Event::Timed { now, .. } => now as int,
                _ => s.now,
            }
        }),
{
    if s.channel + 1 < s.channels {
        vstd::arithmetic::div_mod::lemma_small_mod(s.channel + 1, s.channels);
    } else {
        vstd::arithmetic::div_mod::lemma_mod_self_0(s.channels as int);
    }
}

/// With no stream running and the stop flag down, the current channel is tuned to, and
/// after as many failures as there are channels the loop pauses instead. After the pause
/// it tunes again, nine times; after the tenth it gives up.
pub proof fn law_sweeps_and_pauses(s: HopState)
    requires
        s.wf(),
    ensures
        s.action is PollStop ==> s.next(Event::Stop(true)).action == Action::Exit(
            ExitReason::Stopped,
        ),
        s.action is PollStop && s.failures < s.channels ==> s.next(Event::Stop(false)).action
            == Action::Tune,
        s.action is PollStop && s.failures >= s.channels ==> s.next(Event::Stop(false)).action
            == Action::BackOff,
        s.action is BackOff && s.sweeps < 10 ==> s.next(Event::Slept).action == Action::Tune,
        s.action is BackOff && s.sweeps >= 10 ==> s.next(Event::Slept).action == Action::Exit(
            ExitReason::GaveUp,
        ),
        s.action is BackOff ==> s.failures == s.channels && 1 <= s.sweeps <= 10,
        s.failures <= s.channels,
{
}

/// A channel is tuned to, then gets a stream, then the stream is started; a failure at
/// any of the three ends the attempt.
pub proof fn law_an_attempt_goes_stage_by_stage(s: HopState)
    requires
        s.wf(),
    ensures
        s.action is Tune ==> {
            &&& s.next(Event::Tuned(true)).action == Action::OpenStream
            &&& s.next(Event::Tuned(false)).action == Action::PollStop
        },
        s.action is OpenStream ==> {
            &&& s.next(Event::Opened(true)).action == Action::StartStream
            &&& s.next(Event::Opened(false)).action == Action::PollStop
        },
        s.action is StartStream ==> {
            &&& s.next(Event::Started(true)).action == Action::PollStopStreaming
            &&& s.next(Event::Started(false)).action == Action::PollStop
        },
{
}

/// In each turn of a dwell the stop flag is polled and then, if it is down, the clock is
/// read. With one channel samples are received whatever the clock says; with more, only
/// before the deadline, and at the deadline the stream is stopped to hop.
pub proof fn law_a_turn_of_the_dwell(s: HopState, now: i128, deadline: Option<i128>)
    requires
        s.wf(),
    ensures
        s.action is PollStopStreaming ==> {
            &&& s.next(Event::Stop(false)).action == Action::ReadClock
            &&& s.next(Event::Stop(true)).action == Action::StopStream(
                AfterStream::Exit(ExitReason::Stopped),
            )
        },
        s.action is ReadClock && s.channels == 1 ==> s.next(Event::Timed { now, deadline }).action
            == Action::Receive,
        s.action is ReadClock && s.channels > 1 ==> (deadline matches Some(d) ==> {
            &&& now < d ==> s.next(Event::Timed { now, deadline }).action == Action::Receive
            &&& now >= d ==> s.next(Event::Timed { now, deadline }).action == Action::StopStream(
                AfterStream::Hop,
            )
        }),
{
}

/// Samples that came become a packet of all of them, up to a full buffer, which is
/// flagged exactly if they are overrun. The buffer goes back to the pool exactly when no
/// samples came.
pub proof fn law_samples_become_a_packet(s: HopState, samples: usize, fault: Option<ReceiveFault>)
    requires
        s.wf(),
        s.action is Receive,
    ensures
        samples > 0 ==> (s.next(Event::Received { samples, fault }).action matches Action::Deliver {
            samples: sent,
            overrun,
        } && sent <= samples && sent <= 65536 && (sent == samples || sent == 65536) && overrun
            == overruns(fault)),
        samples == 0 ==> s.next(Event::Received { samples, fault }).action == Action::Recycle,
        s.next(Event::ReceiveFailed).action == Action::Recycle,
{
}

/// A packet that nobody takes stops the stream, whatever was in it, and then the loop
/// ends.
pub proof fn law_a_packet_nobody_takes(s: HopState)
    requires
        s.wf(),
        s.action is Deliver,
    ensures
        s.next(Event::Delivered(false)).action == Action::StopStream(
            AfterStream::Exit(ExitReason::ReceiverGone),
        ),
        s.next(Event::Delivered(false)).next(Event::Closed).action == Action::Exit(
            ExitReason::ReceiverGone,
        ),
{
}

/// After a receive was dealt with, a report is made if a minute has passed since the
/// last one: of all the switches since, and of the time that passed. Otherwise, and after
/// the report, the dwell goes on.
pub proof fn law_reports_are_made_when_due(s: HopState, event: Event)
    requires
        s.wf(),
        s.accepts(event),
        event == Event::Delivered(true) || event is Recycled || event is Reported,
    ensures
        !(event is Reported) && s.now - s.last_report >= 60000000000 ==> (s.next(
            event,
        ).action matches Action::Report { switches, elapsed } && switches == s.switches && elapsed
            == s.now - s.last_report),
        event is Reported || s.now - s.last_report < 60000000000 ==> s.next(event).action
            == Action::PollStopStreaming,
{
}

/// Once a stream is stopped the loop does what it was stopped for.
pub proof fn law_after_the_stream(s: HopState, reason: ExitReason)
    requires
        s.wf(),
    ensures
        s.action == Action::StopStream(AfterStream::Hop) ==> s.next(Event::Closed).action
            == Action::PollStop,
        s.action == Action::StopStream(AfterStream::Exit(reason)) ==> s.next(Event::Closed).action
            == Action::Exit(reason),
{
}

/// A dwell that is past its deadline ends within one turn, and the next channel is tuned
/// to: whatever the channel and the number of channels, three events lead away from it.
pub proof fn law_an_overdue_dwell_is_left(s: HopState, now: i128, deadline: i128)
    requires
        s.wf(),
        s.channels > 1,
        s.switches < i32::MAX,
        s.action is PollStopStreaming,
        now >= deadline,
    ensures
        ({
            let turn = seq![
                Event::Stop(false),
                Event::Timed { now, deadline: Some(deadline) },
                Event::Closed,
                Event::Stop(false),
            ];
            let t = run(s, turn);
            &&& accepted(s, turn)
            &&& t.action is Tune
            &&& t.channel != s.channel
            &&& t.channel == s.channel + 1 || (t.channel == 0 && s.channel + 1 == s.channels)
        }),
{
    let e1 = Event::Stop(false);
    let e2 = Event::Timed { now, deadline: Some(deadline) };
    let e3 = Event::Closed;
    let turn = seq![e1, e2, e3, e1];
    assert(turn.drop_last() =~= seq![e1, e2, e3]);
    assert(seq![e1, e2, e3].drop_last() =~= seq![e1, e2]);
    assert(seq![e1, e2].drop_last() =~= seq![e1]);
    assert(seq![e1].drop_last() =~= Seq::empty());
    reveal_with_fuel(run, 5);
    reveal_with_fuel(accepted, 5);
    let s3 = s.next(e1).next(e2);
    law_what_an_event_changes(s3, e3);
}

/// With more than one channel nothing is received past a deadline: every receive comes
/// directly after a reading of the clock that is before it.
pub proof fn law_no_receive_past_the_deadline(channels: nat, now: i128, events: Seq<Event>)
    requires
        1 < channels <= usize::MAX,
        accepted(initial(channels, now as int), events),
        run(initial(channels, now as int), events).action is Receive,
    ensures
        events.len() > 0,
        events.last() matches Event::Timed { now: t, deadline: Some(d) } && t < d,
{
    law_runs_stay_well_formed(initial(channels, now as int), events.drop_last());
}

/// A packet is of what was received directly before it.
pub proof fn law_a_packet_is_of_the_last_receive(channels: nat, now: i128, events: Seq<Event>)
    requires
        0 < channels <= usize::MAX,
        accepted(initial(channels, now as int), events),
        run(initial(channels, now as int), events).action is Deliver,
    ensures
        events.len() > 0,
        events.last() matches Event::Received { samples, fault } && samples > 0 && run(
            initial(channels, now as int),
            events,
        ).action == (Action::Deliver {
            samples: if samples < 65536 {
                samples
            } else {
                65536
            },
            overrun: overruns(fault),
        }),
{
    law_runs_stay_well_formed(initial(channels, now as int), events.drop_last());
}

/// No samples are thrown away: there are as many packets as there were receives with
/// samples, and as many buffers put back as there were receives without.
pub proof fn law_no_samples_are_thrown_away(channels: nat, now: i128, events: Seq<Event>)
    requires
        0 < channels <= usize::MAX,
        accepted(initial(channels, now as int), events),
    ensures
        count(events, |e: Event| e matches Event::Received { samples, .. } && samples > 0) == count(
            events,
            |e: Event| e is Delivered,
        ) + if run(initial(channels, now as int), events).action is Deliver {
            1int
        } else {
            0int
        },
        count(
            events,
            |e: Event| e is ReceiveFailed || (e matches Event::Received { samples, .. } && samples
                == 0),
        ) == count(events, |e: Event| e is Recycled) + if run(
            initial(channels, now as int),
            events,
        ).action is Recycle {
            1int
        } else {
            0int
        },
    decreases events.len(),
{
    if events.len() > 0 {
        law_no_samples_are_thrown_away(channels, now, events.drop_last());
    }
}


/// A packet that was not taken ends the run, and so does a raised stop flag: from then
/// on there is only the stream to stop, and the exit that follows is for that reason.
pub proof fn law_causes_end_the_loop(start: HopState, events: Seq<Event>)
    requires
        start.wf(),
        accepted(start, events),
    ensures
        events.contains(Event::Delivered(false)) ==> {
            ||| run(start, events).action == Action::Exit(ExitReason::ReceiverGone)
            ||| run(start, events).action == Action::StopStream(
                AfterStream::Exit(ExitReason::ReceiverGone),
            )
        },
        events.contains(Event::Stop(true)) ==> {
            ||| run(start, events).action == Action::Exit(ExitReason::Stopped)
            ||| run(start, events).action == Action::StopStream(
                AfterStream::Exit(ExitReason::Stopped),
            )
        },
    decreases events.len(),
{
    if events.len() > 0 {
        let before = events.drop_last();
        let event = events.last();
        law_causes_end_the_loop(start, before);
        assert forall|e: Event| events.contains(e) implies before.contains(e) || e == event by {
            let i = choose|i: int| 0 <= i < events.len() && events[i] == e;
            if i < before.len() {
                assert(before[i] == e);
            }
        }
        assert(before.contains(Event::Delivered(false)) ==> ending(
            run(start, before).action,
            ExitReason::ReceiverGone,
        ));
        assert(before.contains(Event::Stop(true)) ==> ending(
            run(start, before).action,
            ExitReason::Stopped,
        ));
    }
}

/// While a stream runs, only the stop flag, a packet that was not taken and a deadline
/// that has passed lead to its being stopped.
pub proof fn law_streams_are_kept(s: HopState, event: Event)
    requires
        s.wf(),
        s.accepts(event),
        streaming(s.action),
    ensures
        !streaming(s.next(event).action) <==> {
            ||| event == Event::Stop(true)
            ||| event == Event::Delivered(false)
            ||| (s.channels > 1 && (event matches Event::Timed { now, deadline: Some(d) } && now
                >= d))
        },
{
}

} // verus!
