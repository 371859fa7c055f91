//! The channel-hop loop of the capture thread, as a state machine.
//!
//! The thread asks for the pending [`Action`], performs it, and hands back the
//! [`Event`] that came of it. Times are nanoseconds on the thread's monotonic clock,
//! counted from any fixed moment.

use crate::buffers::CHUNK_SAMPLES;
use crate::overrun::{is_overrun, ReceiveFault};
use vstd::prelude::*;

verus! {

/// Consecutive sweeps in which no channel could be streamed, each followed by a pause,
/// before the device is given up. A device that was unplugged or is wedged ends the
/// capture this way.
pub const MAX_CONSECUTIVE_SWEEP_FAILURES: u32 = 10;

/// Pause after a sweep in which no channel could be streamed, in milliseconds.
pub const SWEEP_BACKOFF_MILLIS: u64 = 500;

/// Least time between two reports of the scanning speed, in nanoseconds.
pub const REPORT_INTERVAL_NANOS: u128 = 60000000000;

/// Why the loop ended.
#[derive(Clone, Copy, Debug, PartialEq, Eq, Structural)]
pub enum ExitReason {
    /// The stop flag was raised.
    Stopped,
    /// Every channel failed, for too many sweeps in a row.
    GaveUp,
    /// Nobody takes packets any more.
    ReceiverGone,
}

/// What follows once the running stream has been stopped.
#[derive(Clone, Copy, Debug, PartialEq, Eq, Structural)]
pub enum AfterStream {
    Hop,
    Exit(ExitReason),
}

/// What the thread has to do next.
#[derive(Clone, Copy, Debug, PartialEq, Eq, Structural)]
pub enum Action {
    /// Read the stop flag, with no stream running.
    PollStop,
    /// Sleep for [`SWEEP_BACKOFF_MILLIS`].
    BackOff,
    /// Tune to the current channel.
    Tune,
    /// Make a stream for the current channel.
    OpenStream,
    /// Start the stream.
    StartStream,
    /// Read the stop flag, with the stream running.
    PollStopStreaming,
    /// Read the clock and, with more than one channel, the deadline of the dwell.
    ReadClock,
    /// Borrow a buffer and receive into it.
    Receive,
    /// Send the first `samples` of the buffer as a packet.
    Deliver { samples: usize, overrun: bool },
    /// Put the buffer back into the pool.
    Recycle,
    /// Report that `switches` channels were left in `elapsed` nanoseconds.
    Report { switches: i32, elapsed: u128 },
    /// Stop the stream and drop it.
    StopStream(AfterStream),
    /// Leave the loop.
    Exit(ExitReason),
}

/// What came of an action.
#[derive(Debug)]
pub enum Event {
    /// The stop flag, as it was read.
    Stop(bool),
    /// The pause is over.
    Slept,
    /// Whether tuning succeeded.
    Tuned(bool),
    /// Whether a stream could be made.
    Opened(bool),
    /// Whether the stream took the start command.
    Started(bool),
    /// The time, and the deadline of the dwell where there is one.
    Timed { now: i128, deadline: Option<i128> },
    /// So many samples came, with or without an error attached.
    Received { samples: usize, fault: Option<ReceiveFault> },
    /// Receiving failed.
    ReceiveFailed,
    /// Whether the packet was taken.
    Delivered(bool),
    /// The buffer was put back.
    Recycled,
    /// The report was made.
    Reported,
    /// The stream was stopped.
    Closed,
}

/// The state of the loop.
pub struct HopState {
    /// Number of channels to hop over.
    pub channels: nat,
    /// The current channel.
    pub channel: nat,
    /// Channels that failed since the last stream or the last pause.
    pub failures: nat,
    /// Full sweeps that failed since the last stream.
    pub sweeps: nat,
    /// Channels left after a dwell since the last report.
    pub switches: nat,
    /// When the last report was made.
    pub last_report: int,
    /// The latest reading of the clock.
    pub now: int,
    /// What is to be done.
    pub action: Action,
}

/// Whether a stream is running and samples are taken from it.
pub open spec fn streaming(action: Action) -> bool {
    match action {
        Action::PollStopStreaming | Action::ReadClock | Action::Receive | Action::Recycle => true,
        Action::Deliver { .. } | Action::Report { .. } => true,
        _ => false,
    }
}

impl HopState {
    /// What holds of every state that the loop reaches.
    pub open spec fn wf(self) -> bool {
        &&& self.channel < self.channels <= usize::MAX
        &&& self.failures <= self.channels
        &&& self.sweeps <= MAX_CONSECUTIVE_SWEEP_FAILURES
        &&& self.sweeps == MAX_CONSECUTIVE_SWEEP_FAILURES ==> self.action is BackOff
            || self.action == Action::Exit(ExitReason::GaveUp)
        &&& self.switches <= i32::MAX
        &&& i128::MIN <= self.last_report <= i128::MAX
        &&& i128::MIN <= self.now <= i128::MAX
        &&& streaming(self.action) || self.action is StopStream ==> self.failures == 0
            && self.sweeps == 0
        &&& match self.action {
            Action::BackOff => self.failures == self.channels && self.sweeps > 0,
            Action::Tune | Action::OpenStream | Action::StartStream => self.failures
                < self.channels,
            Action::Deliver { samples, .. } => 0 < samples <= CHUNK_SAMPLES,
            Action::Report { switches, elapsed } => switches >= 0 && elapsed
                >= REPORT_INTERVAL_NANOS,
            Action::StopStream(AfterStream::Exit(reason)) => reason != ExitReason::GaveUp,
            Action::Exit(ExitReason::GaveUp) => self.failures == 0 && self.sweeps
                == MAX_CONSECUTIVE_SWEEP_FAILURES,
            _ => true,
        }
    }

    /// Whether `event` can come of the pending action. With more than one channel the
    /// clock is read together with a deadline. The count of switches stays in range.
    pub open spec fn accepts(self, event: Event) -> bool {
        match (self.action, event) {
            (Action::PollStop, Event::Stop(_)) => true,
            (Action::BackOff, Event::Slept) => true,
            (Action::Tune, Event::Tuned(_)) => true,
            (Action::OpenStream, Event::Opened(_)) => true,
            (Action::StartStream, Event::Started(_)) => true,
            (Action::PollStopStreaming, Event::Stop(_)) => true,
            (Action::ReadClock, Event::Timed { deadline, .. }) => self.channels > 1 ==> deadline
                is Some,
            (Action::Receive, Event::Received { .. }) => true,
            (Action::Receive, Event::ReceiveFailed) => true,
            (Action::Deliver { .. }, Event::Delivered(_)) => true,
            (Action::Recycle, Event::Recycled) => true,
            (Action::Report { .. }, Event::Reported) => true,
            (Action::StopStream(AfterStream::Hop), Event::Closed) => self.switches < i32::MAX,
            (Action::StopStream(AfterStream::Exit(_)), Event::Closed) => true,
            _ => false,
        }
    }

    /// The same state with another action pending.
    pub open spec fn to(self, action: Action) -> HopState {
        HopState { action, ..self }
    }

    /// On to the channel after the current one, the first one after the last.
    pub open spec fn at_next_channel(self) -> HopState {
        HopState { channel: (self.channel + 1) % self.channels, ..self }
    }

    /// The current channel could not be streamed: it is skipped.
    pub open spec fn skip_channel(self) -> HopState {
        HopState { failures: self.failures + 1, ..self.at_next_channel() }.to(Action::PollStop)
    }

    /// The stop flag is down: on with the sweep, or to the pause that follows one in
    /// which every channel failed.
    pub open spec fn go_on(self) -> HopState {
        if self.failures < self.channels {
            self.to(Action::Tune)
        } else {
            HopState { sweeps: self.sweeps + 1, ..self }.to(Action::BackOff)
        }
    }

    /// The pause after a failed sweep is over: a new sweep begins, unless too many have
    /// failed.
    pub open spec fn resume(self) -> HopState {
        let cleared = HopState { failures: 0, ..self };
        if self.sweeps >= MAX_CONSECUTIVE_SWEEP_FAILURES {
            cleared.to(Action::Exit(ExitReason::GaveUp))
        } else {
            cleared.to(Action::Tune)
        }
    }

    /// The dwell goes on after a receive, with a report if one is due.
    pub open spec fn settle(self) -> HopState {
        if self.now - self.last_report >= REPORT_INTERVAL_NANOS {
            HopState { switches: 0, last_report: self.now, ..self }.to(
                Action::Report {
                    switches: self.switches as i32,
                    elapsed: (self.now - self.last_report) as u128,
                },
            )
        } else {
            self.to(Action::PollStopStreaming)
        }
    }

    /// The state that follows when `event` comes of the pending action.
    pub open spec fn next(self, event: Event) -> HopState {
        match (self.action, event) {
            (Action::PollStop, Event::Stop(stop)) => if stop {
                self.to(Action::Exit(ExitReason::Stopped))
            } else {
                self.go_on()
            },
            (Action::BackOff, Event::Slept) => self.resume(),
            (Action::Tune, Event::Tuned(ok)) => if ok {
                self.to(Action::OpenStream)
            } else {
                self.skip_channel()
            },
            (Action::OpenStream, Event::Opened(ok)) => if ok {
                self.to(Action::StartStream)
            } else {
                self.skip_channel()
            },
            (Action::StartStream, Event::Started(ok)) => if ok {
                HopState { failures: 0, sweeps: 0, ..self }.to(Action::PollStopStreaming)
            } else {
                self.skip_channel()
            },
            (Action::PollStopStreaming, Event::Stop(stop)) => if stop {
                self.to(Action::StopStream(AfterStream::Exit(ExitReason::Stopped)))
            } else {
                self.to(Action::ReadClock)
            },
            (Action::ReadClock, Event::Timed { now, deadline }) => {
                let timed = HopState { now: now as int, ..self };
                if self.channels > 1 && now >= deadline->0 {
                    timed.to(Action::StopStream(AfterStream::Hop))
                } else {
                    timed.to(Action::Receive)
                }
            },
            (Action::Receive, Event::Received { samples, fault }) => if samples == 0 {
                self.to(Action::Recycle)
            } else {
                self.to(
                    Action::Deliver {
                        samples: if samples <= CHUNK_SAMPLES {
                            samples
                        } else {
                            CHUNK_SAMPLES
                        },
                        overrun: crate::overrun::overruns(fault),
                    },
                )
            },
            (Action::Receive, Event::ReceiveFailed) => self.to(Action::Recycle),
            (Action::Deliver { .. }, Event::Delivered(ok)) => if ok {
                self.settle()
            } else {
                self.to(Action::StopStream(AfterStream::Exit(ExitReason::ReceiverGone)))
            },
            (Action::Recycle, Event::Recycled) => self.settle(),
            (Action::Report { .. }, Event::Reported) => self.to(Action::PollStopStreaming),
            (Action::StopStream(AfterStream::Hop), Event::Closed) => HopState {
                switches: self.switches + 1,
                ..self.at_next_channel()
            }.to(Action::PollStop),
            (Action::StopStream(AfterStream::Exit(reason)), Event::Closed) => self.to(
                Action::Exit(reason),
            ),
            _ => self,
        }
    }
}

/// The state in which the loop starts, at time `now`.
pub open spec fn initial(channels: nat, now: int) -> HopState {
    HopState {
        channels,
        channel: 0,
        failures: 0,
        sweeps: 0,
        switches: 0,
        last_report: now,
        now,
        action: Action::PollStop,
    }
}

/// The time from `since` to `now`; none if the clock reads no later.
pub fn elapsed(now: i128, since: i128) -> (r: u128)
    ensures
        r == if now > since {
            now - since
        } else {
            0
        },
{
    if now <= since {
        0
    } else if since >= 0 || now < 0 {
        (now - since) as u128
    } else {
        (now as u128) + (((-(since + 1)) as u128) + 1)
    }
}

/// The channel-hop loop.
pub struct HopLoop {
    channels: usize,
    channel: usize,
    failures: usize,
    sweeps: u32,
    switches: i32,
    last_report: i128,
    now: i128,
    action: Action,
}

impl View for HopLoop {
    type V = HopState;

    closed spec fn view(&self) -> HopState {
        HopState {
            channels: self.channels as nat,
            channel: self.channel as nat,
            failures: self.failures as nat,
            sweeps: self.sweeps as nat,
            switches: self.switches as nat,
            last_report: self.last_report as int,
            now: self.now as int,
            action: self.action,
        }
    }
}

impl HopLoop {
    #[verifier::type_invariant]
    spec fn inv(&self) -> bool {
        self@.wf() && self.switches >= 0
    }

    /// A loop over `channels` channels, about to poll the stop flag.
    pub fn new(channels: usize, now: i128) -> (r: HopLoop)
        requires
            channels > 0,
        ensures
            r@ == initial(channels as nat, now as int),
            r@.wf(),
            r@.channels == channels,
            r@.channel == 0,
            r@.failures == 0,
            r@.sweeps == 0,
            r@.switches == 0,
            r@.last_report == now,
            r@.action == Action::PollStop,
    {
        HopLoop {
            channels,
            channel: 0,
            failures: 0,
            sweeps: 0,
            switches: 0,
            last_report: now,
            now,
            action: Action::PollStop,
        }
    }

    /// The pending action.
    pub fn action(&self) -> (r: Action)
        ensures
            r == self@.action,
    {
        self.action
    }

    /// The current channel.
    pub fn channel(&self) -> (r: usize)
        ensures
            r == self@.channel,
            r < self@.channels,
    {
        proof {
            use_type_invariant(self);
        }
        self.channel
    }

    /// The number of channels.
    pub fn channels(&self) -> (r: usize)
        ensures
            r == self@.channels,
            r > 0,
    {
        proof {
            use_type_invariant(self);
        }
        self.channels
    }

    /// Whether `event` can come of the pending action.
    pub fn accepts(&self, event: &Event) -> (r: bool)
        ensures
            r == self@.accepts(*event),
    {
        proof {
            use_type_invariant(self);
        }
        match (self.action, event) {
            (Action::PollStop, Event::Stop(_)) => true,
            (Action::BackOff, Event::Slept) => true,
            (Action::Tune, Event::Tuned(_)) => true,
            (Action::OpenStream, Event::Opened(_)) => true,
            (Action::StartStream, Event::Started(_)) => true,
            (Action::PollStopStreaming, Event::Stop(_)) => true,
            (Action::ReadClock, Event::Timed { deadline, .. }) => self.channels <= 1
                || deadline.is_some(),
            (Action::Receive, Event::Received { .. }) => true,
            (Action::Receive, Event::ReceiveFailed) => true,
            (Action::Deliver { .. }, Event::Delivered(_)) => true,
            (Action::Recycle, Event::Recycled) => true,
            (Action::Report { .. }, Event::Reported) => true,
            (Action::StopStream(AfterStream::Hop), Event::Closed) => self.switches < i32::MAX,
            (Action::StopStream(AfterStream::Exit(_)), Event::Closed) => true,
            _ => false,
        }
    }

    /// Takes in what came of the pending action.
    pub fn step(self, event: Event) -> (r: HopLoop)
        requires
            self@.accepts(event),
        ensures
            r@ == self@.next(event),
            r@.wf(),
    {
        proof {
            use_type_invariant(&self);
        }
        match (self.action, event) {
            (Action::PollStop, Event::Stop(stop)) => if stop {
                HopLoop { action: Action::Exit(ExitReason::Stopped), ..self }
            } else {
                self.go_on()
            },
            (Action::BackOff, Event::Slept) => self.resume(),
            (Action::Tune, Event::Tuned(ok)) => if ok {
                HopLoop { action: Action::OpenStream, ..self }
            } else {
                self.skip_channel()
            },
            (Action::OpenStream, Event::Opened(ok)) => if ok {
                HopLoop { action: Action::StartStream, ..self }
            } else {
                self.skip_channel()
            },
            (Action::StartStream, Event::Started(ok)) => if ok {
                HopLoop { failures: 0, sweeps: 0, action: Action::PollStopStreaming, ..self }
            } else {
                self.skip_channel()
            },
            (Action::PollStopStreaming, Event::Stop(stop)) => if stop {
                HopLoop {
                    action: Action::StopStream(AfterStream::Exit(ExitReason::Stopped)),
                    ..self
                }
            } else {
                HopLoop { action: Action::ReadClock, ..self }
            },
            (Action::ReadClock, Event::Timed { now, deadline }) => {
                let over = match deadline {
                    Some(d) => self.channels > 1 && now >= d,
                    None => false,
                };
                if over {
                    HopLoop { now, action: Action::StopStream(AfterStream::Hop), ..self }
                } else {
                    HopLoop { now, action: Action::Receive, ..self }
                }
            },
            (Action::Receive, Event::Received { samples, fault }) => {
                let kept: usize = if samples <= CHUNK_SAMPLES {
                    samples
                } else {
                    CHUNK_SAMPLES
                };
                if kept > 0 {
                    let overrun = is_overrun(&fault);
                    HopLoop { action: Action::Deliver { samples: kept, overrun }, ..self }
                } else {
                    HopLoop { action: Action::Recycle, ..self }
                }
            },
            (Action::Receive, Event::ReceiveFailed) => HopLoop { action: Action::Recycle, ..self },
            (Action::Deliver { .. }, Event::Delivered(ok)) => if ok {
                self.settle()
            } else {
                HopLoop {
                    action: Action::StopStream(AfterStream::Exit(ExitReason::ReceiverGone)),
                    ..self
                }
            },
            (Action::Recycle, Event::Recycled) => self.settle(),
            (Action::Report { .. }, Event::Reported) => HopLoop {
                action: Action::PollStopStreaming,
                ..self
            },
            (Action::StopStream(AfterStream::Hop), Event::Closed) => HopLoop {
                channel: self.next_channel(),
                switches: self.switches + 1,
                action: Action::PollStop,
                ..self
            },
            (Action::StopStream(AfterStream::Exit(reason)), Event::Closed) => HopLoop {
                action: Action::Exit(reason),
                ..self
            },
            _ => self,
        }
    }

    fn next_channel(&self) -> (r: usize)
        ensures
            r == self@.at_next_channel().channel,
            r < self.channels,
    {
        proof {
            use_type_invariant(self);
        }
        (self.channel + 1) % self.channels
    }

    fn skip_channel(self) -> (r: HopLoop)
        requires
            self@.failures < self@.channels,
            self@.sweeps < MAX_CONSECUTIVE_SWEEP_FAILURES,
        ensures
            r@ == self@.skip_channel(),
            r@.wf(),
    {
        proof {
            use_type_invariant(&self);
        }
        HopLoop {
            failures: self.failures + 1,
            channel: self.next_channel(),
            action: Action::PollStop,
            ..self
        }
    }

    fn go_on(self) -> (r: HopLoop)
        requires
            self@.sweeps < MAX_CONSECUTIVE_SWEEP_FAILURES,
        ensures
            r@ == self@.go_on(),
            r@.wf(),
    {
        proof {
            use_type_invariant(&self);
        }
        if self.failures >= self.channels {
            HopLoop { sweeps: self.sweeps + 1, action: Action::BackOff, ..self }
        } else {
            HopLoop { action: Action::Tune, ..self }
        }
    }

    fn resume(self) -> (r: HopLoop)
        requires
            self@.action is BackOff,
        ensures
            r@ == self@.resume(),
            r@.wf(),
    {
        proof {
            use_type_invariant(&self);
        }
        if self.sweeps >= MAX_CONSECUTIVE_SWEEP_FAILURES {
            HopLoop { failures: 0, action: Action::Exit(ExitReason::GaveUp), ..self }
        } else {
            HopLoop { failures: 0, action: Action::Tune, ..self }
        }
    }

    fn settle(self) -> (r: HopLoop)
        requires
            streaming(self@.action),
        ensures
            r@ == self@.settle(),
            r@.wf(),
    {
        proof {
            use_type_invariant(&self);
        }
        let passed: u128 = elapsed(self.now, self.last_report);
        if passed >= REPORT_INTERVAL_NANOS {
            HopLoop {
                switches: 0,
                last_report: self.now,
                action: Action::Report { switches: self.switches, elapsed: passed },
                ..self
            }
        } else {
            HopLoop { action: Action::PollStopStreaming, ..self }
        }
    }
}

/// The time that has passed makes up the difference, and none has where the clock reads
/// no later.
pub proof fn law_elapsed_makes_up_the_difference(now: i128, since: i128, r: u128)
    requires
        call_ensures(elapsed, (now, since), r),
    ensures
        now >= since ==> since + r == now,
        now <= since ==> r == 0,
{
}

} // verus!
