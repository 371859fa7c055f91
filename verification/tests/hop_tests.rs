use orecchiette_sdr_usrp::hop::{
    elapsed, Action, AfterStream, Event, ExitReason, HopLoop, MAX_CONSECUTIVE_SWEEP_FAILURES,
    REPORT_INTERVAL_NANOS, SWEEP_BACKOFF_MILLIS,
};
use orecchiette_sdr_usrp::overrun::ReceiveFault;

fn step(h: HopLoop, event: Event) -> HopLoop {
    assert!(h.accepts(&event));
    h.step(event)
}

fn stream(h: HopLoop) -> HopLoop {
    let h = step(h, Event::Stop(false));
    assert_eq!(h.action(), Action::Tune);
    let h = step(h, Event::Tuned(true));
    assert_eq!(h.action(), Action::OpenStream);
    let h = step(h, Event::Opened(true));
    assert_eq!(h.action(), Action::StartStream);
    let h = step(h, Event::Started(true));
    assert_eq!(h.action(), Action::PollStopStreaming);
    h
}

/// To the receive of the next turn of a dwell, at time `now`.
fn receive_at(h: HopLoop, now: i128) -> HopLoop {
    let h = step(h, Event::Stop(false));
    assert_eq!(h.action(), Action::ReadClock);
    let h = step(h, Event::Timed { now, deadline: Some(now + 1) });
    assert_eq!(h.action(), Action::Receive);
    h
}

fn samples(n: usize) -> Event {
    Event::Received { samples: n, fault: None }
}

#[test]
fn dead_device_is_given_up_after_ten_sweeps() {
    for channels in [1usize, 3] {
        let mut h = HopLoop::new(channels, 0);
        let mut failures = 0;
        let mut pauses = 0;
        let mut events = 0;
        loop {
            let event = match h.action() {
                Action::PollStop => Event::Stop(false),
                Action::BackOff => {
                    pauses += 1;
                    Event::Slept
                }
                Action::Tune => {
                    assert_eq!(h.channel(), failures % channels);
                    if failures % 3 == 0 {
                        failures += 1;
                        Event::Tuned(false)
                    } else {
                        Event::Tuned(true)
                    }
                }
                Action::OpenStream => {
                    if failures % 3 == 1 {
                        failures += 1;
                        Event::Opened(false)
                    } else {
                        Event::Opened(true)
                    }
                }
                Action::StartStream => {
                    failures += 1;
                    Event::Started(false)
                }
                Action::Exit(reason) => {
                    assert_eq!(reason, ExitReason::GaveUp);
                    break;
                }
                other => panic!("{:?}", other),
            };
            events += 1;
            h = step(h, event);
        }
        assert_eq!(failures, MAX_CONSECUTIVE_SWEEP_FAILURES as usize * channels);
        assert_eq!(pauses, MAX_CONSECUTIVE_SWEEP_FAILURES);
        assert_eq!(pauses as u64 * SWEEP_BACKOFF_MILLIS, 5000);
        assert!(events <= 50 * channels + 2);
        assert!(!h.accepts(&Event::Stop(false)));
    }
    assert_eq!(SWEEP_BACKOFF_MILLIS, 500);
}

/// Lets every attempt fail until the loop pauses or ends; returns the attempts.
fn fail_until(mut h: HopLoop, end: Action) -> (HopLoop, usize) {
    let mut failures = 0;
    while h.action() != end {
        let event = match h.action() {
            Action::PollStop => Event::Stop(false),
            Action::BackOff => Event::Slept,
            Action::Tune => {
                failures += 1;
                Event::Tuned(false)
            }
            other => panic!("{:?}", other),
        };
        h = step(h, event);
    }
    (h, failures)
}

#[test]
fn one_stream_clears_the_failures() {
    let mut h = HopLoop::new(2, 0);
    for _ in 0..9 {
        let (paused, failures) = fail_until(h, Action::BackOff);
        assert_eq!(failures, 2);
        h = step(paused, Event::Slept);
    }
    // The device comes back just in time, and is lost again after one dwell.
    h = step(h, Event::Tuned(true));
    h = step(h, Event::Opened(true));
    h = step(h, Event::Started(true));
    h = step(h, Event::Stop(false));
    h = step(h, Event::Timed { now: 1, deadline: Some(0) });
    h = step(h, Event::Closed);
    let (_, failures) = fail_until(h, Action::Exit(ExitReason::GaveUp));
    assert_eq!(failures, 20);
}

#[test]
fn long_runs_keep_their_books() {
    let mut seed: u64 = 12345;
    let mut random = move |n: u64| {
        seed = seed.wrapping_mul(6364136223846793005).wrapping_add(1442695040888963407);
        (seed >> 33) % n
    };
    for channels in [1usize, 2, 5] {
        let mut h = HopLoop::new(channels, 0);
        let (mut started, mut closed, mut received, mut settled) = (0, 0, 0, 0);
        let (mut tuned, mut since_poll, mut now) = (0usize, 0, 0i128);
        let mut last_report = 0i128;
        for _ in 0..20_000 {
            since_poll += 1;
            let event = match h.action() {
                Action::PollStop | Action::PollStopStreaming => {
                    assert!(since_poll <= 5);
                    since_poll = 0;
                    Event::Stop(false)
                }
                Action::BackOff => Event::Slept,
                Action::Tune => {
                    assert_eq!(started, closed);
                    assert_eq!(h.channel(), tuned % channels);
                    tuned += 1;
                    Event::Tuned(random(4) > 0)
                }
                Action::OpenStream => Event::Opened(random(4) > 0),
                Action::StartStream => {
                    let ok = random(4) > 0;
                    if ok {
                        started += 1;
                    }
                    Event::Started(ok)
                }
                Action::ReadClock => {
                    now += random(10_000_000_000) as i128;
                    Event::Timed { now, deadline: Some(now + 2 - random(4) as i128) }
                }
                Action::Receive => {
                    assert_eq!(received, settled);
                    received += 1;
                    match random(4) {
                        0 => Event::ReceiveFailed,
                        n => samples(n as usize - 1),
                    }
                }
                Action::Deliver { samples, overrun } => {
                    assert!(samples > 0 && !overrun);
                    settled += 1;
                    Event::Delivered(true)
                }
                Action::Recycle => {
                    settled += 1;
                    Event::Recycled
                }
                Action::Report { switches, elapsed } => {
                    assert!(switches >= 0);
                    assert!(elapsed >= REPORT_INTERVAL_NANOS);
                    assert_eq!(elapsed as i128, now - last_report);
                    last_report = now;
                    Event::Reported
                }
                Action::StopStream(after) => {
                    assert!(channels > 1);
                    assert_eq!(after, AfterStream::Hop);
                    closed += 1;
                    assert_eq!(started, closed);
                    Event::Closed
                }
                Action::Exit(reason) => panic!("{:?}", reason),
            };
            h = step(h, event);
        }
        assert!(last_report > 0);
        assert!(received > 1000);
    }
}

#[test]
fn channels_are_visited_in_turn() {
    let mut h = HopLoop::new(3, 0);
    assert_eq!(h.channels(), 3);
    for k in 0..7usize {
        assert_eq!(h.channel(), k % 3);
        if k % 2 == 0 {
            h = stream(h);
            h = step(h, Event::Stop(false));
            h = step(h, Event::Timed { now: 5, deadline: Some(5) });
            assert_eq!(h.action(), Action::StopStream(AfterStream::Hop));
            h = step(h, Event::Closed);
        } else {
            h = step(h, Event::Stop(false));
            h = step(h, Event::Tuned(false));
        }
        assert_eq!(h.action(), Action::PollStop);
    }
}

#[test]
fn dwell_lasts_until_the_deadline() {
    let h = stream(HopLoop::new(2, 0));
    let h = step(h, Event::Stop(false));
    assert!(!h.accepts(&Event::Timed { now: 1, deadline: None }));
    let h = step(h, Event::Timed { now: 9, deadline: Some(10) });
    assert_eq!(h.action(), Action::Receive);
    let h = step(h, samples(0));
    let h = step(h, Event::Recycled);
    let h = step(h, Event::Stop(false));
    let h = step(h, Event::Timed { now: 10, deadline: Some(10) });
    assert_eq!(h.action(), Action::StopStream(AfterStream::Hop));
}

#[test]
fn a_single_channel_never_hops() {
    let mut h = stream(HopLoop::new(1, 0));
    for now in 0..5 {
        h = step(h, Event::Stop(false));
        let deadline = if now % 2 == 0 { None } else { Some(-1) };
        h = step(h, Event::Timed { now, deadline });
        assert_eq!(h.action(), Action::Receive);
        h = step(h, samples(8));
        h = step(h, Event::Delivered(true));
        assert_eq!(h.action(), Action::PollStopStreaming);
    }
    assert_eq!(h.channel(), 0);
}

#[test]
fn received_samples_become_a_packet() {
    let h = receive_at(stream(HopLoop::new(2, 0)), 1);
    let h = step(h, samples(100));
    assert_eq!(h.action(), Action::Deliver { samples: 100, overrun: false });

    let h = receive_at(stream(HopLoop::new(2, 0)), 1);
    let fault = Some(ReceiveFault { kind: "Overflow".to_string(), text: String::new() });
    let h = step(h, Event::Received { samples: 70_000, fault });
    assert_eq!(h.action(), Action::Deliver { samples: 65_536, overrun: true });

    let h = receive_at(stream(HopLoop::new(2, 0)), 1);
    let h = step(h, samples(0));
    assert_eq!(h.action(), Action::Recycle);

    let h = receive_at(stream(HopLoop::new(2, 0)), 1);
    let h = step(h, Event::ReceiveFailed);
    assert_eq!(h.action(), Action::Recycle);
}

#[test]
fn stop_flag_ends_the_loop() {
    let h = step(HopLoop::new(2, 0), Event::Stop(true));
    assert_eq!(h.action(), Action::Exit(ExitReason::Stopped));

    let h = step(stream(HopLoop::new(2, 0)), Event::Stop(true));
    assert_eq!(h.action(), Action::StopStream(AfterStream::Exit(ExitReason::Stopped)));
    let h = step(h, Event::Closed);
    assert_eq!(h.action(), Action::Exit(ExitReason::Stopped));
}

#[test]
fn a_lost_receiver_ends_the_loop() {
    let h = receive_at(stream(HopLoop::new(2, 0)), 1);
    let h = step(h, samples(1));
    let h = step(h, Event::Delivered(false));
    assert_eq!(h.action(), Action::StopStream(AfterStream::Exit(ExitReason::ReceiverGone)));
    let h = step(h, Event::Closed);
    assert_eq!(h.action(), Action::Exit(ExitReason::ReceiverGone));
}

#[test]
fn reports_come_every_minute() {
    let minute = REPORT_INTERVAL_NANOS as i128;
    assert_eq!(minute, 60_000_000_000);
    let h = stream(HopLoop::new(2, 7));
    let h = step(h, Event::Stop(false));
    let h = step(h, Event::Timed { now: 8, deadline: Some(8) });
    let h = stream(step(h, Event::Closed));

    let h = step(receive_at(h, 7 + minute - 1), samples(4));
    let h = step(h, Event::Delivered(true));
    assert_eq!(h.action(), Action::PollStopStreaming);

    let h = step(receive_at(h, 7 + minute + 3), samples(4));
    let h = step(h, Event::Delivered(true));
    assert_eq!(h.action(), Action::Report { switches: 1, elapsed: REPORT_INTERVAL_NANOS + 3 });
    let h = step(h, Event::Reported);

    let h = step(receive_at(h, 7 + 2 * minute + 2), samples(0));
    let h = step(h, Event::Recycled);
    assert_eq!(h.action(), Action::PollStopStreaming);
    let h = step(receive_at(h, 7 + 2 * minute + 3), samples(0));
    let h = step(h, Event::Recycled);
    assert_eq!(h.action(), Action::Report { switches: 0, elapsed: REPORT_INTERVAL_NANOS });
}

#[test]
fn elapsed_time_is_exact_and_never_negative() {
    assert_eq!(elapsed(9, 4), 5);
    assert_eq!(elapsed(4, 9), 0);
    assert_eq!(elapsed(3, -4), 7);
    assert_eq!(elapsed(-4, -9), 5);
    assert_eq!(elapsed(i128::MAX, i128::MIN), u128::MAX);
}
