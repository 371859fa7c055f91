use crossbeam::channel;
use num_complex::Complex32;
use orecchiette_sdr_usrp::buffers::{borrow_buffer, fresh, lend, restore, trim, CHUNK_SAMPLES};
use orecchiette_sdr_usrp::overrun::{is_overrun, ReceiveFault};

fn silence() -> Complex32 {
    Complex32::new(0.0, 0.0)
}

#[test]
fn recycled_buffer_resize_matches_pooled_iq_buffer_drop_semantics() {
    // A packet buffer is cleared before it is recycled: len 0, capacity retained.
    // Restoring it must bring back a full-length buffer without reallocating.
    let mut cleared = Vec::with_capacity(65536);
    cleared.resize(65536, Complex32::new(1.0, 1.0));
    cleared.clear();
    let cap_before = cleared.capacity();

    restore(&mut cleared, Complex32::new(0.0, 0.0));
    assert_eq!(cleared.len(), 65536);
    assert_eq!(cleared.capacity(), cap_before, "resize must not reallocate");
    assert_eq!(cleared[0], Complex32::new(0.0, 0.0));

    // A buffer put back at full length keeps its (stale but initialized) contents.
    let mut full = vec![Complex32::new(3.0, 4.0); 65536];
    restore(&mut full, Complex32::new(0.0, 0.0));
    assert_eq!(full[0], Complex32::new(3.0, 4.0));
}

#[test]
fn restoring_cuts_what_is_too_long_and_fills_what_is_too_short() {
    let mut long = vec![7u8; CHUNK_SAMPLES + 3];
    restore(&mut long, 0);
    assert_eq!(long, vec![7u8; CHUNK_SAMPLES]);

    let mut short = vec![7u8; 2];
    restore(&mut short, 1);
    assert_eq!(short.len(), CHUNK_SAMPLES);
    assert_eq!(short[1], 7);
    assert_eq!(short[2], 1);
    assert_eq!(short[CHUNK_SAMPLES - 1], 1);
}

#[test]
fn fresh_buffers_are_silent_and_full() {
    let b = fresh(silence());
    assert_eq!(b.len(), CHUNK_SAMPLES);
    assert!(b.iter().all(|s| *s == silence()));
    assert_eq!(lend(None, silence()), b);
}

#[test]
fn an_emptied_buffer_is_lent_as_if_new() {
    let mut used = vec![5u32; CHUNK_SAMPLES];
    used.clear();
    assert_eq!(lend(Some(used), 0), fresh(0u32));
}

#[test]
fn a_full_buffer_is_lent_as_it_is() {
    let used: Vec<usize> = (0..CHUNK_SAMPLES).collect();
    assert_eq!(lend(Some(used.clone()), 9), used);
}

#[test]
fn buffers_come_from_the_pool_while_it_has_any() {
    let (tx, rx) = channel::bounded::<Vec<u8>>(4);
    tx.send(vec![3u8; 10]).unwrap();
    let first = borrow_buffer(&rx, 0);
    assert_eq!(first.len(), CHUNK_SAMPLES);
    assert_eq!(first[9], 3);
    assert_eq!(first[10], 0);
    // The pool is empty, and then gone.
    assert_eq!(borrow_buffer(&rx, 2), vec![2u8; CHUNK_SAMPLES]);
    drop(tx);
    assert_eq!(borrow_buffer(&rx, 4), vec![4u8; CHUNK_SAMPLES]);
}

#[test]
fn trimming_keeps_what_was_received() {
    let mut b = vec![1, 2, 3, 4];
    trim(&mut b, 3);
    assert_eq!(b, vec![1, 2, 3]);
    trim(&mut b, 9);
    assert_eq!(b, vec![1, 2, 3]);
}

fn fault(kind: &str, text: &str) -> Option<ReceiveFault> {
    Some(ReceiveFault { kind: kind.to_string(), text: text.to_string() })
}

#[test]
fn overruns_are_flagged() {
    assert!(!is_overrun(&None));
    assert!(is_overrun(&fault("Overflow", "An internal receive buffer has been filled")));
    assert!(is_overrun(&fault(
        "Overflow",
        "An internal receive buffer has been filled: ERROR_CODE_OVERFLOW (Overflow)"
    )));
    assert!(is_overrun(&fault("Other", "Other error: Overflow")));
    assert!(!is_overrun(&fault("Other", "Other error: overflow")));
    assert!(!is_overrun(&fault("Timeout", "No packet received")));
    assert!(!is_overrun(&fault(
        "OutOfSequence",
        "Sequence error: ERROR_CODE_OVERFLOW (Out of sequence error)"
    )));
}
