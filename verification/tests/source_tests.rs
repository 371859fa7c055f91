use orecchiette_sdr_usrp::binary64::Binary64;
use orecchiette_sdr_usrp::clock::{half_bits_gained, master_clock_ceiling, select_master_clock};
use orecchiette_sdr_usrp::config::{validate_source_config, SdrError};
use orecchiette_sdr_usrp::probe::{query_max_rx_rate, RateProbe};
use orecchiette_sdr_usrp::setup::{Setup, SetupAction, SetupReply, ShownSettings};
use orecchiette_sdr_usrp::source::UsrpSource;

fn of(x: f64) -> Binary64 {
    Binary64 { bits: x.to_bits() }
}

fn to(x: Binary64) -> f64 {
    f64::from_bits(x.bits)
}

fn shown() -> ShownSettings {
    ShownSettings {
        sample_rate: "2000000".to_string(),
        gain: "40".to_string(),
        antenna: "RX2".to_string(),
    }
}

fn setup() -> Setup {
    UsrpSource::default().start(1, of(2_000_000.0)).unwrap()
}

/// A setup that is as far as `action`.
fn setup_at(action: SetupAction) -> Setup {
    let mut s = setup();
    while s.action != action {
        let reply = if s.action == SetupAction::FindDevices {
            SetupReply::Found(1)
        } else {
            SetupReply::Done
        };
        assert!(s.accepts(&reply));
        s = s.step(&shown(), reply).unwrap();
    }
    s
}

fn values() -> Vec<f64> {
    let mut v = vec![
        0.0,
        -0.0,
        f64::from_bits(1),
        f64::from_bits((1u64 << 51) - 1),
        f64::from_bits(1u64 << 51),
        f64::from_bits((1u64 << 52) - 1),
        f64::MIN_POSITIVE,
        1.0,
        1.5,
        15.36e6,
        15.36e6 + 0.000001,
        30.72e6,
        61.44e6,
        61.44e6 + 0.00001,
        122.88e6,
        f64::MAX / 4.0,
        f64::MAX / 2.0,
        f64::MAX,
        f64::INFINITY,
        f64::NAN,
    ];
    let negated: Vec<f64> = v.iter().map(|x| -x).collect();
    v.extend(negated);
    v
}

#[test]
fn validate_source_config_rejects_empty_channels() {
    let err = validate_source_config(0, of(2_000_000.0)).unwrap_err();
    assert!(matches!(err, SdrError::BadConfig(_)));
}

#[test]
fn validate_source_config_rejects_non_positive_sample_rate() {
    assert!(validate_source_config(1, of(0.0)).is_err());
    assert!(validate_source_config(1, of(-1.0)).is_err());
}

#[test]
fn validate_source_config_accepts_sane_input() {
    assert!(validate_source_config(4, of(2_000_000.0)).is_ok());
}

#[test]
fn select_master_clock_prefers_4x_within_ceiling() {
    // 10 MSPS * 4 = 40 MHz, under the 61.44 MHz ceiling.
    let (clock, decimation) = select_master_clock(of(10_000_000.0));
    assert_eq!(decimation, 4);
    assert!((to(clock) - 40_000_000.0).abs() < 1.0);
}

#[test]
fn select_master_clock_falls_back_to_2x() {
    // 20 MSPS * 4 = 80 MHz (over ceiling); * 2 = 40 MHz (under).
    let (clock, decimation) = select_master_clock(of(20_000_000.0));
    assert_eq!(decimation, 2);
    assert!((to(clock) - 40_000_000.0).abs() < 1.0);
}

#[test]
fn select_master_clock_falls_back_to_1x_at_the_ceiling() {
    // 61.44 MSPS: neither *4 nor *2 fit, so no decimation.
    let (clock, decimation) = select_master_clock(of(61.44e6));
    assert_eq!(decimation, 1);
    assert!((to(clock) - 61.44e6).abs() < 1.0);
}

#[test]
fn a_quarter_of_the_ceiling_runs_at_the_ceiling() {
    let (clock, decimation) = select_master_clock(of(15.36e6));
    assert_eq!(decimation, 4);
    assert_eq!(to(clock), 61.44e6);
}

#[test]
fn clock_selection_matches_double_arithmetic() {
    for x in values() {
        let expected = if x * 4.0 <= 61.44e6 {
            (x * 4.0, 4)
        } else if x * 2.0 <= 61.44e6 {
            (x * 2.0, 2)
        } else {
            (x, 1)
        };
        let (clock, decimation) = select_master_clock(of(x));
        assert_eq!(clock.bits, expected.0.to_bits());
        assert_eq!(decimation, expected.1);
    }
}

#[test]
fn comparison_and_doubling_match_double_arithmetic() {
    for a in values() {
        for b in values() {
            assert_eq!(of(a).le(of(b)), a <= b);
        }
        if !a.is_nan() {
            assert_eq!(of(a).doubled().bits, (2.0 * a).to_bits());
        }
    }
    assert!(to(of(f64::NAN).doubled()).is_nan());
    assert_eq!(to(Binary64::zero()), 0.0);
    assert_eq!(to(master_clock_ceiling()), 61.44e6);
}

#[test]
fn decimation_adds_half_a_bit_per_doubling() {
    assert_eq!(half_bits_gained(1), 0);
    assert_eq!(half_bits_gained(2), 1);
    assert_eq!(half_bits_gained(4), 2);
}

#[test]
fn clock_stays_within_the_ceiling_and_falls_with_the_rate() {
    let mut last = 4;
    for hz in [1.0, 15.36e6, 15.37e6, 30.72e6, 30.73e6, 61.44e6] {
        let (clock, decimation) = select_master_clock(of(hz));
        assert!(to(clock) <= 61.44e6);
        assert_eq!(to(clock), hz * decimation as f64);
        assert!(decimation <= last);
        last = decimation;
    }
    assert_eq!(last, 1);
}

#[test]
fn rejected_requests_say_why() {
    match validate_source_config(0, of(-1.0)) {
        Err(SdrError::BadConfig(m)) => {
            assert_eq!(m, "SourceConfig.channels_hz must not be empty")
        }
        other => panic!("{:?}", other),
    }
    match validate_source_config(3, of(-0.0)) {
        Err(SdrError::BadConfig(m)) => {
            assert_eq!(m, "SourceConfig.sample_rate_hz must be > 0")
        }
        other => panic!("{:?}", other),
    }
    assert!(validate_source_config(1, of(f64::NAN)).is_ok());
    assert!(validate_source_config(1, of(f64::NEG_INFINITY)).is_err());
    assert!(validate_source_config(1, of(f64::from_bits(1))).is_ok());
}

#[test]
fn default_source() {
    let s = UsrpSource::default();
    assert_eq!(s.args, "");
    assert_eq!(to(s.gain_db), 40.0);
    assert_eq!(s.antenna, "RX2");
}

#[test]
fn start_checks_the_request_before_any_device_is_looked_for() {
    let s = UsrpSource::default();
    assert!(matches!(s.start(0, of(1e6)), Err(SdrError::BadConfig(_))));
    assert!(matches!(s.start(2, of(0.0)), Err(SdrError::BadConfig(_))));
    let begun = s.start(2, of(20e6)).unwrap();
    assert_eq!(begun.action, SetupAction::FindDevices);
    assert_eq!(begun.decimation, 2);
    assert_eq!(to(begun.master_clock), 40e6);
}

#[test]
fn device_args_carry_the_clock() {
    let mut s = UsrpSource::default();
    assert_eq!(s.device_args("40000000"), "master_clock_rate=40000000");
    s.args = "type=b200".to_string();
    assert_eq!(s.device_args("40000000"), "type=b200,master_clock_rate=40000000");
}

#[test]
fn setup_takes_its_steps_in_order() {
    let mut s = setup();
    let order = [
        SetupAction::FindDevices,
        SetupAction::OpenDevice,
        SetupAction::SetSampleRate,
        SetupAction::SetGain,
        SetupAction::SetAntenna,
    ];
    for expected in order {
        assert_eq!(s.action, expected);
        let reply = if expected == SetupAction::FindDevices {
            SetupReply::Found(2)
        } else {
            SetupReply::Done
        };
        s = s.step(&shown(), reply).unwrap();
    }
    assert_eq!(s.action, SetupAction::Capture);
    assert!(!s.accepts(&SetupReply::Done));
    assert_eq!(to(s.master_clock), 8e6);
    assert_eq!(s.decimation, 4);
}

#[test]
fn setup_failures_name_their_step() {
    let fail = |action: SetupAction| {
        setup_at(action).step(&shown(), SetupReply::Failed("boom".to_string())).unwrap_err()
    };
    match fail(SetupAction::FindDevices) {
        SdrError::Io(m) => assert_eq!(m, "USRP find failed: boom"),
        other => panic!("{:?}", other),
    }
    match fail(SetupAction::OpenDevice) {
        SdrError::Io(m) => assert_eq!(m, "USRP open failed: boom"),
        other => panic!("{:?}", other),
    }
    match fail(SetupAction::SetSampleRate) {
        SdrError::BadConfig(m) => assert_eq!(m, "set_rx_sample_rate(2000000): boom"),
        other => panic!("{:?}", other),
    }
    match fail(SetupAction::SetGain) {
        SdrError::BadConfig(m) => assert_eq!(m, "set_rx_gain(40): boom"),
        other => panic!("{:?}", other),
    }
    match fail(SetupAction::SetAntenna) {
        SdrError::BadConfig(m) => assert_eq!(m, "set_rx_antenna(RX2): boom"),
        other => panic!("{:?}", other),
    }
}

#[test]
fn no_device_is_not_found() {
    match setup().step(&shown(), SetupReply::Found(0)) {
        Err(SdrError::NotFound(m)) => assert_eq!(
            m,
            "No USRP devices found. Ensure the USRP is connected and powered on."
        ),
        other => panic!("{:?}", other),
    }
}

#[test]
fn setup_replies_match_their_step() {
    assert!(!setup().accepts(&SetupReply::Done));
    assert!(setup().accepts(&SetupReply::Failed(String::new())));
    assert!(!setup_at(SetupAction::SetGain).accepts(&SetupReply::Found(1)));
}

#[test]
fn probed_rates() {
    assert_eq!(to(query_max_rx_rate(RateProbe::Highest(of(61.44e6))).unwrap()), 61.44e6);
    match query_max_rx_rate(RateProbe::Highest(of(0.0))) {
        Err(SdrError::BadConfig(m)) => {
            assert_eq!(m, "USRP returned no valid RX sample rates")
        }
        other => panic!("{:?}", other),
    }
    match query_max_rx_rate(RateProbe::OpenFailed("e".to_string())) {
        Err(SdrError::Io(m)) => assert_eq!(m, "USRP open failed: e"),
        other => panic!("{:?}", other),
    }
    match query_max_rx_rate(RateProbe::RatesFailed("e".to_string())) {
        Err(SdrError::Io(m)) => assert_eq!(m, "get_rx_sample_rates failed: e"),
        other => panic!("{:?}", other),
    }
    match query_max_rx_rate(RateProbe::StopFailed("e".to_string())) {
        Err(SdrError::Io(m)) => assert_eq!(m, "MetaRange::stop() failed: e"),
        other => panic!("{:?}", other),
    }
}
