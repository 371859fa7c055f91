//! The source: how the device is addressed and configured.

use crate::binary64::{lemma_whole_encoding, Binary64, Value};
use crate::clock::{decimation_for, select_master_clock};
use crate::config::{config_failure, validate_source_config, SdrError};
use crate::setup::{Setup, SetupAction};
use vstd::arithmetic::power2::lemma2_to64_rest;
use vstd::prelude::*;

verus! {

/// A USRP source.
#[derive(Debug)]
pub struct UsrpSource {
    /// Device arguments. None let the driver find a device by itself; common ones are
    /// `type=b200` and `serial=320XXXX`.
    pub args: String,
    /// Receive gain in decibels. A B210 takes 0 to 76; the default of 40 does not
    /// saturate on strong ambient traffic.
    pub gain_db: Binary64,
    /// Receive antenna port. A B210 has `RX1` and `RX2`, a B205mini only `RX2`.
    pub antenna: String,
}

impl Default for UsrpSource {
    fn default() -> (r: UsrpSource)
        ensures
            r.args@ == Seq::<char>::empty(),
            r.gain_db@ == Value::whole(40),
            !r.gain_db.negative(),
            r.antenna@ == "RX2"@,
    {
        let gain_db = Binary64 { bits: 0x4044000000000000 };
        proof {
            lemma2_to64_rest();
            lemma_whole_encoding(gain_db, 40, 47);
        }
        UsrpSource { args: String::new(), gain_db, antenna: "RX2".to_owned() }
    }
}

impl UsrpSource {
    /// Begins to start the source: checks the request, before any hardware is touched,
    /// and selects the clock. What is to be done first is to look for devices.
    pub fn start(&self, num_channels: usize, sample_rate: Binary64) -> (r: Result<Setup, SdrError>)
        ensures
            r is Ok <==> num_channels > 0 && !sample_rate@.le(Value::whole(0)),
            num_channels == 0 ==> (r matches Err(SdrError::BadConfig(m)) && m@
                == "SourceConfig.channels_hz must not be empty"@),
            num_channels > 0 && sample_rate@.le(Value::whole(0)) ==> (r matches Err(
                SdrError::BadConfig(m),
            ) && m@ == "SourceConfig.sample_rate_hz must be > 0"@),
            r is Ok <==> config_failure(num_channels as nat, sample_rate@) is None,
            r matches Ok(s) ==> {
                &&& s.action == SetupAction::FindDevices
                &&& s.decimation == decimation_for(sample_rate@)
                &&& s.master_clock@ == sample_rate@.scaled(s.decimation as int)
                &&& s.master_clock.negative() == sample_rate.negative()
                &&& s.decimation == 1 ==> s.master_clock == sample_rate
            },
            r matches Err(e) ==> config_failure(num_channels as nat, sample_rate@) == Some(e@),
    {
        match validate_source_config(num_channels, sample_rate) {
            Err(e) => Err(e),
            Ok(()) => {
                let (master_clock, decimation) = select_master_clock(sample_rate);
                Ok(Setup { master_clock, decimation, action: SetupAction::FindDevices })
            },
        }
    }

    /// The arguments to open the device with: the source's own, if it has any, and the
    /// master clock rate, given as the text that stands for it.
    pub fn device_args(&self, master_clock: &str) -> (r: String)
        ensures
            r@ == if self.args@.len() == 0 {
                "master_clock_rate="@ + master_clock@
            } else {
                self.args@ + ",master_clock_rate="@ + master_clock@
            },
    {
        if self.args.as_str().is_empty() {
            "master_clock_rate=".to_owned().concat(master_clock)
        } else {
            self.args.as_str().to_owned().concat(",master_clock_rate=").concat(master_clock)
        }
    }
}

/// The arguments end in the clock rate that was asked for, and begin with the source's
/// own if it has any; nothing stands between the two but a comma.
pub proof fn law_device_args(source: UsrpSource, clock: &str, r: String)
    requires
        call_ensures(UsrpSource::device_args, (&source, clock), r),
    ensures
        source.args@ == Seq::<char>::empty() ==> r@ == "master_clock_rate="@ + clock@,
        source.args@ != Seq::<char>::empty() ==> r@ == source.args@ + ",master_clock_rate="@
            + clock@,
{
    if source.args@.len() == 0 {
        assert(source.args@ =~= Seq::<char>::empty());
    }
}

/// A start that is not refused begins with the search for devices, at a clock that is
/// the sample rate times one, two or four. It is refused exactly when there is no
/// channel or the rate is zero or less, whatever the source's own settings are.
pub proof fn law_started_sources(
    source: UsrpSource,
    other: UsrpSource,
    num_channels: usize,
    sample_rate: Binary64,
    a: Result<Setup, SdrError>,
    b: Result<Setup, SdrError>,
)
    requires
        call_ensures(UsrpSource::start, (&source, num_channels, sample_rate), a),
        call_ensures(UsrpSource::start, (&other, num_channels, sample_rate), b),
    ensures
        a is Ok <==> num_channels > 0 && !sample_rate@.le(Value::whole(0)),
        a is Ok <==> b is Ok,
        a matches Ok(s) ==> {
            &&& s.action is FindDevices
            &&& s.decimation == 1 || s.decimation == 2 || s.decimation == 4
            &&& s.master_clock@ == sample_rate@.scaled(s.decimation as int)
            &&& s.decimation == b->Ok_0.decimation
        },
{
}

} // verus!
