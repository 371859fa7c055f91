//! The fastest receive rate that a device supports.

use crate::binary64::{Binary64, Value};
use crate::config::{Failure, SdrError};
use vstd::prelude::*;

verus! {

/// What asking a device for its receive rates came to.
#[derive(Debug)]
pub enum RateProbe {
    /// The device could not be opened, with the driver's message.
    OpenFailed(String),
    /// The rates could not be read, with the driver's message.
    RatesFailed(String),
    /// The upper end of the rates could not be read, with the driver's message.
    StopFailed(String),
    /// The upper end of the rates.
    Highest(Binary64),
}

/// The failure that a probe ends in, if it does. A rate that is not a number is let
/// through.
pub open spec fn probe_failure(probe: RateProbe) -> Option<Failure> {
    match probe {
        RateProbe::OpenFailed(e) => Some(Failure::Io("USRP open failed: "@ + e@)),
        RateProbe::RatesFailed(e) => Some(Failure::Io("get_rx_sample_rates failed: "@ + e@)),
        RateProbe::StopFailed(e) => Some(Failure::Io("MetaRange::stop() failed: "@ + e@)),
        RateProbe::Highest(rate) => if rate@.le(Value::whole(0)) {
            Some(Failure::BadConfig("USRP returned no valid RX sample rates"@))
        } else {
            None
        },
    }
}

/// The fastest receive rate that a probed device supports.
pub fn query_max_rx_rate(probe: RateProbe) -> (r: Result<Binary64, SdrError>)
    ensures
        r is Ok <==> (probe matches RateProbe::Highest(rate) && !rate@.le(Value::whole(0))),
        probe matches RateProbe::OpenFailed(e) ==> (r matches Err(SdrError::Io(m)) && m@
            == "USRP open failed: "@ + e@),
        probe matches RateProbe::RatesFailed(e) ==> (r matches Err(SdrError::Io(m)) && m@
            == "get_rx_sample_rates failed: "@ + e@),
        probe matches RateProbe::StopFailed(e) ==> (r matches Err(SdrError::Io(m)) && m@
            == "MetaRange::stop() failed: "@ + e@),
        probe is Highest && r is Err ==> (r matches Err(SdrError::BadConfig(m)) && m@
            == "USRP returned no valid RX sample rates"@),
        r is Ok <==> probe_failure(probe) is None,
        r matches Ok(rate) ==> probe == RateProbe::Highest(rate),
        r matches Err(e) ==> probe_failure(probe) == Some(e@),
{
    match probe {
        RateProbe::OpenFailed(e) => Err(
            SdrError::Io("USRP open failed: ".to_owned().concat(e.as_str())),
        ),
        RateProbe::RatesFailed(e) => Err(
            SdrError::Io("get_rx_sample_rates failed: ".to_owned().concat(e.as_str())),
        ),
        RateProbe::StopFailed(e) => Err(
            SdrError::Io("MetaRange::stop() failed: ".to_owned().concat(e.as_str())),
        ),
        RateProbe::Highest(rate) => {
            if rate.le(Binary64::zero()) {
                Err(SdrError::BadConfig("USRP returned no valid RX sample rates".to_owned()))
            } else {
                Ok(rate)
            }
        },
    }
}

/// A rate that was read is good exactly when it is not zero or less, however high it is:
/// if a device's highest rate is good, so is that of any device that is faster.
pub proof fn law_any_positive_rate_is_good(rate: Binary64, faster: Binary64)
    ensures
        probe_failure(RateProbe::Highest(rate)) is None <==> !rate@.le(Value::whole(0)),
        probe_failure(RateProbe::Highest(rate)) is None && rate@.le(faster@) ==> probe_failure(
            RateProbe::Highest(faster),
        ) is None,
        rate@ is PlusInfinity || rate@ is NotANumber ==> probe_failure(RateProbe::Highest(rate))
            is None,
        probe_failure(RateProbe::Highest(rate)) is Some ==> probe_failure(RateProbe::Highest(rate))
            == Some(Failure::BadConfig("USRP returned no valid RX sample rates"@)),
{
}

/// A driver call that failed fails the probe, as a failure of the device, whatever its
/// message: which call it was, then the driver's own words.
pub proof fn law_driver_failures_are_passed_on(e: String)
    ensures
        probe_failure(RateProbe::OpenFailed(e)) == Some(Failure::Io("USRP open failed: "@ + e@)),
        probe_failure(RateProbe::RatesFailed(e)) == Some(
            Failure::Io("get_rx_sample_rates failed: "@ + e@),
        ),
        probe_failure(RateProbe::StopFailed(e)) == Some(
            Failure::Io("MetaRange::stop() failed: "@ + e@),
        ),
{
}

/// What a probe comes to: the rate that was read, unchanged, exactly when there is one
/// and it is not zero or less.
pub proof fn law_answers_of_a_probe(probe: RateProbe, r: Result<Binary64, SdrError>)
    requires
        call_ensures(query_max_rx_rate, (probe,), r),
    ensures
        r matches Ok(rate) ==> probe == RateProbe::Highest(rate),
        probe matches RateProbe::Highest(rate) ==> (r == Ok::<Binary64, SdrError>(rate)
            <==> !rate@.le(Value::whole(0))),
        r is Err ==> (r->Err_0 is BadConfig <==> probe is Highest),
        r is Err ==> (r->Err_0 is Io <==> !(probe is Highest)),
{
}

} // verus!
