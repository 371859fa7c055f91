//! Errors of the source, and the check of a request before any hardware is touched.

use crate::binary64::{Binary64, Value};
use vstd::prelude::*;

verus! {

/// What can go wrong with a source, each with a message.
#[derive(Debug)]
pub enum SdrError {
    /// The request cannot be carried out as it stands.
    BadConfig(String),
    /// There is no such device.
    NotFound(String),
    /// The device or its driver failed.
    Io(String),
}

/// An [`SdrError`], with its message as a sequence of characters.
pub enum Failure {
    BadConfig(Seq<char>),
    NotFound(Seq<char>),
    Io(Seq<char>),
}

impl View for SdrError {
    type V = Failure;

    open spec fn view(&self) -> Failure {
        match self {
            SdrError::BadConfig(m) => Failure::BadConfig(m@),
            SdrError::NotFound(m) => Failure::NotFound(m@),
            SdrError::Io(m) => Failure::Io(m@),
        }
    }
}

/// What is wrong with a request for so many channels at this sample rate, if anything.
/// The lack of channels is noticed first. A rate that is not a number is let through.
pub open spec fn config_failure(num_channels: nat, sample_rate: Value) -> Option<Failure> {
    if num_channels == 0 {
        Some(Failure::BadConfig("SourceConfig.channels_hz must not be empty"@))
    } else if sample_rate.le(Value::whole(0)) {
        Some(Failure::BadConfig("SourceConfig.sample_rate_hz must be > 0"@))
    } else {
        None
    }
}

/// Rejects an empty channel list or a non-positive sample rate.
pub fn validate_source_config(num_channels: usize, sample_rate: Binary64) -> (r: Result<
    (),
    SdrError,
>)
    ensures
        r is Ok <==> num_channels > 0 && !sample_rate@.le(Value::whole(0)),
        num_channels == 0 ==> (r matches Err(SdrError::BadConfig(m)) && m@
            == "SourceConfig.channels_hz must not be empty"@),
        num_channels > 0 && sample_rate@.le(Value::whole(0)) ==> (r matches Err(
            SdrError::BadConfig(m),
        ) && m@ == "SourceConfig.sample_rate_hz must be > 0"@),
        r is Ok <==> config_failure(num_channels as nat, sample_rate@) is None,
        r matches Err(e) ==> config_failure(num_channels as nat, sample_rate@) == Some(e@),
{
    if num_channels == 0 {
        return Err(
            SdrError::BadConfig("SourceConfig.channels_hz must not be empty".to_owned()),
        );
    }
    if sample_rate.le(Binary64::zero()) {
        return Err(SdrError::BadConfig("SourceConfig.sample_rate_hz must be > 0".to_owned()));
    }
    Ok(())
}

/// A request is in order exactly when it names a channel and its rate is not zero or
/// less. There is no upper limit on either: one more channel, or a faster rate, never
/// turns a request that is in order into one that is not.
pub proof fn law_requests_in_order(num_channels: nat, sample_rate: Value)
    ensures
        config_failure(num_channels, sample_rate) is None <==> num_channels > 0
            && !sample_rate.le(Value::whole(0)),
        config_failure(num_channels, sample_rate) is None ==> config_failure(
            num_channels + 1,
            sample_rate,
        ) is None,
        forall|faster: Value|
            config_failure(num_channels, sample_rate) is None && sample_rate.le(faster)
                ==> #[trigger] config_failure(num_channels, faster) is None,
{
}

/// Every whole number of hertz above zero is accepted, for any number of channels, and
/// none from zero down is.
pub proof fn law_positive_rates_are_accepted(num_channels: nat, hz: int)
    requires
        num_channels > 0,
    ensures
        config_failure(num_channels, Value::whole(hz)) is None <==> hz > 0,
{
    let one = vstd::arithmetic::power2::pow2(1074) as int;
    vstd::arithmetic::power2::lemma_pow2_pos(1074);
    assert(hz * one <= 0 * one <==> hz <= 0) by (nonlinear_arith)
        requires
            one > 0,
    ;
}

/// A request that is not in order is a bad one, never a missing or a failing device. It
/// is the channels that are complained of if there are none, whatever the rate, and the
/// rate otherwise, whatever the channels.
pub proof fn law_complaint_names_what_is_wrong(num_channels: nat, sample_rate: Value)
    requires
        config_failure(num_channels, sample_rate) is Some,
    ensures
        num_channels == 0 ==> config_failure(num_channels, sample_rate)->0 == Failure::BadConfig(
            "SourceConfig.channels_hz must not be empty"@,
        ),
        num_channels > 0 ==> config_failure(num_channels, sample_rate)->0 == Failure::BadConfig(
            "SourceConfig.sample_rate_hz must be > 0"@,
        ),
{
}

/// An error and its view are of the same sort and say the same.
pub proof fn law_errors_are_what_they_say(message: String)
    ensures
        SdrError::BadConfig(message)@ == Failure::BadConfig(message@),
        SdrError::NotFound(message)@ == Failure::NotFound(message@),
        SdrError::Io(message)@ == Failure::Io(message@),
{
}

/// What the check answers: a request is let through exactly when it has a channel and a
/// rate that is not zero or less.
pub proof fn law_answers_of_the_check(
    num_channels: usize,
    sample_rate: Binary64,
    r: Result<(), SdrError>,
)
    requires
        call_ensures(validate_source_config, (num_channels, sample_rate), r),
    ensures
        r is Ok <==> num_channels > 0 && !sample_rate@.le(Value::whole(0)),
        r is Err ==> r->Err_0 is BadConfig,
{
}

} // verus!
