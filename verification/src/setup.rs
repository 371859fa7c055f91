//! Bringing the device up, step by step.
//!
//! The caller performs the pending [`SetupAction`] and hands back the [`SetupReply`].
//! The first failure ends the setup with an error.

use crate::binary64::Binary64;
use crate::config::{Failure, SdrError};
use vstd::prelude::*;

verus! {

/// What is to be done next with the device.
#[derive(Clone, Copy, Debug, PartialEq, Eq, Structural)]
pub enum SetupAction {
    /// Look for devices.
    FindDevices,
    /// Open the device.
    OpenDevice,
    /// Set the sample rate.
    SetSampleRate,
    /// Set the gain.
    SetGain,
    /// Select the antenna port.
    SetAntenna,
    /// The device is up: start to capture.
    Capture,
}

/// What came of a setup action.
#[derive(Debug)]
pub enum SetupReply {
    /// So many devices were found.
    Found(usize),
    /// The action succeeded.
    Done,
    /// The action failed, with the driver's message.
    Failed(String),
}

/// The settings, as messages show them.
#[derive(Debug)]
pub struct ShownSettings {
    pub sample_rate: String,
    pub gain: String,
    pub antenna: String,
}

impl SetupAction {
    /// Whether `reply` can come of this action.
    pub open spec fn answered_by(self, reply: SetupReply) -> bool {
        match self {
            SetupAction::FindDevices => !(reply is Done),
            SetupAction::Capture => false,
            _ => !(reply is Found),
        }
    }

    /// The action that follows when this one succeeds.
    pub open spec fn successor(self) -> SetupAction {
        match self {
            SetupAction::FindDevices => SetupAction::OpenDevice,
            SetupAction::OpenDevice => SetupAction::SetSampleRate,
            SetupAction::SetSampleRate => SetupAction::SetGain,
            SetupAction::SetGain => SetupAction::SetAntenna,
            SetupAction::SetAntenna => SetupAction::Capture,
            SetupAction::Capture => SetupAction::Capture,
        }
    }

    /// The failure that is reported when this action fails with `message`.
    pub open spec fn failure(self, shown: ShownSettings, message: Seq<char>) -> Failure {
        match self {
            SetupAction::FindDevices => Failure::Io("USRP find failed: "@ + message),
            SetupAction::OpenDevice => Failure::Io("USRP open failed: "@ + message),
            SetupAction::SetSampleRate => Failure::BadConfig(
                "set_rx_sample_rate("@ + shown.sample_rate@ + "): "@ + message,
            ),
            SetupAction::SetGain => Failure::BadConfig(
                "set_rx_gain("@ + shown.gain@ + "): "@ + message,
            ),
            _ => Failure::BadConfig("set_rx_antenna("@ + shown.antenna@ + "): "@ + message),
        }
    }

    /// What follows `reply`: the next action, or the failure that ends the setup.
    pub open spec fn next(self, shown: ShownSettings, reply: SetupReply) -> Result<
        SetupAction,
        Failure,
    > {
        match reply {
            SetupReply::Failed(message) => Err(self.failure(shown, message@)),
            SetupReply::Found(0) => Err(
                Failure::NotFound(
                    "No USRP devices found. Ensure the USRP is connected and powered on."@,
                ),
            ),
            _ => Ok(self.successor()),
        }
    }
}

/// `call(setting): message`, as a message shows a setting that was not taken.
fn refused(call: &str, setting: &String, message: &String) -> (r: SdrError)
    ensures
        r@ == Failure::BadConfig(call@ + setting@ + "): "@ + message@),
{
    SdrError::BadConfig(
        call.to_owned().concat(setting.as_str()).concat("): ").concat(message.as_str()),
    )
}

/// A setup under way: the clock that was selected, and what is pending.
#[derive(Clone, Copy, Debug)]
pub struct Setup {
    pub master_clock: Binary64,
    pub decimation: u32,
    pub action: SetupAction,
}

impl Setup {
    /// Whether `reply` can come of the pending action.
    pub fn accepts(&self, reply: &SetupReply) -> (r: bool)
        ensures
            r == self.action.answered_by(*reply),
    {
        match (self.action, reply) {
            (SetupAction::Capture, _) => false,
            (SetupAction::FindDevices, SetupReply::Done) => false,
            (SetupAction::FindDevices, _) => true,
            (_, SetupReply::Found(_)) => false,
            _ => true,
        }
    }

    /// Takes in what came of the pending action.
    pub fn step(self, shown: &ShownSettings, reply: SetupReply) -> (r: Result<Setup, SdrError>)
        requires
            self.action.answered_by(reply),
        ensures
            r is Ok <==> !(reply is Failed) && reply != SetupReply::Found(0),
            r is Ok <==> self.action.next(*shown, reply) is Ok,
            r matches Ok(s) ==> {
                &&& self.action.next(*shown, reply) == Ok::<SetupAction, Failure>(s.action)
                &&& s.master_clock == self.master_clock
                &&& s.decimation == self.decimation
            },
            r matches Err(e) ==> self.action.next(*shown, reply) == Err::<SetupAction, Failure>(
                e@,
            ),
    {
        match reply {
            SetupReply::Failed(message) => Err(
                match self.action {
                    SetupAction::FindDevices => SdrError::Io(
                        "USRP find failed: ".to_owned().concat(message.as_str()),
                    ),
                    SetupAction::OpenDevice => SdrError::Io(
                        "USRP open failed: ".to_owned().concat(message.as_str()),
                    ),
                    SetupAction::SetSampleRate => refused(
                        "set_rx_sample_rate(",
                        &shown.sample_rate,
                        &message,
                    ),
                    SetupAction::SetGain => refused("set_rx_gain(", &shown.gain, &message),
                    _ => refused("set_rx_antenna(", &shown.antenna, &message),
                },
            ),
            SetupReply::Found(0) => Err(
                SdrError::NotFound(
                    "No USRP devices found. Ensure the USRP is connected and powered on.".to_owned(),
                ),
            ),
            _ => {
                let action = match self.action {
                    SetupAction::FindDevices => SetupAction::OpenDevice,
                    SetupAction::OpenDevice => SetupAction::SetSampleRate,
                    SetupAction::SetSampleRate => SetupAction::SetGain,
                    SetupAction::SetGain => SetupAction::SetAntenna,
                    _ => SetupAction::Capture,
                };
                Ok(Setup { action, ..self })
            },
        }
    }
}

/// The outcome of a setup that began with `action` pending, when `replies` came in
/// one after the other.
pub open spec fn setup_run(
    action: SetupAction,
    shown: ShownSettings,
    replies: Seq<SetupReply>,
) -> Result<SetupAction, Failure>
    decreases replies.len(),
{
    if replies.len() == 0 {
        Ok(action)
    } else {
        match setup_run(action, shown, replies.drop_last()) {
            Ok(a) => a.next(shown, replies.last()),
            Err(f) => Err(f),
        }
    }
}

/// Whether each of `replies` can come of the action that is pending when it comes.
pub open spec fn setup_accepted(
    action: SetupAction,
    shown: ShownSettings,
    replies: Seq<SetupReply>,
) -> bool
    decreases replies.len(),
{
    replies.len() == 0 || (setup_accepted(action, shown, replies.drop_last()) && (setup_run(
        action,
        shown,
        replies.drop_last(),
    ) matches Ok(a) && a.answered_by(replies.last())))
}

/// How many actions come before `action`.
pub open spec fn position(action: SetupAction) -> nat {
    match action {
        SetupAction::FindDevices => 0,
        SetupAction::OpenDevice => 1,
        SetupAction::SetSampleRate => 2,
        SetupAction::SetGain => 3,
        SetupAction::SetAntenna => 4,
        SetupAction::Capture => 5,
    }
}

/// The steps are taken in their order, none is left out: a setup that has not failed
/// is as far along as it has had replies. So capture starts after five of them, all
/// successes, and the device is opened before it is configured.
pub proof fn law_setup_takes_every_step(shown: ShownSettings, replies: Seq<SetupReply>)
    requires
        setup_accepted(SetupAction::FindDevices, shown, replies),
    ensures
        setup_run(SetupAction::FindDevices, shown, replies) matches Ok(a) ==> position(a)
            == replies.len() && forall|i: int|
            0 <= i < replies.len() ==> !(#[trigger] replies[i] is Failed) && replies[i]
                != SetupReply::Found(0),
        replies.len() <= 5,
    decreases replies.len(),
{
    if replies.len() > 0 {
        let before = replies.drop_last();
        law_setup_takes_every_step(shown, before);
        assert forall|i: int|
            setup_run(SetupAction::FindDevices, shown, replies) is Ok && 0 <= i
                < replies.len() implies !(#[trigger] replies[i] is Failed) && replies[i]
            != SetupReply::Found(0) by {
            if i < before.len() {
                assert(before[i] == replies[i]);
            }
        }
    }
}

/// The first failure ends the setup with the error that belongs to the step that
/// failed, and nothing more is done with the device.
pub proof fn law_first_failure_ends_the_setup(
    shown: ShownSettings,
    replies: Seq<SetupReply>,
    later: SetupReply,
)
    requires
        setup_accepted(SetupAction::FindDevices, shown, replies),
        setup_run(SetupAction::FindDevices, shown, replies) is Err,
    ensures
        !setup_accepted(SetupAction::FindDevices, shown, replies.push(later)),
        setup_run(SetupAction::FindDevices, shown, replies) == (match replies.last() {
            SetupReply::Failed(message) => Err::<SetupAction, Failure>(
                setup_run(SetupAction::FindDevices, shown, replies.drop_last())->Ok_0.failure(
                    shown,
                    message@,
                ),
            ),
            _ => Err(
                Failure::NotFound(
                    "No USRP devices found. Ensure the USRP is connected and powered on."@,
                ),
            ),
        }),
{
    assert(replies.push(later).drop_last() == replies);
}

/// Looking for devices is answered by how many there are, any other action by its having
/// been done, and each of them by a failure. Once capture is to start nothing is
/// answered.
pub proof fn law_replies_match_their_action(action: SetupAction, count: usize, message: String)
    ensures
        action.answered_by(SetupReply::Found(count)) <==> action is FindDevices,
        action.answered_by(SetupReply::Done) <==> !(action is FindDevices || action is Capture),
        action.answered_by(SetupReply::Failed(message)) <==> !(action is Capture),
{
}

/// Five successes, in this order, and nothing else lead to the capture; it does not
/// matter how many devices there are, if there is one.
pub proof fn law_order_of_the_setup(shown: ShownSettings, count: usize)
    requires
        count > 0,
    ensures
        SetupAction::FindDevices.next(shown, SetupReply::Found(count)) == Ok::<
            SetupAction,
            Failure,
        >(SetupAction::OpenDevice),
        SetupAction::OpenDevice.next(shown, SetupReply::Done) == Ok::<SetupAction, Failure>(
            SetupAction::SetSampleRate,
        ),
        SetupAction::SetSampleRate.next(shown, SetupReply::Done) == Ok::<SetupAction, Failure>(
            SetupAction::SetGain,
        ),
        SetupAction::SetGain.next(shown, SetupReply::Done) == Ok::<SetupAction, Failure>(
            SetupAction::SetAntenna,
        ),
        SetupAction::SetAntenna.next(shown, SetupReply::Done) == Ok::<SetupAction, Failure>(
            SetupAction::Capture,
        ),
{
}

/// What a failed action is reported as: the driver's words, behind what was attempted
/// and, for a setting, the value that was not taken. No device at all is a matter of its
/// own.
pub proof fn law_reports_of_failed_actions(shown: ShownSettings, message: String)
    ensures
        SetupAction::FindDevices.next(shown, SetupReply::Failed(message)) == Err::<
            SetupAction,
            Failure,
        >(Failure::Io("USRP find failed: "@ + message@)),
        SetupAction::OpenDevice.next(shown, SetupReply::Failed(message)) == Err::<
            SetupAction,
            Failure,
        >(Failure::Io("USRP open failed: "@ + message@)),
        SetupAction::SetSampleRate.next(shown, SetupReply::Failed(message)) == Err::<
            SetupAction,
            Failure,
        >(
            Failure::BadConfig(
                "set_rx_sample_rate("@ + shown.sample_rate@ + "): "@ + message@,
            ),
        ),
        SetupAction::SetGain.next(shown, SetupReply::Failed(message)) == Err::<
            SetupAction,
            Failure,
        >(Failure::BadConfig("set_rx_gain("@ + shown.gain@ + "): "@ + message@)),
        SetupAction::SetAntenna.next(shown, SetupReply::Failed(message)) == Err::<
            SetupAction,
            Failure,
        >(Failure::BadConfig("set_rx_antenna("@ + shown.antenna@ + "): "@ + message@)),
        SetupAction::FindDevices.next(shown, SetupReply::Found(0)) == Err::<SetupAction, Failure>(
            Failure::NotFound(
                "No USRP devices found. Ensure the USRP is connected and powered on."@,
            ),
        ),
{
}

} // verus!
