//! The power controller's decision logic.
//!
//! Scheduling a power transition only decides: which fixed privileged
//! program to start, after which delay, and which acknowledgement to
//! answer at once. The delayed, detached invocation itself is carried
//! out by the service front around the library, so the acknowledgement
//! never waits on the action.

use vstd::prelude::*;
use vstd::string::StringExecFns;

verus! {

/// The delay between the acknowledgement and the privileged command,
/// giving the front time to flush its response first.
pub const DEFAULT_POWER_DELAY_SECS: u64 = 3;

/// A requested power-state transition.
#[derive(Clone, Copy, PartialEq, Eq, Structural, Debug)]
pub enum PowerAction {
    Reboot,
    Poweroff,
}

impl PowerAction {
    /// The fixed privileged program bound to this action.
    pub open spec fn spec_program(self) -> Seq<char> {
        match self {
            PowerAction::Reboot => "reboot"@,
            PowerAction::Poweroff => "poweroff"@,
        }
    }

    /// The fixed acknowledgement answered for this action.
    pub open spec fn spec_acknowledgement(self) -> Seq<char> {
        match self {
            PowerAction::Reboot => "Requesting to reboot."@,
            PowerAction::Poweroff => "Requesting to poweroff."@,
        }
    }
}

/// A scheduled transition: what to start, when, and what to answer now.
pub struct PowerRequest {
    pub program: String,
    pub delay_secs: u64,
    pub acknowledgement: String,
}

/// Schedule `action` after `delay_secs`: the request names exactly the
/// program bound to the action, keeps the delay, and carries the fixed
/// acknowledgement, which is returned without any invocation.
pub fn schedule(action: PowerAction, delay_secs: u64) -> (r: PowerRequest)
    ensures
        r.program@ == action.spec_program(),
        r.delay_secs == delay_secs,
        r.acknowledgement@ == action.spec_acknowledgement(),
{
    match action {
        PowerAction::Reboot => PowerRequest {
            program: String::from_str("reboot"),
            delay_secs,
            acknowledgement: String::from_str("Requesting to reboot."),
        },
        PowerAction::Poweroff => PowerRequest {
            program: String::from_str("poweroff"),
            delay_secs,
            acknowledgement: String::from_str("Requesting to poweroff."),
        },
    }
}

} // verus!
