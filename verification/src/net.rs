//! WiFi interface control: the controls and statuses exchanged with the
//! WiFi controller, and the choice of radio mode when an interface is
//! enabled or disabled.

use crate::fmt::push_str;
use vstd::prelude::*;

verus! {

/// Error type for WiFi operations.
#[derive(Debug, Clone, PartialEq, Eq)]
pub enum Error {
    /// Hit an error in the WiFi stack.
    Wifi(String),
    /// Configuration error, e.g. missing required configuration.
    Config(String),
}

impl Error {
    /// The error as displayed.
    pub fn to_string(&self) -> (r: String)
        ensures
            r@ == match self {
                Error::Wifi(msg) => "WiFi stack error: "@ + msg@,
                Error::Config(msg) => "Configuration error: "@ + msg@,
            },
    {
        let mut s = String::new();
        match self {
            Error::Wifi(msg) => {
                push_str(&mut s, "WiFi stack error: ");
                push_str(&mut s, msg.as_str());
            },
            Error::Config(msg) => {
                push_str(&mut s, "Configuration error: ");
                push_str(&mut s, msg.as_str());
            },
        }
        s
    }
}

/// WiFi controls.
#[derive(Debug, Clone, Copy, PartialEq, Eq, Structural)]
pub enum Control {
    /// Enable the WiFi interface.
    Enable,
    /// Disable the WiFi interface.
    Disable,
}

/// WiFi interface status.
#[derive(Debug, Clone, Copy, PartialEq, Eq, Structural)]
pub enum Status {
    /// WiFi interface is enabled.
    Enabled,
    /// WiFi interface is disabled.
    Disabled,
    /// WiFi interface is connected.
    Connected,
    /// WiFi interface is disconnected.
    Disconnected,
}

/// Type of WiFi interface.
#[derive(Debug, Clone, Copy, PartialEq, Eq, Structural)]
pub enum WifiType {
    Sta,
    Ap,
}

/// The radio mode: which interfaces run.
#[derive(Debug, Clone, Copy, PartialEq, Eq, Structural)]
pub enum WifiMode {
    /// Station only.
    Sta,
    /// Access point only.
    Ap,
    /// Both access point and station.
    ApSta,
}

/// Whether interface `t` runs in mode `m` (`None`: radio off).
pub open spec fn runs(m: Option<WifiMode>, t: WifiType) -> bool {
    match (m, t) {
        (Some(WifiMode::Sta), WifiType::Sta) => true,
        (Some(WifiMode::Ap), WifiType::Ap) => true,
        (Some(WifiMode::ApSta), _) => true,
        _ => false,
    }
}

/// The status an interface reports after a control has been applied.
pub open spec fn status_after(control: Control) -> Status {
    match control {
        Control::Enable => Status::Enabled,
        Control::Disable => Status::Disabled,
    }
}

/// The mode with interface `target` enabled.
pub open spec fn enabled_mode(current: Option<WifiMode>, target: WifiType) -> Option<WifiMode> {
    match (current, target) {
        (None, WifiType::Sta) => Some(WifiMode::Sta),
        (None, WifiType::Ap) => Some(WifiMode::Ap),
        (Some(WifiMode::Sta), WifiType::Ap) => Some(WifiMode::ApSta),
        (Some(WifiMode::Ap), WifiType::Sta) => Some(WifiMode::ApSta),
        (current, _) => current,
    }
}

/// The mode with interface `target` disabled.
pub open spec fn disabled_mode(current: Option<WifiMode>, target: WifiType) -> Option<WifiMode> {
    match (current, target) {
        (Some(WifiMode::Sta), WifiType::Sta) => None,
        (Some(WifiMode::Ap), WifiType::Ap) => None,
        (Some(WifiMode::ApSta), WifiType::Sta) => Some(WifiMode::Ap),
        (Some(WifiMode::ApSta), WifiType::Ap) => Some(WifiMode::Sta),
        (current, _) => current,
    }
}

/// The mode needed once interface `target` is enabled: `target` runs, and
/// the other interface runs exactly when it ran before.
pub fn enable_mode(current: Option<WifiMode>, target: WifiType) -> (r: Option<WifiMode>)
    ensures
        r == enabled_mode(current, target),
        runs(r, target),
        forall|t: WifiType| t != target ==> runs(r, t) == runs(current, t),
        runs(current, target) ==> r == current,
{
    match (current, target) {
        (None, WifiType::Sta) => Some(WifiMode::Sta),
        (None, WifiType::Ap) => Some(WifiMode::Ap),
        (Some(WifiMode::Sta), WifiType::Ap) => Some(WifiMode::ApSta),
        (Some(WifiMode::Ap), WifiType::Sta) => Some(WifiMode::ApSta),
        (current, _) => current,
    }
}

/// The mode needed once interface `target` is disabled: `target` does not
/// run, and the other interface runs exactly when it ran before.
pub fn disable_mode(current: Option<WifiMode>, target: WifiType) -> (r: Option<WifiMode>)
    ensures
        r == disabled_mode(current, target),
        !runs(r, target),
        forall|t: WifiType| t != target ==> runs(r, t) == runs(current, t),
        !runs(current, target) ==> r == current,
{
    match (current, target) {
        (Some(WifiMode::Sta), WifiType::Sta) => None,
        (Some(WifiMode::Ap), WifiType::Ap) => None,
        (Some(WifiMode::ApSta), WifiType::Sta) => Some(WifiMode::Ap),
        (Some(WifiMode::ApSta), WifiType::Ap) => Some(WifiMode::Sta),
        (current, _) => current,
    }
}

/// The status an interface reports once a control has been applied.
pub fn control_status(control: Control) -> (r: Status)
    ensures
        r == status_after(control),
{
    match control {
        Control::Enable => Status::Enabled,
        Control::Disable => Status::Disabled,
    }
}

/// Disabling an interface undoes enabling it, from a mode in which it did
/// not run; enabling an interface undoes disabling it, from a mode in which
/// it ran. Enabling or disabling twice is the same as once.
pub proof fn lemma_enable_disable_inverse(m: Option<WifiMode>, t: WifiType)
    ensures
        !runs(m, t) ==> disabled_mode(enabled_mode(m, t), t) == m,
        runs(m, t) ==> enabled_mode(disabled_mode(m, t), t) == m,
        enabled_mode(enabled_mode(m, t), t) == enabled_mode(m, t),
        disabled_mode(disabled_mode(m, t), t) == disabled_mode(m, t),
{
}


/// Which configuration the radio gets from the interfaces configured: both
/// (mixed), the station alone, the access point alone, or none at all.
pub fn configured_mode(has_sta: bool, has_ap: bool) -> (r: Option<WifiMode>)
    ensures
        r == (if has_sta && has_ap {
            Some(WifiMode::ApSta)
        } else if has_sta {
            Some(WifiMode::Sta)
        } else if has_ap {
            Some(WifiMode::Ap)
        } else {
            None
        }),
{
    match (has_sta, has_ap) {
        (true, true) => Some(WifiMode::ApSta),
        (true, false) => Some(WifiMode::Sta),
        (false, true) => Some(WifiMode::Ap),
        (false, false) => None,
    }
}

} // verus!
