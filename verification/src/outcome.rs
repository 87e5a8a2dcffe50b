//! The three-way result of every target operation.
//!
//! "No entity currently matches this rule" is an expected, frequent state of
//! the world and must never be conflated with "the audio subsystem could not
//! answer"; the [`Outcome`] type keeps the two apart.
use vstd::prelude::*;

verus! {

use crate::audio::DeviceKind;

/// Why a target operation failed (as opposed to finding nothing).
#[derive(Clone, Copy, Debug, PartialEq, Eq, Structural)]
pub enum Fault {
    /// Static configuration points at a device that does not exist right
    /// now: an operator-visible anomaly, not mere absence.
    MissingDevice(DeviceKind, u32),
    /// A default-selection operation resolved to an application stream;
    /// "default device" has no meaning for a transient stream.
    StreamSelection,
    /// The device carries no name, and default-device assignment addresses
    /// devices by name.
    UnnamedDevice(DeviceKind, u32),
}

impl Fault {
    /// Short operator-readable description of the failure.
    pub fn message(&self) -> (r: &'static str)
        ensures
            self is MissingDevice ==> r@ == "static configuration references a missing device"@,
            self is StreamSelection ==> r@ == "application streams cannot be used for selection"@,
            self is UnnamedDevice ==> r@ == "device must have a name to be selected as default"@,
    {
        match self {
            Fault::MissingDevice(_, _) => "static configuration references a missing device",
            Fault::StreamSelection => "application streams cannot be used for selection",
            Fault::UnnamedDevice(_, _) => "device must have a name to be selected as default",
        }
    }
}

/// Result of one target operation: a value, silent absence, or a failure of
/// the audio subsystem or the configuration.
#[derive(Debug, PartialEq, Eq)]
pub enum Outcome<T> {
    /// A concrete entity currently matches and the operation acted on it.
    Found(T),
    /// No concrete entity currently matches; expected and silent.
    NotFound,
    /// The operation could not be answered; carries the reason.
    Failure(Fault),
}

impl<T: View> View for Outcome<T> {
    type V = Outcome<T::V>;

    open spec fn view(&self) -> Outcome<T::V> {
        match self {
            Outcome::Found(t) => Outcome::Found(t@),
            Outcome::NotFound => Outcome::NotFound,
            Outcome::Failure(f) => Outcome::Failure(*f),
        }
    }
}

} // verus!
