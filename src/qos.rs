//! Quality-of-service classes and their raw dispatch encodings.

use vstd::prelude::*;

verus! {

/// Declares `priority::Priority` with its variants, so that conversions from
/// it can be proved. Relies on that type being an enum of five variants
/// without fields: `UserInteractive`, `UserInitiated`, `Utility`,
/// `Background` and `Unknown`.
#[verifier::external_type_specification]
pub struct ExPriority(priority::Priority);

/// A dispatch quality-of-service class.
///
/// This is not layout-compatible with the C type; use [`QoS::as_raw`] to
/// obtain the value that libdispatch expects.
#[derive(Clone, Copy, Debug, PartialEq, Eq, Structural)]
pub enum QoS {
    UserInteractive,
    UserInitiated,
    Default,
    Utility,
    Background,
    Unspecified,
}

impl QoS {
    /// The `qos_class_t` value that libdispatch uses for this class.
    pub open spec fn raw_spec(self) -> u32 {
        match self {
            QoS::UserInteractive => 0x21,
            QoS::UserInitiated => 0x19,
            QoS::Default => 0x15,
            QoS::Utility => 0x11,
            QoS::Background => 0x09,
            QoS::Unspecified => 0x00,
        }
    }

    /// Returns the raw `qos_class_t` value for this class.
    pub fn as_raw(&self) -> (r: u32)
        ensures
            r == self.raw_spec(),
    {
        match self {
            QoS::UserInteractive => 0x21,
            QoS::UserInitiated => 0x19,
            QoS::Default => 0x15,
            QoS::Utility => 0x11,
            QoS::Background => 0x09,
            QoS::Unspecified => 0x00,
        }
    }
}

/// The class that an abstract task priority maps to: each named priority
/// has a class of the same name, and any other priority runs at the default
/// class.
pub open spec fn qos_of_priority(p: priority::Priority) -> QoS {
    match p {
        priority::Priority::UserInteractive => QoS::UserInteractive,
        priority::Priority::UserInitiated => QoS::UserInitiated,
        priority::Priority::Utility => QoS::Utility,
        priority::Priority::Background => QoS::Background,
        _ => QoS::Default,
    }
}

impl From<priority::Priority> for QoS {
    fn from(p: priority::Priority) -> (r: QoS)
        ensures
            r == qos_of_priority(p),
    {
        match p {
            priority::Priority::UserInteractive => QoS::UserInteractive,
            priority::Priority::UserInitiated => QoS::UserInitiated,
            priority::Priority::Utility => QoS::Utility,
            priority::Priority::Background => QoS::Background,
            _ => QoS::Default,
        }
    }
}

impl vstd::std_specs::convert::FromSpecImpl<priority::Priority> for QoS {
    open spec fn obeys_from_spec() -> bool {
        true
    }

    open spec fn from_spec(v: priority::Priority) -> QoS {
        qos_of_priority(v)
    }
}

} // verus!
