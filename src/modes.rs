//! The operating mode of a device.

use crate::text::{eq_ignore_ascii_case, eq_ignoring_ascii_case, str_equal};
use vstd::prelude::*;

verus! {

/// Whether a device acts as a client or as an access point.
#[derive(Debug, Clone, Copy, PartialEq, Eq, Structural)]
pub enum Mode {
    Station,
    Ap,
}

impl Mode {
    pub open spec fn spec_from_name(s: Seq<char>) -> Option<Mode> {
        if eq_ignoring_ascii_case(s, "Station"@) {
            Some(Mode::Station)
        } else if eq_ignoring_ascii_case(s, "Ap"@) {
            Some(Mode::Ap)
        } else {
            None
        }
    }

    pub open spec fn spec_name(self) -> Seq<char> {
        match self {
            Mode::Station => "station"@,
            Mode::Ap => "ap"@,
        }
    }

    pub open spec fn spec_from_wire(s: Seq<char>) -> Option<Mode> {
        if s == "station"@ {
            Some(Mode::Station)
        } else if s == "ap"@ {
            Some(Mode::Ap)
        } else {
            None
        }
    }

    /// The mode that the daemon's `Mode` property names: exactly "station"
    /// or "ap".
    pub fn from_wire(s: &str) -> (r: Option<Mode>)
        ensures
            r == Self::spec_from_wire(s@),
    {
        if str_equal(s, "station") {
            Some(Mode::Station)
        } else if str_equal(s, "ap") {
            Some(Mode::Ap)
        } else {
            None
        }
    }

    /// The mode that `s` names, in any mix of ASCII case.
    pub fn from_name(s: &str) -> (r: Option<Mode>)
        ensures
            r == Self::spec_from_name(s@),
    {
        if eq_ignore_ascii_case(s, "Station") {
            Some(Mode::Station)
        } else if eq_ignore_ascii_case(s, "Ap") {
            Some(Mode::Ap)
        } else {
            None
        }
    }

    /// The name by which the daemon knows the mode.
    pub fn name(&self) -> (r: &'static str)
        ensures
            r@ == self.spec_name(),
    {
        match self {
            Mode::Station => "station",
            Mode::Ap => "ap",
        }
    }
}

} // verus!
