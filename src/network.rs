//! Networks that a station can see.

use crate::text::{eq_ignore_ascii_case, eq_ignoring_ascii_case};
use vstd::prelude::*;

verus! {

/// The kind of security a network uses.
#[derive(Debug, Clone, Copy, PartialEq, Eq, Structural)]
pub enum NetworkType {
    Open,
    Wep,
    Psk,
    Eap,
}

impl NetworkType {
    pub open spec fn spec_from_name(s: Seq<char>) -> Option<NetworkType> {
        if eq_ignoring_ascii_case(s, "Open"@) {
            Some(NetworkType::Open)
        } else if eq_ignoring_ascii_case(s, "Wep"@) {
            Some(NetworkType::Wep)
        } else if eq_ignoring_ascii_case(s, "Psk"@) {
            Some(NetworkType::Psk)
        } else if eq_ignoring_ascii_case(s, "8021x"@) {
            Some(NetworkType::Eap)
        } else {
            None
        }
    }

    /// The network type that `s` names, in any mix of ASCII case.
    pub fn from_name(s: &str) -> (r: Option<NetworkType>)
        ensures
            r == Self::spec_from_name(s@),
    {
        if eq_ignore_ascii_case(s, "Open") {
            Some(NetworkType::Open)
        } else if eq_ignore_ascii_case(s, "Wep") {
            Some(NetworkType::Wep)
        } else if eq_ignore_ascii_case(s, "Psk") {
            Some(NetworkType::Psk)
        } else if eq_ignore_ascii_case(s, "8021x") {
            Some(NetworkType::Eap)
        } else {
            None
        }
    }
}

} // verus!
