//! Stations: the client role of a wireless device.

pub mod diagnostics;
pub mod signal_level_agent;

use crate::text::{eq_ignore_ascii_case, eq_ignoring_ascii_case};
use vstd::prelude::*;

verus! {

/// The connection state of a station.
#[derive(Debug, Clone, Copy, PartialEq, Eq, Structural)]
pub enum State {
    Connected,
    Disconnected,
    Connecting,
    Disconnecting,
    Roaming,
}

impl State {
    pub open spec fn spec_from_name(s: Seq<char>) -> Option<State> {
        if eq_ignoring_ascii_case(s, "Connected"@) {
            Some(State::Connected)
        } else if eq_ignoring_ascii_case(s, "Disconnected"@) {
            Some(State::Disconnected)
        } else if eq_ignoring_ascii_case(s, "Connecting"@) {
            Some(State::Connecting)
        } else if eq_ignoring_ascii_case(s, "Disconnecting"@) {
            Some(State::Disconnecting)
        } else if eq_ignoring_ascii_case(s, "Roaming"@) {
            Some(State::Roaming)
        } else {
            None
        }
    }

    pub open spec fn spec_name(self) -> Seq<char> {
        match self {
            State::Connected => "Connected"@,
            State::Disconnected => "Disconnected"@,
            State::Connecting => "Connecting"@,
            State::Disconnecting => "Disconnecting"@,
            State::Roaming => "Roaming"@,
        }
    }

    /// The state that `s` names, in any mix of ASCII case.
    pub fn from_name(s: &str) -> (r: Option<State>)
        ensures
            r == Self::spec_from_name(s@),
    {
        if eq_ignore_ascii_case(s, "Connected") {
            Some(State::Connected)
        } else if eq_ignore_ascii_case(s, "Disconnected") {
            Some(State::Disconnected)
        } else if eq_ignore_ascii_case(s, "Connecting") {
            Some(State::Connecting)
        } else if eq_ignore_ascii_case(s, "Disconnecting") {
            Some(State::Disconnecting)
        } else if eq_ignore_ascii_case(s, "Roaming") {
            Some(State::Roaming)
        } else {
            None
        }
    }

    /// The state's name.
    pub fn name(&self) -> (r: &'static str)
        ensures
            r@ == self.spec_name(),
    {
        match self {
            State::Connected => "Connected",
            State::Disconnected => "Disconnected",
            State::Connecting => "Connecting",
            State::Disconnecting => "Disconnecting",
            State::Roaming => "Roaming",
        }
    }
}

/// What one value of the `Scanning` property stream means for a caller that
/// waits for the current scan to end.
#[derive(Debug, PartialEq, Eq)]
pub enum ScanProgress<E> {
    /// The station still scans: wait for the next value.
    StillScanning,
    /// The scan is over.
    Complete,
    /// Reading the property failed.
    Failed(E),
    /// The stream ended before the scan did.
    Ended,
}

pub open spec fn spec_scan_progress<E>(item: Option<core::result::Result<bool, E>>) -> ScanProgress<E> {
    match item {
        Some(Ok(true)) => ScanProgress::StillScanning,
        Some(Ok(false)) => ScanProgress::Complete,
        Some(Err(e)) => ScanProgress::Failed(e),
        None => ScanProgress::Ended,
    }
}

/// Interprets the next value pulled from the `Scanning` property stream:
/// values that say the station scans are skipped, and the first other value,
/// or the end of the stream, decides.
pub fn scan_progress<E>(item: Option<core::result::Result<bool, E>>) -> (r: ScanProgress<E>)
    ensures
        r == spec_scan_progress(item),
{
    match item {
        Some(Ok(true)) => ScanProgress::StillScanning,
        Some(Ok(false)) => ScanProgress::Complete,
        Some(Err(e)) => ScanProgress::Failed(e),
        None => ScanProgress::Ended,
    }
}

} // verus!
