//! Failures of station operations.

use crate::error::OperationFault;
use crate::text::str_equal;
use vstd::prelude::*;

verus! {

/// Why a station scan failed.
#[derive(Debug, Clone, Copy, PartialEq, Eq, Structural)]
pub enum ScanError {
    Busy,
    Failed,
}

impl OperationFault for ScanError {
    open spec fn spec_from_fault_name(name: Seq<char>) -> Option<ScanError> {
        if name == "net.connman.iwd.Busy"@ {
            Some(ScanError::Busy)
        } else if name == "net.connman.iwd.Failed"@ {
            Some(ScanError::Failed)
        } else {
            None
        }
    }

    open spec fn spec_fault_name(&self) -> Seq<char> {
        match self {
            ScanError::Busy => "net.connman.iwd.Busy"@,
            ScanError::Failed => "net.connman.iwd.Failed"@,
        }
    }

    fn from_fault_name(name: &str) -> (r: Option<ScanError>) {
        if str_equal(name, "net.connman.iwd.Busy") {
            Some(ScanError::Busy)
        } else if str_equal(name, "net.connman.iwd.Failed") {
            Some(ScanError::Failed)
        } else {
            None
        }
    }

    fn fault_name(&self) -> (r: &'static str) {
        match self {
            ScanError::Busy => "net.connman.iwd.Busy",
            ScanError::Failed => "net.connman.iwd.Failed",
        }
    }

    proof fn lemma_fault_name_round_trip(&self) {
        reveal_strlit("net.connman.iwd.Busy");
        assert("net.connman.iwd.Busy"@.len() == 20);
        assert("net.connman.iwd.Busy"@[16] == 'B' && "net.connman.iwd.Busy"@[19] == 'y');
        reveal_strlit("net.connman.iwd.Failed");
        assert("net.connman.iwd.Failed"@.len() == 22);
        assert("net.connman.iwd.Failed"@[16] == 'F' && "net.connman.iwd.Failed"@[19] == 'l');
    }
}

impl ScanError {
    pub open spec fn spec_detailed_message(&self) -> Seq<char> {
        match self {
            ScanError::Busy => "Operation already in progress"@,
            ScanError::Failed => "Operation failed"@,
        }
    }

    /// A human-readable description of the failure.
    pub fn detailed_message(&self) -> (r: &'static str)
        ensures
            r@ == self.spec_detailed_message(),
    {
        match self {
            ScanError::Busy => "Operation already in progress",
            ScanError::Failed => "Operation failed",
        }
    }
}

/// Why disconnecting a station failed.
#[derive(Debug, Clone, Copy, PartialEq, Eq, Structural)]
pub enum DisconnectError {
    Busy,
    Failed,
    NotConnected,
}

impl OperationFault for DisconnectError {
    open spec fn spec_from_fault_name(name: Seq<char>) -> Option<DisconnectError> {
        if name == "net.connman.iwd.Busy"@ {
            Some(DisconnectError::Busy)
        } else if name == "net.connman.iwd.Failed"@ {
            Some(DisconnectError::Failed)
        } else if name == "net.connman.iwd.NotConnected"@ {
            Some(DisconnectError::NotConnected)
        } else {
            None
        }
    }

    open spec fn spec_fault_name(&self) -> Seq<char> {
        match self {
            DisconnectError::Busy => "net.connman.iwd.Busy"@,
            DisconnectError::Failed => "net.connman.iwd.Failed"@,
            DisconnectError::NotConnected => "net.connman.iwd.NotConnected"@,
        }
    }

    fn from_fault_name(name: &str) -> (r: Option<DisconnectError>) {
        if str_equal(name, "net.connman.iwd.Busy") {
            Some(DisconnectError::Busy)
        } else if str_equal(name, "net.connman.iwd.Failed") {
            Some(DisconnectError::Failed)
        } else if str_equal(name, "net.connman.iwd.NotConnected") {
            Some(DisconnectError::NotConnected)
        } else {
            None
        }
    }

    fn fault_name(&self) -> (r: &'static str) {
        match self {
            DisconnectError::Busy => "net.connman.iwd.Busy",
            DisconnectError::Failed => "net.connman.iwd.Failed",
            DisconnectError::NotConnected => "net.connman.iwd.NotConnected",
        }
    }

    proof fn lemma_fault_name_round_trip(&self) {
        reveal_strlit("net.connman.iwd.Busy");
        assert("net.connman.iwd.Busy"@.len() == 20);
        assert("net.connman.iwd.Busy"@[16] == 'B' && "net.connman.iwd.Busy"@[19] == 'y');
        reveal_strlit("net.connman.iwd.Failed");
        assert("net.connman.iwd.Failed"@.len() == 22);
        assert("net.connman.iwd.Failed"@[16] == 'F' && "net.connman.iwd.Failed"@[19] == 'l');
        reveal_strlit("net.connman.iwd.NotConnected");
        assert("net.connman.iwd.NotConnected"@.len() == 28);
        assert("net.connman.iwd.NotConnected"@[16] == 'N' && "net.connman.iwd.NotConnected"@[19] == 'C');
    }
}

impl DisconnectError {
    pub open spec fn spec_detailed_message(&self) -> Seq<char> {
        match self {
            DisconnectError::Busy => "Operation already in progress"@,
            DisconnectError::Failed => "Operation failed"@,
            DisconnectError::NotConnected => "Not connected"@,
        }
    }

    /// A human-readable description of the failure.
    pub fn detailed_message(&self) -> (r: &'static str)
        ensures
            r@ == self.spec_detailed_message(),
    {
        match self {
            DisconnectError::Busy => "Operation already in progress",
            DisconnectError::Failed => "Operation failed",
            DisconnectError::NotConnected => "Not connected",
        }
    }
}

/// Why reading station diagnostics failed.
#[derive(Debug, Clone, Copy, PartialEq, Eq, Structural)]
pub enum StationDiagnosticsError {
    Busy,
    Failed,
    NotConnected,
}

impl OperationFault for StationDiagnosticsError {
    open spec fn spec_from_fault_name(name: Seq<char>) -> Option<StationDiagnosticsError> {
        if name == "net.connman.iwd.Busy"@ {
            Some(StationDiagnosticsError::Busy)
        } else if name == "net.connman.iwd.Failed"@ {
            Some(StationDiagnosticsError::Failed)
        } else if name == "net.connman.iwd.NotConnected"@ {
            Some(StationDiagnosticsError::NotConnected)
        } else {
            None
        }
    }

    open spec fn spec_fault_name(&self) -> Seq<char> {
        match self {
            StationDiagnosticsError::Busy => "net.connman.iwd.Busy"@,
            StationDiagnosticsError::Failed => "net.connman.iwd.Failed"@,
            StationDiagnosticsError::NotConnected => "net.connman.iwd.NotConnected"@,
        }
    }

    fn from_fault_name(name: &str) -> (r: Option<StationDiagnosticsError>) {
        if str_equal(name, "net.connman.iwd.Busy") {
            Some(StationDiagnosticsError::Busy)
        } else if str_equal(name, "net.connman.iwd.Failed") {
            Some(StationDiagnosticsError::Failed)
        } else if str_equal(name, "net.connman.iwd.NotConnected") {
            Some(StationDiagnosticsError::NotConnected)
        } else {
            None
        }
    }

    fn fault_name(&self) -> (r: &'static str) {
        match self {
            StationDiagnosticsError::Busy => "net.connman.iwd.Busy",
            StationDiagnosticsError::Failed => "net.connman.iwd.Failed",
            StationDiagnosticsError::NotConnected => "net.connman.iwd.NotConnected",
        }
    }

    proof fn lemma_fault_name_round_trip(&self) {
        reveal_strlit("net.connman.iwd.Busy");
        assert("net.connman.iwd.Busy"@.len() == 20);
        assert("net.connman.iwd.Busy"@[16] == 'B' && "net.connman.iwd.Busy"@[19] == 'y');
        reveal_strlit("net.connman.iwd.Failed");
        assert("net.connman.iwd.Failed"@.len() == 22);
        assert("net.connman.iwd.Failed"@[16] == 'F' && "net.connman.iwd.Failed"@[19] == 'l');
        reveal_strlit("net.connman.iwd.NotConnected");
        assert("net.connman.iwd.NotConnected"@.len() == 28);
        assert("net.connman.iwd.NotConnected"@[16] == 'N' && "net.connman.iwd.NotConnected"@[19] == 'C');
    }
}

impl StationDiagnosticsError {
    pub open spec fn spec_detailed_message(&self) -> Seq<char> {
        match self {
            StationDiagnosticsError::Busy => "Operation already in progress"@,
            StationDiagnosticsError::Failed => "Operation failed"@,
            StationDiagnosticsError::NotConnected => "Not connected"@,
        }
    }

    /// A human-readable description of the failure.
    pub fn detailed_message(&self) -> (r: &'static str)
        ensures
            r@ == self.spec_detailed_message(),
    {
        match self {
            StationDiagnosticsError::Busy => "Operation already in progress",
            StationDiagnosticsError::Failed => "Operation failed",
            StationDiagnosticsError::NotConnected => "Not connected",
        }
    }
}

} // verus!
