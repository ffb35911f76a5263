//! Failures of access-point operations.

use crate::error::OperationFault;
use crate::text::str_equal;
use vstd::prelude::*;

verus! {

/// Why starting an access point failed.
#[derive(Debug, Clone, Copy, PartialEq, Eq, Structural)]
pub enum AccessPointStartError {
    Failed,
    InvalidArguments,
    AlreadyExists,
}

impl OperationFault for AccessPointStartError {
    open spec fn spec_from_fault_name(name: Seq<char>) -> Option<AccessPointStartError> {
        if name == "net.connman.iwd.Failed"@ {
            Some(AccessPointStartError::Failed)
        } else if name == "net.connman.iwd.InvalidArguments"@ {
            Some(AccessPointStartError::InvalidArguments)
        } else if name == "net.connman.iwd.AlreadyExists"@ {
            Some(AccessPointStartError::AlreadyExists)
        } else {
            None
        }
    }

    open spec fn spec_fault_name(&self) -> Seq<char> {
        match self {
            AccessPointStartError::Failed => "net.connman.iwd.Failed"@,
            AccessPointStartError::InvalidArguments => "net.connman.iwd.InvalidArguments"@,
            AccessPointStartError::AlreadyExists => "net.connman.iwd.AlreadyExists"@,
        }
    }

    fn from_fault_name(name: &str) -> (r: Option<AccessPointStartError>) {
        if str_equal(name, "net.connman.iwd.Failed") {
            Some(AccessPointStartError::Failed)
        } else if str_equal(name, "net.connman.iwd.InvalidArguments") {
            Some(AccessPointStartError::InvalidArguments)
        } else if str_equal(name, "net.connman.iwd.AlreadyExists") {
            Some(AccessPointStartError::AlreadyExists)
        } else {
            None
        }
    }

    fn fault_name(&self) -> (r: &'static str) {
        match self {
            AccessPointStartError::Failed => "net.connman.iwd.Failed",
            AccessPointStartError::InvalidArguments => "net.connman.iwd.InvalidArguments",
            AccessPointStartError::AlreadyExists => "net.connman.iwd.AlreadyExists",
        }
    }

    proof fn lemma_fault_name_round_trip(&self) {
        reveal_strlit("net.connman.iwd.Failed");
        assert("net.connman.iwd.Failed"@.len() == 22);
        assert("net.connman.iwd.Failed"@[16] == 'F' && "net.connman.iwd.Failed"@[19] == 'l');
        reveal_strlit("net.connman.iwd.InvalidArguments");
        assert("net.connman.iwd.InvalidArguments"@.len() == 32);
        assert("net.connman.iwd.InvalidArguments"@[16] == 'I' && "net.connman.iwd.InvalidArguments"@[19] == 'a');
        reveal_strlit("net.connman.iwd.AlreadyExists");
        assert("net.connman.iwd.AlreadyExists"@.len() == 29);
        assert("net.connman.iwd.AlreadyExists"@[16] == 'A' && "net.connman.iwd.AlreadyExists"@[19] == 'e');
    }
}

impl AccessPointStartError {
    pub open spec fn spec_detailed_message(&self) -> Seq<char> {
        match self {
            AccessPointStartError::Failed => "Operation failed"@,
            AccessPointStartError::InvalidArguments => "Argument type is wrong"@,
            AccessPointStartError::AlreadyExists => "Object already exists"@,
        }
    }

    /// A human-readable description of the failure.
    pub fn detailed_message(&self) -> (r: &'static str)
        ensures
            r@ == self.spec_detailed_message(),
    {
        match self {
            AccessPointStartError::Failed => "Operation failed",
            AccessPointStartError::InvalidArguments => "Argument type is wrong",
            AccessPointStartError::AlreadyExists => "Object already exists",
        }
    }
}

/// Why stopping an access point failed.
#[derive(Debug, Clone, Copy, PartialEq, Eq, Structural)]
pub enum AccessPointStopError {
    Busy,
    Failed,
    InvalidArguments,
}

impl OperationFault for AccessPointStopError {
    open spec fn spec_from_fault_name(name: Seq<char>) -> Option<AccessPointStopError> {
        if name == "net.connman.iwd.Busy"@ {
            Some(AccessPointStopError::Busy)
        } else if name == "net.connman.iwd.Failed"@ {
            Some(AccessPointStopError::Failed)
        } else if name == "net.connman.iwd.InvalidArguments"@ {
            Some(AccessPointStopError::InvalidArguments)
        } else {
            None
        }
    }

    open spec fn spec_fault_name(&self) -> Seq<char> {
        match self {
            AccessPointStopError::Busy => "net.connman.iwd.Busy"@,
            AccessPointStopError::Failed => "net.connman.iwd.Failed"@,
            AccessPointStopError::InvalidArguments => "net.connman.iwd.InvalidArguments"@,
        }
    }

    fn from_fault_name(name: &str) -> (r: Option<AccessPointStopError>) {
        if str_equal(name, "net.connman.iwd.Busy") {
            Some(AccessPointStopError::Busy)
        } else if str_equal(name, "net.connman.iwd.Failed") {
            Some(AccessPointStopError::Failed)
        } else if str_equal(name, "net.connman.iwd.InvalidArguments") {
            Some(AccessPointStopError::InvalidArguments)
        } else {
            None
        }
    }

    fn fault_name(&self) -> (r: &'static str) {
        match self {
            AccessPointStopError::Busy => "net.connman.iwd.Busy",
            AccessPointStopError::Failed => "net.connman.iwd.Failed",
            AccessPointStopError::InvalidArguments => "net.connman.iwd.InvalidArguments",
        }
    }

    proof fn lemma_fault_name_round_trip(&self) {
        reveal_strlit("net.connman.iwd.Busy");
        assert("net.connman.iwd.Busy"@.len() == 20);
        assert("net.connman.iwd.Busy"@[16] == 'B' && "net.connman.iwd.Busy"@[19] == 'y');
        reveal_strlit("net.connman.iwd.Failed");
        assert("net.connman.iwd.Failed"@.len() == 22);
        assert("net.connman.iwd.Failed"@[16] == 'F' && "net.connman.iwd.Failed"@[19] == 'l');
        reveal_strlit("net.connman.iwd.InvalidArguments");
        assert("net.connman.iwd.InvalidArguments"@.len() == 32);
        assert("net.connman.iwd.InvalidArguments"@[16] == 'I' && "net.connman.iwd.InvalidArguments"@[19] == 'a');
    }
}

impl AccessPointStopError {
    pub open spec fn spec_detailed_message(&self) -> Seq<char> {
        match self {
            AccessPointStopError::Busy => "Operation already in progress"@,
            AccessPointStopError::Failed => "Operation failed"@,
            AccessPointStopError::InvalidArguments => "Argument type is wrong"@,
        }
    }

    /// A human-readable description of the failure.
    pub fn detailed_message(&self) -> (r: &'static str)
        ensures
            r@ == self.spec_detailed_message(),
    {
        match self {
            AccessPointStopError::Busy => "Operation already in progress",
            AccessPointStopError::Failed => "Operation failed",
            AccessPointStopError::InvalidArguments => "Argument type is wrong",
        }
    }
}

/// Why starting an access point from a profile failed.
#[derive(Debug, Clone, Copy, PartialEq, Eq, Structural)]
pub enum StartProfileError {
    Busy,
    Failed,
    InvalidArguments,
    AlreadyExists,
    NotFound,
}

impl OperationFault for StartProfileError {
    open spec fn spec_from_fault_name(name: Seq<char>) -> Option<StartProfileError> {
        if name == "net.connman.iwd.Busy"@ {
            Some(StartProfileError::Busy)
        } else if name == "net.connman.iwd.Failed"@ {
            Some(StartProfileError::Failed)
        } else if name == "net.connman.iwd.InvalidArguments"@ {
            Some(StartProfileError::InvalidArguments)
        } else if name == "net.connman.iwd.AlreadyExists"@ {
            Some(StartProfileError::AlreadyExists)
        } else if name == "net.connman.iwd.NotFound"@ {
            Some(StartProfileError::NotFound)
        } else {
            None
        }
    }

    open spec fn spec_fault_name(&self) -> Seq<char> {
        match self {
            StartProfileError::Busy => "net.connman.iwd.Busy"@,
            StartProfileError::Failed => "net.connman.iwd.Failed"@,
            StartProfileError::InvalidArguments => "net.connman.iwd.InvalidArguments"@,
            StartProfileError::AlreadyExists => "net.connman.iwd.AlreadyExists"@,
            StartProfileError::NotFound => "net.connman.iwd.NotFound"@,
        }
    }

    fn from_fault_name(name: &str) -> (r: Option<StartProfileError>) {
        if str_equal(name, "net.connman.iwd.Busy") {
            Some(StartProfileError::Busy)
        } else if str_equal(name, "net.connman.iwd.Failed") {
            Some(StartProfileError::Failed)
        } else if str_equal(name, "net.connman.iwd.InvalidArguments") {
            Some(StartProfileError::InvalidArguments)
        } else if str_equal(name, "net.connman.iwd.AlreadyExists") {
            Some(StartProfileError::AlreadyExists)
        } else if str_equal(name, "net.connman.iwd.NotFound") {
            Some(StartProfileError::NotFound)
        } else {
            None
        }
    }

    fn fault_name(&self) -> (r: &'static str) {
        match self {
            StartProfileError::Busy => "net.connman.iwd.Busy",
            StartProfileError::Failed => "net.connman.iwd.Failed",
            StartProfileError::InvalidArguments => "net.connman.iwd.InvalidArguments",
            StartProfileError::AlreadyExists => "net.connman.iwd.AlreadyExists",
            StartProfileError::NotFound => "net.connman.iwd.NotFound",
        }
    }

    proof fn lemma_fault_name_round_trip(&self) {
        reveal_strlit("net.connman.iwd.Busy");
        assert("net.connman.iwd.Busy"@.len() == 20);
        assert("net.connman.iwd.Busy"@[16] == 'B' && "net.connman.iwd.Busy"@[19] == 'y');
        reveal_strlit("net.connman.iwd.Failed");
        assert("net.connman.iwd.Failed"@.len() == 22);
        assert("net.connman.iwd.Failed"@[16] == 'F' && "net.connman.iwd.Failed"@[19] == 'l');
        reveal_strlit("net.connman.iwd.InvalidArguments");
        assert("net.connman.iwd.InvalidArguments"@.len() == 32);
        assert("net.connman.iwd.InvalidArguments"@[16] == 'I' && "net.connman.iwd.InvalidArguments"@[19] == 'a');
        reveal_strlit("net.connman.iwd.AlreadyExists");
        assert("net.connman.iwd.AlreadyExists"@.len() == 29);
        assert("net.connman.iwd.AlreadyExists"@[16] == 'A' && "net.connman.iwd.AlreadyExists"@[19] == 'e');
        reveal_strlit("net.connman.iwd.NotFound");
        assert("net.connman.iwd.NotFound"@.len() == 24);
        assert("net.connman.iwd.NotFound"@[16] == 'N' && "net.connman.iwd.NotFound"@[19] == 'F');
    }
}

impl StartProfileError {
    pub open spec fn spec_detailed_message(&self) -> Seq<char> {
        match self {
            StartProfileError::Busy => "Operation already in progress"@,
            StartProfileError::Failed => "Operation failed"@,
            StartProfileError::InvalidArguments => "Argument type is wrong"@,
            StartProfileError::AlreadyExists => "Object already exists"@,
            StartProfileError::NotFound => "Object not found"@,
        }
    }

    /// A human-readable description of the failure.
    pub fn detailed_message(&self) -> (r: &'static str)
        ensures
            r@ == self.spec_detailed_message(),
    {
        match self {
            StartProfileError::Busy => "Operation already in progress",
            StartProfileError::Failed => "Operation failed",
            StartProfileError::InvalidArguments => "Argument type is wrong",
            StartProfileError::AlreadyExists => "Object already exists",
            StartProfileError::NotFound => "Object not found",
        }
    }
}

/// Why a scan from an access point failed.
#[derive(Debug, Clone, Copy, PartialEq, Eq, Structural)]
pub enum ScanError {
    NotAvailable,
    NotSupported,
    Busy,
    Failed,
}

impl OperationFault for ScanError {
    open spec fn spec_from_fault_name(name: Seq<char>) -> Option<ScanError> {
        if name == "net.connman.iwd.NotAvailable"@ {
            Some(ScanError::NotAvailable)
        } else if name == "net.connman.iwd.NotSupported"@ {
            Some(ScanError::NotSupported)
        } else if name == "net.connman.iwd.Busy"@ {
            Some(ScanError::Busy)
        } else if name == "net.connman.iwd.Failed"@ {
            Some(ScanError::Failed)
        } else {
            None
        }
    }

    open spec fn spec_fault_name(&self) -> Seq<char> {
        match self {
            ScanError::NotAvailable => "net.connman.iwd.NotAvailable"@,
            ScanError::NotSupported => "net.connman.iwd.NotSupported"@,
            ScanError::Busy => "net.connman.iwd.Busy"@,
            ScanError::Failed => "net.connman.iwd.Failed"@,
        }
    }

    fn from_fault_name(name: &str) -> (r: Option<ScanError>) {
        if str_equal(name, "net.connman.iwd.NotAvailable") {
            Some(ScanError::NotAvailable)
        } else if str_equal(name, "net.connman.iwd.NotSupported") {
            Some(ScanError::NotSupported)
        } else if str_equal(name, "net.connman.iwd.Busy") {
            Some(ScanError::Busy)
        } else if str_equal(name, "net.connman.iwd.Failed") {
            Some(ScanError::Failed)
        } else {
            None
        }
    }

    fn fault_name(&self) -> (r: &'static str) {
        match self {
            ScanError::NotAvailable => "net.connman.iwd.NotAvailable",
            ScanError::NotSupported => "net.connman.iwd.NotSupported",
            ScanError::Busy => "net.connman.iwd.Busy",
            ScanError::Failed => "net.connman.iwd.Failed",
        }
    }

    proof fn lemma_fault_name_round_trip(&self) {
        reveal_strlit("net.connman.iwd.NotAvailable");
        assert("net.connman.iwd.NotAvailable"@.len() == 28);
        assert("net.connman.iwd.NotAvailable"@[16] == 'N' && "net.connman.iwd.NotAvailable"@[19] == 'A');
        reveal_strlit("net.connman.iwd.NotSupported");
        assert("net.connman.iwd.NotSupported"@.len() == 28);
        assert("net.connman.iwd.NotSupported"@[16] == 'N' && "net.connman.iwd.NotSupported"@[19] == 'S');
        reveal_strlit("net.connman.iwd.Busy");
        assert("net.connman.iwd.Busy"@.len() == 20);
        assert("net.connman.iwd.Busy"@[16] == 'B' && "net.connman.iwd.Busy"@[19] == 'y');
        reveal_strlit("net.connman.iwd.Failed");
        assert("net.connman.iwd.Failed"@.len() == 22);
        assert("net.connman.iwd.Failed"@[16] == 'F' && "net.connman.iwd.Failed"@[19] == 'l');
    }
}

impl ScanError {
    pub open spec fn spec_detailed_message(&self) -> Seq<char> {
        match self {
            ScanError::NotAvailable => "Operation not available"@,
            ScanError::NotSupported => "Operation not supported"@,
            ScanError::Busy => "Operation already in progress"@,
            ScanError::Failed => "Operation failed"@,
        }
    }

    /// A human-readable description of the failure.
    pub fn detailed_message(&self) -> (r: &'static str)
        ensures
            r@ == self.spec_detailed_message(),
    {
        match self {
            ScanError::NotAvailable => "Operation not available",
            ScanError::NotSupported => "Operation not supported",
            ScanError::Busy => "Operation already in progress",
            ScanError::Failed => "Operation failed",
        }
    }
}

} // verus!
