//! Failures of network operations.

use crate::error::OperationFault;
use crate::text::str_equal;
use vstd::prelude::*;

verus! {

/// Why connecting to a network failed.
#[derive(Debug, Clone, Copy, PartialEq, Eq, Structural)]
pub enum ConnectError {
    Aborted,
    Busy,
    Failed,
    NoAgent,
    NotSupported,
    InProgress,
    NotConfigured,
    InvalidFormat,
}

impl OperationFault for ConnectError {
    open spec fn spec_from_fault_name(name: Seq<char>) -> Option<ConnectError> {
        if name == "net.connman.iwd.Aborted"@ {
            Some(ConnectError::Aborted)
        } else if name == "net.connman.iwd.Busy"@ {
            Some(ConnectError::Busy)
        } else if name == "net.connman.iwd.Failed"@ {
            Some(ConnectError::Failed)
        } else if name == "net.connman.iwd.NoAgent"@ {
            Some(ConnectError::NoAgent)
        } else if name == "net.connman.iwd.NotSupported"@ {
            Some(ConnectError::NotSupported)
        } else if name == "net.connman.iwd.InProgress"@ {
            Some(ConnectError::InProgress)
        } else if name == "net.connman.iwd.NotConfigured"@ {
            Some(ConnectError::NotConfigured)
        } else if name == "net.connman.iwd.InvalidFormat"@ {
            Some(ConnectError::InvalidFormat)
        } else {
            None
        }
    }

    open spec fn spec_fault_name(&self) -> Seq<char> {
        match self {
            ConnectError::Aborted => "net.connman.iwd.Aborted"@,
            ConnectError::Busy => "net.connman.iwd.Busy"@,
            ConnectError::Failed => "net.connman.iwd.Failed"@,
            ConnectError::NoAgent => "net.connman.iwd.NoAgent"@,
            ConnectError::NotSupported => "net.connman.iwd.NotSupported"@,
            ConnectError::InProgress => "net.connman.iwd.InProgress"@,
            ConnectError::NotConfigured => "net.connman.iwd.NotConfigured"@,
            ConnectError::InvalidFormat => "net.connman.iwd.InvalidFormat"@,
        }
    }

    fn from_fault_name(name: &str) -> (r: Option<ConnectError>) {
        if str_equal(name, "net.connman.iwd.Aborted") {
            Some(ConnectError::Aborted)
        } else if str_equal(name, "net.connman.iwd.Busy") {
            Some(ConnectError::Busy)
        } else if str_equal(name, "net.connman.iwd.Failed") {
            Some(ConnectError::Failed)
        } else if str_equal(name, "net.connman.iwd.NoAgent") {
            Some(ConnectError::NoAgent)
        } else if str_equal(name, "net.connman.iwd.NotSupported") {
            Some(ConnectError::NotSupported)
        } else if str_equal(name, "net.connman.iwd.InProgress") {
            Some(ConnectError::InProgress)
        } else if str_equal(name, "net.connman.iwd.NotConfigured") {
            Some(ConnectError::NotConfigured)
        } else if str_equal(name, "net.connman.iwd.InvalidFormat") {
            Some(ConnectError::InvalidFormat)
        } else {
            None
        }
    }

    fn fault_name(&self) -> (r: &'static str) {
        match self {
            ConnectError::Aborted => "net.connman.iwd.Aborted",
            ConnectError::Busy => "net.connman.iwd.Busy",
            ConnectError::Failed => "net.connman.iwd.Failed",
            ConnectError::NoAgent => "net.connman.iwd.NoAgent",
            ConnectError::NotSupported => "net.connman.iwd.NotSupported",
            ConnectError::InProgress => "net.connman.iwd.InProgress",
            ConnectError::NotConfigured => "net.connman.iwd.NotConfigured",
            ConnectError::InvalidFormat => "net.connman.iwd.InvalidFormat",
        }
    }

    proof fn lemma_fault_name_round_trip(&self) {
        reveal_strlit("net.connman.iwd.Aborted");
        assert("net.connman.iwd.Aborted"@.len() == 23);
        assert("net.connman.iwd.Aborted"@[16] == 'A' && "net.connman.iwd.Aborted"@[19] == 'r');
        reveal_strlit("net.connman.iwd.Busy");
        assert("net.connman.iwd.Busy"@.len() == 20);
        assert("net.connman.iwd.Busy"@[16] == 'B' && "net.connman.iwd.Busy"@[19] == 'y');
        reveal_strlit("net.connman.iwd.Failed");
        assert("net.connman.iwd.Failed"@.len() == 22);
        assert("net.connman.iwd.Failed"@[16] == 'F' && "net.connman.iwd.Failed"@[19] == 'l');
        reveal_strlit("net.connman.iwd.NoAgent");
        assert("net.connman.iwd.NoAgent"@.len() == 23);
        assert("net.connman.iwd.NoAgent"@[16] == 'N' && "net.connman.iwd.NoAgent"@[19] == 'g');
        reveal_strlit("net.connman.iwd.NotSupported");
        assert("net.connman.iwd.NotSupported"@.len() == 28);
        assert("net.connman.iwd.NotSupported"@[16] == 'N' && "net.connman.iwd.NotSupported"@[19] == 'S');
        reveal_strlit("net.connman.iwd.InProgress");
        assert("net.connman.iwd.InProgress"@.len() == 26);
        assert("net.connman.iwd.InProgress"@[16] == 'I' && "net.connman.iwd.InProgress"@[19] == 'r');
        reveal_strlit("net.connman.iwd.NotConfigured");
        assert("net.connman.iwd.NotConfigured"@.len() == 29);
        assert("net.connman.iwd.NotConfigured"@[16] == 'N' && "net.connman.iwd.NotConfigured"@[19] == 'C');
        reveal_strlit("net.connman.iwd.InvalidFormat");
        assert("net.connman.iwd.InvalidFormat"@.len() == 29);
        assert("net.connman.iwd.InvalidFormat"@[16] == 'I' && "net.connman.iwd.InvalidFormat"@[19] == 'a');
    }
}

impl ConnectError {
    pub open spec fn spec_detailed_message(&self) -> Seq<char> {
        match self {
            ConnectError::Aborted => "Operation aborted"@,
            ConnectError::Busy => "Operation already in progress"@,
            ConnectError::Failed => "Operation failed"@,
            ConnectError::NoAgent => "No Agent registered"@,
            ConnectError::NotSupported => "Operation not supported"@,
            ConnectError::InProgress => "Operation already in progress"@,
            ConnectError::NotConfigured => "Not configured"@,
            ConnectError::InvalidFormat => "Argument format is invalid"@,
        }
    }

    /// A human-readable description of the failure.
    pub fn detailed_message(&self) -> (r: &'static str)
        ensures
            r@ == self.spec_detailed_message(),
    {
        match self {
            ConnectError::Aborted => "Operation aborted",
            ConnectError::Busy => "Operation already in progress",
            ConnectError::Failed => "Operation failed",
            ConnectError::NoAgent => "No Agent registered",
            ConnectError::NotSupported => "Operation not supported",
            ConnectError::InProgress => "Operation already in progress",
            ConnectError::NotConfigured => "Not configured",
            ConnectError::InvalidFormat => "Argument format is invalid",
        }
    }
}

} // verus!
