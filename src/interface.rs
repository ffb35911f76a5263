//! Interface handles: the binding of an object path to one of the daemon's
//! interfaces. Binding never contacts the bus; the handle only names what a
//! later call addresses.

use crate::catalog::{paths_with_interface, Catalog};
use crate::object_path::{is_object_path, InvalidPath, ObjectPath};
use vstd::prelude::*;

verus! {

/// The bus name of the daemon.
pub const DESTINATION: &'static str = "net.connman.iwd";

/// The path of the daemon's own object, which also manages agents.
pub const DAEMON_PATH: &'static str = "/net/connman/iwd";

/// The path at which the daemon lists its objects.
pub const OBJECT_MANAGER_PATH: &'static str = "/";

/// The interface that lists the daemon's objects.
pub const OBJECT_MANAGER_INTERFACE: &'static str = "org.freedesktop.DBus.ObjectManager";

/// The daemon's interfaces that this library addresses.
#[derive(Debug, Clone, Copy, PartialEq, Eq, Structural)]
pub enum Interface {
    Adapter,
    Device,
    Station,
    StationDiagnostic,
    Network,
    KnownNetwork,
    AccessPoint,
    AccessPointDiagnostic,
    Daemon,
    AgentManager,
}

impl Interface {
    pub open spec fn spec_name(self) -> Seq<char> {
        match self {
            Interface::Adapter => "net.connman.iwd.Adapter"@,
            Interface::Device => "net.connman.iwd.Device"@,
            Interface::Station => "net.connman.iwd.Station"@,
            Interface::StationDiagnostic => "net.connman.iwd.StationDiagnostic"@,
            Interface::Network => "net.connman.iwd.Network"@,
            Interface::KnownNetwork => "net.connman.iwd.KnownNetwork"@,
            Interface::AccessPoint => "net.connman.iwd.AccessPoint"@,
            Interface::AccessPointDiagnostic => "net.connman.iwd.AccessPointDiagnostic"@,
            Interface::Daemon => "net.connman.iwd.Daemon"@,
            Interface::AgentManager => "net.connman.iwd.AgentManager"@,
        }
    }

    /// The interface's name on the bus.
    pub fn name(&self) -> (r: &'static str)
        ensures
            r@ == self.spec_name(),
    {
        match self {
            Interface::Adapter => "net.connman.iwd.Adapter",
            Interface::Device => "net.connman.iwd.Device",
            Interface::Station => "net.connman.iwd.Station",
            Interface::StationDiagnostic => "net.connman.iwd.StationDiagnostic",
            Interface::Network => "net.connman.iwd.Network",
            Interface::KnownNetwork => "net.connman.iwd.KnownNetwork",
            Interface::AccessPoint => "net.connman.iwd.AccessPoint",
            Interface::AccessPointDiagnostic => "net.connman.iwd.AccessPointDiagnostic",
            Interface::Daemon => "net.connman.iwd.Daemon",
            Interface::AgentManager => "net.connman.iwd.AgentManager",
        }
    }
}

/// An object path bound to one interface.
#[derive(Debug)]
pub struct InterfaceHandle {
    path: ObjectPath,
    interface: Interface,
}

impl InterfaceHandle {
    pub closed spec fn spec_path(&self) -> Seq<char> {
        self.path@
    }

    pub closed spec fn spec_interface(&self) -> Interface {
        self.interface
    }

    /// Binds an already checked path.
    pub fn new(path: ObjectPath, interface: Interface) -> (r: InterfaceHandle)
        ensures
            r.spec_path() == path@,
            r.spec_interface() == interface,
    {
        InterfaceHandle { path, interface }
    }

    /// Binds `path` to `interface`; fails only when `path` is malformed.
    pub fn bind(path: &str, interface: Interface) -> (r: Result<InterfaceHandle, InvalidPath>)
        ensures
            r is Ok <==> is_object_path(path@),
            r matches Ok(h) ==> h.spec_path() == path@ && h.spec_interface() == interface,
    {
        match ObjectPath::parse(path) {
            Ok(p) => Ok(InterfaceHandle { path: p, interface }),
            Err(e) => Err(e),
        }
    }

    pub fn path(&self) -> (r: &ObjectPath)
        ensures
            r@ == self.spec_path(),
    {
        &self.path
    }

    pub fn interface(&self) -> (r: Interface)
        ensures
            r == self.spec_interface(),
    {
        self.interface
    }
}

/// Handles for every object of the snapshot that implements `interface`, in
/// snapshot order.
pub fn handles_of(catalog: &Catalog, interface: Interface) -> (r: Vec<InterfaceHandle>)
    requires
        catalog.wf(),
    ensures
        r@.len() == paths_with_interface(catalog@, interface.spec_name()).len(),
        forall|k: int| 0 <= k < r@.len() ==> {
            &&& (#[trigger] r@[k]).spec_path() == paths_with_interface(catalog@, interface.spec_name())[k]
            &&& r@[k].spec_interface() == interface
        },
{
    let paths = catalog.objects_of_interface(interface.name());
    let ghost expected = paths_with_interface(catalog@, interface.spec_name());
    let mut out: Vec<InterfaceHandle> = Vec::new();
    let n = paths.len();
    let mut i: usize = 0;
    while i < n
        invariant
            n == paths@.len(),
            i <= n,
            out@.len() == i,
            paths@.map_values(|p: ObjectPath| p@) == expected,
            forall|k: int| 0 <= k < i ==> {
                &&& (#[trigger] out@[k]).spec_path() == expected[k]
                &&& out@[k].spec_interface() == interface
            },
        decreases n - i,
    {
        proof {
            assert(expected[i as int] == paths@[i as int]@);
        }
        out.push(InterfaceHandle::new(paths[i].duplicate(), interface));
        i = i + 1;
    }
    out
}

} // verus!
