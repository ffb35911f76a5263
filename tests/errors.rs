use iwdrs::error::access_point::{AccessPointStartError, AccessPointStopError, ScanError as ApScanError, StartProfileError};
use iwdrs::error::network::ConnectError;
use iwdrs::error::station::{DisconnectError, ScanError, StationDiagnosticsError};
use iwdrs::error::{IWDError, OperationFault};

fn method_error(name: &str) -> zbus::Error {
    let msg = zbus::Message::method_call("/net/connman/iwd/0/4", "Scan")
        .unwrap()
        .build(&())
        .unwrap();
    zbus::Error::MethodError(zbus::names::OwnedErrorName::try_from(name).unwrap(), None, msg)
}

#[test]
fn busy_fault_on_scan_maps_to_busy() {
    assert_eq!(ScanError::from_fault_name("net.connman.iwd.Busy"), Some(ScanError::Busy));
    let e = IWDError::<ScanError>::from_fault(Some("net.connman.iwd.Busy"), zbus::Error::InvalidReply);
    assert!(matches!(e, IWDError::OperationError(ScanError::Busy)));
    let e = IWDError::<ScanError>::from_zbus(method_error("net.connman.iwd.Busy"));
    assert!(matches!(e, IWDError::OperationError(ScanError::Busy)));
}

#[test]
fn unknown_fault_name_stays_a_transport_error() {
    let e = IWDError::<ScanError>::from_zbus(method_error("net.connman.iwd.NotConnected"));
    assert!(matches!(e, IWDError::ZbusError(zbus::Error::MethodError(..))));
    let e = IWDError::<ScanError>::from_fault(Some("net.connman.iwd.Unknown"), zbus::Error::InvalidReply);
    assert!(matches!(e, IWDError::ZbusError(zbus::Error::InvalidReply)));
}

#[test]
fn non_fault_errors_stay_transport_errors() {
    let e = IWDError::<ConnectError>::from_zbus(zbus::Error::InvalidReply);
    assert!(matches!(e, IWDError::ZbusError(zbus::Error::InvalidReply)));
    let e = IWDError::<ConnectError>::from_fault(None, zbus::Error::MissingField);
    assert!(matches!(e, IWDError::ZbusError(zbus::Error::MissingField)));
}

#[test]
fn each_family_maps_its_own_names() {
    assert_eq!(ConnectError::from_fault_name("net.connman.iwd.InProgress"), Some(ConnectError::InProgress));
    assert_eq!(ConnectError::from_fault_name("net.connman.iwd.Busy"), Some(ConnectError::Busy));
    assert_eq!(ConnectError::from_fault_name("net.connman.iwd.NoAgent"), Some(ConnectError::NoAgent));
    assert_eq!(DisconnectError::from_fault_name("net.connman.iwd.NotConnected"), Some(DisconnectError::NotConnected));
    assert_eq!(ScanError::from_fault_name("net.connman.iwd.NotConnected"), None);
    assert_eq!(StationDiagnosticsError::from_fault_name("net.connman.iwd.Failed"), Some(StationDiagnosticsError::Failed));
    assert_eq!(ApScanError::from_fault_name("net.connman.iwd.NotAvailable"), Some(ApScanError::NotAvailable));
    assert_eq!(AccessPointStartError::from_fault_name("net.connman.iwd.Busy"), None);
    assert_eq!(AccessPointStopError::from_fault_name("net.connman.iwd.Busy"), Some(AccessPointStopError::Busy));
    assert_eq!(StartProfileError::from_fault_name("net.connman.iwd.NotFound"), Some(StartProfileError::NotFound));
    assert_eq!(ScanError::from_fault_name("Busy"), None);
}

#[test]
fn fault_names_and_messages() {
    assert_eq!(ScanError::Busy.fault_name(), "net.connman.iwd.Busy");
    assert_eq!(ConnectError::InvalidFormat.fault_name(), "net.connman.iwd.InvalidFormat");
    assert_eq!(ScanError::Busy.detailed_message(), "Operation already in progress");
    assert_eq!(ConnectError::NoAgent.detailed_message(), "No Agent registered");
    assert_eq!(DisconnectError::NotConnected.detailed_message(), "Not connected");
    assert_eq!(AccessPointStartError::AlreadyExists.detailed_message(), "Object already exists");
}
