use iwdrs::catalog::{Catalog, InterfaceSnapshot, ObjectSnapshot};
use iwdrs::interface::{handles_of, Interface, InterfaceHandle};
use iwdrs::object_path::ObjectPath;
use iwdrs::value::{PropValue, PropertyMap};

fn object(path: &str, interfaces: &[&str]) -> ObjectSnapshot {
    let mut list = Vec::new();
    for name in interfaces {
        let mut properties = PropertyMap::new();
        properties.push("Name".to_string(), PropValue::Str("x".to_string()));
        list.push(InterfaceSnapshot { name: name.to_string(), properties });
    }
    ObjectSnapshot { path: ObjectPath::parse(path).unwrap(), interfaces: list }
}

fn sample() -> Catalog {
    let mut c = Catalog::new();
    assert!(c.add(object("/net/connman/iwd", &["net.connman.iwd.Daemon", "net.connman.iwd.AgentManager"])).is_none());
    assert!(c.add(object("/net/connman/iwd/0/4", &["net.connman.iwd.Device", "net.connman.iwd.Station"])).is_none());
    assert!(c.add(object("/net/connman/iwd/0", &["net.connman.iwd.Adapter"])).is_none());
    assert!(c.add(object("/net/connman/iwd/0/5", &["net.connman.iwd.Device", "net.connman.iwd.Station"])).is_none());
    c
}

fn paths(v: &[ObjectPath]) -> Vec<String> {
    v.iter().map(|p| p.as_str().to_string()).collect()
}

#[test]
fn objects_of_interface_returns_exactly_implementing_paths() {
    let c = sample();
    let stations = c.objects_of_interface("net.connman.iwd.Station");
    assert_eq!(paths(&stations), vec!["/net/connman/iwd/0/4", "/net/connman/iwd/0/5"]);
    let adapters = c.objects_of_interface("net.connman.iwd.Adapter");
    assert_eq!(paths(&adapters), vec!["/net/connman/iwd/0"]);
}

#[test]
fn objects_of_interface_is_stable_within_one_catalog() {
    let c = sample();
    let first = paths(&c.objects_of_interface("net.connman.iwd.Device"));
    let second = paths(&c.objects_of_interface("net.connman.iwd.Device"));
    assert_eq!(first, second);
}

#[test]
fn objects_of_unknown_interface_is_empty() {
    let c = sample();
    assert!(c.objects_of_interface("net.connman.iwd.AccessPoint").is_empty());
    assert!(Catalog::new().objects_of_interface("net.connman.iwd.Station").is_empty());
}

#[test]
fn objects_of_interface_matches_whole_names_only() {
    let c = sample();
    assert!(c.objects_of_interface("net.connman.iwd.Stat").is_empty());
    assert!(c.objects_of_interface("net.connman.iwd.station").is_empty());
}

#[test]
fn catalog_refuses_a_second_object_at_one_path() {
    let mut c = sample();
    let back = c.add(object("/net/connman/iwd/0", &["net.connman.iwd.Station"]));
    assert!(back.is_some());
    assert_eq!(paths(&c.objects_of_interface("net.connman.iwd.Station")).len(), 2);
}

#[test]
fn handles_of_binds_each_implementing_object() {
    let c = sample();
    let handles = handles_of(&c, Interface::Station);
    assert_eq!(handles.len(), 2);
    assert_eq!(handles[0].path().as_str(), "/net/connman/iwd/0/4");
    assert_eq!(handles[1].path().as_str(), "/net/connman/iwd/0/5");
    assert_eq!(handles[0].interface(), Interface::Station);
}

#[test]
fn bind_accepts_well_formed_paths_only() {
    assert!(InterfaceHandle::bind("/net/connman/iwd/0", Interface::Adapter).is_ok());
    assert!(InterfaceHandle::bind("/", Interface::Daemon).is_ok());
    assert!(InterfaceHandle::bind("", Interface::Adapter).is_err());
    assert!(InterfaceHandle::bind("/double//slash", Interface::Adapter).is_err());
    assert!(InterfaceHandle::bind("/trailing/", Interface::Adapter).is_err());
    assert!(InterfaceHandle::bind("/ha.d", Interface::Adapter).is_err());
    assert!(InterfaceHandle::bind("relative/path", Interface::Adapter).is_err());
}

#[test]
fn interface_names_match_the_daemon() {
    assert_eq!(Interface::Station.name(), "net.connman.iwd.Station");
    assert_eq!(Interface::KnownNetwork.name(), "net.connman.iwd.KnownNetwork");
    assert_eq!(Interface::StationDiagnostic.name(), "net.connman.iwd.StationDiagnostic");
    assert_eq!(Interface::AgentManager.name(), "net.connman.iwd.AgentManager");
}

#[test]
fn object_path_parse_keeps_the_text() {
    let p = ObjectPath::parse("/iwdrs/agent/abc_123").unwrap();
    assert_eq!(p.as_str(), "/iwdrs/agent/abc_123");
    assert!(p.same_as(&p.duplicate()));
    assert!(ObjectPath::from_string("/a/b".to_string()).is_ok());
    assert!(ObjectPath::from_string("/a/é".to_string()).is_err());
}
