use iwdrs::daemon::DaemonInfo;
use iwdrs::hidden_network::HiddenNetwork;
use iwdrs::modes::Mode;
use iwdrs::network::NetworkType;
use iwdrs::station::diagnostics::{ActiveStationDiagnostics, Mode as LinkMode, PairwiseCipher, StationSecurity};
use iwdrs::station::State;
use iwdrs::value::{DecodeError, PropValue, PropertyMap};

fn full_diagnostics() -> PropertyMap {
    let mut m = PropertyMap::new();
    m.push("ConnectedBss".to_string(), PropValue::Str("aa:bb:cc:dd:ee:ff".to_string()));
    m.push("Frequency".to_string(), PropValue::U32(5180));
    m.push("Channel".to_string(), PropValue::U16(36));
    m.push("Security".to_string(), PropValue::Str("WPA2-Personal".to_string()));
    m.push("RSSI".to_string(), PropValue::I16(-52));
    m.push("AverageRSSI".to_string(), PropValue::I16(-55));
    m.push("RxMode".to_string(), PropValue::Str("802.11ac".to_string()));
    m.push("RxBitrate".to_string(), PropValue::U32(8667));
    m.push("RxMCS".to_string(), PropValue::Byte(9));
    m.push("TxMode".to_string(), PropValue::Str("802.11ax".to_string()));
    m.push("TxBitrate".to_string(), PropValue::U32(6000));
    m.push("TxMCS".to_string(), PropValue::Byte(7));
    m.push("PairwiseCipher".to_string(), PropValue::Str("CCMP-128".to_string()));
    m.push("InactiveTime".to_string(), PropValue::U32(120));
    m.push("ConnectedTime".to_string(), PropValue::U32(3600));
    m
}

#[test]
fn diagnostics_decode_every_field() {
    let d = ActiveStationDiagnostics::from_zbus_map(&full_diagnostics()).unwrap();
    assert_eq!(d.connected_bss, "aa:bb:cc:dd:ee:ff");
    assert_eq!(d.frequency_mhz, 5180);
    assert_eq!(d.channel, 36);
    assert_eq!(d.security, StationSecurity::WPA2Personal);
    assert_eq!(d.rssi, Some(-52));
    assert_eq!(d.average_rssi, Some(-55));
    assert_eq!(d.rx_mode, Some(LinkMode::AC));
    assert_eq!(d.rx_rate_kbps, Some(866_700));
    assert_eq!(d.rx_mcs, Some(9));
    assert_eq!(d.tx_mode, Some(LinkMode::AX));
    assert_eq!(d.tx_rate_kbps, Some(600_000));
    assert_eq!(d.tx_mcs, Some(7));
    assert_eq!(d.pairwise_cipher, Some(PairwiseCipher::Ccmp128));
    assert_eq!(d.inactive_time_ms, Some(120));
    assert_eq!(d.connected_time_s, Some(3600));
}

#[test]
fn diagnostics_optional_fields_may_be_absent() {
    let mut m = PropertyMap::new();
    m.push("ConnectedBss".to_string(), PropValue::Str("bss".to_string()));
    m.push("Frequency".to_string(), PropValue::U32(2412));
    m.push("Channel".to_string(), PropValue::U16(1));
    m.push("Security".to_string(), PropValue::Str("Open".to_string()));
    let d = ActiveStationDiagnostics::from_zbus_map(&m).unwrap();
    assert_eq!(d.security, StationSecurity::Open);
    assert_eq!(d.rssi, None);
    assert_eq!(d.rx_rate_kbps, None);
    assert_eq!(d.pairwise_cipher, None);
    assert_eq!(d.connected_time_s, None);
}

#[test]
fn diagnostics_rate_scaling_at_the_largest_value() {
    let mut m = full_diagnostics();
    m.entries[7].1 = PropValue::U32(u32::MAX);
    let d = ActiveStationDiagnostics::from_zbus_map(&m).unwrap();
    assert_eq!(d.rx_rate_kbps, Some(100 * u32::MAX as u64));
}

#[test]
fn diagnostics_missing_required_field() {
    let mut m = full_diagnostics();
    m.entries.remove(1);
    assert_eq!(ActiveStationDiagnostics::from_zbus_map(&m).unwrap_err(), DecodeError::MissingField);
    assert_eq!(ActiveStationDiagnostics::from_zbus_map(&PropertyMap::new()).unwrap_err(), DecodeError::MissingField);
}

#[test]
fn diagnostics_mistyped_field() {
    let mut m = full_diagnostics();
    m.entries[4].1 = PropValue::I32(-52);
    assert_eq!(ActiveStationDiagnostics::from_zbus_map(&m).unwrap_err(), DecodeError::IncorrectType);
    let mut m = full_diagnostics();
    m.entries[3].1 = PropValue::Str("WEP".to_string());
    assert_eq!(ActiveStationDiagnostics::from_zbus_map(&m).unwrap_err(), DecodeError::IncorrectType);
}

#[test]
fn diagnostics_first_failing_field_decides() {
    let mut m = full_diagnostics();
    m.entries[0].1 = PropValue::U32(1);
    m.entries.remove(2);
    assert_eq!(ActiveStationDiagnostics::from_zbus_map(&m).unwrap_err(), DecodeError::IncorrectType);
}

#[test]
fn daemon_info_decodes() {
    let mut m = PropertyMap::new();
    m.push("StateDirectory".to_string(), PropValue::Str("/var/lib/iwd".to_string()));
    m.push("Version".to_string(), PropValue::Str("2.14".to_string()));
    m.push("NetworkConfigurationEnabled".to_string(), PropValue::Bool(true));
    let info = DaemonInfo::from_zbus_map(&m).unwrap();
    assert_eq!(info.state_dir, "/var/lib/iwd");
    assert_eq!(info.version, "2.14");
    assert!(info.network_config_enabled);
}

#[test]
fn daemon_info_errors() {
    let mut m = PropertyMap::new();
    m.push("StateDirectory".to_string(), PropValue::Str("/var/lib/iwd".to_string()));
    m.push("Version".to_string(), PropValue::Str("2.14".to_string()));
    assert_eq!(DaemonInfo::from_zbus_map(&m).unwrap_err(), DecodeError::MissingField);
    m.push("NetworkConfigurationEnabled".to_string(), PropValue::Str("yes".to_string()));
    assert_eq!(DaemonInfo::from_zbus_map(&m).unwrap_err(), DecodeError::IncorrectType);
}

#[test]
fn property_lookup_takes_the_first_entry() {
    let mut m = PropertyMap::new();
    m.push("Powered".to_string(), PropValue::Bool(true));
    m.push("Powered".to_string(), PropValue::Bool(false));
    assert_eq!(m.get_bool("Powered"), Ok(Some(true)));
    assert_eq!(m.get_bool("Name"), Ok(None));
    assert_eq!(m.get_u32("Powered"), Err(DecodeError::IncorrectType));
}

#[test]
fn hidden_networks_convert_in_order() {
    let entries = vec![
        ("11:22:33:44:55:66".to_string(), -4500i16, "psk".to_string()),
        ("aa:bb:cc:dd:ee:ff".to_string(), -7000i16, "8021X".to_string()),
    ];
    let nets = HiddenNetwork::from_entries(entries).unwrap();
    assert_eq!(nets.len(), 2);
    assert_eq!(nets[0].address, "11:22:33:44:55:66");
    assert_eq!(nets[0].signal_strength, -4500);
    assert_eq!(nets[0].network_type, NetworkType::Psk);
    assert_eq!(nets[1].network_type, NetworkType::Eap);
    assert!(HiddenNetwork::from_entries(vec![]).unwrap().is_empty());
}

#[test]
fn hidden_network_with_unknown_type_fails() {
    let entries = vec![("11:22:33:44:55:66".to_string(), -4500i16, "wpa9".to_string())];
    assert_eq!(HiddenNetwork::from_entries(entries).unwrap_err(), DecodeError::IncorrectType);
}

#[test]
fn names_parse_without_regard_to_ascii_case() {
    assert_eq!(NetworkType::from_name("OPEN"), Some(NetworkType::Open));
    assert_eq!(NetworkType::from_name("wep"), Some(NetworkType::Wep));
    assert_eq!(NetworkType::from_name("8021x"), Some(NetworkType::Eap));
    assert_eq!(NetworkType::from_name("eap"), None);
    assert_eq!(State::from_name("connected"), Some(State::Connected));
    assert_eq!(State::from_name("ROAMING"), Some(State::Roaming));
    assert_eq!(State::from_name("connect"), None);
    assert_eq!(State::Disconnecting.name(), "Disconnecting");
    assert_eq!(Mode::from_name("station"), Some(Mode::Station));
    assert_eq!(Mode::from_name("AP"), Some(Mode::Ap));
    assert_eq!(Mode::from_name("adhoc"), None);
    assert_eq!(Mode::Ap.name(), "ap");
    assert_eq!(Mode::Station.name(), "station");
}

#[test]
fn device_mode_property_is_exact() {
    assert_eq!(Mode::from_wire("station"), Some(Mode::Station));
    assert_eq!(Mode::from_wire("ap"), Some(Mode::Ap));
    assert_eq!(Mode::from_wire("Station"), None);
    assert_eq!(Mode::from_wire("AP"), None);
    assert_eq!(Mode::from_wire(""), None);
}

#[test]
fn diagnostic_names_are_exact() {
    assert_eq!(StationSecurity::from_name("WPA3-Personal + FT"), Some(StationSecurity::WPA3PersonalFt));
    assert_eq!(StationSecurity::from_name("owe"), None);
    assert_eq!(LinkMode::from_name("802.11n"), Some(LinkMode::N));
    assert_eq!(PairwiseCipher::from_name("GCMP-256"), Some(PairwiseCipher::Gcmp256));
    assert_eq!(PairwiseCipher::from_name("gcmp-256"), None);
}
