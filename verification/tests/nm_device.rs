use ble_net_mngmt::error::{error_json, AppError};
use ble_net_mngmt::network::nm_device::{
    first_address, is_null_object_path, ssid_text, AddressEntry, AddressMap, DevType, Nm,
    NmDeviceType, NmIface, PropValue,
};

fn entry(key: &str, value: PropValue) -> AddressEntry {
    AddressEntry { key: key.to_string(), value }
}

fn text(s: &str) -> PropValue {
    PropValue::Str(s.to_string())
}

#[test]
fn device_type_codes_map_to_kinds() {
    assert!(DevType::from(NmDeviceType::new(1)) == DevType::Ethernet);
    assert!(DevType::from(NmDeviceType::new(2)) == DevType::WiFi);
    assert!(DevType::from(NmDeviceType::new(5)) == DevType::Bluetooth);
    assert!(DevType::from(NmDeviceType::new(0)) == DevType::Other);
    assert!(DevType::from(NmDeviceType::new(3)) == DevType::Other);
    assert!(DevType::from(NmDeviceType::new(u32::MAX)) == DevType::Other);
}

#[test]
fn device_kind_names() {
    assert_eq!(DevType::Ethernet.as_str(), "Ethernet");
    assert_eq!(DevType::WiFi.as_str(), "WiFi");
    assert_eq!(DevType::Bluetooth.as_str(), "Bluetooth");
    assert_eq!(DevType::Other.as_str(), "Other");
    assert_eq!(NmDeviceType::new(1).name(), "Ethernet");
    assert_eq!(NmDeviceType::new(2).name(), "WiFi");
    assert_eq!(NmDeviceType::new(5).name(), "Bluetooth");
    assert_eq!(NmDeviceType::new(14).name(), "Other");
}

#[test]
fn wifi_and_ethernet_tests() {
    assert!(NmDeviceType::new(2).is_wifi());
    assert!(!NmDeviceType::new(2).is_ethernet());
    assert!(NmDeviceType::new(1).is_ethernet());
    assert!(!NmDeviceType::new(1).is_wifi());
    assert!(!NmDeviceType::new(5).is_wifi());
    assert!(!NmDeviceType::new(5).is_ethernet());
}

#[test]
fn device_state_names() {
    assert_eq!(Nm::map_device_state(100), "Activated");
    assert_eq!(Nm::map_device_state(50), "Disconnected");
    assert_eq!(Nm::map_device_state(0), "Unknown");
    assert_eq!(Nm::map_device_state(70), "Unknown");
    assert_eq!(Nm::map_device_state(110), "Unknown");
}

#[test]
fn interface_names() {
    assert_eq!(NmIface::MAIN_PATH, "/org/freedesktop/NetworkManager");
    assert_eq!(NmIface::CORE, "org.freedesktop.NetworkManager");
    assert_eq!(NmIface::DEVICE, "org.freedesktop.NetworkManager.Device");
    assert_eq!(NmIface::DEVICE_WIRELESS, "org.freedesktop.NetworkManager.Device.Wireless");
    assert_eq!(NmIface::ACTIVE_CONNECTION, "org.freedesktop.NetworkManager.Connection.Active");
    assert_eq!(NmIface::IP4_CONFIG, "org.freedesktop.NetworkManager.IP4Config");
    assert_eq!(NmIface::ACCESSPOINT, "org.freedesktop.NetworkManager.AccessPoint");
    assert_eq!(NmIface::PROPERTIES, "org.freedesktop.DBus.Properties");
}

#[test]
fn null_object_path() {
    assert!(is_null_object_path(&"/".to_string()));
    assert!(!is_null_object_path(&"/org/freedesktop/NetworkManager/ActiveConnection/1".to_string()));
    assert!(!is_null_object_path(&"".to_string()));
    assert!(!is_null_object_path(&"//".to_string()));
}

#[test]
fn address_map_lookup() {
    let m = AddressMap {
        entries: vec![entry("prefix", PropValue::Other), entry("address", text("10.0.0.2"))],
    };
    match m.get(&"address".to_string()) {
        Some(PropValue::Str(s)) => assert_eq!(s, "10.0.0.2"),
        _ => panic!("address not found"),
    }
    assert!(matches!(m.get(&"prefix".to_string()), Some(PropValue::Other)));
    assert!(m.get(&"gateway".to_string()).is_none());
}

#[test]
fn address_map_last_entry_wins() {
    let m = AddressMap { entries: vec![entry("address", text("1.1.1.1")), entry("address", text("2.2.2.2"))] };
    match m.get(&"address".to_string()) {
        Some(PropValue::Str(s)) => assert_eq!(s, "2.2.2.2"),
        _ => panic!("address not found"),
    }
}

#[test]
fn first_address_reads_first_dictionary() {
    assert_eq!(first_address(&vec![]), None);
    let maps = vec![
        AddressMap { entries: vec![entry("address", text("192.168.1.5")), entry("prefix", PropValue::Other)] },
        AddressMap { entries: vec![entry("address", text("192.168.1.6"))] },
    ];
    assert_eq!(first_address(&maps), Some("192.168.1.5".to_string()));
    let maps = vec![
        AddressMap { entries: vec![entry("prefix", PropValue::Other)] },
        AddressMap { entries: vec![entry("address", text("192.168.1.6"))] },
    ];
    assert_eq!(first_address(&maps), None);
    let maps = vec![AddressMap { entries: vec![entry("address", PropValue::Other)] }];
    assert_eq!(first_address(&maps), None);
}

#[test]
fn ssid_as_text() {
    assert_eq!(ssid_text(&b"home-net".to_vec()), "home-net");
    assert_eq!(ssid_text(&vec![]), "");
    assert_eq!(ssid_text(&vec![0x66, 0xff, 0x67]), "f\u{FFFD}g");
    assert_eq!(ssid_text(&"кафе".as_bytes().to_vec()), "кафе");
}

#[test]
fn error_report_text() {
    assert_eq!(error_json("GetDevices", "boom"), r#"{"error":"GetDevices failed: boom"}"#);
    assert_eq!(error_json("dbus connect", ""), r#"{"error":"dbus connect failed: "}"#);
    assert_eq!(error_json("", ""), r#"{"error":" failed: "}"#);
}

#[test]
fn app_error_variants() {
    let e = AppError::Failed(error_json("nm proxy", "denied"));
    match e {
        AppError::Failed(m) => assert_eq!(m, r#"{"error":"nm proxy failed: denied"}"#),
        _ => panic!("wrong variant"),
    }
    assert!(matches!(AppError::NmError("no device"), AppError::NmError("no device")));
    assert!(matches!(
        AppError::ZBusError(zbus::Error::Failure("x".to_string())),
        AppError::ZBusError(_)
    ));
}
