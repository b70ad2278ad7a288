use ble_net_mngmt::network::example::{AccessPointProps, IfaceInfo, NetifScan, ScanReply, ScanRequest};
use ble_net_mngmt::network::nm_device::{AddressEntry, AddressMap, PropValue};

fn addr(ip: &str) -> Vec<AddressMap> {
    vec![AddressMap {
        entries: vec![AddressEntry { key: "address".to_string(), value: PropValue::Str(ip.to_string()) }],
    }]
}

fn device(interface: Option<&str>, device_type: Option<u32>, state: Option<u32>) -> ScanReply {
    ScanReply::Device { interface: interface.map(|s| s.to_string()), device_type, state }
}

fn path_of(req: &ScanRequest) -> (&'static str, String) {
    match req {
        ScanRequest::Device(p) => ("Device", p.clone()),
        ScanRequest::ActiveAccessPoint(p) => ("ActiveAccessPoint", p.clone()),
        ScanRequest::AccessPoint(p) => ("AccessPoint", p.clone()),
        ScanRequest::ActiveConnection(p) => ("ActiveConnection", p.clone()),
        ScanRequest::Ip4Config(p) => ("Ip4Config", p.clone()),
        ScanRequest::AddressData(p) => ("AddressData", p.clone()),
        ScanRequest::Finished(_) => ("Finished", String::new()),
    }
}

fn finished(req: ScanRequest) -> Vec<IfaceInfo> {
    match req {
        ScanRequest::Finished(list) => list,
        other => panic!("scan not finished: {:?}", path_of(&other)),
    }
}

#[test]
fn empty_scan() {
    let (_s, req) = NetifScan::new(vec![]);
    assert!(finished(req).is_empty());
}

#[test]
fn wifi_and_wired_devices() {
    let (mut s, req) = NetifScan::new(vec!["/dev/1".to_string(), "/dev/2".to_string()]);
    assert_eq!(path_of(&req), ("Device", "/dev/1".to_string()));
    let req = s.step(device(Some("wlan0"), Some(2), Some(100)));
    assert_eq!(path_of(&req), ("ActiveAccessPoint", "/dev/1".to_string()));
    let req = s.step(ScanReply::ActiveAccessPoint(Some("/ap/9".to_string())));
    assert_eq!(path_of(&req), ("AccessPoint", "/ap/9".to_string()));
    let req = s.step(ScanReply::AccessPoint(Some(AccessPointProps {
        ssid: Some(b"cafe".to_vec()),
        strength: Some(73),
    })));
    assert_eq!(path_of(&req), ("ActiveConnection", "/dev/1".to_string()));
    let req = s.step(ScanReply::ActiveConnection(Some("/ac/1".to_string())));
    assert_eq!(path_of(&req), ("Ip4Config", "/ac/1".to_string()));
    let req = s.step(ScanReply::Ip4Config(Some("/ip4/1".to_string())));
    assert_eq!(path_of(&req), ("AddressData", "/ip4/1".to_string()));
    let req = s.step(ScanReply::AddressData(Some(addr("192.168.0.10"))));
    assert_eq!(path_of(&req), ("Device", "/dev/2".to_string()));
    let req = s.step(device(Some("eth0"), Some(1), Some(50)));
    assert_eq!(path_of(&req), ("ActiveConnection", "/dev/2".to_string()));
    let req = s.step(ScanReply::ActiveConnection(Some("/".to_string())));
    let list = finished(req);
    assert_eq!(list.len(), 2);
    assert_eq!(list[0].name, "wlan0");
    assert_eq!(list[0].iface_type, "WiFi");
    assert_eq!(list[0].state, "Activated");
    assert_eq!(list[0].ip4, Some("192.168.0.10".to_string()));
    assert_eq!(list[0].ssid, Some("cafe".to_string()));
    assert_eq!(list[0].strength, Some(73));
    assert_eq!(list[1].name, "eth0");
    assert_eq!(list[1].iface_type, "Ethernet");
    assert_eq!(list[1].state, "Disconnected");
    assert_eq!(list[1].ip4, None);
    assert_eq!(list[1].ssid, None);
    assert_eq!(list[1].strength, None);
}

#[test]
fn unreadable_device_properties_take_defaults() {
    let (mut s, _) = NetifScan::new(vec!["/dev/1".to_string()]);
    let req = s.step(device(None, None, None));
    assert_eq!(path_of(&req), ("ActiveConnection", "/dev/1".to_string()));
    let list = finished(s.step(ScanReply::ActiveConnection(None)));
    assert_eq!(list[0].name, "");
    assert_eq!(list[0].iface_type, "Other");
    assert_eq!(list[0].state, "Unknown");
    assert_eq!(list[0].ip4, None);
}

#[test]
fn wifi_without_access_point() {
    let (mut s, _) = NetifScan::new(vec!["/dev/1".to_string()]);
    s.step(device(Some("wlan0"), Some(2), Some(30)));
    let req = s.step(ScanReply::ActiveAccessPoint(None));
    assert_eq!(path_of(&req), ("ActiveConnection", "/dev/1".to_string()));
    let list = finished(s.step(ScanReply::ActiveConnection(None)));
    assert_eq!(list[0].ssid, None);
    assert_eq!(list[0].strength, None);
    assert_eq!(list[0].state, "Unknown");
}

#[test]
fn unreachable_access_point_and_partial_properties() {
    let (mut s, _) = NetifScan::new(vec!["/dev/1".to_string(), "/dev/2".to_string()]);
    s.step(device(Some("wlan0"), Some(2), Some(100)));
    s.step(ScanReply::ActiveAccessPoint(Some("/ap/1".to_string())));
    s.step(ScanReply::AccessPoint(None));
    s.step(ScanReply::ActiveConnection(None));
    s.step(device(Some("wlan1"), Some(2), Some(100)));
    s.step(ScanReply::ActiveAccessPoint(Some("/ap/2".to_string())));
    s.step(ScanReply::AccessPoint(Some(AccessPointProps { ssid: Some(vec![0x61, 0xfe]), strength: None })));
    let list = finished(s.step(ScanReply::ActiveConnection(None)));
    assert_eq!(list[0].ssid, None);
    assert_eq!(list[0].strength, None);
    assert_eq!(list[1].ssid, Some("a\u{FFFD}".to_string()));
    assert_eq!(list[1].strength, None);
}

#[test]
fn address_data_failures_leave_ip4_empty() {
    let (mut s, _) = NetifScan::new(vec!["/dev/1".to_string(), "/dev/2".to_string()]);
    s.step(device(Some("eth0"), Some(1), Some(100)));
    s.step(ScanReply::ActiveConnection(Some("/ac/1".to_string())));
    s.step(ScanReply::Ip4Config(None));
    s.step(device(Some("eth1"), Some(1), Some(100)));
    s.step(ScanReply::ActiveConnection(Some("/ac/2".to_string())));
    s.step(ScanReply::Ip4Config(Some("/ip4/2".to_string())));
    let list = finished(s.step(ScanReply::AddressData(None)));
    assert_eq!(list[0].ip4, None);
    assert_eq!(list[1].ip4, None);
}

#[test]
fn scan_accepts_only_the_awaited_reply() {
    let (s, _) = NetifScan::new(vec!["/dev/1".to_string()]);
    assert!(s.accepts(&device(None, None, None)));
    assert!(!s.accepts(&ScanReply::ActiveConnection(None)));
    assert!(!s.accepts(&ScanReply::AccessPoint(None)));
}
