use ble_net_mngmt::error::AppError;
use ble_net_mngmt::network::collect::{CollectReply, CollectRequest, Collector, IfaceInfo};
use ble_net_mngmt::network::nm_device::{AddressEntry, AddressMap, NmDeviceType, PropValue};

fn addr(ip: &str) -> Vec<AddressMap> {
    vec![AddressMap {
        entries: vec![
            AddressEntry { key: "address".to_string(), value: PropValue::Str(ip.to_string()) },
            AddressEntry { key: "prefix".to_string(), value: PropValue::Other },
        ],
    }]
}

fn device_path(n: u32) -> String {
    format!("/org/freedesktop/NetworkManager/Devices/{}", n)
}

fn expect_request(req: &CollectRequest, kind: &str, path: &str) {
    let (k, p) = match req {
        CollectRequest::DeviceType(p) => ("DeviceType", p),
        CollectRequest::ActiveConnection(p) => ("ActiveConnection", p),
        CollectRequest::Ip4Config(p) => ("Ip4Config", p),
        CollectRequest::AddressData(p) => ("AddressData", p),
        CollectRequest::Finished(_) => panic!("walk finished early"),
        CollectRequest::Failed(e) => panic!("walk failed: {:?}", e),
    };
    assert_eq!(k, kind);
    assert_eq!(p, path);
}

fn finished(req: CollectRequest) -> Vec<IfaceInfo> {
    match req {
        CollectRequest::Finished(list) => list,
        _ => panic!("walk not finished"),
    }
}

fn ethernet_ips(list: &[IfaceInfo]) -> Vec<String> {
    list.iter()
        .map(|i| match i {
            IfaceInfo::Ethernet(ip) => ip.clone(),
            IfaceInfo::Wifi(..) => panic!("no Wi-Fi entry is ever reported"),
        })
        .collect()
}

#[test]
fn no_devices_reports_empty_list() {
    let (_c, req) = Collector::new(vec![]);
    assert!(finished(req).is_empty());
}

#[test]
fn wired_device_reports_its_address_and_others_are_skipped() {
    let (mut c, req) = Collector::new(vec![device_path(1), device_path(2), device_path(3)]);
    expect_request(&req, "DeviceType", &device_path(1));
    let req = c.step(CollectReply::DeviceType(Ok(NmDeviceType::new(14))));
    expect_request(&req, "DeviceType", &device_path(2));
    let req = c.step(CollectReply::DeviceType(Ok(NmDeviceType::new(1))));
    expect_request(&req, "ActiveConnection", &device_path(2));
    let req = c.step(CollectReply::ActiveConnection(Ok("/ac/7".to_string())));
    expect_request(&req, "Ip4Config", "/ac/7");
    let req = c.step(CollectReply::Ip4Config(Some("/ip4/3".to_string())));
    expect_request(&req, "AddressData", "/ip4/3");
    let req = c.step(CollectReply::AddressData(Some(addr("192.168.1.5"))));
    expect_request(&req, "DeviceType", &device_path(3));
    let req = c.step(CollectReply::DeviceType(Ok(NmDeviceType::new(2))));
    let list = finished(req);
    assert_eq!(ethernet_ips(&list), vec!["192.168.1.5".to_string()]);
}

#[test]
fn wired_device_without_active_connection_is_skipped() {
    let (mut c, _) = Collector::new(vec![device_path(1)]);
    c.step(CollectReply::DeviceType(Ok(NmDeviceType::new(1))));
    let req = c.step(CollectReply::ActiveConnection(Ok("/".to_string())));
    assert!(finished(req).is_empty());
}

#[test]
fn unreadable_ip4_config_is_skipped() {
    let (mut c, _) = Collector::new(vec![device_path(1)]);
    c.step(CollectReply::DeviceType(Ok(NmDeviceType::new(1))));
    c.step(CollectReply::ActiveConnection(Ok("/ac/1".to_string())));
    let req = c.step(CollectReply::Ip4Config(None));
    assert!(finished(req).is_empty());
}

#[test]
fn unreadable_address_data_reports_empty_address() {
    let (mut c, _) = Collector::new(vec![device_path(1), device_path(2)]);
    c.step(CollectReply::DeviceType(Ok(NmDeviceType::new(1))));
    c.step(CollectReply::ActiveConnection(Ok("/ac/1".to_string())));
    c.step(CollectReply::Ip4Config(Some("/ip4/1".to_string())));
    c.step(CollectReply::AddressData(None));
    c.step(CollectReply::DeviceType(Ok(NmDeviceType::new(1))));
    c.step(CollectReply::ActiveConnection(Ok("/ac/2".to_string())));
    c.step(CollectReply::Ip4Config(Some("/ip4/2".to_string())));
    let req = c.step(CollectReply::AddressData(Some(vec![])));
    assert_eq!(ethernet_ips(&finished(req)), vec!["".to_string(), "".to_string()]);
}

#[test]
fn addresses_come_in_device_order() {
    let (mut c, _) = Collector::new(vec![device_path(1), device_path(2)]);
    for (ac, ip) in [("/ac/1", "10.0.0.1"), ("/ac/2", "10.0.0.2")] {
        c.step(CollectReply::DeviceType(Ok(NmDeviceType::new(1))));
        c.step(CollectReply::ActiveConnection(Ok(ac.to_string())));
        c.step(CollectReply::Ip4Config(Some(format!("{}/ip4", ac))));
        let req = c.step(CollectReply::AddressData(Some(addr(ip))));
        if ip == "10.0.0.2" {
            assert_eq!(
                ethernet_ips(&finished(req)),
                vec!["10.0.0.1".to_string(), "10.0.0.2".to_string()]
            );
        }
    }
}

#[test]
fn device_type_error_stops_the_walk() {
    let (mut c, _) = Collector::new(vec![device_path(1), device_path(2)]);
    let req = c.step(CollectReply::DeviceType(Err(AppError::NmError("type unreadable"))));
    match req {
        CollectRequest::Failed(AppError::NmError(m)) => assert_eq!(m, "type unreadable"),
        other => panic!("expected failure, got {:?}", matches!(other, CollectRequest::Finished(_))),
    }
}

#[test]
fn active_connection_error_stops_the_walk() {
    let (mut c, _) = Collector::new(vec![device_path(1)]);
    c.step(CollectReply::DeviceType(Ok(NmDeviceType::new(1))));
    let req = c.step(CollectReply::ActiveConnection(Err(AppError::ZBusError(
        zbus::Error::Failure("no such property".to_string()),
    ))));
    assert!(matches!(req, CollectRequest::Failed(AppError::ZBusError(_))));
}

#[test]
fn replies_must_answer_the_request() {
    let (c, _) = Collector::new(vec![device_path(1)]);
    assert!(c.accepts(&CollectReply::DeviceType(Ok(NmDeviceType::new(1)))));
    assert!(!c.accepts(&CollectReply::Ip4Config(None)));
    assert!(!c.accepts(&CollectReply::AddressData(None)));
    assert!(!c.accepts(&CollectReply::ActiveConnection(Ok("/".to_string()))));
}
