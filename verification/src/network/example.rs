//! The full scan of NetworkManager's devices: for every device its interface
//! name, kind, state, IPv4 address and, for Wi-Fi, the SSID and signal
//! strength of the access point it is associated with.
//!
//! As in [`crate::network::collect`], the caller reads the bus: a [`NetifScan`]
//! says what to read next ([`ScanRequest`]) and takes what the read gave
//! ([`ScanReply`]). Reads that fail leave the field they were for empty.

use vstd::prelude::*;

use crate::network::nm_device::{
    address_maps_view, dev_type_name, dev_type_of, device_state_name, first_address,
    first_address_of, is_null_object_path, is_null_path, opt_string_view, ssid_text, utf8_lossy,
    lemma_device_kind_of_code, lemma_device_state_name_of_code, lookup, AddressMap, Nm, NmDeviceType,
    PropValueView,
};

verus! {

/// One device as the full scan reports it.
#[derive(Debug)]
pub struct IfaceInfo {
    pub name: String,
    pub iface_type: String,
    pub state: String,
    pub ip4: Option<String>,
    pub ssid: Option<String>,
    pub strength: Option<u8>,
}

pub struct IfaceInfoView {
    pub name: Seq<char>,
    pub iface_type: Seq<char>,
    pub state: Seq<char>,
    pub ip4: Option<Seq<char>>,
    pub ssid: Option<Seq<char>>,
    pub strength: Option<u8>,
}

impl View for IfaceInfo {
    type V = IfaceInfoView;

    open spec fn view(&self) -> IfaceInfoView {
        IfaceInfoView {
            name: self.name@,
            iface_type: self.iface_type@,
            state: self.state@,
            ip4: opt_string_view(self.ip4),
            ssid: opt_string_view(self.ssid),
            strength: self.strength,
        }
    }
}

pub open spec fn records_view(v: Seq<IfaceInfo>) -> Seq<IfaceInfoView> {
    v.map_values(|i: IfaceInfo| i@)
}

/// What the scan asks of the bus next.
pub enum ScanRequest {
    /// Read `Interface`, `DeviceType` and `State` of the device at this object path.
    Device(String),
    /// Read `ActiveAccessPoint` of the wireless device at this object path.
    ActiveAccessPoint(String),
    /// Read `Ssid` and `Strength` of the access point at this object path.
    AccessPoint(String),
    /// Read `ActiveConnection` of the device at this object path.
    ActiveConnection(String),
    /// Read `Ip4Config` of the active connection at this object path.
    Ip4Config(String),
    /// Read `AddressData` of the IPv4 configuration at this object path.
    AddressData(String),
    /// Every device was visited: these are the records to report.
    Finished(Vec<IfaceInfo>),
}

pub enum ScanRequestView {
    Device(Seq<char>),
    ActiveAccessPoint(Seq<char>),
    AccessPoint(Seq<char>),
    ActiveConnection(Seq<char>),
    Ip4Config(Seq<char>),
    AddressData(Seq<char>),
    Finished(Seq<IfaceInfoView>),
}

impl View for ScanRequest {
    type V = ScanRequestView;

    open spec fn view(&self) -> ScanRequestView {
        match self {
            ScanRequest::Device(p) => ScanRequestView::Device(p@),
            ScanRequest::ActiveAccessPoint(p) => ScanRequestView::ActiveAccessPoint(p@),
            ScanRequest::AccessPoint(p) => ScanRequestView::AccessPoint(p@),
            ScanRequest::ActiveConnection(p) => ScanRequestView::ActiveConnection(p@),
            ScanRequest::Ip4Config(p) => ScanRequestView::Ip4Config(p@),
            ScanRequest::AddressData(p) => ScanRequestView::AddressData(p@),
            ScanRequest::Finished(v) => ScanRequestView::Finished(records_view(v@)),
        }
    }
}

/// `Ssid` and `Strength` of an access point; `None` where a read failed.
pub struct AccessPointProps {
    pub ssid: Option<Vec<u8>>,
    pub strength: Option<u8>,
}

/// What a read of the bus gave, in answer to a [`ScanRequest`].
pub enum ScanReply {
    /// The device's `Interface`, `DeviceType` and `State`; `None` where a read failed.
    Device { interface: Option<String>, device_type: Option<u32>, state: Option<u32> },
    /// The access point's object path; `None` where the wireless interface or the read failed.
    ActiveAccessPoint(Option<String>),
    /// The access point's properties; `None` where the access point could not be reached.
    AccessPoint(Option<AccessPointProps>),
    /// The active connection's object path; `None` where the read failed.
    ActiveConnection(Option<String>),
    /// The IPv4 configuration's object path; `None` where the connection or the read failed.
    Ip4Config(Option<String>),
    /// The configuration's `AddressData`; `None` where the configuration or the read failed.
    AddressData(Option<Vec<AddressMap>>),
}

pub enum ScanReplyView {
    Device { interface: Option<Seq<char>>, device_type: Option<u32>, state: Option<u32> },
    ActiveAccessPoint(Option<Seq<char>>),
    AccessPoint(Option<(Option<Seq<u8>>, Option<u8>)>),
    ActiveConnection(Option<Seq<char>>),
    Ip4Config(Option<Seq<char>>),
    AddressData(Option<Seq<Seq<(Seq<char>, PropValueView)>>>),
}

impl View for ScanReply {
    type V = ScanReplyView;

    open spec fn view(&self) -> ScanReplyView {
        match self {
            ScanReply::Device { interface, device_type, state } => ScanReplyView::Device {
                interface: opt_string_view(*interface),
                device_type: *device_type,
                state: *state,
            },
            ScanReply::ActiveAccessPoint(p) => ScanReplyView::ActiveAccessPoint(opt_string_view(*p)),
            ScanReply::AccessPoint(Some(props)) => ScanReplyView::AccessPoint(
                Some(
                    (
                        match props.ssid {
                            Some(b) => Some(b@),
                            None => None,
                        },
                        props.strength,
                    ),
                ),
            ),
            ScanReply::AccessPoint(None) => ScanReplyView::AccessPoint(None),
            ScanReply::ActiveConnection(p) => ScanReplyView::ActiveConnection(opt_string_view(*p)),
            ScanReply::Ip4Config(p) => ScanReplyView::Ip4Config(opt_string_view(*p)),
            ScanReply::AddressData(Some(maps)) => ScanReplyView::AddressData(
                Some(address_maps_view(maps@)),
            ),
            ScanReply::AddressData(None) => ScanReplyView::AddressData(None),
        }
    }
}

/// Where the scan stands.
#[derive(Clone, Copy, PartialEq, Eq, Structural)]
pub enum ScanPhase {
    AwaitDevice,
    AwaitAccessPointPath,
    AwaitAccessPoint,
    AwaitActive,
    AwaitIp4,
    AwaitAddress,
    Over,
}

/// Visits every device of NetworkManager and builds its record.
pub struct NetifScan {
    devices: Vec<String>,
    index: usize,
    phase: ScanPhase,
    found: Vec<IfaceInfo>,
    name: String,
    type_code: u32,
    state_code: u32,
    ssid: Option<String>,
    strength: Option<u8>,
}

pub struct NetifScanView {
    pub devices: Seq<Seq<char>>,
    pub index: int,
    pub phase: ScanPhase,
    pub found: Seq<IfaceInfoView>,
    pub name: Seq<char>,
    pub type_code: u32,
    pub state_code: u32,
    pub ssid: Option<Seq<char>>,
    pub strength: Option<u8>,
}

pub open spec fn scan_paths_view(v: Seq<String>) -> Seq<Seq<char>> {
    v.map_values(|s: String| s@)
}

impl View for NetifScan {
    type V = NetifScanView;

    closed spec fn view(&self) -> NetifScanView {
        NetifScanView {
            devices: scan_paths_view(self.devices@),
            index: self.index as int,
            phase: self.phase,
            found: records_view(self.found@),
            name: self.name@,
            type_code: self.type_code,
            state_code: self.state_code,
            ssid: opt_string_view(self.ssid),
            strength: self.strength,
        }
    }
}

/// While the scan goes on, it stands at one of the devices.
pub open spec fn scan_wf(s: NetifScanView) -> bool {
    s.phase != ScanPhase::Over ==> 0 <= s.index < s.devices.len()
}

/// The first request, and the state that awaits its answer.
pub open spec fn scan_start(devices: Seq<Seq<char>>) -> (NetifScanView, ScanRequestView) {
    let s = NetifScanView {
        devices,
        index: 0,
        phase: if devices.len() == 0 { ScanPhase::Over } else { ScanPhase::AwaitDevice },
        found: Seq::empty(),
        name: Seq::empty(),
        type_code: 0,
        state_code: 0,
        ssid: None,
        strength: None,
    };
    if devices.len() == 0 {
        (s, ScanRequestView::Finished(Seq::empty()))
    } else {
        (s, ScanRequestView::Device(devices[0]))
    }
}

/// Whether `r` answers what the scan in state `s` waits for.
pub open spec fn scan_accepts(s: NetifScanView, r: ScanReplyView) -> bool {
    match r {
        ScanReplyView::Device { .. } => s.phase == ScanPhase::AwaitDevice,
        ScanReplyView::ActiveAccessPoint(_) => s.phase == ScanPhase::AwaitAccessPointPath,
        ScanReplyView::AccessPoint(_) => s.phase == ScanPhase::AwaitAccessPoint,
        ScanReplyView::ActiveConnection(_) => s.phase == ScanPhase::AwaitActive,
        ScanReplyView::Ip4Config(_) => s.phase == ScanPhase::AwaitIp4,
        ScanReplyView::AddressData(_) => s.phase == ScanPhase::AwaitAddress,
    }
}

/// The record of a device from what was read of it.
pub open spec fn device_record(
    name: Seq<char>,
    type_code: u32,
    state_code: u32,
    ip4: Option<Seq<char>>,
    ssid: Option<Seq<char>>,
    strength: Option<u8>,
) -> IfaceInfoView {
    IfaceInfoView {
        name,
        iface_type: dev_type_name(dev_type_of(type_code)),
        state: device_state_name(state_code),
        ip4,
        ssid,
        strength,
    }
}

/// Done with the current device: go to the next one, or end with the records.
pub open spec fn scan_advance(s: NetifScanView) -> (NetifScanView, ScanRequestView) {
    if s.index + 1 < s.devices.len() {
        (
            NetifScanView { index: s.index + 1, phase: ScanPhase::AwaitDevice, ..s },
            ScanRequestView::Device(s.devices[s.index + 1]),
        )
    } else {
        (
            NetifScanView { phase: ScanPhase::Over, found: Seq::empty(), ..s },
            ScanRequestView::Finished(s.found),
        )
    }
}

/// Record the current device with this IPv4 address, then advance.
pub open spec fn scan_finish(s: NetifScanView, ip4: Option<Seq<char>>) -> (NetifScanView, ScanRequestView) {
    scan_advance(
        NetifScanView {
            found: s.found.push(
                device_record(s.name, s.type_code, s.state_code, ip4, s.ssid, s.strength),
            ),
            name: Seq::empty(),
            ssid: None,
            ..s
        },
    )
}

/// Ask for the active connection of the current device.
pub open spec fn scan_to_active(s: NetifScanView) -> (NetifScanView, ScanRequestView) {
    (
        NetifScanView { phase: ScanPhase::AwaitActive, ..s },
        ScanRequestView::ActiveConnection(s.devices[s.index]),
    )
}

/// One step of the scan: the state after the answer `r`, and the next request.
pub open spec fn scan_step(s: NetifScanView, r: ScanReplyView) -> (NetifScanView, ScanRequestView) {
    match r {
        ScanReplyView::Device { interface, device_type, state } => {
            let code = match device_type {
                Some(c) => c,
                None => 0u32,
            };
            let s1 = NetifScanView {
                name: match interface {
                    Some(n) => n,
                    None => Seq::empty(),
                },
                type_code: code,
                state_code: match state {
                    Some(c) => c,
                    None => 0u32,
                },
                ssid: None,
                strength: None,
                ..s
            };
            if code == 2 {
                (
                    NetifScanView { phase: ScanPhase::AwaitAccessPointPath, ..s1 },
                    ScanRequestView::ActiveAccessPoint(s.devices[s.index]),
                )
            } else {
                scan_to_active(s1)
            }
        },
        ScanReplyView::ActiveAccessPoint(None) => scan_to_active(s),
        ScanReplyView::ActiveAccessPoint(Some(ap)) => (
            NetifScanView { phase: ScanPhase::AwaitAccessPoint, ..s },
            ScanRequestView::AccessPoint(ap),
        ),
        ScanReplyView::AccessPoint(None) => scan_to_active(s),
        ScanReplyView::AccessPoint(Some((ssid, strength))) => scan_to_active(
            NetifScanView {
                ssid: match ssid {
                    Some(b) => Some(utf8_lossy(b)),
                    None => None,
                },
                strength,
                ..s
            },
        ),
        ScanReplyView::ActiveConnection(None) => scan_finish(s, None),
        ScanReplyView::ActiveConnection(Some(p)) => if is_null_path(p) {
            scan_finish(s, None)
        } else {
            (NetifScanView { phase: ScanPhase::AwaitIp4, ..s }, ScanRequestView::Ip4Config(p))
        },
        ScanReplyView::Ip4Config(None) => scan_finish(s, None),
        ScanReplyView::Ip4Config(Some(c)) => (
            NetifScanView { phase: ScanPhase::AwaitAddress, ..s },
            ScanRequestView::AddressData(c),
        ),
        ScanReplyView::AddressData(None) => scan_finish(s, None),
        ScanReplyView::AddressData(Some(maps)) => scan_finish(s, first_address_of(maps)),
    }
}

impl NetifScan {
    #[verifier::type_invariant]
    closed spec fn inv(self) -> bool {
        scan_wf(self@)
    }

    /// Starts a scan of the devices at these object paths, in this order.
    pub fn new(devices: Vec<String>) -> (res: (NetifScan, ScanRequest))
        ensures
            (res.0@, res.1@) == scan_start(scan_paths_view(devices@)),
    {
        let n = devices.len();
        let req = if n == 0 {
            ScanRequest::Finished(Vec::new())
        } else {
            ScanRequest::Device(devices[0].clone())
        };
        let scan = NetifScan {
            devices,
            index: 0,
            phase: if n == 0 { ScanPhase::Over } else { ScanPhase::AwaitDevice },
            found: Vec::new(),
            name: String::new(),
            type_code: 0,
            state_code: 0,
            ssid: None,
            strength: None,
        };
        proof {
            assert(records_view(scan.found@) =~= Seq::<IfaceInfoView>::empty());
            assert(req@ == scan_start(scan_paths_view(scan.devices@)).1) by {
                if n == 0 {
                    assert(records_view(Seq::<IfaceInfo>::empty()) =~= Seq::<IfaceInfoView>::empty());
                }
            }
        }
        (scan, req)
    }

    /// Whether `reply` answers what the scan waits for.
    pub fn accepts(&self, reply: &ScanReply) -> (b: bool)
        ensures
            b == scan_accepts(self@, reply@),
    {
        match reply {
            ScanReply::Device { .. } => self.phase == ScanPhase::AwaitDevice,
            ScanReply::ActiveAccessPoint(_) => self.phase == ScanPhase::AwaitAccessPointPath,
            ScanReply::AccessPoint(_) => self.phase == ScanPhase::AwaitAccessPoint,
            ScanReply::ActiveConnection(_) => self.phase == ScanPhase::AwaitActive,
            ScanReply::Ip4Config(_) => self.phase == ScanPhase::AwaitIp4,
            ScanReply::AddressData(_) => self.phase == ScanPhase::AwaitAddress,
        }
    }

    fn advance(&mut self) -> (req: ScanRequest)
        requires
            old(self).phase != ScanPhase::Over,
        ensures
            (final(self)@, req@) == scan_advance(old(self)@),
    {
        proof {
            use_type_invariant(&*self);
        }
        if self.devices.len() - self.index > 1 {
            self.index = self.index + 1;
            self.phase = ScanPhase::AwaitDevice;
            ScanRequest::Device(self.devices[self.index].clone())
        } else {
            self.phase = ScanPhase::Over;
            let mut found = Vec::new();
            std::mem::swap(&mut found, &mut self.found);
            proof {
                assert(records_view(self.found@) =~= Seq::<IfaceInfoView>::empty());
            }
            ScanRequest::Finished(found)
        }
    }

    fn finish(&mut self, ip4: Option<String>) -> (req: ScanRequest)
        requires
            old(self).phase != ScanPhase::Over,
        ensures
            (final(self)@, req@) == scan_finish(old(self)@, opt_string_view(ip4)),
    {
        proof {
            use_type_invariant(&*self);
        }
        let mut name = String::new();
        std::mem::swap(&mut name, &mut self.name);
        let mut ssid = None;
        std::mem::swap(&mut ssid, &mut self.ssid);
        let iface_type = String::from_str(NmDeviceType::new(self.type_code).name());
        let state = Nm::map_device_state(self.state_code);
        let record = IfaceInfo { name, iface_type, state, ip4, ssid, strength: self.strength };
        let ghost before = self.found@;
        let mut found = Vec::new();
        std::mem::swap(&mut found, &mut self.found);
        found.push(record);
        std::mem::swap(&mut found, &mut self.found);
        proof {
            assert(records_view(self.found@) =~= records_view(before).push(record@));
        }
        self.advance()
    }

    fn to_active(&mut self) -> (req: ScanRequest)
        requires
            old(self).phase != ScanPhase::Over,
        ensures
            (final(self)@, req@) == scan_to_active(old(self)@),
    {
        proof {
            use_type_invariant(&*self);
        }
        self.phase = ScanPhase::AwaitActive;
        ScanRequest::ActiveConnection(self.devices[self.index].clone())
    }

    /// Takes in the answer to the last request and returns the next one.
    pub fn step(&mut self, reply: ScanReply) -> (req: ScanRequest)
        requires
            scan_accepts(old(self)@, reply@),
        ensures
            (final(self)@, req@) == scan_step(old(self)@, reply@),
    {
        proof {
            use_type_invariant(&*self);
        }
        match reply {
            ScanReply::Device { interface, device_type, state } => {
                let code: u32 = match device_type {
                    Some(c) => c,
                    None => 0,
                };
                self.name = match interface {
                    Some(n) => n,
                    None => String::new(),
                };
                self.type_code = code;
                self.state_code = match state {
                    Some(c) => c,
                    None => 0,
                };
                self.ssid = None;
                self.strength = None;
                if code == 2 {
                    self.phase = ScanPhase::AwaitAccessPointPath;
                    ScanRequest::ActiveAccessPoint(self.devices[self.index].clone())
                } else {
                    self.to_active()
                }
            },
            ScanReply::ActiveAccessPoint(None) => self.to_active(),
            ScanReply::ActiveAccessPoint(Some(ap)) => {
                self.phase = ScanPhase::AwaitAccessPoint;
                ScanRequest::AccessPoint(ap)
            },
            ScanReply::AccessPoint(None) => self.to_active(),
            ScanReply::AccessPoint(Some(props)) => {
                self.ssid = match props.ssid {
                    Some(bytes) => Some(ssid_text(&bytes)),
                    None => None,
                };
                self.strength = props.strength;
                self.to_active()
            },
            ScanReply::ActiveConnection(None) => self.finish(None),
            ScanReply::ActiveConnection(Some(p)) => {
                if is_null_object_path(&p) {
                    self.finish(None)
                } else {
                    self.phase = ScanPhase::AwaitIp4;
                    ScanRequest::Ip4Config(p)
                }
            },
            ScanReply::Ip4Config(None) => self.finish(None),
            ScanReply::Ip4Config(Some(c)) => {
                self.phase = ScanPhase::AwaitAddress;
                ScanRequest::AddressData(c)
            },
            ScanReply::AddressData(None) => self.finish(None),
            ScanReply::AddressData(Some(maps)) => {
                let ip4 = first_address(&maps);
                self.finish(ip4)
            },
        }
    }
}

} // verus!

verus! {

/// A NetworkManager bus that answers each read as a function of the object
/// path it is asked about (`None` standing for a failed read).
pub struct ScanBusModel {
    pub interface: spec_fn(Seq<char>) -> Option<Seq<char>>,
    pub device_type: spec_fn(Seq<char>) -> Option<u32>,
    pub state: spec_fn(Seq<char>) -> Option<u32>,
    pub active_access_point: spec_fn(Seq<char>) -> Option<Seq<char>>,
    pub access_point: spec_fn(Seq<char>) -> Option<(Option<Seq<u8>>, Option<u8>)>,
    pub active_connection: spec_fn(Seq<char>) -> Option<Seq<char>>,
    pub ip4_config: spec_fn(Seq<char>) -> Option<Seq<char>>,
    pub address_data: spec_fn(Seq<char>) -> Option<Seq<Seq<(Seq<char>, PropValueView)>>>,
}

/// The bus's answer to a request.
pub open spec fn scan_answer(bus: ScanBusModel, req: ScanRequestView) -> ScanReplyView {
    match req {
        ScanRequestView::Device(p) => ScanReplyView::Device {
            interface: (bus.interface)(p),
            device_type: (bus.device_type)(p),
            state: (bus.state)(p),
        },
        ScanRequestView::ActiveAccessPoint(p) => ScanReplyView::ActiveAccessPoint(
            (bus.active_access_point)(p),
        ),
        ScanRequestView::AccessPoint(p) => ScanReplyView::AccessPoint((bus.access_point)(p)),
        ScanRequestView::ActiveConnection(p) => ScanReplyView::ActiveConnection(
            (bus.active_connection)(p),
        ),
        ScanRequestView::Ip4Config(p) => ScanReplyView::Ip4Config((bus.ip4_config)(p)),
        ScanRequestView::AddressData(p) => ScanReplyView::AddressData((bus.address_data)(p)),
        ScanRequestView::Finished(_) => ScanReplyView::Ip4Config(None),
    }
}

pub open spec fn scan_phase_rank(p: ScanPhase) -> int {
    match p {
        ScanPhase::AwaitDevice => 5,
        ScanPhase::AwaitAccessPointPath => 4,
        ScanPhase::AwaitAccessPoint => 3,
        ScanPhase::AwaitActive => 2,
        ScanPhase::AwaitIp4 => 1,
        ScanPhase::AwaitAddress => 0,
        ScanPhase::Over => 0,
    }
}

/// How many steps the scan has left at most.
pub open spec fn scan_measure(s: NetifScanView) -> nat {
    if s.phase == ScanPhase::Over || s.index < 0 || s.index >= s.devices.len() {
        0
    } else {
        (6 * (s.devices.len() - s.index) + scan_phase_rank(s.phase)) as nat
    }
}

/// The last request of a scan from state `s` with pending request `req`,
/// every request answered by `bus`.
pub open spec fn scan_drive(bus: ScanBusModel, s: NetifScanView, req: ScanRequestView) -> ScanRequestView
    decreases scan_measure(s),
{
    if req is Finished {
        req
    } else if !scan_wf(s) || !scan_accepts(s, scan_answer(bus, req)) {
        req
    } else {
        let next = scan_step(s, scan_answer(bus, req));
        if scan_measure(next.0) < scan_measure(s) {
            scan_drive(bus, next.0, next.1)
        } else {
            next.1
        }
    }
}

/// The SSID and strength read for a device with this type code.
pub open spec fn scanned_access_point(bus: ScanBusModel, device: Seq<char>, code: u32) -> (Option<Seq<char>>, Option<u8>) {
    if code != 2 {
        (None, None)
    } else {
        match (bus.active_access_point)(device) {
            None => (None, None),
            Some(ap) => match (bus.access_point)(ap) {
                None => (None, None),
                Some((ssid, strength)) => (
                    match ssid {
                        Some(b) => Some(utf8_lossy(b)),
                        None => None,
                    },
                    strength,
                ),
            },
        }
    }
}

/// The IPv4 address read for a device.
pub open spec fn scanned_ip4(bus: ScanBusModel, device: Seq<char>) -> Option<Seq<char>> {
    match (bus.active_connection)(device) {
        None => None,
        Some(active) => if is_null_path(active) {
            None
        } else {
            match (bus.ip4_config)(active) {
                None => None,
                Some(config) => match (bus.address_data)(config) {
                    None => None,
                    Some(maps) => first_address_of(maps),
                },
            }
        },
    }
}

/// The record of one device: its interface name (empty if unreadable), the
/// name of its kind and of its state (code 0 if unreadable), its IPv4 address,
/// and for Wi-Fi the SSID and strength of its active access point.
pub open spec fn scanned_record(bus: ScanBusModel, device: Seq<char>) -> IfaceInfoView {
    let code = match (bus.device_type)(device) {
        Some(c) => c,
        None => 0u32,
    };
    let ap = scanned_access_point(bus, device, code);
    device_record(
        match (bus.interface)(device) {
            Some(n) => n,
            None => Seq::empty(),
        },
        code,
        match (bus.state)(device) {
            Some(c) => c,
            None => 0u32,
        },
        scanned_ip4(bus, device),
        ap.0,
        ap.1,
    )
}

/// Every answered step keeps the scan at one of the devices or ends it, ends
/// it exactly when it hands back the records, and otherwise brings it closer
/// to its end (it lowers the measure), so that every scan ends.
pub proof fn lemma_scan_step_progresses(s: NetifScanView, r: ScanReplyView)
    requires
        scan_wf(s),
        scan_accepts(s, r),
    ensures
        scan_wf(scan_step(s, r).0),
        scan_measure(scan_step(s, r).0) < scan_measure(s),
        scan_step(s, r).0.phase == ScanPhase::Over <==> scan_step(s, r).1 is Finished,
{
}

proof fn lemma_scan_drive_active(bus: ScanBusModel, s: NetifScanView)
    requires
        s.phase == ScanPhase::AwaitActive,
        0 <= s.index < s.devices.len(),
    ensures
        scan_drive(bus, s, ScanRequestView::ActiveConnection(s.devices[s.index]))
            == ({
            let f = scan_finish(s, scanned_ip4(bus, s.devices[s.index]));
            scan_drive(bus, f.0, f.1)
        }),
{
    let d = s.devices[s.index];
    let r0 = ScanRequestView::ActiveConnection(d);
    let n0 = scan_step(s, scan_answer(bus, r0));
    assert(scan_drive(bus, s, r0) == scan_drive(bus, n0.0, n0.1));
    match (bus.active_connection)(d) {
        None => {},
        Some(active) => {
            if !is_null_path(active) {
                let n1 = scan_step(n0.0, scan_answer(bus, n0.1));
                assert(scan_drive(bus, n0.0, n0.1) == scan_drive(bus, n1.0, n1.1));
                if (bus.ip4_config)(active) is Some {
                    let n2 = scan_step(n1.0, scan_answer(bus, n1.1));
                    assert(scan_drive(bus, n1.0, n1.1) == scan_drive(bus, n2.0, n2.1));
                }
            }
        },
    }
}

proof fn lemma_scan_drive_from(bus: ScanBusModel, s: NetifScanView)
    requires
        s.phase == ScanPhase::AwaitDevice,
        0 <= s.index < s.devices.len(),
    ensures
        scan_drive(bus, s, ScanRequestView::Device(s.devices[s.index])) == ScanRequestView::Finished(
            s.found + s.devices.subrange(s.index, s.devices.len() as int).map_values(
                |d: Seq<char>| scanned_record(bus, d),
            ),
        ),
    decreases s.devices.len() - s.index,
{
    let d = s.devices[s.index];
    let r0 = ScanRequestView::Device(d);
    let n0 = scan_step(s, scan_answer(bus, r0));
    assert(scan_drive(bus, s, r0) == scan_drive(bus, n0.0, n0.1));
    let code = match (bus.device_type)(d) {
        Some(c) => c,
        None => 0u32,
    };
    let ap = scanned_access_point(bus, d, code);
    // The state once the access point part is done.
    let t = NetifScanView { phase: ScanPhase::AwaitActive, ssid: ap.0, strength: ap.1, ..n0.0 };
    assert(scan_drive(bus, s, r0) == scan_drive(bus, t, ScanRequestView::ActiveConnection(d))) by {
        if code == 2 {
            let n1 = scan_step(n0.0, scan_answer(bus, n0.1));
            assert(scan_drive(bus, n0.0, n0.1) == scan_drive(bus, n1.0, n1.1));
            if (bus.active_access_point)(d) is Some {
                let n2 = scan_step(n1.0, scan_answer(bus, n1.1));
                assert(scan_drive(bus, n1.0, n1.1) == scan_drive(bus, n2.0, n2.1));
            }
        }
    }
    lemma_scan_drive_active(bus, t);
    let f = scan_finish(t, scanned_ip4(bus, d));
    let rest = |i: int| s.devices.subrange(i, s.devices.len() as int).map_values(
        |d: Seq<char>| scanned_record(bus, d),
    );
    let found2 = s.found.push(scanned_record(bus, d));
    assert(s.found + rest(s.index) =~= found2 + rest(s.index + 1));
    if s.index + 1 < s.devices.len() {
        lemma_scan_drive_from(bus, f.0);
    } else {
        assert(rest(s.index + 1) =~= Seq::<IfaceInfoView>::empty());
        assert(found2 + rest(s.index + 1) =~= found2);
    }
}

/// Scanning the devices against a bus that answers every read by the object
/// path alone ends with one record per device, in device order: its
/// interface name, kind and state, its IPv4 address where its active
/// connection has one, and for Wi-Fi devices the SSID and strength of the
/// active access point.
pub proof fn lemma_scan_records_every_device(bus: ScanBusModel, devices: Seq<Seq<char>>)
    ensures
        scan_drive(bus, scan_start(devices).0, scan_start(devices).1) == ScanRequestView::Finished(
            devices.map_values(|d: Seq<char>| scanned_record(bus, d)),
        ),
{
    if devices.len() > 0 {
        lemma_scan_drive_from(bus, scan_start(devices).0);
        assert(devices.subrange(0, devices.len() as int) =~= devices);
        assert(Seq::<IfaceInfoView>::empty() + devices.map_values(
            |d: Seq<char>| scanned_record(bus, d),
        ) =~= devices.map_values(|d: Seq<char>| scanned_record(bus, d)));
    } else {
        assert(devices.map_values(|d: Seq<char>| scanned_record(bus, d)) =~= Seq::<IfaceInfoView>::empty());
    }
}

} // verus!

verus! {

/// The records a step leaves gathered: the ones it hands back when it ends the
/// scan, else the ones the scan goes on with.
pub open spec fn records_after(next: (NetifScanView, ScanRequestView)) -> Seq<IfaceInfoView> {
    match next.1 {
        ScanRequestView::Finished(list) => list,
        _ => next.0.found,
    }
}

/// The string the first dictionary holds under `address`, if there is one.
pub open spec fn first_dictionary_address(maps: Seq<Seq<(Seq<char>, PropValueView)>>) -> Option<Seq<char>> {
    if maps.len() == 0 {
        None
    } else {
        match lookup(maps[0], "address"@) {
            Some(PropValueView::Str(a)) => Some(a),
            _ => None,
        }
    }
}

/// Whatever a device's type, once its active connection is read as a path
/// other than `/`, the IPv4 configuration of that connection is asked for;
/// a null or unreadable active connection ends the device with no address.
pub proof fn lemma_scan_follows_connection_of_every_device(s: NetifScanView, active: Option<Seq<char>>)
    requires
        scan_wf(s),
        s.phase == ScanPhase::AwaitActive,
    ensures
        active matches Some(p) ==> (p != "/"@ ==> scan_step(
            s,
            ScanReplyView::ActiveConnection(active),
        ).1 == ScanRequestView::Ip4Config(p)),
        (active is None || active == Some("/"@)) ==> ({
            let list = records_after(scan_step(s, ScanReplyView::ActiveConnection(active)));
            &&& list.len() == s.found.len() + 1
            &&& list.last().ip4 == None::<Seq<char>>
        }),
{
}

/// Once the `AddressData` of a device's IPv4 configuration is read as `maps`,
/// exactly one record is added, whatever the device's type code: its `ip4` is
/// the string under `address` of the first dictionary `maps[0]` (none when
/// there is no dictionary or no such string), its name, SSID and strength are
/// those read for the device, its kind is named "Ethernet" exactly when the
/// type code is 1 and "WiFi" exactly when it is 2, and its state is named
/// "Activated" exactly for state 100, "Disconnected" exactly for 50 and
/// "Unknown" otherwise.
pub proof fn lemma_scan_record_after_address(s: NetifScanView, maps: Seq<Seq<(Seq<char>, PropValueView)>>)
    requires
        scan_wf(s),
        s.phase == ScanPhase::AwaitAddress,
    ensures
        ({
            let list = records_after(scan_step(s, ScanReplyView::AddressData(Some(maps))));
            let r = list.last();
            &&& list.len() == s.found.len() + 1
            &&& list.subrange(0, s.found.len() as int) == s.found
            &&& r.ip4 == first_dictionary_address(maps)
            &&& r.name == s.name
            &&& r.ssid == s.ssid
            &&& r.strength == s.strength
            &&& (r.iface_type == "Ethernet"@) == (s.type_code == 1)
            &&& (r.iface_type == "WiFi"@) == (s.type_code == 2)
            &&& (r.state == "Activated"@) == (s.state_code == 100)
            &&& (r.state == "Disconnected"@) == (s.state_code == 50)
            &&& (r.state == "Unknown"@) == (s.state_code != 100 && s.state_code != 50)
        }),
        records_after(scan_step(s, ScanReplyView::AddressData(None))).last().ip4 == None::<Seq<char>>,
{
    lemma_device_kind_of_code(s.type_code);
    lemma_device_state_name_of_code(s.state_code);
    let list = records_after(scan_step(s, ScanReplyView::AddressData(Some(maps))));
    assert(list.subrange(0, s.found.len() as int) =~= s.found);
}

} // verus!

verus! {

/// How the reads of a device set what its record will hold:
/// - its name is the `Interface` read (empty if unreadable), its type and
///   state codes those read (0 if unreadable), with no SSID or strength yet;
/// - the access point is asked for exactly when the type code is 2 (Wi-Fi),
///   else the active connection is asked for at once;
/// - a missing access point, or one that cannot be reached, leaves SSID and
///   strength empty; a reached one gives the SSID as text and the strength;
/// - no failed read stops the scan.
pub proof fn lemma_scan_step_cases(s: NetifScanView, r: ScanReplyView)
    requires
        scan_wf(s),
        scan_accepts(s, r),
    ensures
        r matches ScanReplyView::Device { interface, device_type, state } ==> {
            let n = scan_step(s, r).0;
            &&& n.name == (match interface {
                Some(i) => i,
                None => Seq::empty(),
            })
            &&& n.type_code == (match device_type {
                Some(c) => c,
                None => 0u32,
            })
            &&& n.state_code == (match state {
                Some(c) => c,
                None => 0u32,
            })
            &&& n.ssid is None
            &&& n.strength is None
            &&& (scan_step(s, r).1 is ActiveAccessPoint) == (device_type == Some(2u32))
            &&& device_type != Some(2u32) ==> scan_step(s, r).1 == ScanRequestView::ActiveConnection(
                s.devices[s.index],
            )
        },
        r == ScanReplyView::ActiveAccessPoint(None) ==> scan_step(s, r).1
            == ScanRequestView::ActiveConnection(s.devices[s.index]) && scan_step(s, r).0.ssid
            == s.ssid,
        r matches ScanReplyView::ActiveAccessPoint(Some(ap)) ==> scan_step(s, r).1
            == ScanRequestView::AccessPoint(ap),
        r == ScanReplyView::AccessPoint(None) ==> scan_step(s, r).1 == ScanRequestView::ActiveConnection(
            s.devices[s.index],
        ) && scan_step(s, r).0.ssid == s.ssid && scan_step(s, r).0.strength == s.strength,
        r matches ScanReplyView::AccessPoint(Some((ssid, strength))) ==> {
            &&& scan_step(s, r).1 == ScanRequestView::ActiveConnection(s.devices[s.index])
            &&& scan_step(s, r).0.strength == strength
            &&& scan_step(s, r).0.ssid == (match ssid {
                Some(b) => Some(utf8_lossy(b)),
                None => None,
            })
        },
        scan_step(s, r).0.devices == s.devices,
{
}

/// The records are built in device order, one per device: after the last
/// read of the device at `s.index`, the scan asks for the next device, or
/// after the last device hands back all records.
pub proof fn lemma_scan_visits_devices_in_order(s: NetifScanView, r: ScanReplyView)
    requires
        scan_wf(s),
        scan_accepts(s, r),
        records_after(scan_step(s, r)).len() == s.found.len() + 1,
    ensures
        s.index + 1 < s.devices.len() ==> scan_step(s, r).1 == ScanRequestView::Device(
            s.devices[s.index + 1],
        ) && scan_step(s, r).0.index == s.index + 1,
        s.index + 1 >= s.devices.len() ==> scan_step(s, r).1 == ScanRequestView::Finished(
            records_after(scan_step(s, r)),
        ),
{
}

} // verus!
