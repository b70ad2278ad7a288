//! Collecting the addresses of the wired interfaces through NetworkManager.
//!
//! The bus is read by the caller: a [`Collector`] says which property to read
//! next ([`CollectRequest`]), is handed what the read gave ([`CollectReply`]),
//! and decides. When every device has been visited it hands back the list of
//! [`IfaceInfo`] to report, or the error that stopped the walk.

use vstd::prelude::*;

use crate::error::AppError;
use crate::network::nm_device::{
    address_maps_view, dev_type_of, first_address, first_address_of, is_null_object_path,
    is_null_path, lemma_device_kind_of_code, lookup, opt_string_view, AddressMap, DevType,
    NmDeviceType, PropValueView,
};

verus! {

/// One interface in the report.
#[derive(Debug)]
pub enum IfaceInfo {
    Ethernet(String),
    Wifi(String, String),
}

pub enum IfaceInfoView {
    Ethernet(Seq<char>),
    Wifi(Seq<char>, Seq<char>),
}

impl View for IfaceInfo {
    type V = IfaceInfoView;

    open spec fn view(&self) -> IfaceInfoView {
        match self {
            IfaceInfo::Ethernet(ip) => IfaceInfoView::Ethernet(ip@),
            IfaceInfo::Wifi(a, b) => IfaceInfoView::Wifi(a@, b@),
        }
    }
}

/// What the collector asks of the bus next.
pub enum CollectRequest {
    /// Read the `DeviceType` property of the device at this object path.
    DeviceType(String),
    /// Read the `ActiveConnection` property of the device at this object path.
    ActiveConnection(String),
    /// Read the `Ip4Config` property of the active connection at this object path.
    Ip4Config(String),
    /// Read the `AddressData` property of the IPv4 configuration at this object path.
    AddressData(String),
    /// Every device was visited: these are the interfaces to report.
    Finished(Vec<IfaceInfo>),
    /// A read failed: this is the error to report.
    Failed(AppError),
}

pub enum CollectRequestView {
    DeviceType(Seq<char>),
    ActiveConnection(Seq<char>),
    Ip4Config(Seq<char>),
    AddressData(Seq<char>),
    Finished(Seq<IfaceInfoView>),
    Failed(AppError),
}

pub open spec fn infos_view(v: Seq<IfaceInfo>) -> Seq<IfaceInfoView> {
    v.map_values(|i: IfaceInfo| i@)
}

impl View for CollectRequest {
    type V = CollectRequestView;

    open spec fn view(&self) -> CollectRequestView {
        match self {
            CollectRequest::DeviceType(p) => CollectRequestView::DeviceType(p@),
            CollectRequest::ActiveConnection(p) => CollectRequestView::ActiveConnection(p@),
            CollectRequest::Ip4Config(p) => CollectRequestView::Ip4Config(p@),
            CollectRequest::AddressData(p) => CollectRequestView::AddressData(p@),
            CollectRequest::Finished(v) => CollectRequestView::Finished(infos_view(v@)),
            CollectRequest::Failed(e) => CollectRequestView::Failed(*e),
        }
    }
}

/// What a read of the bus gave, in answer to a [`CollectRequest`].
pub enum CollectReply {
    /// The device's type, or the error of reading it.
    DeviceType(Result<NmDeviceType, AppError>),
    /// The object path of the device's active connection, or the error of reading it.
    ActiveConnection(Result<String, AppError>),
    /// The object path of the connection's IPv4 configuration; `None` where it could not be read.
    Ip4Config(Option<String>),
    /// The configuration's `AddressData`; `None` where it could not be read.
    AddressData(Option<Vec<AddressMap>>),
}

pub enum CollectReplyView {
    DeviceType(Result<u32, AppError>),
    ActiveConnection(Result<Seq<char>, AppError>),
    Ip4Config(Option<Seq<char>>),
    AddressData(Option<Seq<Seq<(Seq<char>, PropValueView)>>>),
}

impl View for CollectReply {
    type V = CollectReplyView;

    open spec fn view(&self) -> CollectReplyView {
        match self {
            CollectReply::DeviceType(Ok(t)) => CollectReplyView::DeviceType(Ok(t.code())),
            CollectReply::DeviceType(Err(e)) => CollectReplyView::DeviceType(Err(*e)),
            CollectReply::ActiveConnection(Ok(p)) => CollectReplyView::ActiveConnection(Ok(p@)),
            CollectReply::ActiveConnection(Err(e)) => CollectReplyView::ActiveConnection(Err(*e)),
            CollectReply::Ip4Config(c) => CollectReplyView::Ip4Config(opt_string_view(*c)),
            CollectReply::AddressData(Some(maps)) => CollectReplyView::AddressData(
                Some(address_maps_view(maps@)),
            ),
            CollectReply::AddressData(None) => CollectReplyView::AddressData(None),
        }
    }
}

/// Where the walk over the devices stands.
#[derive(Clone, Copy, PartialEq, Eq, Structural)]
pub enum CollectPhase {
    /// Waiting for the type of the current device.
    AwaitType,
    /// Waiting for the active connection of the current (wired) device.
    AwaitActive,
    /// Waiting for the IPv4 configuration of the current device's connection.
    AwaitIp4,
    /// Waiting for the address data of that configuration.
    AwaitAddress,
    /// The walk has ended.
    Over,
}

/// Walks the devices of NetworkManager and gathers the wired interfaces
/// that have an IPv4 configuration.
pub struct Collector {
    devices: Vec<String>,
    index: usize,
    phase: CollectPhase,
    found: Vec<IfaceInfo>,
}

pub struct CollectorView {
    pub devices: Seq<Seq<char>>,
    pub index: int,
    pub phase: CollectPhase,
    pub found: Seq<IfaceInfoView>,
}

pub open spec fn paths_view(v: Seq<String>) -> Seq<Seq<char>> {
    v.map_values(|s: String| s@)
}

impl View for Collector {
    type V = CollectorView;

    closed spec fn view(&self) -> CollectorView {
        CollectorView {
            devices: paths_view(self.devices@),
            index: self.index as int,
            phase: self.phase,
            found: infos_view(self.found@),
        }
    }
}

/// While the walk goes on, it stands at one of the devices.
pub open spec fn collector_wf(s: CollectorView) -> bool {
    s.phase != CollectPhase::Over ==> 0 <= s.index < s.devices.len()
}

/// The first request, and the state that awaits its answer.
pub open spec fn collect_start(devices: Seq<Seq<char>>) -> (CollectorView, CollectRequestView) {
    if devices.len() == 0 {
        (
            CollectorView { devices, index: 0, phase: CollectPhase::Over, found: Seq::empty() },
            CollectRequestView::Finished(Seq::empty()),
        )
    } else {
        (
            CollectorView { devices, index: 0, phase: CollectPhase::AwaitType, found: Seq::empty() },
            CollectRequestView::DeviceType(devices[0]),
        )
    }
}

/// Whether `r` answers what the walk in state `s` waits for.
pub open spec fn collect_accepts(s: CollectorView, r: CollectReplyView) -> bool {
    match r {
        CollectReplyView::DeviceType(_) => s.phase == CollectPhase::AwaitType,
        CollectReplyView::ActiveConnection(_) => s.phase == CollectPhase::AwaitActive,
        CollectReplyView::Ip4Config(_) => s.phase == CollectPhase::AwaitIp4,
        CollectReplyView::AddressData(_) => s.phase == CollectPhase::AwaitAddress,
    }
}

/// Done with the current device: go to the next one, or end with the list gathered.
pub open spec fn collect_advance(s: CollectorView) -> (CollectorView, CollectRequestView) {
    if s.index + 1 < s.devices.len() {
        (
            CollectorView { index: s.index + 1, phase: CollectPhase::AwaitType, ..s },
            CollectRequestView::DeviceType(s.devices[s.index + 1]),
        )
    } else {
        (
            CollectorView { phase: CollectPhase::Over, found: Seq::empty(), ..s },
            CollectRequestView::Finished(s.found),
        )
    }
}

/// The address reported for a wired interface: the first address of its
/// IPv4 configuration, or the empty string where there is none.
pub open spec fn reported_address(data: Option<Seq<Seq<(Seq<char>, PropValueView)>>>) -> Seq<char> {
    match data {
        Some(maps) => match first_address_of(maps) {
            Some(a) => a,
            None => Seq::empty(),
        },
        None => Seq::empty(),
    }
}

/// One step of the walk: the state after the answer `r`, and the next request.
pub open spec fn collect_step(s: CollectorView, r: CollectReplyView) -> (CollectorView, CollectRequestView) {
    match r {
        CollectReplyView::DeviceType(Err(e)) => (
            CollectorView { phase: CollectPhase::Over, ..s },
            CollectRequestView::Failed(e),
        ),
        CollectReplyView::DeviceType(Ok(code)) => if dev_type_of(code) == DevType::Ethernet {
            (
                CollectorView { phase: CollectPhase::AwaitActive, ..s },
                CollectRequestView::ActiveConnection(s.devices[s.index]),
            )
        } else {
            collect_advance(s)
        },
        CollectReplyView::ActiveConnection(Err(e)) => (
            CollectorView { phase: CollectPhase::Over, ..s },
            CollectRequestView::Failed(e),
        ),
        CollectReplyView::ActiveConnection(Ok(p)) => if is_null_path(p) {
            collect_advance(s)
        } else {
            (
                CollectorView { phase: CollectPhase::AwaitIp4, ..s },
                CollectRequestView::Ip4Config(p),
            )
        },
        CollectReplyView::Ip4Config(None) => collect_advance(s),
        CollectReplyView::Ip4Config(Some(c)) => (
            CollectorView { phase: CollectPhase::AwaitAddress, ..s },
            CollectRequestView::AddressData(c),
        ),
        CollectReplyView::AddressData(d) => collect_advance(
            CollectorView { found: s.found.push(IfaceInfoView::Ethernet(reported_address(d))), ..s },
        ),
    }
}

impl Collector {
    #[verifier::type_invariant]
    closed spec fn inv(self) -> bool {
        collector_wf(self@)
    }

    /// Starts a walk over the devices at these object paths, in this order.
    pub fn new(devices: Vec<String>) -> (res: (Collector, CollectRequest))
        ensures
            (res.0@, res.1@) == collect_start(paths_view(devices@)),
    {
        if devices.len() == 0 {
            let c = Collector { devices, index: 0, phase: CollectPhase::Over, found: Vec::new() };
            proof {
                assert(infos_view(c.found@) =~= Seq::<IfaceInfoView>::empty());
            }
            (c, CollectRequest::Finished(Vec::new()))
        } else {
            let first = devices[0].clone();
            let c = Collector { devices, index: 0, phase: CollectPhase::AwaitType, found: Vec::new() };
            proof {
                assert(infos_view(c.found@) =~= Seq::<IfaceInfoView>::empty());
            }
            (c, CollectRequest::DeviceType(first))
        }
    }

    /// Whether `reply` answers what the walk waits for.
    pub fn accepts(&self, reply: &CollectReply) -> (b: bool)
        ensures
            b == collect_accepts(self@, reply@),
    {
        match reply {
            CollectReply::DeviceType(_) => self.phase == CollectPhase::AwaitType,
            CollectReply::ActiveConnection(_) => self.phase == CollectPhase::AwaitActive,
            CollectReply::Ip4Config(_) => self.phase == CollectPhase::AwaitIp4,
            CollectReply::AddressData(_) => self.phase == CollectPhase::AwaitAddress,
        }
    }

    fn advance(&mut self) -> (req: CollectRequest)
        requires
            old(self).phase != CollectPhase::Over,
        ensures
            (final(self)@, req@) == collect_advance(old(self)@),
    {
        proof {
            use_type_invariant(&*self);
        }
        if self.devices.len() - self.index > 1 {
            self.index = self.index + 1;
            self.phase = CollectPhase::AwaitType;
            CollectRequest::DeviceType(self.devices[self.index].clone())
        } else {
            self.phase = CollectPhase::Over;
            let mut found = Vec::new();
            std::mem::swap(&mut found, &mut self.found);
            proof {
                assert(infos_view(self.found@) =~= Seq::<IfaceInfoView>::empty());
            }
            CollectRequest::Finished(found)
        }
    }

    /// Takes in the answer to the last request and returns the next one.
    pub fn step(&mut self, reply: CollectReply) -> (req: CollectRequest)
        requires
            collect_accepts(old(self)@, reply@),
        ensures
            (final(self)@, req@) == collect_step(old(self)@, reply@),
    {
        proof {
            use_type_invariant(&*self);
        }
        match reply {
            CollectReply::DeviceType(Err(e)) => {
                self.phase = CollectPhase::Over;
                CollectRequest::Failed(e)
            },
            CollectReply::DeviceType(Ok(t)) => {
                match DevType::from(t) {
                    DevType::Ethernet => {
                        self.phase = CollectPhase::AwaitActive;
                        CollectRequest::ActiveConnection(self.devices[self.index].clone())
                    },
                    _ => self.advance(),
                }
            },
            CollectReply::ActiveConnection(Err(e)) => {
                self.phase = CollectPhase::Over;
                CollectRequest::Failed(e)
            },
            CollectReply::ActiveConnection(Ok(p)) => {
                if is_null_object_path(&p) {
                    self.advance()
                } else {
                    self.phase = CollectPhase::AwaitIp4;
                    CollectRequest::Ip4Config(p)
                }
            },
            CollectReply::Ip4Config(None) => self.advance(),
            CollectReply::Ip4Config(Some(c)) => {
                self.phase = CollectPhase::AwaitAddress;
                CollectRequest::AddressData(c)
            },
            CollectReply::AddressData(d) => {
                let ip = match d {
                    Some(maps) => match first_address(&maps) {
                        Some(a) => a,
                        None => String::new(),
                    },
                    None => String::new(),
                };
                let ghost before = self.found@;
                let mut found = Vec::new();
                std::mem::swap(&mut found, &mut self.found);
                found.push(IfaceInfo::Ethernet(ip));
                std::mem::swap(&mut found, &mut self.found);
                proof {
                    assert(infos_view(self.found@) =~= infos_view(before).push(IfaceInfoView::Ethernet(ip@)));
                }
                self.advance()
            },
        }
    }
}

} // verus!

verus! {

/// A NetworkManager bus that answers each read as a function of the object
/// path it is asked about.
pub struct NmBusModel {
    pub device_type: spec_fn(Seq<char>) -> Result<u32, AppError>,
    pub active_connection: spec_fn(Seq<char>) -> Result<Seq<char>, AppError>,
    pub ip4_config: spec_fn(Seq<char>) -> Option<Seq<char>>,
    pub address_data: spec_fn(Seq<char>) -> Option<Seq<Seq<(Seq<char>, PropValueView)>>>,
}

/// The bus's answer to a request.
pub open spec fn collect_answer(bus: NmBusModel, req: CollectRequestView) -> CollectReplyView {
    match req {
        CollectRequestView::DeviceType(p) => CollectReplyView::DeviceType((bus.device_type)(p)),
        CollectRequestView::ActiveConnection(p) => CollectReplyView::ActiveConnection(
            (bus.active_connection)(p),
        ),
        CollectRequestView::Ip4Config(p) => CollectReplyView::Ip4Config((bus.ip4_config)(p)),
        CollectRequestView::AddressData(p) => CollectReplyView::AddressData((bus.address_data)(p)),
        CollectRequestView::Finished(_) => CollectReplyView::Ip4Config(None),
        CollectRequestView::Failed(_) => CollectReplyView::Ip4Config(None),
    }
}

pub open spec fn collect_phase_rank(p: CollectPhase) -> int {
    match p {
        CollectPhase::AwaitType => 3,
        CollectPhase::AwaitActive => 2,
        CollectPhase::AwaitIp4 => 1,
        CollectPhase::AwaitAddress => 0,
        CollectPhase::Over => 0,
    }
}

/// How many steps the walk has left at most.
pub open spec fn collect_measure(s: CollectorView) -> nat {
    if s.phase == CollectPhase::Over || s.index < 0 || s.index >= s.devices.len() {
        0
    } else {
        (4 * (s.devices.len() - s.index) + collect_phase_rank(s.phase)) as nat
    }
}

/// The last request of a walk from state `s` with pending request `req`,
/// every request answered by `bus`.
pub open spec fn collect_drive(bus: NmBusModel, s: CollectorView, req: CollectRequestView) -> CollectRequestView
    decreases collect_measure(s),
{
    if req is Finished || req is Failed {
        req
    } else if !collector_wf(s) || !collect_accepts(s, collect_answer(bus, req)) {
        req
    } else {
        let next = collect_step(s, collect_answer(bus, req));
        if collect_measure(next.0) < collect_measure(s) {
            collect_drive(bus, next.0, next.1)
        } else {
            next.1
        }
    }
}

/// What one device contributes: an error that stops the walk, nothing, or
/// the wired interface with its address.
pub open spec fn device_report(bus: NmBusModel, device: Seq<char>) -> Result<Option<IfaceInfoView>, AppError> {
    match (bus.device_type)(device) {
        Err(e) => Err(e),
        Ok(code) => if dev_type_of(code) != DevType::Ethernet {
            Ok(None)
        } else {
            match (bus.active_connection)(device) {
                Err(e) => Err(e),
                Ok(active) => if is_null_path(active) {
                    Ok(None)
                } else {
                    match (bus.ip4_config)(active) {
                        None => Ok(None),
                        Some(config) => Ok(
                            Some(IfaceInfoView::Ethernet(reported_address((bus.address_data)(config)))),
                        ),
                    }
                },
            }
        },
    }
}

/// The report over the devices from index `i` on, after `acc` was gathered.
pub open spec fn collect_outcome_from(
    bus: NmBusModel,
    devices: Seq<Seq<char>>,
    i: int,
    acc: Seq<IfaceInfoView>,
) -> Result<Seq<IfaceInfoView>, AppError>
    decreases devices.len() - i,
{
    if i < 0 || i >= devices.len() {
        Ok(acc)
    } else {
        match device_report(bus, devices[i]) {
            Err(e) => Err(e),
            Ok(None) => collect_outcome_from(bus, devices, i + 1, acc),
            Ok(Some(info)) => collect_outcome_from(bus, devices, i + 1, acc.push(info)),
        }
    }
}

/// The report over all devices, in their order.
pub open spec fn collect_outcome(bus: NmBusModel, devices: Seq<Seq<char>>) -> Result<Seq<IfaceInfoView>, AppError> {
    collect_outcome_from(bus, devices, 0, Seq::empty())
}

/// The last request that stands for an outcome.
pub open spec fn outcome_request(o: Result<Seq<IfaceInfoView>, AppError>) -> CollectRequestView {
    match o {
        Ok(list) => CollectRequestView::Finished(list),
        Err(e) => CollectRequestView::Failed(e),
    }
}

/// Every answered step keeps the walk at one of the devices or ends it, ends
/// it exactly when it hands back the outcome, and otherwise brings it closer
/// to its end (it lowers the measure), so that every walk ends.
pub proof fn lemma_collect_step_progresses(s: CollectorView, r: CollectReplyView)
    requires
        collector_wf(s),
        collect_accepts(s, r),
    ensures
        collector_wf(collect_step(s, r).0),
        collect_measure(collect_step(s, r).0) < collect_measure(s),
        collect_step(s, r).0.phase == CollectPhase::Over <==> (collect_step(s, r).1 is Finished
            || collect_step(s, r).1 is Failed),
{
}

proof fn lemma_collect_drive_from(bus: NmBusModel, s: CollectorView)
    requires
        s.phase == CollectPhase::AwaitType,
        0 <= s.index < s.devices.len(),
    ensures
        collect_drive(bus, s, CollectRequestView::DeviceType(s.devices[s.index]))
            == outcome_request(collect_outcome_from(bus, s.devices, s.index, s.found)),
    decreases s.devices.len() - s.index,
{
    let d = s.devices[s.index];
    let r0 = CollectRequestView::DeviceType(d);
    let n0 = collect_step(s, collect_answer(bus, r0));
    assert(collect_drive(bus, s, r0) == collect_drive(bus, n0.0, n0.1));
    match device_report(bus, d) {
        Err(e) => {
            match (bus.device_type)(d) {
                Err(_) => {},
                Ok(_) => {
                    let n1 = collect_step(n0.0, collect_answer(bus, n0.1));
                    assert(collect_drive(bus, n0.0, n0.1) == collect_drive(bus, n1.0, n1.1));
                },
            }
        },
        Ok(o) => {
            let found2 = match o {
                Some(info) => s.found.push(info),
                None => s.found,
            };
            let t = CollectorView { found: found2, ..s };
            // The walk reaches the end of this device and advances from `t`.
            let adv = collect_advance(t);
            assert(collect_drive(bus, s, r0) == collect_drive(bus, adv.0, adv.1)) by {
                if dev_type_of((bus.device_type)(d)->Ok_0) != DevType::Ethernet {
                } else {
                    let n1 = collect_step(n0.0, collect_answer(bus, n0.1));
                    assert(collect_drive(bus, n0.0, n0.1) == collect_drive(bus, n1.0, n1.1));
                    if !is_null_path((bus.active_connection)(d)->Ok_0) {
                        let n2 = collect_step(n1.0, collect_answer(bus, n1.1));
                        assert(collect_drive(bus, n1.0, n1.1) == collect_drive(bus, n2.0, n2.1));
                        if (bus.ip4_config)((bus.active_connection)(d)->Ok_0) is Some {
                            let n3 = collect_step(n2.0, collect_answer(bus, n2.1));
                            assert(collect_drive(bus, n2.0, n2.1) == collect_drive(bus, n3.0, n3.1));
                        }
                    }
                }
            }
            assert(collect_outcome_from(bus, s.devices, s.index, s.found)
                == collect_outcome_from(bus, s.devices, s.index + 1, found2));
            if s.index + 1 < s.devices.len() {
                lemma_collect_drive_from(bus, adv.0);
            } else {
                assert(collect_outcome_from(bus, s.devices, s.index + 1, found2) == Ok::<
                    Seq<IfaceInfoView>,
                    AppError,
                >(found2));
            }
        },
    }
}

/// Walking the devices against a bus that answers every read by the object
/// path alone ends with the wired interfaces that have an active connection
/// and a readable IPv4 configuration, in device order, each with the first
/// address of that configuration (empty where there is none), or with the
/// first error met in reading a device's type or its active connection.
pub proof fn lemma_collect_reports_wired_addresses(bus: NmBusModel, devices: Seq<Seq<char>>)
    ensures
        collect_drive(bus, collect_start(devices).0, collect_start(devices).1)
            == outcome_request(collect_outcome(bus, devices)),
{
    if devices.len() > 0 {
        lemma_collect_drive_from(bus, collect_start(devices).0);
    }
}

} // verus!

verus! {

/// The list a step leaves gathered: the one it hands back when it ends the
/// walk, else the one the walk goes on with.
pub open spec fn gathered_after(next: (CollectorView, CollectRequestView)) -> Seq<IfaceInfoView> {
    match next.1 {
        CollectRequestView::Finished(list) => list,
        _ => next.0.found,
    }
}

/// The string a dictionary holds under `address`, or the empty string.
pub open spec fn address_string_or_empty(dict: Seq<(Seq<char>, PropValueView)>) -> Seq<char> {
    match lookup(dict, "address"@) {
        Some(PropValueView::Str(a)) => a,
        _ => Seq::empty(),
    }
}

/// Reading a device's type leads to asking for its active connection exactly
/// when the `DeviceType` code is 1 (Ethernet); for every other code (Wi-Fi,
/// Bluetooth, loopback, ...) the walk moves on and gathers nothing for it.
pub proof fn lemma_collect_follows_only_ethernet(s: CollectorView, code: u32)
    requires
        collector_wf(s),
        s.phase == CollectPhase::AwaitType,
    ensures
        (collect_step(s, CollectReplyView::DeviceType(Ok(code))).1 is ActiveConnection) == (code == 1),
        code == 1 ==> collect_step(s, CollectReplyView::DeviceType(Ok(code))).1
            == CollectRequestView::ActiveConnection(s.devices[s.index]),
        code != 1 ==> gathered_after(collect_step(s, CollectReplyView::DeviceType(Ok(code)))) == s.found,
{
    lemma_device_kind_of_code(code);
}

/// Once the `AddressData` of a wired device's IPv4 configuration is read as
/// `maps`, exactly one entry is added to what was gathered: `Ethernet(a)`,
/// where `a` is the string under `address` of the first dictionary `maps[0]`
/// (the empty string when there is no dictionary or no such string there).
/// Dictionaries after the first are never read: two replies that agree on the
/// first dictionary gather the same.
pub proof fn lemma_collect_address_from_first_dictionary(
    s: CollectorView,
    maps: Seq<Seq<(Seq<char>, PropValueView)>>,
    other: Seq<Seq<(Seq<char>, PropValueView)>>,
)
    requires
        collector_wf(s),
        s.phase == CollectPhase::AwaitAddress,
    ensures
        ({
            let list = gathered_after(collect_step(s, CollectReplyView::AddressData(Some(maps))));
            &&& list.len() == s.found.len() + 1
            &&& list.subrange(0, s.found.len() as int) == s.found
            &&& list.last() == IfaceInfoView::Ethernet(
                if maps.len() == 0 { Seq::empty() } else { address_string_or_empty(maps[0]) },
            )
        }),
        gathered_after(collect_step(s, CollectReplyView::AddressData(None))).last()
            == IfaceInfoView::Ethernet(Seq::empty()),
        maps.len() > 0 && other.len() > 0 && maps[0] == other[0] ==> gathered_after(
            collect_step(s, CollectReplyView::AddressData(Some(maps))),
        ) == gathered_after(collect_step(s, CollectReplyView::AddressData(Some(other)))),
{
    let list = gathered_after(collect_step(s, CollectReplyView::AddressData(Some(maps))));
    assert(list.subrange(0, s.found.len() as int) =~= s.found);
}

} // verus!

verus! {

/// The request that follows the last read of the device at `s.index`: the
/// type of the next device, or, after the last device, the gathered list.
pub open spec fn next_after_device(s: CollectorView, found: Seq<IfaceInfoView>) -> CollectRequestView {
    if s.index + 1 < s.devices.len() {
        CollectRequestView::DeviceType(s.devices[s.index + 1])
    } else {
        CollectRequestView::Finished(found)
    }
}

/// How each kind of answer moves the walk:
/// - a failed read of a device's type or of its active connection stops the
///   walk with exactly that error;
/// - an active connection at `/` (none) or an unreadable IPv4 configuration
///   gathers nothing for the device and moves on to the next one;
/// - an active connection at another path asks for its `Ip4Config`, and a
///   configuration path asks for its `AddressData`;
/// - the devices are visited in their order, each once, and the list is
///   handed back right after the last one.
pub proof fn lemma_collect_step_cases(s: CollectorView, r: CollectReplyView)
    requires
        collector_wf(s),
        collect_accepts(s, r),
    ensures
        r matches CollectReplyView::DeviceType(Err(e)) ==> collect_step(s, r).1
            == CollectRequestView::Failed(e),
        r matches CollectReplyView::ActiveConnection(Err(e)) ==> collect_step(s, r).1
            == CollectRequestView::Failed(e),
        r == CollectReplyView::ActiveConnection(Ok("/"@)) ==> collect_step(s, r).1 == next_after_device(
            s,
            s.found,
        ),
        r matches CollectReplyView::ActiveConnection(Ok(p)) ==> (p != "/"@ ==> collect_step(s, r).1
            == CollectRequestView::Ip4Config(p)),
        r == CollectReplyView::Ip4Config(None) ==> collect_step(s, r).1 == next_after_device(s, s.found),
        r matches CollectReplyView::Ip4Config(Some(c)) ==> collect_step(s, r).1
            == CollectRequestView::AddressData(c),
        r is AddressData ==> collect_step(s, r).1 == next_after_device(s, gathered_after(collect_step(s, r))),
        !(collect_step(s, r).1 is Failed) ==> collect_step(s, r).0.devices == s.devices,
{
    reveal_strlit("/");
}

} // verus!
