//! NetworkManager vocabulary: object paths and interface names, device kinds,
//! device states, and the small decisions taken on the values that the bus returns.

use vstd::prelude::*;

verus! {

/// Object paths and interface names of NetworkManager on the system bus.
pub struct NmIface {}

impl NmIface {
    pub const MAIN_PATH: &'static str = "/org/freedesktop/NetworkManager";
    // --- core interfaces ---
    pub const CORE: &'static str = "org.freedesktop.NetworkManager";
    pub const SETTINGS: &'static str = "org.freedesktop.NetworkManager.Settings";
    pub const ACTIVE_CONNECTION: &'static str = "org.freedesktop.NetworkManager.Connection.Active";
    // --- devices ---
    pub const DEVICE: &'static str = "org.freedesktop.NetworkManager.Device";
    pub const DEVICE_WIRELESS: &'static str = "org.freedesktop.NetworkManager.Device.Wireless";
    pub const DEVICE_WIRED: &'static str = "org.freedesktop.NetworkManager.Device.Wired";
    // --- IP configurations ---
    pub const IP4_CONFIG: &'static str = "org.freedesktop.NetworkManager.IP4Config";
    pub const IP6_CONFIG: &'static str = "org.freedesktop.NetworkManager.IP6Config";
    // --- properties / signals ---
    pub const PROPERTIES: &'static str = "org.freedesktop.DBus.Properties";
    pub const ACCESSPOINT: &'static str = "org.freedesktop.NetworkManager.AccessPoint";
}

/// The kind of a network device.
#[derive(PartialEq, Eq, Structural)]
pub enum DevType {
    Ethernet,
    WiFi,
    Bluetooth,
    Other,
}

/// The kind that NetworkManager's `DeviceType` code stands for:
/// 1 is Ethernet, 2 is Wi-Fi, 5 is Bluetooth, every other code is `Other`.
pub open spec fn dev_type_of(code: u32) -> DevType {
    if code == 1 {
        DevType::Ethernet
    } else if code == 2 {
        DevType::WiFi
    } else if code == 5 {
        DevType::Bluetooth
    } else {
        DevType::Other
    }
}

/// The display name of a device kind.
pub open spec fn dev_type_name(t: DevType) -> Seq<char> {
    match t {
        DevType::Ethernet => "Ethernet"@,
        DevType::WiFi => "WiFi"@,
        DevType::Bluetooth => "Bluetooth"@,
        DevType::Other => "Other"@,
    }
}

/// The display name of a NetworkManager device state code:
/// 100 is "Activated", 50 is "Disconnected", every other code is "Unknown".
pub open spec fn device_state_name(state: u32) -> Seq<char> {
    if state == 100 {
        "Activated"@
    } else if state == 50 {
        "Disconnected"@
    } else {
        "Unknown"@
    }
}

impl DevType {
    pub fn as_str(&self) -> (s: &'static str)
        ensures
            s@ == dev_type_name(*self),
    {
        proof {
            reveal_strlit("Ethernet");
            reveal_strlit("WiFi");
            reveal_strlit("Bluetooth");
            reveal_strlit("Other");
        }
        match self {
            DevType::Ethernet => "Ethernet",
            DevType::WiFi => "WiFi",
            DevType::Bluetooth => "Bluetooth",
            DevType::Other => "Other",
        }
    }
}

/// The raw `DeviceType` code of a device, as NetworkManager reports it.
#[derive(Copy, Clone)]
pub struct NmDeviceType {
    device_type: u32,
}

impl From<NmDeviceType> for DevType {
    fn from(nm: NmDeviceType) -> (t: DevType)
        ensures
            (t == DevType::Ethernet) == (nm.code() == 1),
            (t == DevType::WiFi) == (nm.code() == 2),
            (t == DevType::Bluetooth) == (nm.code() == 5),
            (t == DevType::Other) == (nm.code() != 1 && nm.code() != 2 && nm.code() != 5),
    {
        match nm.device_type {
            1 => DevType::Ethernet,
            2 => DevType::WiFi,
            5 => DevType::Bluetooth,
            _ => DevType::Other,
        }
    }
}

impl vstd::std_specs::convert::FromSpecImpl<NmDeviceType> for DevType {
    open spec fn obeys_from_spec() -> bool {
        true
    }

    open spec fn from_spec(nm: NmDeviceType) -> DevType {
        dev_type_of(nm.code())
    }
}

impl NmDeviceType {
    /// The code this value holds.
    pub closed spec fn code(self) -> u32 {
        self.device_type
    }

    /// Wraps a `DeviceType` code read from the bus.
    pub fn new(device_type: u32) -> (t: NmDeviceType)
        ensures
            t.code() == device_type,
    {
        NmDeviceType { device_type }
    }

    fn to_dev_type(self) -> (t: DevType)
        ensures
            t == dev_type_of(self.code()),
            (t == DevType::Ethernet) == (self.code() == 1),
            (t == DevType::WiFi) == (self.code() == 2),
            (t == DevType::Bluetooth) == (self.code() == 5),
    {
        DevType::from(self)
    }

    pub fn name(&self) -> (s: &'static str)
        ensures
            s@ == dev_type_name(dev_type_of(self.code())),
            (s@ == "Ethernet"@) == (self.code() == 1),
            (s@ == "WiFi"@) == (self.code() == 2),
            (s@ == "Bluetooth"@) == (self.code() == 5),
            (s@ == "Other"@) == (self.code() != 1 && self.code() != 2 && self.code() != 5),
    {
        proof {
            lemma_device_kind_of_code(self.code());
        }
        self.to_dev_type().as_str()
    }

    pub fn is_wifi(&self) -> (b: bool)
        ensures
            b == (self.code() == 2),
    {
        self.to_dev_type() == DevType::WiFi
    }

    pub fn is_ethernet(&self) -> (b: bool)
        ensures
            b == (self.code() == 1),
    {
        self.to_dev_type() == DevType::Ethernet
    }
}

} // verus!

verus! {

/// The system-bus connection through which NetworkManager is reached.
pub struct Nm {
    pub conn: zbus::Connection,
}

impl Nm {
    pub fn new(conn: zbus::Connection) -> (nm: Nm)
        ensures
            nm.conn == conn,
    {
        Nm { conn }
    }

    pub fn map_device_state(state: u32) -> (name: String)
        ensures
            name@ == device_state_name(state),
            (name@ == "Activated"@) == (state == 100),
            (name@ == "Disconnected"@) == (state == 50),
            (name@ == "Unknown"@) == (state != 100 && state != 50),
    {
        proof {
            lemma_device_state_name_of_code(state);
            reveal_strlit("Activated");
            reveal_strlit("Disconnected");
            reveal_strlit("Unknown");
        }
        let s = match state {
            100 => "Activated",
            50 => "Disconnected",
            _ => "Unknown",
        };
        String::from_str(s)
    }
}

/// A device is Ethernet exactly when its `DeviceType` code is 1, Wi-Fi exactly
/// when it is 2, Bluetooth exactly when it is 5, and of kind Other for every
/// other code; the kind's name is "Ethernet", "WiFi", "Bluetooth" or "Other"
/// on exactly the same codes.
pub proof fn lemma_device_kind_of_code(code: u32)
    ensures
        (dev_type_of(code) == DevType::Ethernet) == (code == 1),
        (dev_type_of(code) == DevType::WiFi) == (code == 2),
        (dev_type_of(code) == DevType::Bluetooth) == (code == 5),
        (dev_type_of(code) == DevType::Other) == (code != 1 && code != 2 && code != 5),
        (dev_type_name(dev_type_of(code)) == "Ethernet"@) == (code == 1),
        (dev_type_name(dev_type_of(code)) == "WiFi"@) == (code == 2),
        (dev_type_name(dev_type_of(code)) == "Bluetooth"@) == (code == 5),
        (dev_type_name(dev_type_of(code)) == "Other"@) == (code != 1 && code != 2 && code != 5),
{
    reveal_strlit("Ethernet");
    reveal_strlit("WiFi");
    reveal_strlit("Bluetooth");
    reveal_strlit("Other");
    assert("Ethernet"@.len() == 8 && "WiFi"@.len() == 4 && "Bluetooth"@.len() == 9 && "Other"@.len() == 5);
}

/// A device state is named "Activated" exactly when its code is 100,
/// "Disconnected" exactly when it is 50, and "Unknown" for every other code.
pub proof fn lemma_device_state_name_of_code(state: u32)
    ensures
        (device_state_name(state) == "Activated"@) == (state == 100),
        (device_state_name(state) == "Disconnected"@) == (state == 50),
        (device_state_name(state) == "Unknown"@) == (state != 100 && state != 50),
{
    reveal_strlit("Activated");
    reveal_strlit("Disconnected");
    reveal_strlit("Unknown");
    assert("Activated"@.len() == 9 && "Disconnected"@.len() == 12 && "Unknown"@.len() == 7);
}

/// On the NetworkManager bus the object path `/` stands for "no object".
pub open spec fn is_null_path(path: Seq<char>) -> bool {
    path == "/"@
}

/// Whether an object path read from the bus is the null path `/`
/// (no active connection, no active access point).
pub fn is_null_object_path(path: &String) -> (b: bool)
    ensures
        b == is_null_path(path@),
{
    let root = String::from_str("/");
    *path == root
}

/// What a D-Bus variant holds, as far as the address lookup reads it.
pub enum PropValue {
    Str(String),
    Other,
}

pub enum PropValueView {
    Str(Seq<char>),
    Other,
}

impl View for PropValue {
    type V = PropValueView;

    open spec fn view(&self) -> PropValueView {
        match self {
            PropValue::Str(s) => PropValueView::Str(s@),
            PropValue::Other => PropValueView::Other,
        }
    }
}

/// One key of an `AddressData` dictionary and the variant it maps to.
pub struct AddressEntry {
    pub key: String,
    pub value: PropValue,
}

impl View for AddressEntry {
    type V = (Seq<char>, PropValueView);

    open spec fn view(&self) -> (Seq<char>, PropValueView) {
        (self.key@, self.value@)
    }
}

/// One dictionary of the `AddressData` property of an IPv4 configuration.
pub struct AddressMap {
    pub entries: Vec<AddressEntry>,
}

impl View for AddressMap {
    type V = Seq<(Seq<char>, PropValueView)>;

    open spec fn view(&self) -> Seq<(Seq<char>, PropValueView)> {
        self.entries@.map_values(|e: AddressEntry| e@)
    }
}

/// The value that a dictionary maps `key` to: that of the last entry with
/// this key (a dictionary holds each key once).
pub open spec fn lookup(entries: Seq<(Seq<char>, PropValueView)>, key: Seq<char>) -> Option<PropValueView>
    decreases entries.len(),
{
    if entries.len() == 0 {
        None
    } else if entries.last().0 == key {
        Some(entries.last().1)
    } else {
        lookup(entries.drop_last(), key)
    }
}

/// The view of a list of `AddressData` dictionaries.
pub open spec fn address_maps_view(maps: Seq<AddressMap>) -> Seq<Seq<(Seq<char>, PropValueView)>> {
    maps.map_values(|m: AddressMap| m@)
}

/// The address of an IPv4 configuration: the string under the key `address`
/// of its first `AddressData` dictionary, if there is one and it is a string.
pub open spec fn first_address_of(maps: Seq<Seq<(Seq<char>, PropValueView)>>) -> Option<Seq<char>> {
    if maps.len() == 0 {
        None
    } else {
        match lookup(maps[0], "address"@) {
            Some(PropValueView::Str(s)) => Some(s),
            _ => None,
        }
    }
}

pub open spec fn opt_string_view(o: Option<String>) -> Option<Seq<char>> {
    match o {
        Some(s) => Some(s@),
        None => None,
    }
}

impl AddressMap {
    /// The value this dictionary maps `key` to.
    pub fn get(&self, key: &String) -> (v: Option<&PropValue>)
        ensures
            match v {
                Some(v) => lookup(self@, key@) == Some(v@),
                None => lookup(self@, key@) is None,
            },
    {
        let n = self.entries.len();
        let mut i: usize = n;
        assert(self@.take(n as int) =~= self@);
        while i > 0
            invariant
                i <= n,
                n == self.entries@.len(),
                lookup(self@, key@) == lookup(self@.take(i as int), key@),
            decreases i,
        {
            i = i - 1;
            assert(self@.take(i + 1).drop_last() =~= self@.take(i as int));
            if self.entries[i].key == *key {
                return Some(&self.entries[i].value);
            }
        }
        assert(self@.take(0) =~= Seq::<(Seq<char>, PropValueView)>::empty());
        None
    }
}

/// The address that the first `AddressData` dictionary holds under `address`.
pub fn first_address(maps: &Vec<AddressMap>) -> (a: Option<String>)
    ensures
        opt_string_view(a) == first_address_of(address_maps_view(maps@)),
{
    if maps.len() == 0 {
        return None;
    }
    let key = String::from_str("address");
    proof {
        reveal_strlit("address");
    }
    match maps[0].get(&key) {
        Some(PropValue::Str(s)) => Some(s.clone()),
        _ => None,
    }
}

/// What `String::from_utf8_lossy` makes of a byte string: valid UTF-8 decoded,
/// each invalid sequence replaced by U+FFFD.
pub uninterp spec fn utf8_lossy(bytes: Seq<u8>) -> Seq<char>;

/// Calls `String::from_utf8_lossy` and takes the text as an owned `String`.
/// Claimed: the result is `utf8_lossy` of the bytes, and for valid UTF-8 it is
/// the decoded text (std documents that valid input is returned unchanged).
#[verifier::external_body]
fn lossy_text(bytes: &[u8]) -> (s: String)
    ensures
        s@ == utf8_lossy(bytes@),
        vstd::utf8::valid_utf8(bytes@) ==> s@ == vstd::utf8::decode_utf8(bytes@),
{
    String::from_utf8_lossy(bytes).into_owned()
}

/// The SSID of an access point as text (bytes that are not UTF-8 are replaced).
pub fn ssid_text(ssid: &Vec<u8>) -> (s: String)
    ensures
        s@ == utf8_lossy(ssid@),
        vstd::utf8::valid_utf8(ssid@) ==> s@ == vstd::utf8::decode_utf8(ssid@),
{
    lossy_text(ssid.as_slice())
}

} // verus!

verus! {

/// The null object path is the one-character path `/` and nothing else.
pub proof fn lemma_null_path_is_slash(path: Seq<char>)
    ensures
        is_null_path(path) == (path == seq!['/']),
{
    reveal_strlit("/");
    if is_null_path(path) {
        assert(path =~= seq!['/']);
    }
    if path == seq!['/'] {
        assert(path =~= "/"@);
    }
}

/// A dictionary maps a key that exactly one of its entries holds to that
/// entry's value, and a key that none holds to nothing.
pub proof fn lemma_lookup_finds_the_entry(entries: Seq<(Seq<char>, PropValueView)>, key: Seq<char>, i: int)
    requires
        0 <= i < entries.len(),
        entries[i].0 == key,
        forall|j: int| 0 <= j < entries.len() && j != i ==> entries[j].0 != key,
    ensures
        lookup(entries, key) == Some(entries[i].1),
    decreases entries.len(),
{
    if i < entries.len() - 1 {
        lemma_lookup_finds_the_entry(entries.drop_last(), key, i);
    }
}

/// A key that no entry holds maps to nothing.
pub proof fn lemma_lookup_absent(entries: Seq<(Seq<char>, PropValueView)>, key: Seq<char>)
    requires
        forall|j: int| 0 <= j < entries.len() ==> entries[j].0 != key,
    ensures
        lookup(entries, key) is None,
    decreases entries.len(),
{
    if entries.len() > 0 {
        lemma_lookup_absent(entries.drop_last(), key);
    }
}

} // verus!
