//! Dual connections: the earbuds keep connections to up to two host devices at once. The
//! device reports the hosts it knows; the user turns the feature on or off and picks which
//! hosts are connected.

use vstd::prelude::*;

use crate::settings::{
    MultiSelectWithRemoveCommand, Select, Setting, SettingHandlerError, SettingId, SettingView,
    Value, ValueKind,
};

verus! {

/// The error of `macaddr`'s parser.
#[verifier::external_type_specification]
#[verifier::external_body]
pub struct ExParseError(macaddr::ParseError);

/// `macaddr::ParseError`'s `Clone`, derived on a `Copy` type: the clone is the same error.
pub assume_specification[ <macaddr::ParseError as std::clone::Clone>::clone ](
    e: &macaddr::ParseError,
) -> (r: macaddr::ParseError)
    ensures
        r == *e,
;

/// A Bluetooth MAC address.
#[derive(Debug, Clone, Copy, PartialEq, Eq, Hash)]
pub struct MacAddress {
    pub bytes: [u8; 6],
}

impl View for MacAddress {
    type V = Seq<u8>;

    open spec fn view(&self) -> Seq<u8> {
        self.bytes@
    }
}

/// An upper case hexadecimal digit.
pub open spec fn hex_digit(n: u8) -> char {
    if n == 0 { '0' }
    else if n == 1 { '1' }
    else if n == 2 { '2' }
    else if n == 3 { '3' }
    else if n == 4 { '4' }
    else if n == 5 { '5' }
    else if n == 6 { '6' }
    else if n == 7 { '7' }
    else if n == 8 { '8' }
    else if n == 9 { '9' }
    else if n == 10 { 'A' }
    else if n == 11 { 'B' }
    else if n == 12 { 'C' }
    else if n == 13 { 'D' }
    else if n == 14 { 'E' }
    else { 'F' }
}

/// A byte as two upper case hexadecimal digits.
pub open spec fn hex_byte(b: u8) -> Seq<char> {
    seq![hex_digit(b / 16), hex_digit(b % 16)]
}

/// An address as six two-digit upper case hexadecimal numbers separated by colons, such as
/// "AC:DE:48:23:45:67".
pub open spec fn spec_mac_text(b: Seq<u8>) -> Seq<char> {
    hex_byte(b[0]) + seq![':'] + hex_byte(b[1]) + seq![':'] + hex_byte(b[2]) + seq![':']
        + hex_byte(b[3]) + seq![':'] + hex_byte(b[4]) + seq![':'] + hex_byte(b[5])
}

/// Whether a text is an address in colon form.
pub open spec fn is_colon_form(text: Seq<char>) -> bool {
    exists|c: Seq<u8>| c.len() == 6 && text == #[trigger] spec_mac_text(c)
}

/// The value of a hexadecimal digit of either case.
pub open spec fn hex_value(c: char) -> Option<u8> {
    let n = c as u32;
    if 48 <= n <= 57 {
        Some((n - 48) as u8)
    } else if 97 <= n <= 102 {
        Some((n - 87) as u8)
    } else if 65 <= n <= 70 {
        Some((n - 55) as u8)
    } else {
        None
    }
}

/// A character that may stand before a byte of an address.
pub open spec fn is_delimiter(c: char) -> bool {
    c == '-' || c == ':' || c == '.'
}

/// The bytes read from `text` once `count` bytes are read and `delimiter` is the delimiter seen
/// so far: before each byte an optional delimiter, the same one throughout; each byte as two
/// hexadecimal digits of either case; after the sixth byte the end of the text.
pub open spec fn spec_parse_mac(text: Seq<char>, delimiter: Option<char>, count: nat) -> Option<
    Seq<u8>,
>
    decreases text.len(),
{
    if count >= 6 {
        if text.len() == 0 {
            Some(seq![])
        } else {
            None
        }
    } else {
        let starts_with_delimiter = text.len() > 0 && is_delimiter(text[0]);
        if starts_with_delimiter && delimiter is Some && delimiter != Some(text[0]) {
            None
        } else {
            let delim = if starts_with_delimiter { Some(text[0]) } else { delimiter };
            let rest = if starts_with_delimiter { text.drop_first() } else { text };
            if rest.len() < 2 {
                None
            } else {
                match (hex_value(rest[0]), hex_value(rest[1])) {
                    (Some(h), Some(l)) => match spec_parse_mac(
                        rest.subrange(2, rest.len() as int),
                        delim,
                        count + 1,
                    ) {
                        Some(tail) => Some(seq![(h * 16 + l) as u8] + tail),
                        None => None,
                    },
                    _ => None,
                }
            }
        }
    }
}

/// The address that `macaddr`'s parser reads from a text, if it accepts it.
pub open spec fn parsed_mac_address(text: Seq<char>) -> Option<Seq<u8>> {
    spec_parse_mac(text, None, 0)
}

/// `MacAddr6`'s `Display`, which writes the address in the colon form of [`spec_mac_text`].
#[verifier::external_body]
fn mac_address_text(bytes: [u8; 6]) -> (r: String)
    ensures
        r@ == spec_mac_text(bytes@),
{
    macaddr::MacAddr6::from(bytes).to_string()
}

/// `MacAddr6::from_str`: it accepts the texts that [`spec_parse_mac`] describes and gives the
/// address read from them.
#[verifier::external_body]
fn parse_mac_address(text: &str) -> (r: Result<[u8; 6], macaddr::ParseError>)
    ensures
        r is Ok <==> parsed_mac_address(text@) is Some,
        r matches Ok(b) ==> parsed_mac_address(text@) == Some(b@),
{
    match <macaddr::MacAddr6 as std::str::FromStr>::from_str(text) {
        Ok(address) => Ok(address.into_array()),
        Err(e) => Err(e),
    }
}

proof fn lemma_hex_value_of_digit(n: u8)
    requires
        n < 16,
    ensures
        hex_value(hex_digit(n)) == Some(n),
        !is_delimiter(hex_digit(n)),
{
}

/// The colon form of an address, from byte `k` on, with the colon before it, reads back as
/// those bytes.
proof fn lemma_parse_colon_form_from(b: Seq<u8>, k: nat)
    requires
        b.len() == 6,
        1 <= k <= 6,
    ensures
        spec_parse_mac(spec_mac_text(b).subrange(3 * k - 1, 17), Some(':'), k) == Some(
            b.subrange(k as int, 6),
        ),
    decreases 6 - k,
{
    let t = spec_mac_text(b);
    lemma_colon_form_chars(b);
    if k == 6 {
        assert(t.subrange(17, 17) =~= Seq::<char>::empty());
        assert(b.subrange(6, 6) =~= Seq::<u8>::empty());
    } else {
        let text = t.subrange(3 * k - 1, 17);
        let rest = text.drop_first();
        assert(rest =~= t.subrange(3 * k as int, 17));
        assert(rest.subrange(2, rest.len() as int) =~= t.subrange(3 * (k + 1) - 1, 17));
        lemma_parse_colon_form_from(b, k + 1);
        lemma_hex_value_of_digit(b[k as int] / 16);
        lemma_hex_value_of_digit(b[k as int] % 16);
        assert(((b[k as int] / 16) * 16 + b[k as int] % 16) as u8 == b[k as int]);
        assert(seq![b[k as int]] + b.subrange(k + 1 as int, 6) =~= b.subrange(k as int, 6));
    }
}

/// Where the characters of the colon form are.
proof fn lemma_colon_form_chars(b: Seq<u8>)
    requires
        b.len() == 6,
    ensures
        spec_mac_text(b).len() == 17,
        forall|k: int|
            0 <= k < 6 ==> spec_mac_text(b)[3 * k] == hex_digit(#[trigger] b[k] / 16) && spec_mac_text(
                b,
            )[3 * k + 1] == hex_digit(b[k] % 16),
        forall|k: int| 1 <= k < 6 ==> #[trigger] spec_mac_text(b)[3 * k - 1] == ':',
{
    let t = spec_mac_text(b);
    assert(t =~= seq![
        hex_digit(b[0] / 16), hex_digit(b[0] % 16), ':',
        hex_digit(b[1] / 16), hex_digit(b[1] % 16), ':',
        hex_digit(b[2] / 16), hex_digit(b[2] % 16), ':',
        hex_digit(b[3] / 16), hex_digit(b[3] % 16), ':',
        hex_digit(b[4] / 16), hex_digit(b[4] % 16), ':',
        hex_digit(b[5] / 16), hex_digit(b[5] % 16),
    ]);
}

/// The colon form of an address reads back as the address.
pub proof fn lemma_colon_form_parses(b: Seq<u8>)
    requires
        b.len() == 6,
    ensures
        parsed_mac_address(spec_mac_text(b)) == Some(b),
{
    let t = spec_mac_text(b);
    lemma_colon_form_chars(b);
    lemma_hex_value_of_digit(b[0] / 16);
    lemma_hex_value_of_digit(b[0] % 16);
    lemma_parse_colon_form_from(b, 1);
    let tail = t.subrange(2, 17);
    assert(t.subrange(2, t.len() as int) =~= tail);
    assert(tail[0] == ':');
    assert(spec_parse_mac(tail, None, 1) == spec_parse_mac(tail, Some(':'), 1));
    assert(!is_delimiter(t[0]));
    assert((((b[0] / 16) * 16 + b[0] % 16) as u8) == b[0]);
    assert(seq![b[0]] + b.subrange(1, 6) =~= b);
}

/// A text in colon form is read as the address whose colon form it is.
pub proof fn lemma_colon_form_text(text: Seq<char>)
    requires
        is_colon_form(text),
    ensures
        parsed_mac_address(text) matches Some(b) && b.len() == 6 && spec_mac_text(b) == text,
{
    let c = choose|c: Seq<u8>| c.len() == 6 && text == #[trigger] spec_mac_text(c);
    lemma_colon_form_parses(c);
}

proof fn lemma_hex_digit_injective(a: u8, b: u8)
    requires
        a < 16,
        b < 16,
        hex_digit(a) == hex_digit(b),
    ensures
        a == b,
{
}

/// Two addresses with the same text are the same address.
pub proof fn lemma_mac_text_injective(a: Seq<u8>, b: Seq<u8>)
    requires
        a.len() == 6,
        b.len() == 6,
        spec_mac_text(a) == spec_mac_text(b),
    ensures
        a == b,
{
    let ta = spec_mac_text(a);
    let tb = spec_mac_text(b);
    assert forall|k: int| 0 <= k < 6 implies a[k] == b[k] by {
        assert(ta[3 * k] == tb[3 * k]);
        assert(ta[3 * k + 1] == tb[3 * k + 1]);
        assert(ta[3 * k] == hex_digit(a[k] / 16));
        assert(tb[3 * k] == hex_digit(b[k] / 16));
        assert(ta[3 * k + 1] == hex_digit(a[k] % 16));
        assert(tb[3 * k + 1] == hex_digit(b[k] % 16));
        lemma_hex_digit_injective(a[k] / 16, b[k] / 16);
        lemma_hex_digit_injective(a[k] % 16, b[k] % 16);
    }
    assert(a =~= b);
}

impl MacAddress {
    pub fn new(bytes: [u8; 6]) -> (r: Self)
        ensures
            r@ == bytes@,
    {
        MacAddress { bytes }
    }

    /// The address in colon form, such as "AC:DE:48:23:45:67".
    pub fn text(&self) -> (r: String)
        ensures
            r@ == spec_mac_text(self@),
    {
        mac_address_text(self.bytes)
    }

    /// Whether two addresses are the same.
    pub fn same_as(&self, other: &MacAddress) -> (r: bool)
        ensures
            r == (self@ == other@),
    {
        let r = self.bytes[0] == other.bytes[0] && self.bytes[1] == other.bytes[1]
            && self.bytes[2] == other.bytes[2] && self.bytes[3] == other.bytes[3]
            && self.bytes[4] == other.bytes[4] && self.bytes[5] == other.bytes[5];
        if r {
            assert(self.bytes@ =~= other.bytes@);
        }
        r
    }
}

/// A host device that the earbuds know.
#[derive(Debug, Clone, PartialEq, Eq)]
pub struct DualConnectionsDevice {
    pub is_connected: bool,
    pub mac_address: MacAddress,
    pub name: String,
}

pub struct DualConnectionsDeviceView {
    pub is_connected: bool,
    pub mac_address: Seq<u8>,
    pub name: Seq<char>,
}

impl View for DualConnectionsDevice {
    type V = DualConnectionsDeviceView;

    open spec fn view(&self) -> DualConnectionsDeviceView {
        DualConnectionsDeviceView {
            is_connected: self.is_connected,
            mac_address: self.mac_address@,
            name: self.name@,
        }
    }
}

/// Whether dual connections are on, and the known hosts in the device's order.
#[derive(Debug, Clone, PartialEq, Eq)]
pub struct DualConnections {
    pub is_enabled: bool,
    pub devices: Vec<DualConnectionsDevice>,
}

pub struct DualConnectionsView {
    pub is_enabled: bool,
    pub devices: Seq<DualConnectionsDeviceView>,
}

impl View for DualConnections {
    type V = DualConnectionsView;

    open spec fn view(&self) -> DualConnectionsView {
        DualConnectionsView { is_enabled: self.is_enabled, devices: self.devices@.map_values(|d: DualConnectionsDevice| d@) }
    }
}

/// One packet of the device's list of known hosts, which may come in several.
#[derive(Debug, Clone, PartialEq, Eq)]
pub struct DualConnectionsDevicePacket {
    pub total_packets: u8,
    /// Counts from 1.
    pub current_packet_index: u8,
    pub devices: Vec<DualConnectionsDevice>,
}

fn clone_device(device: &DualConnectionsDevice) -> (r: DualConnectionsDevice)
    ensures
        r@ == device@,
{
    DualConnectionsDevice {
        is_connected: device.is_connected,
        mac_address: device.mac_address,
        name: device.name.clone(),
    }
}

/// Appends copies of `more` to `devices`.
fn extend_devices(devices: &mut Vec<DualConnectionsDevice>, more: &Vec<DualConnectionsDevice>)
    ensures
        final(devices)@.map_values(|d: DualConnectionsDevice| d@) == old(devices)@.map_values(
            |d: DualConnectionsDevice| d@,
        ) + more@.map_values(|d: DualConnectionsDevice| d@),
{
    let ghost start = devices@.map_values(|d: DualConnectionsDevice| d@);
    let mut i: usize = 0;
    while i < more.len()
        invariant
            i <= more@.len(),
            devices@.map_values(|d: DualConnectionsDevice| d@) == start + more@.subrange(
                0,
                i as int,
            ).map_values(|d: DualConnectionsDevice| d@),
        decreases more@.len() - i,
    {
        let ghost before = devices@.map_values(|d: DualConnectionsDevice| d@);
        devices.push(clone_device(&more[i]));
        assert(devices@.map_values(|d: DualConnectionsDevice| d@) =~= before.push(more@[i as int]@));
        assert(more@.subrange(0, i + 1).map_values(|d: DualConnectionsDevice| d@) =~= more@.subrange(
            0,
            i as int,
        ).map_values(|d: DualConnectionsDevice| d@).push(more@[i as int]@));
        i = i + 1;
        assert(devices@.map_values(|d: DualConnectionsDevice| d@) =~= start + more@.subrange(
            0,
            i as int,
        ).map_values(|d: DualConnectionsDevice| d@));
    }
    assert(more@.subrange(0, i as int) =~= more@);
}

/// Takes a packet of the host list into the state: the first packet starts the list anew,
/// each packet appends its hosts.
pub fn modify_state(dual_connections: &mut DualConnections, packet: DualConnectionsDevicePacket)
    ensures
        final(dual_connections).is_enabled == old(dual_connections).is_enabled,
        final(dual_connections)@.devices == (if packet.current_packet_index == 1 {
            Seq::<DualConnectionsDeviceView>::empty()
        } else {
            old(dual_connections)@.devices
        }) + packet.devices@.map_values(|d: DualConnectionsDevice| d@),
{
    if packet.current_packet_index == 1 {
        dual_connections.devices.clear();
        assert(dual_connections.devices@.map_values(|d: DualConnectionsDevice| d@)
            =~= Seq::<DualConnectionsDeviceView>::empty());
    }
    extend_devices(&mut dual_connections.devices, &packet.devices);
}

/// Applies host list packets to the state.
#[derive(Debug, Default, Clone, Copy)]
pub struct DualConnectionsDevicePacketHandler {}

impl DualConnectionsDevicePacketHandler {
    pub fn handle_packet(&self, dual_connections: &mut DualConnections, packet: DualConnectionsDevicePacket)
        ensures
            final(dual_connections).is_enabled == old(dual_connections).is_enabled,
            final(dual_connections)@.devices == (if packet.current_packet_index == 1 {
                Seq::<DualConnectionsDeviceView>::empty()
            } else {
                old(dual_connections)@.devices
            }) + packet.devices@.map_values(|d: DualConnectionsDevice| d@),
    {
        modify_state(dual_connections, packet);
    }
}

/// While the host list is requested: appends the hosts of one answer, or of none when the
/// answer could not be read. The result says whether more answers are to come: not after the
/// last packet of the list nor after an unreadable answer.
pub fn collect_dual_connection_devices(
    devices: &mut Vec<DualConnectionsDevice>,
    packet: Option<DualConnectionsDevicePacket>,
) -> (more: bool)
    ensures
        match packet {
            Some(p) => more == (p.current_packet_index != p.total_packets) && final(devices)@.map_values(
                |d: DualConnectionsDevice| d@,
            ) == old(devices)@.map_values(|d: DualConnectionsDevice| d@) + p.devices@.map_values(
                |d: DualConnectionsDevice| d@,
            ),
            None => !more && final(devices)@ == old(devices)@,
        },
{
    match packet {
        Some(p) => {
            extend_devices(devices, &p.devices);
            p.current_packet_index != p.total_packets
        },
        None => false,
    }
}

/// The settings of the dual connections module.
#[derive(Debug, Clone, Copy, PartialEq, Eq, Hash, Structural)]
pub enum DualConnectionsSetting {
    DualConnections,
    DualConnectionsDevices,
}

impl DualConnectionsSetting {
    pub open spec fn spec_from_setting_id(id: SettingId) -> Option<Self> {
        match id {
            SettingId::DualConnections => Some(DualConnectionsSetting::DualConnections),
            SettingId::DualConnectionsDevices => Some(DualConnectionsSetting::DualConnectionsDevices),
            _ => None,
        }
    }

    pub fn from_setting_id(id: SettingId) -> (r: Option<Self>)
        ensures
            r == Self::spec_from_setting_id(id),
    {
        match id {
            SettingId::DualConnections => Some(DualConnectionsSetting::DualConnections),
            SettingId::DualConnectionsDevices => Some(DualConnectionsSetting::DualConnectionsDevices),
            _ => None,
        }
    }
}

/// The addresses of the hosts, as text.
pub open spec fn spec_device_addresses(devices: Seq<DualConnectionsDeviceView>) -> Seq<Seq<char>> {
    devices.map_values(|d: DualConnectionsDeviceView| spec_mac_text(d.mac_address))
}

/// The names of the hosts.
pub open spec fn spec_device_names(devices: Seq<DualConnectionsDeviceView>) -> Seq<Seq<char>> {
    devices.map_values(|d: DualConnectionsDeviceView| d.name)
}

/// The addresses, as text, of the connected hosts, in order.
pub open spec fn spec_connected_addresses(devices: Seq<DualConnectionsDeviceView>) -> Seq<Seq<char>>
    decreases devices.len(),
{
    if devices.len() == 0 {
        seq![]
    } else {
        let rest = spec_connected_addresses(devices.drop_last());
        if devices.last().is_connected {
            rest.push(spec_mac_text(devices.last().mac_address))
        } else {
            rest
        }
    }
}

pub open spec fn spec_get_inner(dual_connections: DualConnectionsView, setting_id: SettingId) -> Option<
    SettingView,
> {
    match DualConnectionsSetting::spec_from_setting_id(setting_id) {
        Some(DualConnectionsSetting::DualConnections) => Some(
            SettingView::Toggle { value: dual_connections.is_enabled },
        ),
        Some(DualConnectionsSetting::DualConnectionsDevices) => Some(
            SettingView::MultiSelectWithRemove {
                options: spec_device_addresses(dual_connections.devices),
                labels: spec_device_names(dual_connections.devices),
                values: spec_connected_addresses(dual_connections.devices),
            },
        ),
        None => None,
    }
}

/// The on/off toggle, or the hosts as a select of addresses labelled with the hosts' names
/// whose chosen values are the connected hosts.
pub fn get_inner(dual_connections: &DualConnections, setting_id: &SettingId) -> (r: Option<Setting>)
    ensures
        match spec_get_inner(dual_connections@, *setting_id) {
            Some(v) => r matches Some(s) && s@ == v,
            None => r is None,
        },
{
    let setting = DualConnectionsSetting::from_setting_id(*setting_id)?;
    match setting {
        DualConnectionsSetting::DualConnections => Some(
            Setting::Toggle { value: dual_connections.is_enabled },
        ),
        DualConnectionsSetting::DualConnectionsDevices => {
            let devices = &dual_connections.devices;
            let ghost dv = dual_connections@.devices;
            let mut options: Vec<String> = Vec::new();
            let mut labels: Vec<String> = Vec::new();
            let mut values: Vec<String> = Vec::new();
            let mut i: usize = 0;
            while i < devices.len()
                invariant
                    i <= devices@.len(),
                    dv == devices@.map_values(|d: DualConnectionsDevice| d@),
                    options.deep_view() == spec_device_addresses(dv.subrange(0, i as int)),
                    labels.deep_view() == spec_device_names(dv.subrange(0, i as int)),
                    values.deep_view() == spec_connected_addresses(dv.subrange(0, i as int)),
                decreases devices@.len() - i,
            {
                let ghost prefix = dv.subrange(0, i as int);
                let ghost next = dv.subrange(0, i + 1);
                assert(next.drop_last() =~= prefix);
                assert(next =~= prefix.push(dv[i as int]));
                let ghost o = options.deep_view();
                let ghost l = labels.deep_view();
                let ghost v = values.deep_view();
                options.push(devices[i].mac_address.text());
                labels.push(devices[i].name.clone());
                assert(options.deep_view() =~= o.push(spec_mac_text(dv[i as int].mac_address)));
                assert(labels.deep_view() =~= l.push(dv[i as int].name));
                assert(spec_device_addresses(next) =~= spec_device_addresses(prefix).push(
                    spec_mac_text(dv[i as int].mac_address),
                ));
                assert(spec_device_names(next) =~= spec_device_names(prefix).push(dv[i as int].name));
                if devices[i].is_connected {
                    values.push(devices[i].mac_address.text());
                    assert(values.deep_view() =~= v.push(spec_mac_text(dv[i as int].mac_address)));
                }
                i = i + 1;
            }
            assert(dv.subrange(0, i as int) =~= dv);
            Some(
                Setting::MultiSelectWithRemove {
                    setting: Select { options },
                    labels,
                    values,
                },
            )
        },
    }
}

/// Index of the first host from `j` on with address `mac`.
pub open spec fn find_device(devices: Seq<DualConnectionsDeviceView>, mac: Seq<u8>, j: int) -> Option<int>
    decreases devices.len() - j,
{
    if j < 0 || j >= devices.len() {
        None
    } else if devices[j].mac_address == mac {
        Some(j)
    } else {
        find_device(devices, mac, j + 1)
    }
}

proof fn lemma_find_device_bounds(devices: Seq<DualConnectionsDeviceView>, mac: Seq<u8>, j: int)
    ensures
        find_device(devices, mac, j) matches Some(i) ==> j <= i < devices.len()
            && devices[i].mac_address == mac,
    decreases devices.len() - j,
{
    if 0 <= j < devices.len() && devices[j].mac_address != mac {
        lemma_find_device_bounds(devices, mac, j + 1);
    }
}

/// The hosts after removing the one a text names: the first host with that address, if the
/// text is an address and such a host exists; else the same hosts.
pub open spec fn spec_remove(devices: Seq<DualConnectionsDeviceView>, text: Seq<char>) -> Seq<
    DualConnectionsDeviceView,
> {
    match parsed_mac_address(text) {
        Some(mac) => match find_device(devices, mac, 0) {
            Some(i) => devices.remove(i),
            None => devices,
        },
        None => devices,
    }
}

fn position_of_device(devices: &Vec<DualConnectionsDevice>, mac: &MacAddress) -> (r: Option<usize>)
    ensures
        match r {
            Some(p) => find_device(devices@.map_values(|d: DualConnectionsDevice| d@), mac@, 0)
                == Some(p as int),
            None => find_device(devices@.map_values(|d: DualConnectionsDevice| d@), mac@, 0) is None,
        },
{
    let ghost dv = devices@.map_values(|d: DualConnectionsDevice| d@);
    let mut i: usize = 0;
    while i < devices.len()
        invariant
            i <= devices@.len(),
            dv == devices@.map_values(|d: DualConnectionsDevice| d@),
            find_device(dv, mac@, 0) == find_device(dv, mac@, i as int),
        decreases devices@.len() - i,
    {
        if devices[i].mac_address.same_as(mac) {
            return Some(i);
        }
        i = i + 1;
    }
    None
}

/// Forgets the host whose address `mac_address_str` gives. A text that is no address, or an
/// address of no known host, changes nothing.
pub fn handle_remove_command(dual_connections: &mut DualConnections, mac_address_str: &str)
    ensures
        final(dual_connections).is_enabled == old(dual_connections).is_enabled,
        final(dual_connections)@.devices == spec_remove(
            old(dual_connections)@.devices,
            mac_address_str@,
        ),
{
    let mac_address = match parse_mac_address(mac_address_str) {
        Ok(bytes) => MacAddress { bytes },
        Err(_) => {
            return ;
        },
    };
    let ghost dv = dual_connections@.devices;
    match position_of_device(&dual_connections.devices, &mac_address) {
        Some(index) => {
            proof {
                lemma_find_device_bounds(dv, mac_address@, 0);
            }
            dual_connections.devices.remove(index);
            assert(dual_connections@.devices =~= dv.remove(index as int));
        },
        None => {},
    }
}

/// Whether every text is an address.
pub open spec fn all_addresses(texts: Seq<Seq<char>>) -> bool {
    forall|i: int| 0 <= i < texts.len() ==> (#[trigger] parsed_mac_address(texts[i])) is Some
}

/// The addresses that the texts give.
pub open spec fn spec_addresses(texts: Seq<Seq<char>>) -> Seq<Seq<u8>> {
    texts.map_values(|t: Seq<char>| parsed_mac_address(t)->0)
}

/// The hosts with each one connected exactly when its address is among `wanted`.
pub open spec fn spec_with_connected(devices: Seq<DualConnectionsDeviceView>, wanted: Seq<Seq<u8>>) -> Seq<
    DualConnectionsDeviceView,
> {
    devices.map_values(
        |d: DualConnectionsDeviceView|
            DualConnectionsDeviceView { is_connected: wanted.contains(d.mac_address), ..d },
    )
}

/// Whether each text is an address in the colon form that the setting shows.
pub open spec fn all_in_colon_form(texts: Seq<Seq<char>>) -> bool {
    forall|i: int|
        0 <= i < texts.len() ==> is_colon_form(#[trigger] texts[i])
}

fn contains_address(addresses: &Vec<MacAddress>, mac: &MacAddress) -> (r: bool)
    ensures
        r == addresses@.map_values(|a: MacAddress| a@).contains(mac@),
{
    let ghost av = addresses@.map_values(|a: MacAddress| a@);
    let mut i: usize = 0;
    while i < addresses.len()
        invariant
            i <= addresses@.len(),
            av == addresses@.map_values(|a: MacAddress| a@),
            forall|k: int| 0 <= k < i ==> av[k] != mac@,
        decreases addresses@.len() - i,
    {
        if addresses[i].same_as(mac) {
            assert(av[i as int] == mac@);
            return true;
        }
        i = i + 1;
    }
    false
}

/// Connects exactly the hosts whose addresses the texts give, when they are at most two: dual
/// connections allow no more. More than two addresses change nothing; a text that is no address
/// is refused with the parser's error for the first such text, and changes nothing. Texts in the colon form that the setting shows are always
/// accepted, as the addresses they show.
pub fn handle_set_mac_addresses(
    dual_connections: &mut DualConnections,
    mac_address_strings: Vec<String>,
) -> (r: Result<(), SettingHandlerError>)
    ensures
        final(dual_connections).is_enabled == old(dual_connections).is_enabled,
        all_addresses(mac_address_strings.deep_view()) ==> (r is Ok && final(dual_connections)@.devices
            == (if mac_address_strings@.len() <= 2 {
            spec_with_connected(
                old(dual_connections)@.devices,
                spec_addresses(mac_address_strings.deep_view()),
            )
        } else {
            old(dual_connections)@.devices
        })),
        !all_addresses(mac_address_strings.deep_view()) ==> (r matches Err(
            SettingHandlerError::InvalidMacAddress(_),
        ) && final(dual_connections)@ == old(dual_connections)@),
        all_in_colon_form(mac_address_strings.deep_view()) ==> all_addresses(
            mac_address_strings.deep_view(),
        ) && forall|i: int|
            0 <= i < mac_address_strings@.len() ==> spec_mac_text(
                #[trigger] spec_addresses(mac_address_strings.deep_view())[i],
            ) == mac_address_strings.deep_view()[i],
{
    let ghost texts = mac_address_strings.deep_view();
    let mut desired: Vec<MacAddress> = Vec::new();
    let mut i: usize = 0;
    while i < mac_address_strings.len()
        invariant
            i <= mac_address_strings@.len(),
            texts == mac_address_strings.deep_view(),
            texts.len() == mac_address_strings@.len(),
            desired@.len() == i,
            forall|k: int| 0 <= k < i ==> parsed_mac_address(#[trigger] texts[k]) == Some(desired@[k]@),
            all_in_colon_form(texts) ==> forall|k: int|
                0 <= k < i ==> spec_mac_text(#[trigger] desired@[k]@) == texts[k],
        decreases mac_address_strings@.len() - i,
    {
        assert(texts[i as int] == mac_address_strings@[i as int]@);
        proof {
            if is_colon_form(texts[i as int]) {
                lemma_colon_form_text(texts[i as int]);
            }
        }
        match parse_mac_address(mac_address_strings[i].as_str()) {
            Ok(bytes) => {
                desired.push(MacAddress { bytes });
            },
            Err(e) => {
                assert(!all_addresses(texts));
                assert(all_in_colon_form(texts) ==> is_colon_form(texts[i as int]));
                return Err(SettingHandlerError::InvalidMacAddress(e));
            },
        }
        i = i + 1;
    }
    let ghost wanted = desired@.map_values(|a: MacAddress| a@);
    assert(wanted =~= spec_addresses(texts));
    if desired.len() <= 2 {
        let ghost dv = dual_connections@.devices;
        let ghost enabled = dual_connections.is_enabled;
        let mut j: usize = 0;
        while j < dual_connections.devices.len()
            invariant
                j <= dual_connections.devices@.len(),
                dv.len() == dual_connections.devices@.len(),
                dual_connections.is_enabled == enabled,
                wanted == desired@.map_values(|a: MacAddress| a@),
                forall|k: int|
                    0 <= k < j ==> (#[trigger] dual_connections.devices@[k])@ == spec_with_connected(dv, wanted)[k],
                forall|k: int|
                    j <= k < dv.len() ==> (#[trigger] dual_connections.devices@[k])@ == dv[k],
            decreases dual_connections.devices@.len() - j,
        {
            let connected = contains_address(&desired, &dual_connections.devices[j].mac_address);
            let mut device = clone_device(&dual_connections.devices[j]);
            device.is_connected = connected;
            dual_connections.devices.set(j, device);
            j = j + 1;
        }
        assert(dual_connections@.devices =~= spec_with_connected(dv, wanted));
    }
    Ok(())
}

pub open spec fn spec_set_devices(dual_connections: DualConnectionsView, value: Value) -> Result<
    DualConnectionsView,
    (),
> {
    match value {
        Value::MultiSelectWithRemoveCommand(MultiSelectWithRemoveCommand::Remove(mac)) => Ok(
            DualConnectionsView {
                devices: spec_remove(dual_connections.devices, mac@),
                ..dual_connections
            },
        ),
        Value::StringVec(texts) => if all_addresses(texts.deep_view()) {
            Ok(
                DualConnectionsView {
                    devices: if texts@.len() <= 2 {
                        spec_with_connected(
                            dual_connections.devices,
                            spec_addresses(texts.deep_view()),
                        )
                    } else {
                        dual_connections.devices
                    },
                    ..dual_connections
                },
            )
        } else {
            Err(())
        },
        _ => Err(()),
    }
}

/// Turns dual connections on or off with a `bool`; removes a host with a remove command, or
/// picks the connected hosts with a list of addresses.
pub fn set_inner(dual_connections: &mut DualConnections, setting_id: &SettingId, value: Value) -> (r:
    Result<(), SettingHandlerError>)
    requires
        DualConnectionsSetting::spec_from_setting_id(*setting_id) is Some,
    ensures
        match DualConnectionsSetting::spec_from_setting_id(*setting_id)->0 {
            DualConnectionsSetting::DualConnections => match value {
                Value::Bool(b) => r is Ok && final(dual_connections)@ == (DualConnectionsView {
                    is_enabled: b,
                    ..old(dual_connections)@
                }),
                _ => (r matches Err(e) && Value::is_wrong_type(e, ValueKind::Bool)) && final(dual_connections)@ == old(dual_connections)@,
            },
            DualConnectionsSetting::DualConnectionsDevices => match spec_set_devices(
                old(dual_connections)@,
                value,
            ) {
                Ok(v) => r is Ok && final(dual_connections)@ == v,
                Err(_) => r is Err && final(dual_connections)@ == old(dual_connections)@,
            },
        },
        DualConnectionsSetting::spec_from_setting_id(*setting_id) == Some(
            DualConnectionsSetting::DualConnectionsDevices,
        ) ==> match value {
            Value::StringVec(texts) => !all_addresses(texts.deep_view()) ==> (r matches Err(
                SettingHandlerError::InvalidMacAddress(_),
            )),
            Value::MultiSelectWithRemoveCommand(_) => true,
            _ => r matches Err(e) && Value::is_wrong_type(e, ValueKind::StringVec),
        },
{
    let setting = DualConnectionsSetting::from_setting_id(*setting_id).unwrap();
    match setting {
        DualConnectionsSetting::DualConnections => {
            let b = value.try_as_bool()?;
            dual_connections.is_enabled = b;
            Ok(())
        },
        DualConnectionsSetting::DualConnectionsDevices => match value {
            Value::MultiSelectWithRemoveCommand(MultiSelectWithRemoveCommand::Remove(mac_address)) => {
                handle_remove_command(dual_connections, mac_address.as_str());
                Ok(())
            },
            Value::StringVec(mac_address_strings) => {
                handle_set_mac_addresses(dual_connections, mac_address_strings)
            },
            _ => Err(
                SettingHandlerError::ValueError(
                    crate::settings::ValueError::WrongType {
                        expected: ValueKind::StringVec,
                        actual: value,
                    },
                ),
            ),
        },
    }
}

/// Shows and changes dual connections.
pub struct DualConnectionsSettingHandler {}

impl DualConnectionsSettingHandler {
    pub fn new() -> Self {
        DualConnectionsSettingHandler {}
    }

    pub fn settings(&self) -> (r: Vec<SettingId>)
        ensures
            r@ == seq![SettingId::DualConnections, SettingId::DualConnectionsDevices],
    {
        let r = vec![SettingId::DualConnections, SettingId::DualConnectionsDevices];
        assert(r@ =~= seq![SettingId::DualConnections, SettingId::DualConnectionsDevices]);
        r
    }

    pub fn get(&self, dual_connections: &DualConnections, setting_id: &SettingId) -> (r: Option<Setting>)
        ensures
            match spec_get_inner(dual_connections@, *setting_id) {
                Some(v) => r matches Some(s) && s@ == v,
                None => r is None,
            },
    {
        get_inner(dual_connections, setting_id)
    }

    pub fn set(&self, dual_connections: &mut DualConnections, setting_id: &SettingId, value: Value) -> (r:
        Result<(), SettingHandlerError>)
        requires
            DualConnectionsSetting::spec_from_setting_id(*setting_id) is Some,
        ensures
            match DualConnectionsSetting::spec_from_setting_id(*setting_id)->0 {
                DualConnectionsSetting::DualConnections => match value {
                    Value::Bool(b) => r is Ok && final(dual_connections)@ == (DualConnectionsView {
                        is_enabled: b,
                        ..old(dual_connections)@
                    }),
                    _ => (r matches Err(e) && Value::is_wrong_type(e, ValueKind::Bool))
                        && final(dual_connections)@ == old(dual_connections)@,
                },
                DualConnectionsSetting::DualConnectionsDevices => match spec_set_devices(
                    old(dual_connections)@,
                    value,
                ) {
                    Ok(v) => r is Ok && final(dual_connections)@ == v,
                    Err(_) => r is Err && final(dual_connections)@ == old(dual_connections)@,
                },
            },
    {
        set_inner(dual_connections, setting_id, value)
    }
}

/// The addresses of the hosts in `current` whose connection `target` changes to `connect`:
/// connected (or not) now, and the first target host of the same address not (or so).
pub open spec fn spec_connection_changes(
    current: Seq<DualConnectionsDeviceView>,
    target: Seq<DualConnectionsDeviceView>,
    connect: bool,
) -> Seq<Seq<u8>>
    decreases current.len(),
{
    if current.len() == 0 {
        seq![]
    } else {
        let rest = spec_connection_changes(current.drop_last(), target, connect);
        let d = current.last();
        match find_device(target, d.mac_address, 0) {
            Some(k) => if d.is_connected != connect && target[k].is_connected == connect {
                rest.push(d.mac_address)
            } else {
                rest
            },
            None => rest,
        }
    }
}

/// The value to send for the on/off switch: the target's, when both states have dual
/// connections data and they differ.
pub fn set_enabled(current: &Option<DualConnections>, target: &Option<DualConnections>) -> (r: Option<bool>)
    ensures
        r == (match (*current, *target) {
            (Some(c), Some(t)) => if c.is_enabled != t.is_enabled {
                Some(t.is_enabled)
            } else {
                None
            },
            _ => None,
        }),
{
    match (current, target) {
        (Some(c), Some(t)) => if c.is_enabled != t.is_enabled {
            Some(t.is_enabled)
        } else {
            None
        },
        _ => None,
    }
}

/// The hosts to disconnect and then those to connect, in the order of the current hosts.
/// Nothing when either state lacks dual connections data.
pub fn set_connected_devices(current: &Option<DualConnections>, target: &Option<DualConnections>) -> (r: (
    Vec<MacAddress>,
    Vec<MacAddress>,
))
    requires
        current.is_some() && target.is_some() ==> spec_connected_addresses(target->0@.devices).len() <= 2,
    ensures
        match (*current, *target) {
            (Some(c), Some(t)) => r.0@.map_values(|a: MacAddress| a@) == spec_connection_changes(
                c@.devices,
                t@.devices,
                false,
            ) && r.1@.map_values(|a: MacAddress| a@) == spec_connection_changes(
                c@.devices,
                t@.devices,
                true,
            ),
            _ => r.0@.len() == 0 && r.1@.len() == 0,
        },
{
    match (current, target) {
        (Some(c), Some(t)) => (changes(&c.devices, &t.devices, false), changes(&c.devices, &t.devices, true)),
        _ => (Vec::new(), Vec::new()),
    }
}

fn changes(current: &Vec<DualConnectionsDevice>, target: &Vec<DualConnectionsDevice>, connect: bool) -> (r: Vec<
    MacAddress,
>)
    ensures
        r@.map_values(|a: MacAddress| a@) == spec_connection_changes(
            current@.map_values(|d: DualConnectionsDevice| d@),
            target@.map_values(|d: DualConnectionsDevice| d@),
            connect,
        ),
{
    let ghost cv = current@.map_values(|d: DualConnectionsDevice| d@);
    let ghost tv = target@.map_values(|d: DualConnectionsDevice| d@);
    let mut r: Vec<MacAddress> = Vec::new();
    let mut i: usize = 0;
    while i < current.len()
        invariant
            i <= current@.len(),
            cv == current@.map_values(|d: DualConnectionsDevice| d@),
            tv == target@.map_values(|d: DualConnectionsDevice| d@),
            r@.map_values(|a: MacAddress| a@) == spec_connection_changes(
                cv.subrange(0, i as int),
                tv,
                connect,
            ),
        decreases current@.len() - i,
    {
        let ghost prefix = cv.subrange(0, i as int);
        let ghost next = cv.subrange(0, i + 1);
        assert(next.drop_last() =~= prefix);
        assert(next.last() == cv[i as int]);
        let ghost before = r@.map_values(|a: MacAddress| a@);
        let device = &current[i];
        match position_of_device(target, &device.mac_address) {
            Some(k) => {
                proof {
                    lemma_find_device_bounds(tv, device.mac_address@, 0);
                }
                if device.is_connected != connect && target[k].is_connected == connect {
                    r.push(device.mac_address);
                    assert(r@.map_values(|a: MacAddress| a@) =~= before.push(device.mac_address@));
                }
            },
            None => {},
        }
        i = i + 1;
    }
    assert(cv.subrange(0, i as int) =~= cv);
    r
}

/// What moving to a target takes: the on/off value to send, if any, then the hosts to
/// disconnect, then those to connect.
#[derive(Debug, Clone, PartialEq, Eq)]
pub struct DualConnectionsPlan {
    pub set_enabled: Option<bool>,
    pub disconnect: Vec<MacAddress>,
    pub connect: Vec<MacAddress>,
}

/// Moves dual connections to a target. `P` is the handle through which the caller sends
/// packets.
pub struct DualConnectionsStateModifier<P> {
    packet_io: P,
}

impl<P> DualConnectionsStateModifier<P> {
    pub closed spec fn spec_packet_io(&self) -> P {
        self.packet_io
    }

    pub fn new(packet_io: P) -> (r: Self)
        ensures
            r.spec_packet_io() == packet_io,
    {
        DualConnectionsStateModifier { packet_io }
    }

    pub fn packet_io(&self) -> (r: &P)
        ensures
            *r == self.spec_packet_io(),
    {
        &self.packet_io
    }

    pub fn plan(&self, current: &Option<DualConnections>, target: &Option<DualConnections>) -> (r:
        DualConnectionsPlan)
        requires
            current.is_some() && target.is_some() ==> spec_connected_addresses(target->0@.devices).len() <= 2,
        ensures
            match (*current, *target) {
                (Some(c), Some(t)) => r.set_enabled == (if c.is_enabled != t.is_enabled {
                    Some(t.is_enabled)
                } else {
                    None
                }) && r.disconnect@.map_values(|a: MacAddress| a@) == spec_connection_changes(
                    c@.devices,
                    t@.devices,
                    false,
                ) && r.connect@.map_values(|a: MacAddress| a@) == spec_connection_changes(
                    c@.devices,
                    t@.devices,
                    true,
                ),
                _ => r.set_enabled is None && r.disconnect@.len() == 0 && r.connect@.len() == 0,
            },
    {
        let set_enabled = set_enabled(current, target);
        let (disconnect, connect) = set_connected_devices(current, target);
        DualConnectionsPlan { set_enabled, disconnect, connect }
    }
}

} // verus!
