//! Device discovery: which USB devices and serial ports are displays, what
//! resolution they declare, and which one to bind.
use vstd::prelude::*;
use crate::protocol::{get_screen_size_from_serial_number, has_identity_prefix, screen_size_spec, PRODUCT_NAME, SERIAL_PREFIX};
use crate::text::{contains_seq, contains_str, dec_seq, decimal_string, starts_with, str_eq};

verus! {

/// A display found during discovery. For a raw USB device the address is its
/// bus address; for a serial device it is the port name.
#[derive(Debug, Clone)]
pub struct UsbScreenInfo {
    pub label: String,
    pub address: String,
    pub width: u16,
    pub height: u16,
}

pub struct UsbScreenInfoView {
    pub label: Seq<char>,
    pub address: Seq<char>,
    pub width: u16,
    pub height: u16,
}

impl View for UsbScreenInfo {
    type V = UsbScreenInfoView;

    open spec fn view(&self) -> UsbScreenInfoView {
        UsbScreenInfoView { label: self.label@, address: self.address@, width: self.width, height: self.height }
    }
}

/// What the USB stack reports of one device.
#[derive(Debug, Clone)]
pub struct UsbDeviceDescriptor {
    pub product: String,
    pub serial_number: String,
    pub device_address: u8,
}

/// What the OS reports of one serial port; USB ports carry a serial number.
#[derive(Debug, Clone)]
pub struct SerialPortDescriptor {
    pub port_name: String,
    pub serial_number: Option<String>,
}

/// The kind of transport a device is driven through.
#[derive(Debug, Clone, Copy, PartialEq, Eq, Structural)]
pub enum TransportKind {
    UsbRaw,
    UsbSerial,
}

pub open spec fn is_display_serial(sn: Seq<char>) -> bool {
    sn.len() >= 6 && sn.subrange(0, 6) == SERIAL_PREFIX@
}

/// The display a raw USB device is, if it is one.
pub open spec fn raw_screen_spec(d: UsbDeviceDescriptor) -> Option<UsbScreenInfoView> {
    if d.product@ == PRODUCT_NAME@ && is_display_serial(d.serial_number@) {
        let size = screen_size_spec(d.serial_number@);
        Some(UsbScreenInfoView {
            label: "USB Screen("@ + dec_seq(d.device_address as nat) + ")"@,
            address: dec_seq(d.device_address as nat),
            width: size.0,
            height: size.1,
        })
    } else {
        None
    }
}

/// The display a serial port is, if it is one.
pub open spec fn serial_screen_spec(p: SerialPortDescriptor) -> Option<UsbScreenInfoView> {
    match p.serial_number {
        Some(sn) => if is_display_serial(sn@) {
            let size = screen_size_spec(sn@);
            Some(UsbScreenInfoView { label: "USB "@ + p.port_name@, address: p.port_name@, width: size.0, height: size.1 })
        } else {
            None
        },
        None => None,
    }
}

pub open spec fn raw_screens_spec(s: Seq<UsbDeviceDescriptor>) -> Seq<UsbScreenInfoView>
    decreases s.len(),
{
    if s.len() == 0 {
        seq![]
    } else {
        raw_screens_spec(s.drop_last()) + match raw_screen_spec(s.last()) {
            Some(v) => seq![v],
            None => seq![],
        }
    }
}

pub open spec fn serial_screens_spec(s: Seq<SerialPortDescriptor>) -> Seq<UsbScreenInfoView>
    decreases s.len(),
{
    if s.len() == 0 {
        seq![]
    } else {
        serial_screens_spec(s.drop_last()) + match serial_screen_spec(s.last()) {
            Some(v) => seq![v],
            None => seq![],
        }
    }
}

proof fn lemma_prefix_ok(sn: Seq<char>)
    requires
        is_display_serial(sn),
    ensures
        has_identity_prefix(sn),
{
    reveal_strlit("USBSCR");
    assert forall|k: int| 0 <= k < 6 implies sn[k] != ';' by {
        assert(sn.subrange(0, 6)[k] == sn[k]);
    }
}

/// The display a raw USB device is: product "USB Screen" and a serial number
/// with the display prefix; the label and address name its bus address.
pub fn usb_raw_screen_info(d: &UsbDeviceDescriptor) -> (r: Option<UsbScreenInfo>)
    ensures
        match r {
            Some(i) => raw_screen_spec(*d) == Some(i@),
            None => raw_screen_spec(*d) is None,
        },
{
    proof { reveal_strlit("USBSCR"); }
    if !(str_eq(d.product.as_str(), PRODUCT_NAME) && starts_with(d.serial_number.as_str(), SERIAL_PREFIX)) {
        return None;
    }
    proof { lemma_prefix_ok(d.serial_number@); }
    let (width, height) = get_screen_size_from_serial_number(d.serial_number.as_str());
    let addr = decimal_string(d.device_address as u128);
    let mut label = String::from_str("USB Screen(");
    label.append(addr.as_str());
    label.append(")");
    Some(UsbScreenInfo { label, address: addr, width, height })
}

/// The display a serial port is: a USB port whose serial number has the display prefix.
pub fn serial_screen_info(p: &SerialPortDescriptor) -> (r: Option<UsbScreenInfo>)
    ensures
        match r {
            Some(i) => serial_screen_spec(*p) == Some(i@),
            None => serial_screen_spec(*p) is None,
        },
{
    proof { reveal_strlit("USBSCR"); }
    match &p.serial_number {
        None => None,
        Some(sn) => {
            if !starts_with(sn.as_str(), SERIAL_PREFIX) {
                return None;
            }
            proof { lemma_prefix_ok(sn@); }
            let (width, height) = get_screen_size_from_serial_number(sn.as_str());
            let mut label = String::from_str("USB ");
            label.append(p.port_name.as_str());
            Some(UsbScreenInfo { label, address: p.port_name.clone(), width, height })
        },
    }
}

pub open spec fn views_of(s: Seq<UsbScreenInfo>) -> Seq<UsbScreenInfoView> {
    s.map_values(|i: UsbScreenInfo| i@)
}

/// All displays among the candidates: raw USB devices first, then serial
/// ports, each in the order given.
#[verifier::rlimit(60)]
pub fn find_all_device(raw: &Vec<UsbDeviceDescriptor>, ports: &Vec<SerialPortDescriptor>) -> (r: Vec<UsbScreenInfo>)
    ensures
        views_of(r@) == raw_screens_spec(raw@) + serial_screens_spec(ports@),
{
    let mut out: Vec<UsbScreenInfo> = Vec::new();
    let mut i: usize = 0;
    while i < raw.len()
        invariant
            i <= raw@.len(),
            views_of(out@) == raw_screens_spec(raw@.subrange(0, i as int)),
        decreases raw@.len() - i,
    {
        let found = usb_raw_screen_info(&raw[i]);
        proof {
            assert(raw@.subrange(0, i as int + 1).drop_last() =~= raw@.subrange(0, i as int));
            assert(raw@.subrange(0, i as int + 1).last() == raw@[i as int]);
        }
        match found {
            Some(info) => {
                out.push(info);
                assert(views_of(out@) =~= raw_screens_spec(raw@.subrange(0, i as int + 1)));
            },
            None => {
                assert(views_of(out@) =~= raw_screens_spec(raw@.subrange(0, i as int + 1)));
            },
        }
        i = i + 1;
    }
    assert(raw@.subrange(0, raw@.len() as int) =~= raw@);
    let ghost base = views_of(out@);
    let mut j: usize = 0;
    while j < ports.len()
        invariant
            j <= ports@.len(),
            base == raw_screens_spec(raw@),
            views_of(out@) == base + serial_screens_spec(ports@.subrange(0, j as int)),
        decreases ports@.len() - j,
    {
        let found = serial_screen_info(&ports[j]);
        proof {
            assert(ports@.subrange(0, j as int + 1).drop_last() =~= ports@.subrange(0, j as int));
            assert(ports@.subrange(0, j as int + 1).last() == ports@[j as int]);
        }
        match found {
            Some(info) => {
                let ghost old_out = out@;
                out.push(info);
                assert(serial_screen_spec(ports@[j as int]) == Some(info@));
                assert(serial_screens_spec(ports@.subrange(0, j as int + 1)) == serial_screens_spec(ports@.subrange(0, j as int)) + seq![info@]);
                assert(views_of(out@) =~= views_of(old_out) + seq![info@]);
                assert(views_of(out@) =~= base + serial_screens_spec(ports@.subrange(0, j as int + 1)));
            },
            None => {
                assert(views_of(out@) =~= base + serial_screens_spec(ports@.subrange(0, j as int + 1)));
            },
        }
        j = j + 1;
    }
    assert(ports@.subrange(0, ports@.len() as int) =~= ports@);
    out
}

/// Which device to bind: the one with the current label, else the first, else none.
pub fn choose_device(devices: &Vec<UsbScreenInfo>, current_label: &str) -> (r: Option<usize>)
    ensures
        devices@.len() == 0 ==> r is None,
        (exists|k: int| 0 <= k < devices@.len() && devices@[k].label@ == current_label@) ==> r is Some
            && devices@[r->Some_0 as int].label@ == current_label@
            && forall|k: int| 0 <= k < r->Some_0 ==> devices@[k].label@ != current_label@,
        devices@.len() > 0 && !(exists|k: int| 0 <= k < devices@.len() && devices@[k].label@ == current_label@) ==> r == Some(0usize),
{
    let mut i: usize = 0;
    while i < devices.len()
        invariant
            i <= devices@.len(),
            forall|k: int| 0 <= k < i ==> devices@[k].label@ != current_label@,
        decreases devices@.len() - i,
    {
        if str_eq(devices[i].label.as_str(), current_label) {
            return Some(i);
        }
        i = i + 1;
    }
    if devices.len() > 0 { Some(0) } else { None }
}

/// Raw USB displays are labelled with the product name; others are serial ports.
pub fn transport_kind(info: &UsbScreenInfo) -> (r: TransportKind)
    ensures
        r == (if contains_seq(info.label@, "Screen"@) { TransportKind::UsbRaw } else { TransportKind::UsbSerial }),
{
    if contains_str(info.label.as_str(), "Screen") {
        TransportKind::UsbRaw
    } else {
        TransportKind::UsbSerial
    }
}

/// The display currently bound, if any.
pub enum BoundScreen {
    Nothing,
    Usb(UsbScreenInfo),
    WiFi(String),
}

/// What to do with a discovered or selected device.
#[derive(Debug, Clone, Copy, PartialEq, Eq, Structural)]
pub enum BindAction {
    /// Leave the current session alone.
    Keep,
    /// Open the device and make it the session.
    Open,
    /// Disconnect the WiFi display first, then open the device.
    CloseWifiThenOpen,
}

/// Periodic discovery: never disturb a WiFi session or the device already bound.
pub fn auto_bind_action(current: &BoundScreen, dev: &UsbScreenInfo) -> (r: BindAction)
    ensures
        r == match current {
            BoundScreen::WiFi(_) => BindAction::Keep,
            BoundScreen::Usb(s) => if s.label@ == dev.label@ { BindAction::Keep } else { BindAction::Open },
            BoundScreen::Nothing => BindAction::Open,
        },
{
    match current {
        BoundScreen::WiFi(_) => BindAction::Keep,
        BoundScreen::Usb(s) => if str_eq(s.label.as_str(), dev.label.as_str()) { BindAction::Keep } else { BindAction::Open },
        BoundScreen::Nothing => BindAction::Open,
    }
}

/// A device picked by the user: a WiFi session is torn down first; the bound device is kept.
pub fn select_device_action(current: &BoundScreen, dev: &UsbScreenInfo) -> (r: BindAction)
    ensures
        r == match current {
            BoundScreen::WiFi(_) => BindAction::CloseWifiThenOpen,
            BoundScreen::Usb(s) => if s.label@ == dev.label@ { BindAction::Keep } else { BindAction::Open },
            BoundScreen::Nothing => BindAction::Open,
        },
{
    match current {
        BoundScreen::WiFi(_) => BindAction::CloseWifiThenOpen,
        BoundScreen::Usb(s) => if str_eq(s.label.as_str(), dev.label.as_str()) { BindAction::Keep } else { BindAction::Open },
        BoundScreen::Nothing => BindAction::Open,
    }
}

/// A serial port is probed with the self-identify opcode when it reports no
/// serial number and is not the port already bound (probing would disturb it).
pub fn should_probe(port: &SerialPortDescriptor, bound_address: Option<&str>) -> (r: bool)
    ensures
        r == (port.serial_number is None && match bound_address {
            Some(b) => port.port_name@ != b@,
            None => true,
        }),
{
    if port.serial_number.is_some() {
        return false;
    }
    match bound_address {
        Some(b) => !str_eq(port.port_name.as_str(), b),
        None => true,
    }
}

/// The bytes sent to ask an unclaimed port for its identity.
pub fn identify_request() -> (r: Vec<u8>)
    ensures
        r@ == crate::protocol::u64_be(crate::protocol::BOOT_USB),
{
    crate::protocol::u64_to_be_bytes(crate::protocol::BOOT_USB)
}

/// The port as described by the identity it replied with.
pub fn with_identity(port: &SerialPortDescriptor, reply: String) -> (r: SerialPortDescriptor)
    ensures
        r.port_name == port.port_name,
        r.serial_number == Some(reply),
{
    SerialPortDescriptor { port_name: port.port_name.clone(), serial_number: Some(reply) }
}

} // verus!
