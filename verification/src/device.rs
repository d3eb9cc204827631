//! Devices on serial ports: which are there, how they are named, what they send.

pub mod connection;
pub mod dec;
pub mod retry;
pub mod stream;
pub mod switch;
pub mod transport;

use vstd::prelude::*;
use vstd::string::*;

verus! {

/// The USB vendor number of Arduino.
pub const ARDUINO_VENDOR_ID: u16 = 9025;

/// What USB tells of the device behind a serial port.
#[derive(Clone, Debug, PartialEq, Eq)]
pub struct UsbPortInfo {
    /// Vendor number.
    pub vid: u16,
    /// Product number.
    pub pid: u16,
    /// Serial number, where the device has one.
    pub serial_number: Option<String>,
    /// Name of the maker, where the device gives one.
    pub manufacturer: Option<String>,
    /// Name of the product, where the device gives one.
    pub product: Option<String>,
}

/// How a serial port is attached to the computer.
#[derive(Clone, Debug, PartialEq, Eq)]
pub enum SerialPortType {
    /// Over USB.
    UsbPort(UsbPortInfo),
    /// Over PCI.
    PciPort,
    /// Over Bluetooth.
    BluetoothPort,
    /// In a way that could not be found out.
    Unknown,
}

/// One serial port as the system lists it.
#[derive(Clone, Debug, PartialEq, Eq)]
pub struct SerialPortInfo {
    /// Name of the port.
    pub port_name: String,
    /// How the port is attached.
    pub port_type: SerialPortType,
}

/// A device on a serial port that is there to be connected to.
#[derive(Clone, Debug, PartialEq, Eq)]
pub struct AvailableDeviceInfo {
    /// Name of the port.
    pub port_name: String,
    /// What USB tells of the device.
    pub usb_port_info: UsbPortInfo,
    /// Identifier of the device, made of what USB tells of it.
    pub device_id: String,
}

/// The characters of a text that may be missing.
pub open spec fn text_view(text: Option<String>) -> Option<Seq<char>> {
    match text {
        Some(text) => Some(text@),
        None => None,
    }
}

/// `UsbPortInfo` with its texts as sequences of characters.
pub struct UsbPortInfoView {
    pub vid: u16,
    pub pid: u16,
    pub serial_number: Option<Seq<char>>,
    pub manufacturer: Option<Seq<char>>,
    pub product: Option<Seq<char>>,
}

impl View for UsbPortInfo {
    type V = UsbPortInfoView;

    open spec fn view(&self) -> UsbPortInfoView {
        UsbPortInfoView {
            vid: self.vid,
            pid: self.pid,
            serial_number: text_view(self.serial_number),
            manufacturer: text_view(self.manufacturer),
            product: text_view(self.product),
        }
    }
}

/// `SerialPortType` with its texts as sequences of characters.
pub enum SerialPortTypeView {
    UsbPort(UsbPortInfoView),
    PciPort,
    BluetoothPort,
    Unknown,
}

impl View for SerialPortType {
    type V = SerialPortTypeView;

    open spec fn view(&self) -> SerialPortTypeView {
        match self {
            SerialPortType::UsbPort(info) => SerialPortTypeView::UsbPort(info@),
            SerialPortType::PciPort => SerialPortTypeView::PciPort,
            SerialPortType::BluetoothPort => SerialPortTypeView::BluetoothPort,
            SerialPortType::Unknown => SerialPortTypeView::Unknown,
        }
    }
}

/// `SerialPortInfo` with its texts as sequences of characters.
pub struct SerialPortInfoView {
    pub port_name: Seq<char>,
    pub port_type: SerialPortTypeView,
}

impl View for SerialPortInfo {
    type V = SerialPortInfoView;

    open spec fn view(&self) -> SerialPortInfoView {
        SerialPortInfoView { port_name: self.port_name@, port_type: self.port_type@ }
    }
}

/// `AvailableDeviceInfo` with its texts as sequences of characters.
pub struct AvailableDeviceInfoView {
    pub port_name: Seq<char>,
    pub usb_port_info: UsbPortInfoView,
    pub device_id: Seq<char>,
}

impl View for AvailableDeviceInfo {
    type V = AvailableDeviceInfoView;

    open spec fn view(&self) -> AvailableDeviceInfoView {
        AvailableDeviceInfoView {
            port_name: self.port_name@,
            usb_port_info: self.usb_port_info@,
            device_id: self.device_id@,
        }
    }
}

/// The digits of base sixteen, upper case.
pub open spec fn hex_digits() -> Seq<char> {
    seq!['0', '1', '2', '3', '4', '5', '6', '7', '8', '9', 'A', 'B', 'C', 'D', 'E', 'F']
}

/// `value` in base sixteen: four digits, upper case, with zeros in front.
pub open spec fn hex4(value: u16) -> Seq<char> {
    seq![
        hex_digits()[value as int / 4096],
        hex_digits()[value as int / 256 % 16],
        hex_digits()[value as int / 16 % 16],
        hex_digits()[value as int % 16],
    ]
}

/// The identifier of a device: vendor and product number in base sixteen
/// with a hyphen between them, and behind these, where the device has a
/// serial number, a hyphen and the serial number.
pub open spec fn device_id(vid: u16, pid: u16, serial_number: Option<Seq<char>>) -> Seq<char> {
    let numbers = hex4(vid) + seq!['-'] + hex4(pid);
    match serial_number {
        Some(serial_number) => numbers + seq!['-'] + serial_number,
        None => numbers,
    }
}

/// The digit of base sixteen for `value`.
fn hex_digit(value: u16) -> (digit: &'static str)
    requires
        value < 16,
    ensures
        digit@ == seq![hex_digits()[value as int]],
{
    proof {
        reveal_strlit("0");
        reveal_strlit("1");
        reveal_strlit("2");
        reveal_strlit("3");
        reveal_strlit("4");
        reveal_strlit("5");
        reveal_strlit("6");
        reveal_strlit("7");
        reveal_strlit("8");
        reveal_strlit("9");
        reveal_strlit("A");
        reveal_strlit("B");
        reveal_strlit("C");
        reveal_strlit("D");
        reveal_strlit("E");
        reveal_strlit("F");
    }
    let digit = match value {
        0 => "0",
        1 => "1",
        2 => "2",
        3 => "3",
        4 => "4",
        5 => "5",
        6 => "6",
        7 => "7",
        8 => "8",
        9 => "9",
        10 => "A",
        11 => "B",
        12 => "C",
        13 => "D",
        14 => "E",
        _ => "F",
    };
    assert(digit@ =~= seq![hex_digits()[value as int]]);
    digit
}

/// Adds `value` to `text` in base sixteen: four digits, upper case, with
/// zeros in front.
fn push_hex4(text: &mut String, value: u16)
    ensures
        final(text)@ == old(text)@ + hex4(value),
{
    text.append(hex_digit(value / 4096));
    text.append(hex_digit(value / 256 % 16));
    text.append(hex_digit(value / 16 % 16));
    text.append(hex_digit(value % 16));
    assert(text@ =~= old(text)@ + hex4(value));
}

/// Makes the identifier of a device from the numbers that its hardware
/// carries.
pub fn make_device_id(port_info: &UsbPortInfo) -> (id: String)
    ensures
        id@ == device_id(port_info.vid, port_info.pid, text_view(port_info.serial_number)),
{
    proof {
        reveal_strlit("-");
    }
    let mut id = String::new();
    push_hex4(&mut id, port_info.vid);
    id.append("-");
    push_hex4(&mut id, port_info.pid);
    if let Some(serial_number) = &port_info.serial_number {
        id.append("-");
        id.append(serial_number.as_str());
    }
    assert(id@ =~= device_id(port_info.vid, port_info.pid, text_view(port_info.serial_number)));
    id
}

/// The views of `ports`, one for one.
pub open spec fn port_views(ports: Seq<SerialPortInfo>) -> Seq<SerialPortInfoView> {
    ports.map_values(|port: SerialPortInfo| port@)
}

/// The views of `devices`, one for one.
pub open spec fn device_views(devices: Seq<AvailableDeviceInfo>) -> Seq<AvailableDeviceInfoView> {
    devices.map_values(|device: AvailableDeviceInfo| device@)
}

/// Whether `port` is attached over USB.
pub open spec fn is_usb(port: SerialPortInfoView) -> bool {
    port.port_type is UsbPort
}

/// The device on `port`, which is attached over USB: the name of the port,
/// what USB tells of the device, and the identifier made of that.
pub open spec fn device_on(port: SerialPortInfoView) -> AvailableDeviceInfoView
    recommends
        is_usb(port),
{
    let usb = port.port_type->UsbPort_0;
    AvailableDeviceInfoView {
        port_name: port.port_name,
        usb_port_info: usb,
        device_id: device_id(usb.vid, usb.pid, usb.serial_number),
    }
}

/// The devices on those of `ports` that are attached over USB, in the order
/// of `ports`.
pub open spec fn usb_devices(ports: Seq<SerialPortInfoView>) -> Seq<AvailableDeviceInfoView> {
    ports.filter(|port: SerialPortInfoView| is_usb(port)).map_values(
        |port: SerialPortInfoView| device_on(port),
    )
}

/// What a listing of the serial ports holds: its ports, or none where the
/// listing failed.
pub open spec fn listed_ports(listing: Option<Vec<SerialPortInfo>>) -> Seq<SerialPortInfoView> {
    match listing {
        Some(ports) => port_views(ports@),
        None => Seq::empty(),
    }
}

/// Whether `device` carries the vendor number of Arduino.
pub open spec fn is_arduino(device: AvailableDeviceInfoView) -> bool {
    device.usb_port_info.vid == ARDUINO_VENDOR_ID
}

/// Those of `devices` that carry the vendor number of Arduino, in the order
/// of `devices`.
pub open spec fn arduino_devices(devices: Seq<AvailableDeviceInfoView>) -> Seq<
    AvailableDeviceInfoView,
> {
    devices.filter(|device: AvailableDeviceInfoView| is_arduino(device))
}

/// The devices that can be connected to, from a listing of the serial ports
/// of the system: one for each port that is attached over USB, in the order of
/// the listing. A listing that failed, handed over as `None`, gives no device.
pub fn available_list(listing: Option<Vec<SerialPortInfo>>) -> (devices: Vec<AvailableDeviceInfo>)
    ensures
        device_views(devices@) == usb_devices(listed_ports(listing)),
{
    let mut devices: Vec<AvailableDeviceInfo> = Vec::new();
    let ports = match listing {
        Some(ports) => ports,
        None => Vec::new(),
    };
    let ghost all = port_views(ports@);
    proof {
        reveal(Seq::filter);
        assert(all.take(0) =~= Seq::<SerialPortInfoView>::empty());
        assert(device_views(devices@) =~= usb_devices(all.take(0)));
    }
    for port in it: ports
        invariant
            all == port_views(it.seq()),
            device_views(devices@) == usb_devices(all.take(it.index() as int)),
    {
        proof {
            lemma_usb_devices_push(all.take(it.index() as int), port@);
            assert(all.take(it.index() + 1) =~= all.take(it.index() as int).push(port@));
        }
        let ghost done = devices@;
        let SerialPortInfo { port_name, port_type } = port;
        match port_type {
            SerialPortType::UsbPort(usb_port_info) => {
                let device_id = make_device_id(&usb_port_info);
                devices.push(AvailableDeviceInfo { port_name, usb_port_info, device_id });
                assert(device_views(devices@) =~= device_views(done).push(device_on(port@)));
            },
            _ => {},
        }
    }
    proof {
        assert(all.take(all.len() as int) =~= all);
    }
    devices
}

/// What one more port adds to the devices of a listing.
proof fn lemma_usb_devices_push(ports: Seq<SerialPortInfoView>, port: SerialPortInfoView)
    ensures
        usb_devices(ports.push(port)) == if is_usb(port) {
            usb_devices(ports).push(device_on(port))
        } else {
            usb_devices(ports)
        },
{
    reveal(Seq::filter);
    assert(ports.push(port).drop_last() =~= ports);
    if is_usb(port) {
        assert(usb_devices(ports.push(port)) =~= usb_devices(ports).push(device_on(port)));
    }
}

/// A list of devices that can be narrowed to the Arduino boards in it.
pub trait AvailableDeviceInfoList: Sized {
    /// The devices of the list, in order.
    spec fn listed(&self) -> Seq<AvailableDeviceInfoView>;

    /// Keeps the devices that carry the vendor number of Arduino, in the
    /// order they had, and drops the others.
    fn arduino_only(self) -> (kept: Vec<AvailableDeviceInfo>)
        ensures
            device_views(kept@) == arduino_devices(self.listed()),
    ;
}

impl AvailableDeviceInfoList for Vec<AvailableDeviceInfo> {
    open spec fn listed(&self) -> Seq<AvailableDeviceInfoView> {
        device_views(self@)
    }

    fn arduino_only(self) -> (kept: Vec<AvailableDeviceInfo>) {
        let mut kept: Vec<AvailableDeviceInfo> = Vec::new();
        let ghost all = device_views(self@);
        proof {
            reveal(Seq::filter);
            assert(all.take(0) =~= Seq::<AvailableDeviceInfoView>::empty());
            assert(device_views(kept@) =~= arduino_devices(all.take(0)));
        }
        for device in it: self
            invariant
                all == device_views(it.seq()),
                device_views(kept@) == arduino_devices(all.take(it.index() as int)),
        {
            proof {
                reveal(Seq::filter);
                assert(all.take(it.index() + 1).drop_last() =~= all.take(it.index() as int));
            }
            let ghost done = kept@;
            if device.usb_port_info.vid == ARDUINO_VENDOR_ID {
                kept.push(device);
                assert(device_views(kept@) =~= device_views(done).push(device@));
            }
        }
        proof {
            assert(all.take(all.len() as int) =~= all);
        }
        kept
    }
}

} // verus!
