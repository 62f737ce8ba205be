use vstd::prelude::*;
use vstd::string::{StringExecFns, StrSliceExecFns};
use vstd::utf8::encode_utf8;

verus! {

/// The identity record of an attached USB device, as the platform
/// enumeration collaborator supplies it: ids, descriptor strings, and the
/// platform's location hint and sysfs path where it has them.
#[derive(Debug)]
pub struct UsbDevice {
    pub vendor_id: u16,
    pub product_id: u16,
    pub vendor_string: String,
    pub product_string: String,
    pub serial_number: String,
    pub location_id: Option<i64>,
    pub path: Option<String>,
}

/// What the outside digest is taken over: the vendor, product and serial
/// descriptor strings, UTF-8 encoded and concatenated.
pub open spec fn spec_identity_bytes(d: &UsbDevice) -> Seq<u8> {
    encode_utf8(d.vendor_string@) + encode_utf8(d.product_string@) + encode_utf8(
        d.serial_number@,
    )
}

/// What the outside hash returns for given bytes: their SHA-1 digest,
/// written as 40 hex characters.
pub uninterp spec fn sha1_hex_of(bytes: Seq<u8>) -> Seq<char>;

/// Relies on sha1::Sha1 (new, update, digest) and on Digest's hex
/// formatting: the digest depends on the input bytes alone and prints as
/// exactly 40 hex characters (five words, eight digits each).
#[verifier::external_body]
fn sha1_hex(data: &[u8]) -> (r: String)
    ensures
        r@ == sha1_hex_of(data@),
        r@.len() == 40,
{
    let mut h = sha1::Sha1::new();
    h.update(data);
    h.digest().to_string()
}

impl UsbDevice {
    /// The device's stable identity: the SHA-1 digest of its descriptor
    /// strings, as 40 hex characters.
    pub fn hash(&self) -> (r: String)
        ensures
            r@ == sha1_hex_of(spec_identity_bytes(self)),
            r@.len() == 40,
    {
        let mut data: Vec<u8> = Vec::new();
        data.extend_from_slice(self.vendor_string.as_str().as_bytes());
        data.extend_from_slice(self.product_string.as_str().as_bytes());
        data.extend_from_slice(self.serial_number.as_str().as_bytes());
        proof {
            assert(data@ =~= spec_identity_bytes(self));
        }
        sha1_hex(data.as_slice())
    }
}

/// `prefix` followed by the serial number; the shape shared by most of the
/// per-device debugger-selection strings.
fn prefixed(prefix: &str, serial: &String) -> (r: String)
    ensures
        r@ == prefix@ + serial@,
{
    let mut out = String::from_str(prefix);
    out.append(serial.as_str());
    out
}

/// The hex digit (upper case) for a value below 16.
pub open spec fn spec_hex_upper(n: u8) -> char {
    if n == 0 {
        '0'
    } else if n == 1 {
        '1'
    } else if n == 2 {
        '2'
    } else if n == 3 {
        '3'
    } else if n == 4 {
        '4'
    } else if n == 5 {
        '5'
    } else if n == 6 {
        '6'
    } else if n == 7 {
        '7'
    } else if n == 8 {
        '8'
    } else if n == 9 {
        '9'
    } else if n == 10 {
        'A'
    } else if n == 11 {
        'B'
    } else if n == 12 {
        'C'
    } else if n == 13 {
        'D'
    } else if n == 14 {
        'E'
    } else {
        'F'
    }
}

fn hex_upper_str(n: u8) -> (r: &'static str)
    requires
        n < 16,
    ensures
        r@ == seq![spec_hex_upper(n)],
{
    if n == 0 {
        let s = "0";
        proof {
            reveal_strlit("0");
            assert(s@ =~= seq![spec_hex_upper(n)]);
        }
        s
    } else if n == 1 {
        let s = "1";
        proof {
            reveal_strlit("1");
            assert(s@ =~= seq![spec_hex_upper(n)]);
        }
        s
    } else if n == 2 {
        let s = "2";
        proof {
            reveal_strlit("2");
            assert(s@ =~= seq![spec_hex_upper(n)]);
        }
        s
    } else if n == 3 {
        let s = "3";
        proof {
            reveal_strlit("3");
            assert(s@ =~= seq![spec_hex_upper(n)]);
        }
        s
    } else if n == 4 {
        let s = "4";
        proof {
            reveal_strlit("4");
            assert(s@ =~= seq![spec_hex_upper(n)]);
        }
        s
    } else if n == 5 {
        let s = "5";
        proof {
            reveal_strlit("5");
            assert(s@ =~= seq![spec_hex_upper(n)]);
        }
        s
    } else if n == 6 {
        let s = "6";
        proof {
            reveal_strlit("6");
            assert(s@ =~= seq![spec_hex_upper(n)]);
        }
        s
    } else if n == 7 {
        let s = "7";
        proof {
            reveal_strlit("7");
            assert(s@ =~= seq![spec_hex_upper(n)]);
        }
        s
    } else if n == 8 {
        let s = "8";
        proof {
            reveal_strlit("8");
            assert(s@ =~= seq![spec_hex_upper(n)]);
        }
        s
    } else if n == 9 {
        let s = "9";
        proof {
            reveal_strlit("9");
            assert(s@ =~= seq![spec_hex_upper(n)]);
        }
        s
    } else if n == 10 {
        let s = "A";
        proof {
            reveal_strlit("A");
            assert(s@ =~= seq![spec_hex_upper(n)]);
        }
        s
    } else if n == 11 {
        let s = "B";
        proof {
            reveal_strlit("B");
            assert(s@ =~= seq![spec_hex_upper(n)]);
        }
        s
    } else if n == 12 {
        let s = "C";
        proof {
            reveal_strlit("C");
            assert(s@ =~= seq![spec_hex_upper(n)]);
        }
        s
    } else if n == 13 {
        let s = "D";
        proof {
            reveal_strlit("D");
            assert(s@ =~= seq![spec_hex_upper(n)]);
        }
        s
    } else if n == 14 {
        let s = "E";
        proof {
            reveal_strlit("E");
            assert(s@ =~= seq![spec_hex_upper(n)]);
        }
        s
    } else {
        let s = "F";
        proof {
            reveal_strlit("F");
            assert(s@ =~= seq![spec_hex_upper(n)]);
        }
        s
    }
}

/// How one serial-number character is escaped for the hex-escaped serial
/// string: its code point as a byte, with anything past ASCII replaced by a
/// question mark, written as a backslash-x pair of hex digits.
pub open spec fn spec_escape_char(c: char) -> Seq<char> {
    let b: u8 = if c as u32 > 0x7f {
        0x3f
    } else {
        (c as u32) as u8
    };
    seq!['\\', 'x', spec_hex_upper(b >> 4), spec_hex_upper(b & 0xf)]
}

/// The whole serial number escaped character by character.
pub open spec fn spec_escaped(s: Seq<char>) -> Seq<char>
    decreases s.len(),
{
    if s.len() == 0 {
        Seq::empty()
    } else {
        spec_escape_char(s[0]) + spec_escaped(s.skip(1))
    }
}

proof fn lemma_escaped_push(s: Seq<char>, c: char)
    ensures
        spec_escaped(s.push(c)) == spec_escaped(s) + spec_escape_char(c),
    decreases s.len(),
{
    if s.len() == 0 {
        assert(s.push(c).len() == 1);
        assert(s.push(c)[0] == c);
        assert(s.push(c).skip(1) =~= Seq::<char>::empty());
        assert(spec_escaped(s.push(c)) == spec_escape_char(c) + spec_escaped(
            s.push(c).skip(1),
        ));
        assert(spec_escaped(s.push(c)) =~= spec_escaped(s) + spec_escape_char(c));
    } else {
        assert(s.push(c).skip(1) =~= s.skip(1).push(c));
        lemma_escaped_push(s.skip(1), c);
        assert(spec_escaped(s.push(c)) =~= spec_escaped(s) + spec_escape_char(c));
    }
}

/// The serial number escaped as hex pairs, between `hla_serial "` and a
/// closing quote; the serial is treated as 8-bit characters and anything
/// past ASCII is replaced by a question mark.
fn hex_escaped_serial(serial: &String) -> (r: String)
    ensures
        r@ == "hla_serial \""@ + spec_escaped(serial@) + "\""@,
{
    let s = serial.as_str();
    let n = s.unicode_len();
    let mut out = String::from_str("hla_serial \"");
    let mut i: usize = 0;
    proof {
        assert(serial@.take(0) =~= Seq::<char>::empty());
        assert(out@ =~= "hla_serial \""@ + spec_escaped(serial@.take(0)));
    }
    while i < n
        invariant
            n == serial@.len(),
            s@ == serial@,
            i <= n,
            out@ == "hla_serial \""@ + spec_escaped(serial@.take(i as int)),
        decreases n - i,
    {
        let c = s.get_char(i);
        let code = c as u32;
        let b: u8 = if code > 0x7f {
            0x3f
        } else {
            code as u8
        };
        proof {
            assert(b >> 4 < 16 && b & 0xf < 16) by (bit_vector);
        }
        let bs = "\\x";
        proof {
            reveal_strlit("\\x");
            assert(bs@ =~= seq!['\\', 'x']);
        }
        out.append(bs);
        out.append(hex_upper_str(b >> 4));
        out.append(hex_upper_str(b & 0xf));
        i = i + 1;
        proof {
            assert(serial@.take(i as int) =~= serial@.take(i - 1).push(serial@[i - 1]));
            lemma_escaped_push(serial@.take(i - 1), serial@[i - 1]);
            assert(spec_escape_char(serial@[i - 1]) =~= bs@ + seq![
                spec_hex_upper(b >> 4),
                spec_hex_upper(b & 0xf),
            ]);
            assert(out@ =~= "hla_serial \""@ + spec_escaped(serial@.take(i as int)));
        }
    }
    proof {
        assert(serial@.take(n as int) =~= serial@);
    }
    let q = "\"";
    out.append(q);
    out
}

/// A device of unrecognized vendor and product ids.
#[derive(Debug)]
pub struct UnknownDevice {
    pub usb: UsbDevice,
}

/// A SEGGER J-Link probe.
#[derive(Debug)]
pub struct JLinkDevice {
    pub usb: UsbDevice,
}

impl JLinkDevice {
    pub fn openocd_serial(&self) -> (r: String)
        ensures
            r@ == "jlink_serial "@ + self.usb.serial_number@,
    {
        prefixed("jlink_serial ", &self.usb.serial_number)
    }
}

/// An ST-Link/V2 probe: debugged through OpenOCD, traces over SWO.
#[derive(Debug)]
pub struct StLinkV2Device {
    pub usb: UsbDevice,
}

impl StLinkV2Device {
    /// OpenOCD only matches this probe's serial after hex escaping: the
    /// serial is 8-bit data encoded into the descriptor string, and
    /// non-ASCII bytes are replaced by question marks.
    pub fn openocd_serial(&self) -> (r: String)
        ensures
            r@ == "hla_serial \""@ + spec_escaped(self.usb.serial_number@) + "\""@,
    {
        hex_escaped_serial(&self.usb.serial_number)
    }
}

/// An ST-Link/V2-1 probe: debugged through OpenOCD, traces over SWO.
#[derive(Debug)]
pub struct StLinkV21Device {
    pub usb: UsbDevice,
}

impl StLinkV21Device {
    pub fn openocd_serial(&self) -> (r: String)
        ensures
            r@ == "hla_serial "@ + self.usb.serial_number@,
    {
        prefixed("hla_serial ", &self.usb.serial_number)
    }
}

/// A TI ICDI debug interface.
#[derive(Debug)]
pub struct TiIcdiDevice {
    pub usb: UsbDevice,
}

impl TiIcdiDevice {
    pub fn openocd_serial(&self) -> (r: String)
        ensures
            r@ == "hla_serial "@ + self.usb.serial_number@,
    {
        prefixed("hla_serial ", &self.usb.serial_number)
    }
}

/// An Atmel CMSIS-DAP adapter.
#[derive(Debug)]
pub struct CmsisDapDevice {
    pub usb: UsbDevice,
}

impl CmsisDapDevice {
    pub fn openocd_serial(&self) -> (r: String)
        ensures
            r@ == "cmsis_dap_serial "@ + self.usb.serial_number@,
    {
        prefixed("cmsis_dap_serial ", &self.usb.serial_number)
    }
}

/// An mbed DAPLink adapter.
#[derive(Debug)]
pub struct DapLinkDevice {
    pub usb: UsbDevice,
}

impl DapLinkDevice {
    pub fn openocd_serial(&self) -> (r: String)
        ensures
            r@ == "cmsis_dap_serial "@ + self.usb.serial_number@,
    {
        prefixed("cmsis_dap_serial ", &self.usb.serial_number)
    }
}

/// An Adafruit Feather board, loaded over BOSSA.
#[derive(Debug)]
pub struct FeatherDevice {
    pub usb: UsbDevice,
}

/// A Teensy board, loaded with the Teensy loader.
#[derive(Debug)]
pub struct TeensyDevice {
    pub usb: UsbDevice,
}

/// An STM32 chip in its ROM DFU bootloader, loaded with dfu-util.
#[derive(Debug)]
pub struct Stm32Device {
    pub usb: UsbDevice,
}

/// A Black Magic Probe, which embeds its own GDB server.
#[derive(Debug)]
pub struct BlackMagicDevice {
    pub usb: UsbDevice,
}

/// A TI XDS110 debug probe.
#[derive(Debug)]
pub struct Xds110Device {
    pub usb: UsbDevice,
}

impl Xds110Device {
    pub fn openocd_serial(&self) -> (r: String)
        ensures
            r@ == "cmsis_dap_serial "@ + self.usb.serial_number@,
    {
        prefixed("cmsis_dap_serial ", &self.usb.serial_number)
    }
}

/// An Olimex ARM-USB adapter.
#[derive(Debug)]
pub struct OlimexDevice {
    pub usb: UsbDevice,
}

impl OlimexDevice {
    pub fn openocd_serial(&self) -> (r: String)
        ensures
            r@ == "ftdi_serial "@ + self.usb.serial_number@,
    {
        prefixed("ftdi_serial ", &self.usb.serial_number)
    }
}

/// The outcome of classifying a device by vendor and product id: a closed
/// union over the recognized device families.
#[derive(Debug)]
pub enum DetectedDevice {
    DapLink(DapLinkDevice),
    CmsisDap(CmsisDapDevice),
    StLinkV2(StLinkV2Device),
    StLinkV21(StLinkV21Device),
    JLink(JLinkDevice),
    TiIcdi(TiIcdiDevice),
    Xds110(Xds110Device),
    Teensy(TeensyDevice),
    Stm32(Stm32Device),
    BlackMagic(BlackMagicDevice),
    Olimex(OlimexDevice),
    Feather(FeatherDevice),
    Unknown(UnknownDevice),
}

/// The classification table over (vendor id, product id): exact pairs
/// first, then the SEGGER and Adafruit vendor prefixes, else unknown.
pub open spec fn spec_lookup(usb: UsbDevice) -> DetectedDevice {
    let v = usb.vendor_id;
    let p = usb.product_id;
    if v == 0x0d28 && p == 0x0204 {
        DetectedDevice::DapLink(DapLinkDevice { usb })
    } else if v == 0x03eb && p == 0x2157 {
        DetectedDevice::CmsisDap(CmsisDapDevice { usb })
    } else if v == 0x0483 && p == 0x3748 {
        DetectedDevice::StLinkV2(StLinkV2Device { usb })
    } else if v == 0x0483 && p == 0x374b {
        DetectedDevice::StLinkV21(StLinkV21Device { usb })
    } else if v == 0x1cbe && p == 0x00fd {
        DetectedDevice::TiIcdi(TiIcdiDevice { usb })
    } else if v == 0x0451 && p == 0xbef3 {
        DetectedDevice::Xds110(Xds110Device { usb })
    } else if v == 0x16c0 && (p == 0x0486 || p == 0x0478) {
        DetectedDevice::Teensy(TeensyDevice { usb })
    } else if v == 0x0483 && p == 0xdf11 {
        DetectedDevice::Stm32(Stm32Device { usb })
    } else if v == 0x1d50 && p == 0x6018 {
        DetectedDevice::BlackMagic(BlackMagicDevice { usb })
    } else if v == 0x15ba && p == 0x002a {
        DetectedDevice::Olimex(OlimexDevice { usb })
    } else if v == 0x1366 {
        DetectedDevice::JLink(JLinkDevice { usb })
    } else if v == 0x239a {
        DetectedDevice::Feather(FeatherDevice { usb })
    } else {
        DetectedDevice::Unknown(UnknownDevice { usb })
    }
}

/// Classify a device by its vendor and product ids.
pub fn lookup(usb: UsbDevice) -> (r: DetectedDevice)
    ensures
        r == spec_lookup(usb),
{
    let v = usb.vendor_id;
    let p = usb.product_id;
    if v == 0x0d28 && p == 0x0204 {
        DetectedDevice::DapLink(DapLinkDevice { usb })
    } else if v == 0x03eb && p == 0x2157 {
        DetectedDevice::CmsisDap(CmsisDapDevice { usb })
    } else if v == 0x0483 && p == 0x3748 {
        DetectedDevice::StLinkV2(StLinkV2Device { usb })
    } else if v == 0x0483 && p == 0x374b {
        DetectedDevice::StLinkV21(StLinkV21Device { usb })
    } else if v == 0x1cbe && p == 0x00fd {
        DetectedDevice::TiIcdi(TiIcdiDevice { usb })
    } else if v == 0x0451 && p == 0xbef3 {
        DetectedDevice::Xds110(Xds110Device { usb })
    } else if v == 0x16c0 && (p == 0x0486 || p == 0x0478) {
        DetectedDevice::Teensy(TeensyDevice { usb })
    } else if v == 0x0483 && p == 0xdf11 {
        DetectedDevice::Stm32(Stm32Device { usb })
    } else if v == 0x1d50 && p == 0x6018 {
        DetectedDevice::BlackMagic(BlackMagicDevice { usb })
    } else if v == 0x15ba && p == 0x002a {
        DetectedDevice::Olimex(OlimexDevice { usb })
    } else if v == 0x1366 {
        DetectedDevice::JLink(JLinkDevice { usb })
    } else if v == 0x239a {
        DetectedDevice::Feather(FeatherDevice { usb })
    } else {
        DetectedDevice::Unknown(UnknownDevice { usb })
    }
}

impl DetectedDevice {
    /// The identity record the device was classified from.
    pub open spec fn spec_usb(&self) -> UsbDevice {
        match self {
            DetectedDevice::DapLink(d) => d.usb,
            DetectedDevice::CmsisDap(d) => d.usb,
            DetectedDevice::StLinkV2(d) => d.usb,
            DetectedDevice::StLinkV21(d) => d.usb,
            DetectedDevice::JLink(d) => d.usb,
            DetectedDevice::TiIcdi(d) => d.usb,
            DetectedDevice::Xds110(d) => d.usb,
            DetectedDevice::Teensy(d) => d.usb,
            DetectedDevice::Stm32(d) => d.usb,
            DetectedDevice::BlackMagic(d) => d.usb,
            DetectedDevice::Olimex(d) => d.usb,
            DetectedDevice::Feather(d) => d.usb,
            DetectedDevice::Unknown(d) => d.usb,
        }
    }

    pub fn usb(&self) -> (r: &UsbDevice)
        ensures
            *r == self.spec_usb(),
    {
        match self {
            DetectedDevice::DapLink(d) => &d.usb,
            DetectedDevice::CmsisDap(d) => &d.usb,
            DetectedDevice::StLinkV2(d) => &d.usb,
            DetectedDevice::StLinkV21(d) => &d.usb,
            DetectedDevice::JLink(d) => &d.usb,
            DetectedDevice::TiIcdi(d) => &d.usb,
            DetectedDevice::Xds110(d) => &d.usb,
            DetectedDevice::Teensy(d) => &d.usb,
            DetectedDevice::Stm32(d) => &d.usb,
            DetectedDevice::BlackMagic(d) => &d.usb,
            DetectedDevice::Olimex(d) => &d.usb,
            DetectedDevice::Feather(d) => &d.usb,
            DetectedDevice::Unknown(d) => &d.usb,
        }
    }

    /// A device is unknown exactly when classification recognized nothing.
    pub fn is_unknown(&self) -> (r: bool)
        ensures
            r <==> self is Unknown,
    {
        match self {
            DetectedDevice::Unknown(_) => true,
            _ => false,
        }
    }

    /// The name of the recognized device family.
    pub open spec fn spec_device_type_name(&self) -> Seq<char> {
        match self {
            DetectedDevice::DapLink(_) => "DAPLink"@,
            DetectedDevice::CmsisDap(_) => "DAPLink"@,
            DetectedDevice::StLinkV2(_) => "STLinkV2"@,
            DetectedDevice::StLinkV21(_) => "STLinkV21"@,
            DetectedDevice::JLink(_) => "JLink"@,
            DetectedDevice::TiIcdi(_) => "TI-ICDI"@,
            DetectedDevice::Xds110(_) => "XDS110"@,
            DetectedDevice::Teensy(_) => "Teensy"@,
            DetectedDevice::Stm32(_) => "STM32"@,
            DetectedDevice::BlackMagic(_) => "BlackMagicProbe"@,
            DetectedDevice::Olimex(_) => "Olimex"@,
            DetectedDevice::Feather(_) => "Feather"@,
            DetectedDevice::Unknown(_) => Seq::empty(),
        }
    }

    pub fn device_type(&self) -> (r: Option<&'static str>)
        ensures
            r is Some <==> !(self is Unknown),
            r matches Some(s) ==> s@ == self.spec_device_type_name(),
    {
        match self {
            DetectedDevice::DapLink(_) => Some("DAPLink"),
            DetectedDevice::CmsisDap(_) => Some("DAPLink"),
            DetectedDevice::StLinkV2(_) => Some("STLinkV2"),
            DetectedDevice::StLinkV21(_) => Some("STLinkV21"),
            DetectedDevice::JLink(_) => Some("JLink"),
            DetectedDevice::TiIcdi(_) => Some("TI-ICDI"),
            DetectedDevice::Xds110(_) => Some("XDS110"),
            DetectedDevice::Teensy(_) => Some("Teensy"),
            DetectedDevice::Stm32(_) => Some("STM32"),
            DetectedDevice::BlackMagic(_) => Some("BlackMagicProbe"),
            DetectedDevice::Olimex(_) => Some("Olimex"),
            DetectedDevice::Feather(_) => Some("Feather"),
            DetectedDevice::Unknown(_) => None,
        }
    }

    /// The name of the loader tool serving this device family.
    pub open spec fn spec_loader_type_name(&self) -> Seq<char> {
        match self {
            DetectedDevice::DapLink(_) => "OpenOCD"@,
            DetectedDevice::CmsisDap(_) => "OpenOCD"@,
            DetectedDevice::StLinkV2(_) => "OpenOCD"@,
            DetectedDevice::StLinkV21(_) => "OpenOCD"@,
            DetectedDevice::JLink(_) => "JLink"@,
            DetectedDevice::TiIcdi(_) => "OpenOCD"@,
            DetectedDevice::Xds110(_) => "OpenOCD"@,
            DetectedDevice::Teensy(_) => "Teensy"@,
            DetectedDevice::Stm32(_) => "dfu-util"@,
            DetectedDevice::BlackMagic(_) => "blackmagic"@,
            DetectedDevice::Olimex(_) => "OpenOCD"@,
            DetectedDevice::Feather(_) => "Bossa"@,
            DetectedDevice::Unknown(_) => Seq::empty(),
        }
    }

    pub fn loader_type(&self) -> (r: Option<&'static str>)
        ensures
            r is Some <==> !(self is Unknown),
            r matches Some(s) ==> s@ == self.spec_loader_type_name(),
    {
        match self {
            DetectedDevice::DapLink(_) => Some("OpenOCD"),
            DetectedDevice::CmsisDap(_) => Some("OpenOCD"),
            DetectedDevice::StLinkV2(_) => Some("OpenOCD"),
            DetectedDevice::StLinkV21(_) => Some("OpenOCD"),
            DetectedDevice::JLink(_) => Some("JLink"),
            DetectedDevice::TiIcdi(_) => Some("OpenOCD"),
            DetectedDevice::Xds110(_) => Some("OpenOCD"),
            DetectedDevice::Teensy(_) => Some("Teensy"),
            DetectedDevice::Stm32(_) => Some("dfu-util"),
            DetectedDevice::BlackMagic(_) => Some("blackmagic"),
            DetectedDevice::Olimex(_) => Some("OpenOCD"),
            DetectedDevice::Feather(_) => Some("Bossa"),
            DetectedDevice::Unknown(_) => None,
        }
    }

    /// Which device families have an attached debugger tool at all.
    pub open spec fn spec_has_debugger(&self) -> bool {
        match self {
            DetectedDevice::Teensy(_) => false,
            DetectedDevice::Stm32(_) => false,
            DetectedDevice::Feather(_) => false,
            DetectedDevice::Unknown(_) => false,
            _ => true,
        }
    }

    /// The name of the debugger tool serving this device family.
    pub open spec fn spec_debugger_type_name(&self) -> Seq<char> {
        match self {
            DetectedDevice::JLink(_) => "JLink"@,
            DetectedDevice::BlackMagic(_) => "blackmagic"@,
            _ => "OpenOCD"@,
        }
    }

    pub fn debugger_type(&self) -> (r: Option<&'static str>)
        ensures
            r is Some <==> self.spec_has_debugger(),
            r matches Some(s) ==> s@ == self.spec_debugger_type_name(),
    {
        match self {
            DetectedDevice::DapLink(_) => Some("OpenOCD"),
            DetectedDevice::CmsisDap(_) => Some("OpenOCD"),
            DetectedDevice::StLinkV2(_) => Some("OpenOCD"),
            DetectedDevice::StLinkV21(_) => Some("OpenOCD"),
            DetectedDevice::JLink(_) => Some("JLink"),
            DetectedDevice::TiIcdi(_) => Some("OpenOCD"),
            DetectedDevice::Xds110(_) => Some("OpenOCD"),
            DetectedDevice::BlackMagic(_) => Some("blackmagic"),
            DetectedDevice::Olimex(_) => Some("OpenOCD"),
            _ => None,
        }
    }

    /// Only the two ST-Link families capture ITM trace through this driver.
    pub fn can_trace_itm(&self) -> (r: bool)
        ensures
            r <==> (self is StLinkV2 || self is StLinkV21),
    {
        match self {
            DetectedDevice::StLinkV2(_) => true,
            DetectedDevice::StLinkV21(_) => true,
            _ => false,
        }
    }

    /// J-Link's own tools serve exactly the J-Link family.
    pub fn jlink_supported(&self) -> (r: bool)
        ensures
            r <==> self is JLink,
    {
        match self {
            DetectedDevice::JLink(_) => true,
            _ => false,
        }
    }

    /// Which families OpenOCD can address by serial.
    pub open spec fn spec_openocd_supported(&self) -> bool {
        match self {
            DetectedDevice::DapLink(_) => true,
            DetectedDevice::CmsisDap(_) => true,
            DetectedDevice::StLinkV2(_) => true,
            DetectedDevice::StLinkV21(_) => true,
            DetectedDevice::JLink(_) => true,
            DetectedDevice::TiIcdi(_) => true,
            DetectedDevice::Xds110(_) => true,
            DetectedDevice::Olimex(_) => true,
            _ => false,
        }
    }

    /// The serial-selection line handed to OpenOCD for this device.
    pub open spec fn spec_openocd_serial(&self) -> Option<Seq<char>> {
        match self {
            DetectedDevice::DapLink(d) => Some(
                "cmsis_dap_serial "@ + d.usb.serial_number@,
            ),
            DetectedDevice::CmsisDap(d) => Some(
                "cmsis_dap_serial "@ + d.usb.serial_number@,
            ),
            DetectedDevice::StLinkV2(d) => Some(
                "hla_serial \""@ + spec_escaped(d.usb.serial_number@) + "\""@,
            ),
            DetectedDevice::StLinkV21(d) => Some(
                "hla_serial "@ + d.usb.serial_number@,
            ),
            DetectedDevice::JLink(d) => Some("jlink_serial "@ + d.usb.serial_number@),
            DetectedDevice::TiIcdi(d) => Some("hla_serial "@ + d.usb.serial_number@),
            DetectedDevice::Xds110(d) => Some(
                "cmsis_dap_serial "@ + d.usb.serial_number@,
            ),
            DetectedDevice::Olimex(d) => Some("ftdi_serial "@ + d.usb.serial_number@),
            _ => None,
        }
    }

    pub fn openocd_serial(&self) -> (r: Option<String>)
        ensures
            r is Some <==> self.spec_openocd_supported(),
            r matches Some(s) ==> Some(s@) == self.spec_openocd_serial(),
    {
        match self {
            DetectedDevice::DapLink(d) => Some(d.openocd_serial()),
            DetectedDevice::CmsisDap(d) => Some(d.openocd_serial()),
            DetectedDevice::StLinkV2(d) => Some(d.openocd_serial()),
            DetectedDevice::StLinkV21(d) => Some(d.openocd_serial()),
            DetectedDevice::JLink(d) => Some(d.openocd_serial()),
            DetectedDevice::TiIcdi(d) => Some(d.openocd_serial()),
            DetectedDevice::Xds110(d) => Some(d.openocd_serial()),
            DetectedDevice::Olimex(d) => Some(d.openocd_serial()),
            _ => None,
        }
    }

    /// OpenOCD serves a device exactly when a serial-selection line exists
    /// for it.
    pub fn openocd_supported(&self) -> (r: bool)
        ensures
            r <==> self.spec_openocd_supported(),
    {
        match self {
            DetectedDevice::DapLink(_) => true,
            DetectedDevice::CmsisDap(_) => true,
            DetectedDevice::StLinkV2(_) => true,
            DetectedDevice::StLinkV21(_) => true,
            DetectedDevice::JLink(_) => true,
            DetectedDevice::TiIcdi(_) => true,
            DetectedDevice::Xds110(_) => true,
            DetectedDevice::Olimex(_) => true,
            _ => false,
        }
    }
}

/// A device-selection filter: keep everything, or only recognized devices,
/// or only devices whose identity hash starts with a given prefix.
#[derive(Debug)]
pub struct DeviceFilter {
    pub all: bool,
    pub device: Option<String>,
}

/// Whether a device passes the filter: unknown devices only under `all`,
/// and a requested prefix must start the device's identity hash unless
/// `all` overrides it.
pub open spec fn spec_matches_filter(
    f: &DeviceFilter,
    is_unknown: bool,
    hash: Seq<char>,
) -> bool {
    if !f.all && is_unknown {
        false
    } else {
        match f.device {
            Some(d) => f.all || (d@.len() <= hash.len() && hash.take(d@.len() as int) == d@),
            None => true,
        }
    }
}

/// Whether `p` is a prefix of `s`.
fn is_prefix_of(p: &str, s: &str) -> (r: bool)
    ensures
        r == (p@.len() <= s@.len() && s@.take(p@.len() as int) == p@),
{
    let np = p.unicode_len();
    let ns = s.unicode_len();
    if np > ns {
        return false;
    }
    let mut i: usize = 0;
    while i < np
        invariant
            np == p@.len(),
            ns == s@.len(),
            np <= ns,
            i <= np,
            forall|j: int| 0 <= j < i ==> p@[j] == s@[j],
        decreases np - i,
    {
        if p.get_char(i) != s.get_char(i) {
            proof {
                assert(s@.take(np as int)[i as int] != p@[i as int]);
            }
            return false;
        }
        i = i + 1;
    }
    proof {
        assert(s@.take(np as int) =~= p@);
    }
    true
}

/// Whether an enumerated device's serial-number string is the one the
/// caller asked to open; a session opens on the first device that matches,
/// and an exhaustive non-match is a legitimate "no device found" outcome,
/// not an error.
pub fn serial_matches(wanted: &str, found: &str) -> (r: bool)
    ensures
        r == (wanted@ == found@),
{
    let np = wanted.unicode_len();
    let ns = found.unicode_len();
    if np != ns {
        return false;
    }
    let r = is_prefix_of(wanted, found);
    proof {
        assert(found@.take(np as int) =~= found@);
    }
    r
}

/// Apply the selection filter to one classified device.
pub fn matches_filter(f: &DeviceFilter, d: &DetectedDevice) -> (r: bool)
    ensures
        r == spec_matches_filter(f, d is Unknown, sha1_hex_of(spec_identity_bytes(&d.spec_usb()))),
{
    if !f.all && d.is_unknown() {
        return false;
    }
    match &f.device {
        Some(prefix) => {
            if f.all {
                true
            } else {
                let hash = d.usb().hash();
                is_prefix_of(prefix.as_str(), hash.as_str())
            }
        },
        None => true,
    }
}

} // verus!
