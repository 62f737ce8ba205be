use bobbin::bobbin_config::{BobbinConfig, BuilderConfig, ItmConfig, LoaderConfig};
use bobbin::cargo_config::{build_target, BuildConfig, CargoConfig};
use bobbin::device::{lookup, serial_matches, DetectedDevice, DeviceFilter, UsbDevice, matches_filter};
use bobbin::version::{decode_version, Version};

fn usb(vendor_id: u16, product_id: u16) -> UsbDevice {
    UsbDevice {
        vendor_id,
        product_id,
        vendor_string: String::from("Vendor"),
        product_string: String::from("Product"),
        serial_number: String::from("SER123"),
        location_id: None,
        path: None,
    }
}

#[test]
fn lookup_classifies_by_vendor_and_product() {
    assert!(matches!(lookup(usb(0x0d28, 0x0204)), DetectedDevice::DapLink(_)));
    assert!(matches!(lookup(usb(0x03eb, 0x2157)), DetectedDevice::CmsisDap(_)));
    assert!(matches!(lookup(usb(0x0483, 0x3748)), DetectedDevice::StLinkV2(_)));
    assert!(matches!(lookup(usb(0x0483, 0x374b)), DetectedDevice::StLinkV21(_)));
    assert!(matches!(lookup(usb(0x1366, 0x0101)), DetectedDevice::JLink(_)));
    assert!(matches!(lookup(usb(0x1366, 0x0105)), DetectedDevice::JLink(_)));
    assert!(matches!(lookup(usb(0x1cbe, 0x00fd)), DetectedDevice::TiIcdi(_)));
    assert!(matches!(lookup(usb(0x0451, 0xbef3)), DetectedDevice::Xds110(_)));
    assert!(matches!(lookup(usb(0x16c0, 0x0486)), DetectedDevice::Teensy(_)));
    assert!(matches!(lookup(usb(0x16c0, 0x0478)), DetectedDevice::Teensy(_)));
    assert!(matches!(lookup(usb(0x0483, 0xdf11)), DetectedDevice::Stm32(_)));
    assert!(matches!(lookup(usb(0x1d50, 0x6018)), DetectedDevice::BlackMagic(_)));
    assert!(matches!(lookup(usb(0x15ba, 0x002a)), DetectedDevice::Olimex(_)));
}

#[test]
fn vendor_prefixes_classify_remaining_products() {
    assert!(matches!(lookup(usb(0x1366, 0x9999)), DetectedDevice::JLink(_)));
    assert!(matches!(lookup(usb(0x239a, 0x0001)), DetectedDevice::Feather(_)));
    assert!(matches!(lookup(usb(0x1234, 0x5678)), DetectedDevice::Unknown(_)));
}

#[test]
fn device_families_report_their_tooling() {
    let d = lookup(usb(0x0483, 0x3748));
    assert_eq!(d.device_type(), Some("STLinkV2"));
    assert_eq!(d.loader_type(), Some("OpenOCD"));
    assert_eq!(d.debugger_type(), Some("OpenOCD"));
    assert!(d.can_trace_itm());
    assert!(!d.jlink_supported());
    assert!(d.openocd_supported());

    let d = lookup(usb(0x1366, 0x0101));
    assert_eq!(d.device_type(), Some("JLink"));
    assert_eq!(d.loader_type(), Some("JLink"));
    assert_eq!(d.debugger_type(), Some("JLink"));
    assert!(d.jlink_supported());
    assert!(!d.can_trace_itm());

    let d = lookup(usb(0x16c0, 0x0486));
    assert_eq!(d.device_type(), Some("Teensy"));
    assert_eq!(d.loader_type(), Some("Teensy"));
    assert_eq!(d.debugger_type(), None);
    assert!(!d.openocd_supported());

    let d = lookup(usb(0x1234, 0x5678));
    assert!(d.is_unknown());
    assert_eq!(d.device_type(), None);
    assert_eq!(d.loader_type(), None);
    assert_eq!(d.debugger_type(), None);
}

#[test]
fn identity_hash_digests_the_descriptor_strings() {
    let d = UsbDevice {
        vendor_id: 0,
        product_id: 0,
        vendor_string: String::from("Hello "),
        product_string: String::from("World"),
        serial_number: String::from("!"),
        location_id: None,
        path: None,
    };
    assert_eq!(d.hash(), "2ef7bde608ce5404e97d5f042f95f89f1c232871");
}

#[test]
fn openocd_serials_carry_the_selection_prefix() {
    let d = lookup(usb(0x1366, 0x0101));
    assert_eq!(d.openocd_serial().unwrap(), "jlink_serial SER123");

    let d = lookup(usb(0x0483, 0x374b));
    assert_eq!(d.openocd_serial().unwrap(), "hla_serial SER123");

    let d = lookup(usb(0x0451, 0xbef3));
    assert_eq!(d.openocd_serial().unwrap(), "cmsis_dap_serial SER123");

    let d = lookup(usb(0x15ba, 0x002a));
    assert_eq!(d.openocd_serial().unwrap(), "ftdi_serial SER123");

    let d = lookup(usb(0x16c0, 0x0486));
    assert!(d.openocd_serial().is_none());
}

#[test]
fn stlink_v2_serial_is_hex_escaped() {
    let mut u = usb(0x0483, 0x3748);
    u.serial_number = String::from("AB");
    let d = lookup(u);
    assert_eq!(d.openocd_serial().unwrap(), "hla_serial \"\\x41\\x42\"");

    let mut u = usb(0x0483, 0x3748);
    u.serial_number = String::from("A\u{e9}");
    let d = lookup(u);
    // Anything past ASCII is replaced by a question mark (0x3F).
    assert_eq!(d.openocd_serial().unwrap(), "hla_serial \"\\x41\\x3F\"");
}

#[test]
fn filters_select_known_devices_and_hash_prefixes() {
    let known = lookup(usb(0x0483, 0x3748));
    let unknown = lookup(usb(0x1234, 0x5678));

    let default = DeviceFilter { all: false, device: None };
    assert!(matches_filter(&default, &known));
    assert!(!matches_filter(&default, &unknown));

    let all = DeviceFilter { all: true, device: None };
    assert!(matches_filter(&all, &unknown));

    let hash = known.usb().hash();
    let by_hash = DeviceFilter { all: false, device: Some(hash[..8].to_string()) };
    assert!(matches_filter(&by_hash, &known));

    let other = DeviceFilter { all: false, device: Some(String::from("zzzzzzzz")) };
    assert!(!matches_filter(&other, &known));
}

#[test]
fn version_record_unpacks_its_bit_fields() {
    // Version word 0x2421: stlink 2, jtag 16, swim 33.
    let v = decode_version(&[0x21, 0x24, 0x83, 0x04, 0x48, 0x37]);
    assert_eq!(v.version(), 0x2421);
    assert_eq!(v.stlink(), 2);
    assert_eq!(v.jtag(), 16);
    assert_eq!(v.swim(), 33);
    assert_eq!(v.vid(), 0x0483);
    assert_eq!(v.pid(), 0x3748);

    let v = Version([0xFF, 0xFF, 0, 0, 0, 0]);
    assert_eq!(v.stlink(), 15);
    assert_eq!(v.jtag(), 63);
    assert_eq!(v.swim(), 63);
}

#[test]
fn build_target_prefers_the_project_configuration() {
    let bobbin = Some(BobbinConfig {
        filter: None,
        console: None,
        builder: Some(BuilderConfig { target: Some(String::from("thumbv7em-none-eabihf")) }),
        loader: None,
        itm: Some(ItmConfig { target_clock: Some(168_000_000) }),
    });
    let cargo = Some(CargoConfig {
        build: Some(BuildConfig { target: Some(String::from("thumbv6m-none-eabi")) }),
        target: None,
    });
    assert_eq!(build_target(&bobbin, &cargo).unwrap(), "thumbv7em-none-eabihf");
    assert_eq!(build_target(&None, &cargo).unwrap(), "thumbv6m-none-eabi");
    assert_eq!(build_target(&None, &None), None);
    assert_eq!(bobbin.unwrap().itm_target_clock(), Some(168_000_000));
}

#[test]
fn loader_settings_read_from_their_section() {
    let cfg = BobbinConfig {
        filter: None,
        console: None,
        builder: None,
        loader: Some(LoaderConfig {
            jlink_device: Some(String::from("MK20DX256xxx7")),
            teensy_mcu: Some(String::from("mk20dx256")),
            blackmagic_mode: Some(String::from("swd")),
            offset: None,
        }),
        itm: None,
    };
    assert_eq!(cfg.jlink_device().unwrap(), "MK20DX256xxx7");
    assert_eq!(cfg.teensy_mcu().unwrap(), "mk20dx256");
    assert_eq!(cfg.blackmagic_mode().unwrap(), "swd");

    let empty = BobbinConfig { filter: None, console: None, builder: None, loader: None, itm: None };
    assert_eq!(empty.jlink_device(), None);
    assert_eq!(empty.teensy_mcu(), None);
    assert_eq!(empty.blackmagic_mode(), None);
}

#[test]
fn sessions_open_on_an_exact_serial_match() {
    assert!(serial_matches("SER123", "SER123"));
    assert!(!serial_matches("SER123", "SER12"));
    assert!(!serial_matches("SER12", "SER123"));
    assert!(!serial_matches("", "SER123"));
    assert!(serial_matches("", ""));
}
