use clearcore_flash::serial::{find_port, has_port, is_specified_port, port_not_found_message, PortInfo};
use clearcore_flash::types::UsbId;

fn port(name: &str, usb_id: Option<UsbId>) -> PortInfo {
    PortInfo { port_name: name.to_string(), usb_id }
}

#[test]
fn finds_the_first_matching_port() {
    let other = UsbId { vid: 1, pid: 2 };
    let ports = vec![
        port("/dev/ttyS0", None),
        port("/dev/ttyUSB0", Some(other)),
        port("/dev/ttyACM0", Some(UsbId::clearcore_serial())),
        port("/dev/ttyACM1", Some(UsbId::clearcore_serial())),
    ];
    assert_eq!(find_port(&ports, UsbId::clearcore_serial()).unwrap().port_name, "/dev/ttyACM0");
    assert!(find_port(&ports, UsbId::clearcore_bootloader()).is_none());
    assert!(has_port(&ports, other));
    assert!(!has_port(&ports, UsbId::clearcore_bootloader()));
    assert!(!has_port(&Vec::new(), other));
}

#[test]
fn only_usb_ports_match() {
    assert!(!is_specified_port(&port("COM1", None), UsbId::clearcore_serial()));
    assert!(is_specified_port(&port("COM3", Some(UsbId::clearcore_bootloader())), UsbId::clearcore_bootloader()));
    assert!(!is_specified_port(&port("COM3", Some(UsbId::clearcore_bootloader())), UsbId::clearcore_serial()));
}

#[test]
fn not_found_message() {
    assert_eq!(
        port_not_found_message(UsbId::clearcore_bootloader()),
        "Failed to find port with VID/PID: 2890:0022"
    );
}
