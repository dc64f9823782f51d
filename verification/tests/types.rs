use clearcore_flash::types::{LogEntry, LogMsg, LogMsgType, SerialConfig, Timestamp, UsbId};

#[test]
fn clearcore_identities() {
    assert_eq!(UsbId::clearcore_serial(), UsbId { vid: 0x2890, pid: 0x8022 });
    assert_eq!(UsbId::clearcore_bootloader(), UsbId { vid: 0x2890, pid: 0x0022 });
    assert_eq!(UsbId::default(), UsbId::clearcore_serial());
    assert_eq!(UsbId::clearcore_bootloader().to_debug_string(), "UsbId(2890:0022)");
    assert_eq!(UsbId { vid: 0xabc, pid: 1 }.to_debug_string(), "UsbId(0abc:0001)");
}

#[test]
fn serial_configurations() {
    assert_eq!(SerialConfig::serial_monitor().baud_rate, 115200);
    assert_eq!(SerialConfig::bootloader_touch().baud_rate, 1200);
    assert_eq!(SerialConfig::bootloader_touch().usb_id, UsbId::clearcore_serial());
    assert_eq!(SerialConfig::default(), SerialConfig::serial_monitor());
}

#[test]
fn timestamps_in_range_only() {
    assert!(Timestamp::new(23, 59, 59, 1_999_999_999).is_some());
    assert!(Timestamp::new(24, 0, 0, 0).is_none());
    assert!(Timestamp::new(0, 60, 0, 0).is_none());
    assert!(Timestamp::new(0, 0, 60, 0).is_none());
    assert!(Timestamp::new(0, 0, 0, 2_000_000_000).is_none());
}

#[test]
fn timestamp_format() {
    let t = Timestamp::new(9, 5, 7, 42_999_999).unwrap();
    let e = LogEntry::new(t, LogMsg::new(LogMsgType::Info, "hi".to_string()));
    assert_eq!(e.format_timestamp(), "09:05:07.042");
    assert_eq!(e.to_display_string(), "[09:05:07.042] hi");
    let leap = Timestamp::new(23, 59, 59, 1_500_000_000).unwrap();
    let e = LogEntry::new(leap, LogMsg::clear_core("x".to_string()));
    assert_eq!(e.format_timestamp(), "23:59:60.500");
}

#[test]
fn entries_now() {
    let noon = Timestamp::new(12, 0, 1, 7_000_000).unwrap();
    let e = LogEntry::new_error_now("bad".to_string(), noon);
    assert_eq!(e.message.log_type, LogMsgType::Error);
    assert_eq!(e.message.message, "bad");
    assert_eq!(e.format_timestamp(), "12:00:01.007");
    let e = LogEntry::new_info_now("good".to_string(), noon);
    assert_eq!(e.message.log_type, LogMsgType::Info);
    let e = LogEntry::new_now(LogMsg::clear_core("dev".to_string()), noon);
    assert_eq!(e.to_display_string(), "[12:00:01.007] dev");
}
