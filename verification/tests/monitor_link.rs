use clearcore_flash::serial::monitor::{
    stops_on_failed_delivery, MonitorConnectionState, MonitorInput, MonitorLink, MonitorStep, MonitorWork,
    SerialMonitorEvent,
};
use clearcore_flash::types::UsbId;

fn state_change(step: &MonitorStep) -> Option<MonitorConnectionState> {
    match step.events.as_slice() {
        [SerialMonitorEvent::StateChange(s)] => Some(s.clone()),
        _ => None,
    }
}

fn is_find(work: &MonitorWork, id: UsbId) -> bool {
    matches!(work, MonitorWork::FindPort(x) if *x == id)
}

#[test]
fn connects_reads_and_reconnects() {
    let s = MonitorLink::start();
    assert!(matches!(state_change(&s), Some(MonitorConnectionState::Searching)));
    assert!(is_find(&s.work, UsbId::clearcore_serial()));

    let s = s.link.step(MonitorInput::PortFound("/dev/ttyACM0".to_string()));
    assert!(matches!(state_change(&s), Some(MonitorConnectionState::Connecting(p)) if p == "/dev/ttyACM0"));
    match &s.work {
        MonitorWork::OpenPort { port_name, baud_rate, timeout_ms } => {
            assert_eq!(port_name, "/dev/ttyACM0");
            assert_eq!(*baud_rate, 115200);
            assert_eq!(*timeout_ms, 2000);
        }
        _ => panic!("expected to open the port"),
    }

    let s = s.link.step(MonitorInput::Opened);
    assert!(matches!(state_change(&s), Some(MonitorConnectionState::Connected(p)) if p == "/dev/ttyACM0"));
    assert!(matches!(s.work, MonitorWork::ReadLine));

    let s = s.link.step(MonitorInput::Line("hello\r\n".to_string()));
    assert!(matches!(s.events.as_slice(), [SerialMonitorEvent::Data(l)] if l == "hello\r\n"));
    assert!(matches!(s.work, MonitorWork::ReadLine));

    let s = s.link.step(MonitorInput::EndOfStream);
    assert!(matches!(state_change(&s), Some(MonitorConnectionState::Error(e)) if e == "Device disconnected"));
    assert!(matches!(s.work, MonitorWork::Sleep(1000)));

    let s = s.link.step(MonitorInput::Slept);
    assert!(matches!(state_change(&s), Some(MonitorConnectionState::Searching)));
    assert!(is_find(&s.work, UsbId::clearcore_serial()));
}

#[test]
fn missing_port_explained_then_retried() {
    let s = MonitorLink::start();
    let s = s.link.step(MonitorInput::PortNotFound("no serial".to_string()));
    assert!(s.events.is_empty());
    assert!(is_find(&s.work, UsbId::clearcore_bootloader()));

    let s = s.link.step(MonitorInput::PortFound("COM7".to_string()));
    assert!(matches!(
        state_change(&s),
        Some(MonitorConnectionState::Error(e)) if e == "Failed to find ClearCore serial port, but found the bootloader at COM7. Power cycle clearcore to exit bootloader mode"
    ));
    let s = s.link.step(MonitorInput::Slept);
    assert!(s.events.is_empty());
    assert!(is_find(&s.work, UsbId::clearcore_serial()));

    let s = s.link.step(MonitorInput::PortNotFound("x".to_string()));
    let s = s.link.step(MonitorInput::PortNotFound("Failed to find port with VID/PID: 2890:0022".to_string()));
    assert!(matches!(
        state_change(&s),
        Some(MonitorConnectionState::Error(e)) if e == "Failed to find ClearCore serial port: Failed to find port with VID/PID: 2890:0022"
    ));
}

#[test]
fn open_and_read_failures() {
    let s = MonitorLink::Opening("p".to_string()).step(MonitorInput::OpenFailed("busy".to_string()));
    assert!(matches!(state_change(&s), Some(MonitorConnectionState::Error(e)) if e == "busy"));
    assert!(matches!(s.link, MonitorLink::ReconnectWait));
    let s = MonitorLink::Reading.step(MonitorInput::ReadFailed("io".to_string()));
    assert!(matches!(state_change(&s), Some(MonitorConnectionState::Error(e)) if e == "io"));
    assert!(matches!(s.work, MonitorWork::Sleep(1000)));
}

#[test]
fn listener_gone_stops_everything() {
    let s = MonitorLink::Reading.step(MonitorInput::ListenerGone);
    assert!(matches!(s.link, MonitorLink::Stopped));
    assert!(matches!(s.work, MonitorWork::Stop));
    let s = s.link.step(MonitorInput::Slept);
    assert!(matches!(s.link, MonitorLink::Stopped));
    assert!(s.events.is_empty());
}

#[test]
fn unexpected_input_changes_nothing() {
    let s = MonitorLink::Reading.step(MonitorInput::Opened);
    assert!(matches!(s.link, MonitorLink::Reading));
    assert!(s.events.is_empty());
    assert!(matches!(s.work, MonitorWork::ReadLine));
}

#[test]
fn banners() {
    assert_eq!(MonitorConnectionState::Disconnected.banner(), "Disconnected");
    assert_eq!(MonitorConnectionState::Searching.banner(), "Searching for ClearCore...");
    assert_eq!(MonitorConnectionState::Connecting("COM3".to_string()).banner(), "Connecting to COM3...");
    assert_eq!(MonitorConnectionState::Connected("COM3".to_string()).banner(), "Connected to COM3");
    assert_eq!(MonitorConnectionState::Error("x".to_string()).banner(), "Error: x");
    assert!(MonitorConnectionState::Connected("a".to_string()).is_connected());
    assert!(!MonitorConnectionState::default().is_connected());
}

#[test]
fn only_lost_data_stops_the_loop() {
    assert!(stops_on_failed_delivery(&SerialMonitorEvent::Data("x".to_string())));
    assert!(!stops_on_failed_delivery(&SerialMonitorEvent::StateChange(MonitorConnectionState::Searching)));
}

fn trace(inputs: Vec<MonitorInput>) -> Vec<SerialMonitorEvent> {
    let MonitorStep { mut link, mut events, .. } = MonitorLink::start();
    for input in inputs {
        let step = link.step(input);
        events.extend(step.events);
        link = step.link;
    }
    events
}

#[test]
fn event_trace_of_a_failed_open_and_a_session() {
    let events = trace(vec![
        MonitorInput::PortFound("COM3".to_string()),
        MonitorInput::OpenFailed("busy".to_string()),
        MonitorInput::Line("ignored".to_string()),
        MonitorInput::Slept,
        MonitorInput::PortFound("COM3".to_string()),
        MonitorInput::Opened,
        MonitorInput::Line("a\n".to_string()),
        MonitorInput::Line("b\n".to_string()),
        MonitorInput::EndOfStream,
    ]);
    let described: Vec<String> = events
        .iter()
        .map(|e| match e {
            SerialMonitorEvent::Data(l) => format!("data {l:?}"),
            SerialMonitorEvent::StateChange(s) => format!("{s:?}"),
        })
        .collect();
    assert_eq!(
        described,
        vec![
            "Searching",
            "Connecting(\"COM3\")",
            "Error(\"busy\")",
            "Searching",
            "Connecting(\"COM3\")",
            "Connected(\"COM3\")",
            "data \"a\\n\"",
            "data \"b\\n\"",
            "Error(\"Device disconnected\")",
        ]
    );
}
