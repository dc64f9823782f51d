//! Finding the ClearCore among the serial ports, and getting it into its bootloader.

pub mod download;
pub mod monitor;
pub mod upload;

use vstd::prelude::*;
use vstd::string::*;
use crate::text::{trim, trim_spec};
use crate::types::{LogMsg, LogMsgType, UsbId};

verus! {

/// Flash address at which the application firmware starts; the Teknic bootloader
/// lives below it.
pub const TEKNIC_BOOTLOADER_OFFSET_ADDRESS: u32 = 0x4000;

/// A serial port as the operating system lists it.
#[derive(Debug)]
pub struct PortInfo {
    pub port_name: String,
    /// The USB identity of a USB serial port; `None` for other kinds of port.
    pub usb_id: Option<UsbId>,
}

impl Clone for PortInfo {
    fn clone(&self) -> (c: Self)
        ensures
            c == *self,
    {
        PortInfo { port_name: self.port_name.clone(), usb_id: self.usb_id }
    }
}

/// `port` is the USB device `usb_id`.
pub open spec fn port_is(port: PortInfo, usb_id: UsbId) -> bool {
    port.usb_id == Some(usb_id)
}

/// Whether the port is the USB device `target_usb_id`.
pub fn is_specified_port(port_info: &PortInfo, target_usb_id: UsbId) -> (b: bool)
    ensures
        b == port_is(*port_info, target_usb_id),
{
    match port_info.usb_id {
        Some(id) => id == target_usb_id,
        None => false,
    }
}

/// `i` is the first position of `ports` that is the USB device `usb_id`.
pub open spec fn first_match(ports: Seq<PortInfo>, usb_id: UsbId, i: int) -> bool {
    &&& 0 <= i < ports.len()
    &&& port_is(ports[i], usb_id)
    &&& forall|j: int| 0 <= j < i ==> !port_is(#[trigger] ports[j], usb_id)
}

/// No port of `ports` is the USB device `usb_id`.
pub open spec fn none_match(ports: Seq<PortInfo>, usb_id: UsbId) -> bool {
    forall|j: int| 0 <= j < ports.len() ==> !port_is(#[trigger] ports[j], usb_id)
}

/// The first port of the list that is the USB device `usb_id`.
pub fn find_port(ports: &Vec<PortInfo>, usb_id: UsbId) -> (found: Option<PortInfo>)
    ensures
        found is None <==> none_match(ports@, usb_id),
        found matches Some(p) ==> exists|i: int| first_match(ports@, usb_id, i) && p == ports@[i],
{
    let n = ports.len();
    let mut i: usize = 0;
    while i < n
        invariant
            n == ports@.len(),
            i <= n,
            forall|j: int| 0 <= j < i ==> !port_is(#[trigger] ports@[j], usb_id),
        decreases n - i,
    {
        if is_specified_port(&ports[i], usb_id) {
            let p = ports[i].clone();
            assert(first_match(ports@, usb_id, i as int));
            return Some(p);
        }
        i = i + 1;
    }
    None
}

/// Whether some port of the list is the USB device `usb_id`.
pub fn has_port(ports: &Vec<PortInfo>, usb_id: UsbId) -> (b: bool)
    ensures
        b == !none_match(ports@, usb_id),
{
    let n = ports.len();
    let mut i: usize = 0;
    while i < n
        invariant
            n == ports@.len(),
            i <= n,
            forall|j: int| 0 <= j < i ==> !port_is(#[trigger] ports@[j], usb_id),
        decreases n - i,
    {
        if is_specified_port(&ports[i], usb_id) {
            return true;
        }
        i = i + 1;
    }
    false
}

/// `Failed to find port with VID/PID: vvvv:pppp`.
pub open spec fn port_not_found_text(usb_id: UsbId) -> Seq<char> {
    "Failed to find port with VID/PID: "@ + usb_id.hex_pair()
}

/// The error of a search that found no port with the USB identity.
pub fn port_not_found_message(usb_id: UsbId) -> (s: String)
    ensures
        s@ == port_not_found_text(usb_id),
{
    let mut s = String::from_str("Failed to find port with VID/PID: ");
    usb_id.push_hex_pair(&mut s);
    s
}


/// Where getting the ClearCore into its bootloader stands.
#[derive(Debug)]
pub enum BootloaderSearch {
    /// Looking for the ClearCore running its firmware.
    FindingSerial,
    /// The firmware's port is missing; looking for a ClearCore already in its bootloader.
    FindingBootloader,
    /// Opening the firmware's port at 1200 baud (and closing it at once), which sends
    /// the ClearCore to its bootloader.
    Touching(String),
    /// Waiting for the firmware's port to disappear.
    AwaitingDisconnect,
    /// Waiting for the bootloader's port to appear.
    AwaitingBootloader,
    /// Giving the bootloader a second before using this port.
    Settling(PortInfo),
    /// The bootloader is at this port.
    Found(PortInfo),
    /// Getting to the bootloader failed with this error.
    Failed(String),
}

/// The outside work that getting to the bootloader asks for next.
#[derive(Debug)]
pub enum BootloaderWork {
    /// List the serial ports and look for this USB device.
    FindPort(UsbId),
    /// Open this port at this baud rate, then close it.
    TouchPort { port_name: String, baud_rate: u32 },
    /// Wait until no port is this USB device, for at most this many milliseconds.
    WaitForDisconnect { usb_id: UsbId, timeout_ms: u64 },
    /// Wait until a port is this USB device, for at most this many milliseconds.
    WaitForPort { usb_id: UsbId, timeout_ms: u64 },
    /// Wait this many milliseconds.
    Sleep(u64),
    /// Nothing more: the search has ended.
    Finished,
}

/// What came of the outside work.
#[derive(Debug)]
pub enum BootloaderInput {
    PortFound(PortInfo),
    PortNotFound,
    /// The port opened (and was closed again).
    Touched,
    /// The port did not open; the error's text.
    TouchFailed(String),
    /// The awaited port change happened.
    Changed,
    /// The wait timed out.
    TimedOut,
    /// Listing the ports failed while waiting; the error's text.
    WaitFailed(String),
    Slept,
}

/// One step of getting to the bootloader: the new state, the log lines to show (in
/// order), and the work to do next.
#[derive(Debug)]
pub struct BootloaderStep {
    pub search: BootloaderSearch,
    pub logs: Vec<LogMsg>,
    pub work: BootloaderWork,
}

/// The error shown for any failure of the 1200 baud touch.
pub open spec fn touch_failed_text() -> Seq<char> {
    "Failed to touch cc serial port to bootloader"@
}

/// The error shown when neither the firmware nor the bootloader is found.
pub open spec fn no_clearcore_text() -> Seq<char> {
    "Failed to find cc serial port"@
}

/// The log line of a touch whose port did not open (harmless on Windows).
pub open spec fn touch_open_failed_text(port: Seq<char>, error: Seq<char>) -> Seq<char> {
    "Failed to open cc serial port "@ + port + " at 1200bps. \nThis might not be a problem on windows. Error: "@
        + error
}

/// `log` is a message of the kind with the text.
pub open spec fn says(log: LogMsg, log_type: LogMsgType, text: Seq<char>) -> bool {
    log.log_type == log_type && log.message@ == text
}

/// The work that a search state waits on.
pub open spec fn bootloader_work_of(search: BootloaderSearch) -> BootloaderWork {
    match search {
        BootloaderSearch::FindingSerial => BootloaderWork::FindPort(UsbId::spec_clearcore_serial()),
        BootloaderSearch::FindingBootloader => BootloaderWork::FindPort(UsbId::spec_clearcore_bootloader()),
        BootloaderSearch::Touching(p) => BootloaderWork::TouchPort { port_name: p, baud_rate: 1200 },
        BootloaderSearch::AwaitingDisconnect => BootloaderWork::WaitForDisconnect {
            usb_id: UsbId::spec_clearcore_serial(),
            timeout_ms: 5000,
        },
        BootloaderSearch::AwaitingBootloader => BootloaderWork::WaitForPort {
            usb_id: UsbId::spec_clearcore_bootloader(),
            timeout_ms: 10000,
        },
        BootloaderSearch::Settling(_) => BootloaderWork::Sleep(1000),
        BootloaderSearch::Found(_) => BootloaderWork::Finished,
        BootloaderSearch::Failed(_) => BootloaderWork::Finished,
    }
}

/// `work` is the work that `search` waits on (port names compared by their text).
pub open spec fn awaits(search: BootloaderSearch, work: BootloaderWork) -> bool {
    match (search, work) {
        (BootloaderSearch::Touching(p), BootloaderWork::TouchPort { port_name, baud_rate }) => port_name@ == p@
            && baud_rate == 1200,
        (BootloaderSearch::Touching(_), _) => false,
        _ => work == bootloader_work_of(search),
    }
}

/// How getting to the bootloader proceeds: look for the firmware's port and touch it
/// at 1200 baud, wait for it to vanish and for the bootloader to appear, then give
/// the bootloader a second; without the firmware's port, use a ClearCore that is
/// already in its bootloader. A failed touch is only logged; a timeout or a failed
/// wait ends the search. An input that a state does not wait for changes nothing.
pub open spec fn bootloader_step_post(search: BootloaderSearch, input: BootloaderInput, step: BootloaderStep) -> bool {
    &&& awaits(step.search, step.work)
    &&& match (search, input) {
        (BootloaderSearch::FindingSerial, BootloaderInput::PortFound(p)) => {
            &&& step.search matches BootloaderSearch::Touching(n) && n@ == p.port_name@
            &&& step.logs@.len() == 1 && says(step.logs@[0], LogMsgType::Info, "cc serial port found"@)
        },
        (BootloaderSearch::FindingSerial, BootloaderInput::PortNotFound) => {
            &&& step.search is FindingBootloader
            &&& step.logs@.len() == 0
        },
        (BootloaderSearch::FindingBootloader, BootloaderInput::PortFound(p)) => {
            &&& step.search == BootloaderSearch::Found(p)
            &&& step.logs@.len() == 1 && says(
                step.logs@[0],
                LogMsgType::Warn,
                "Clearcore already in bootloader mode, skipping touching to bootloader"@,
            )
        },
        (BootloaderSearch::FindingBootloader, BootloaderInput::PortNotFound) => {
            &&& step.search matches BootloaderSearch::Failed(e) && e@ == no_clearcore_text()
            &&& step.logs@.len() == 1 && says(step.logs@[0], LogMsgType::Error, no_clearcore_text())
        },
        (BootloaderSearch::Touching(p), BootloaderInput::Touched) => {
            &&& step.search is AwaitingDisconnect
            &&& step.logs@.len() == 2
            &&& says(step.logs@[0], LogMsgType::Info, "cc serial port "@ + p@ + " opened"@)
            &&& says(step.logs@[1], LogMsgType::Info, "cc serial port "@ + p@ + " closed"@)
        },
        (BootloaderSearch::Touching(p), BootloaderInput::TouchFailed(e)) => {
            &&& step.search is AwaitingDisconnect
            &&& step.logs@.len() == 1 && says(step.logs@[0], LogMsgType::Error, touch_open_failed_text(p@, e@))
        },
        (BootloaderSearch::AwaitingDisconnect, BootloaderInput::Changed) => {
            &&& step.search is AwaitingBootloader
            &&& step.logs@.len() == 1 && says(step.logs@[0], LogMsgType::Info, "cc serial port disconnected"@)
        },
        (BootloaderSearch::AwaitingBootloader, BootloaderInput::PortFound(p)) => {
            &&& step.search == BootloaderSearch::Settling(p)
            &&& step.logs@.len() == 1 && says(
                step.logs@[0],
                LogMsgType::Info,
                "cc touched to bootloader, waiting 1 second"@,
            )
        },
        (BootloaderSearch::AwaitingDisconnect, BootloaderInput::TimedOut)
        | (BootloaderSearch::AwaitingDisconnect, BootloaderInput::WaitFailed(_))
        | (BootloaderSearch::AwaitingBootloader, BootloaderInput::TimedOut)
        | (BootloaderSearch::AwaitingBootloader, BootloaderInput::WaitFailed(_)) => {
            &&& step.search matches BootloaderSearch::Failed(e) && e@ == touch_failed_text()
            &&& step.logs@.len() == 0
        },
        (BootloaderSearch::Settling(p), BootloaderInput::Slept) => {
            &&& step.search == BootloaderSearch::Found(p)
            &&& step.logs@.len() == 0
        },
        (other, _) => {
            &&& step.search == other
            &&& step.logs@.len() == 0
        },
    }
}

fn bootloader_step_to(search: BootloaderSearch, logs: Vec<LogMsg>) -> (step: BootloaderStep)
    ensures
        step.search == search,
        step.logs@ == logs@,
        awaits(step.search, step.work),
{
    let work = match &search {
        BootloaderSearch::FindingSerial => BootloaderWork::FindPort(UsbId::clearcore_serial()),
        BootloaderSearch::FindingBootloader => BootloaderWork::FindPort(UsbId::clearcore_bootloader()),
        BootloaderSearch::Touching(p) => BootloaderWork::TouchPort { port_name: p.clone(), baud_rate: 1200 },
        BootloaderSearch::AwaitingDisconnect => BootloaderWork::WaitForDisconnect {
            usb_id: UsbId::clearcore_serial(),
            timeout_ms: 5000,
        },
        BootloaderSearch::AwaitingBootloader => BootloaderWork::WaitForPort {
            usb_id: UsbId::clearcore_bootloader(),
            timeout_ms: 10000,
        },
        BootloaderSearch::Settling(_) => BootloaderWork::Sleep(1000),
        BootloaderSearch::Found(_) => BootloaderWork::Finished,
        BootloaderSearch::Failed(_) => BootloaderWork::Finished,
    };
    BootloaderStep { search, logs, work }
}

fn one_log(log_type: LogMsgType, text: String) -> (logs: Vec<LogMsg>)
    ensures
        logs@.len() == 1,
        says(logs@[0], log_type, text@),
{
    let mut logs: Vec<LogMsg> = Vec::new();
    logs.push(LogMsg::new(log_type, text));
    logs
}

impl BootloaderSearch {
    /// The first step: look for the ClearCore running its firmware.
    pub fn start() -> (step: BootloaderStep)
        ensures
            step.search is FindingSerial,
            step.logs@.len() == 0,
            awaits(step.search, step.work),
    {
        bootloader_step_to(BootloaderSearch::FindingSerial, Vec::new())
    }

    /// The next step, given what came of the work this state asked for.
    pub fn step(self, input: BootloaderInput) -> (step: BootloaderStep)
        ensures
            bootloader_step_post(self, input, step),
    {
        match (self, input) {
            (BootloaderSearch::FindingSerial, BootloaderInput::PortFound(p)) => bootloader_step_to(
                BootloaderSearch::Touching(p.port_name),
                one_log(LogMsgType::Info, String::from_str("cc serial port found")),
            ),
            (BootloaderSearch::FindingSerial, BootloaderInput::PortNotFound) => bootloader_step_to(
                BootloaderSearch::FindingBootloader,
                Vec::new(),
            ),
            (BootloaderSearch::FindingBootloader, BootloaderInput::PortFound(p)) => bootloader_step_to(
                BootloaderSearch::Found(p),
                one_log(
                    LogMsgType::Warn,
                    String::from_str("Clearcore already in bootloader mode, skipping touching to bootloader"),
                ),
            ),
            (BootloaderSearch::FindingBootloader, BootloaderInput::PortNotFound) => bootloader_step_to(
                BootloaderSearch::Failed(String::from_str("Failed to find cc serial port")),
                one_log(LogMsgType::Error, String::from_str("Failed to find cc serial port")),
            ),
            (BootloaderSearch::Touching(p), BootloaderInput::Touched) => {
                let mut opened = String::from_str("cc serial port ");
                opened.append(p.as_str());
                opened.append(" opened");
                let mut closed = String::from_str("cc serial port ");
                closed.append(p.as_str());
                closed.append(" closed");
                let mut logs: Vec<LogMsg> = Vec::new();
                logs.push(LogMsg::new(LogMsgType::Info, opened));
                logs.push(LogMsg::new(LogMsgType::Info, closed));
                bootloader_step_to(BootloaderSearch::AwaitingDisconnect, logs)
            },
            (BootloaderSearch::Touching(p), BootloaderInput::TouchFailed(e)) => {
                let mut text = String::from_str("Failed to open cc serial port ");
                text.append(p.as_str());
                text.append(" at 1200bps. \nThis might not be a problem on windows. Error: ");
                text.append(e.as_str());
                assert(text@ =~= touch_open_failed_text(p@, e@));
                bootloader_step_to(BootloaderSearch::AwaitingDisconnect, one_log(LogMsgType::Error, text))
            },
            (BootloaderSearch::AwaitingDisconnect, BootloaderInput::Changed) => bootloader_step_to(
                BootloaderSearch::AwaitingBootloader,
                one_log(LogMsgType::Info, String::from_str("cc serial port disconnected")),
            ),
            (BootloaderSearch::AwaitingBootloader, BootloaderInput::PortFound(p)) => bootloader_step_to(
                BootloaderSearch::Settling(p),
                one_log(LogMsgType::Info, String::from_str("cc touched to bootloader, waiting 1 second")),
            ),
            (BootloaderSearch::AwaitingDisconnect, BootloaderInput::TimedOut)
            | (BootloaderSearch::AwaitingDisconnect, BootloaderInput::WaitFailed(_))
            | (BootloaderSearch::AwaitingBootloader, BootloaderInput::TimedOut)
            | (BootloaderSearch::AwaitingBootloader, BootloaderInput::WaitFailed(_)) => bootloader_step_to(
                BootloaderSearch::Failed(String::from_str("Failed to touch cc serial port to bootloader")),
                Vec::new(),
            ),
            (BootloaderSearch::Settling(p), BootloaderInput::Slept) => bootloader_step_to(
                BootloaderSearch::Found(p),
                Vec::new(),
            ),
            (other, _) => bootloader_step_to(other, Vec::new()),
        }
    }
}


/// What follows a call into the flashing library.
#[derive(Debug)]
pub enum FlashNext<S> {
    /// Make this call next.
    Call(S),
    /// The work is done.
    Finished,
    /// The work failed with this error.
    Failed(String),
}

/// What came of a call into the flashing library.
#[derive(Debug)]
pub enum CallResult {
    /// The call returned.
    Done,
    /// The call returned a null object or `false`.
    Refused,
    /// The device description that reading the flash information gave, and the flash size in bytes.
    Info { description: String, total_size: u32 },
    /// The verification's verdict and error counts.
    Verified { ok: bool, page_errors: u32, total_errors: u32 },
}

/// The kinds and texts of log lines.
pub open spec fn log_lines(logs: Seq<LogMsg>) -> Seq<(LogMsgType, Seq<char>)> {
    logs.map_values(|m: LogMsg| (m.log_type, m.message@))
}

/// Appends a log line.
pub fn push_log(logs: &mut Vec<LogMsg>, log_type: LogMsgType, text: String)
    ensures
        log_lines(final(logs)@) == log_lines(old(logs)@).push((log_type, text@)),
{
    let ghost before = logs@;
    logs.push(LogMsg::new(log_type, text));
    assert(log_lines(logs@) =~= log_lines(before).push((log_type, text@)));
}


/// A failed 1200 baud touch is only logged: the search goes on to wait for the
/// firmware's port to vanish (on Windows the touch may fail and still work).
pub proof fn failed_touch_is_not_fatal(port: String, error: String, step: BootloaderStep)
    requires
        bootloader_step_post(BootloaderSearch::Touching(port), BootloaderInput::TouchFailed(error), step),
    ensures
        step.search is AwaitingDisconnect,
        step.logs@.len() == 1 && step.logs@[0].log_type == LogMsgType::Error,
{
}

/// The search ends with a port only when a search or wait for the bootloader's USB
/// identity reported it.
pub proof fn found_port_is_the_bootloader(search: BootloaderSearch, input: BootloaderInput, step: BootloaderStep)
    requires
        bootloader_step_post(search, input, step),
        step.search matches BootloaderSearch::Found(_),
        !(search is Found),
    ensures
        (search is FindingBootloader && input is PortFound) || search is Settling,
        search is FindingBootloader ==> bootloader_work_of(search) == BootloaderWork::FindPort(
            UsbId::spec_clearcore_bootloader(),
        ),
{
}

/// The search looks first for the ClearCore's application port (USB 2890:8022); after
/// touching that port it waits up to five seconds for the same identity to vanish,
/// and then up to ten seconds for the bootloader (2890:0022) to appear.
pub proof fn touch_waits_for_the_touched_port_to_vanish(
    port: String,
    input: BootloaderInput,
    touched: BootloaderStep,
    vanished: BootloaderStep,
)
    requires
        input is Touched || input is TouchFailed,
        bootloader_step_post(BootloaderSearch::Touching(port), input, touched),
        bootloader_step_post(BootloaderSearch::AwaitingDisconnect, BootloaderInput::Changed, vanished),
    ensures
        bootloader_work_of(BootloaderSearch::FindingSerial) matches BootloaderWork::FindPort(first) && first.vid == 0x2890 && first.pid
            == 0x8022,
        touched.search is AwaitingDisconnect,
        touched.work matches BootloaderWork::WaitForDisconnect { usb_id, timeout_ms } && usb_id
            == bootloader_work_of(BootloaderSearch::FindingSerial)->FindPort_0 && usb_id != UsbId::spec_clearcore_bootloader()
            && timeout_ms == 5000,
        vanished.work matches BootloaderWork::WaitForPort { usb_id, timeout_ms } && usb_id.vid == 0x2890
            && usb_id.pid == 0x0022 && timeout_ms == 10000,
{
}

/// A line that the flashing library printed, as the log shows it: trimmed, of kind
/// `BossaNative`.
pub fn library_output(text: &str) -> (m: LogMsg)
    ensures
        m.log_type == LogMsgType::BossaNative,
        m.message@ == trim_spec(text@),
{
    LogMsg::new(LogMsgType::BossaNative, String::from_str(trim(text)))
}

} // verus!
