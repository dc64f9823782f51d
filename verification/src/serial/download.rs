//! Firmware download (reading the firmware back from the device): its phases,
//! progress and events.

use vstd::prelude::*;
use vstd::string::*;
use crate::serial::{log_lines, push_log, CallResult, FlashNext, TEKNIC_BOOTLOADER_OFFSET_ADDRESS};
use crate::text::{decimal, push_decimal};
use crate::types::{LogMsg, LogMsgType, SerialConfig, UsbId};

verus! {

/// What a download sends to the download screen.
#[derive(Debug)]
pub enum DownloadEvent {
    Log(LogMsg),
    Error(String),
    ProgressBarUpdate(DownloadProgressBar),
    Success,
}

impl Clone for DownloadEvent {
    fn clone(&self) -> (c: Self)
        ensures
            c == *self,
    {
        match self {
            DownloadEvent::Log(m) => DownloadEvent::Log(m.clone()),
            DownloadEvent::Error(e) => DownloadEvent::Error(e.clone()),
            DownloadEvent::ProgressBarUpdate(p) => DownloadEvent::ProgressBarUpdate(*p),
            DownloadEvent::Success => DownloadEvent::Success,
        }
    }
}

impl DownloadEvent {
    /// A log message of the given kind.
    pub fn log(log_type: LogMsgType, message: String) -> (e: DownloadEvent)
        ensures
            e matches DownloadEvent::Log(m) && m.log_type == log_type && m.message@ == message@,
    {
        DownloadEvent::Log(LogMsg { message, log_type })
    }
}

/// The settings of a download; it reads the whole application area and needs none yet.
#[derive(Clone, Copy, PartialEq, Eq, Structural, Debug)]
pub struct DownloadConfig {}

impl Default for DownloadConfig {
    fn default() -> (c: DownloadConfig)
        ensures
            c == (DownloadConfig {}),
    {
        DownloadConfig {}
    }
}

/// The phases of a download.
#[derive(Clone, Copy, PartialEq, Eq, Structural, Debug)]
pub enum DownloadPhase {
    Initializing,
    Reading,
    Resetting,
}

impl Default for DownloadPhase {
    fn default() -> (p: DownloadPhase)
        ensures
            p == DownloadPhase::Initializing,
    {
        DownloadPhase::Initializing
    }
}

impl DownloadPhase {
    /// The phase as the progress bar names it.
    pub open spec fn label_text(self) -> Seq<char> {
        match self {
            DownloadPhase::Initializing => "Initializing"@,
            DownloadPhase::Reading => "Reading Firmware"@,
            DownloadPhase::Resetting => "Resetting Device"@,
        }
    }

    /// The phase as the progress bar names it.
    pub fn label(&self) -> (s: String)
        ensures
            s@ == self.label_text(),
    {
        match self {
            DownloadPhase::Initializing => String::from_str("Initializing"),
            DownloadPhase::Reading => String::from_str("Reading Firmware"),
            DownloadPhase::Resetting => String::from_str("Resetting Device"),
        }
    }
}

/// A progress report: the phase, and how many of how many pages it has done.
#[derive(Clone, Copy, PartialEq, Eq, Structural, Debug)]
pub struct DownloadProgressBar {
    pub phase: DownloadPhase,
    pub current: u32,
    pub total: u32,
}

/// The progress that the flashing library reports while a download runs.
#[derive(Clone, Copy, Debug)]
pub struct ProgressState {
    pub phase: DownloadPhase,
    pub current: u32,
    pub total: u32,
}

impl ProgressState {
    /// Before the first phase: `Initializing`, 0 of 100.
    pub fn new() -> (s: ProgressState)
        ensures
            s.phase == DownloadPhase::Initializing,
            s.current == 0,
            s.total == 100,
    {
        ProgressState { phase: DownloadPhase::Initializing, current: 0, total: 100 }
    }

    /// Enters a phase; its progress starts at 0 of 100.
    pub fn set_phase(&mut self, phase: DownloadPhase)
        ensures
            final(self).phase == phase,
            final(self).current == 0,
            final(self).total == 100,
    {
        self.phase = phase;
        self.current = 0;
        self.total = 100;
    }

    /// Records the library's progress callback; its signed counts are taken as unsigned
    /// (a negative count wraps, as `as u32` does).
    pub fn record_progress(&mut self, current: i32, total: i32)
        ensures
            final(self).phase == old(self).phase,
            final(self).current == current as u32,
            final(self).total == total as u32,
    {
        self.current = current as u32;
        self.total = total as u32;
    }

    /// The progress bar that shows this state.
    pub fn snapshot(&self) -> (bar: DownloadProgressBar)
        ensures
            bar == (DownloadProgressBar { phase: self.phase, current: self.current, total: self.total }),
    {
        DownloadProgressBar { phase: self.phase, current: self.current, total: self.total }
    }
}

/// How many bytes a download reads: the flash above the bootloader. A flash smaller
/// than the bootloader area is out of the question (the subtraction would overflow).
pub fn firmware_read_size(total_size: u32) -> (size: u32)
    requires
        total_size >= TEKNIC_BOOTLOADER_OFFSET_ADDRESS,
    ensures
        size == total_size - TEKNIC_BOOTLOADER_OFFSET_ADDRESS,
{
    total_size - TEKNIC_BOOTLOADER_OFFSET_ADDRESS
}


/// The calls that a download makes into the flashing library, in order.
#[derive(Clone, Copy, PartialEq, Eq, Structural, Debug)]
pub enum DownloadStep {
    /// Create the serial port factory.
    CreatePortFactory,
    /// Create the serial port of the bootloader.
    CreatePort,
    /// Create the SAM-BA client.
    CreateSamba,
    /// Connect the client over the port at 115200 baud.
    Connect,
    /// Create and detect the device.
    CreateDevice,
    /// Create the observer that forwards the library's output.
    CreateObserver,
    /// Create the flasher and the record of the flash information.
    CreateFlasherInfo,
    /// Read the flash information.
    ReadInfo,
    /// Read this many bytes of the application area into the file.
    Read(u32),
    /// Reset the device.
    Reset,
}

/// What follows a call of a download: log lines to show, maybe a phase to enter, and
/// what comes next.
#[derive(Debug)]
pub struct DownloadTransition {
    pub logs: Vec<LogMsg>,
    pub phase: Option<DownloadPhase>,
    pub next: FlashNext<DownloadStep>,
}

/// A download of the firmware through the bootloader at a serial port into a file.
#[derive(Debug)]
pub struct DownloadJob {
    pub port_name: String,
    pub save_path: String,
}

impl Clone for DownloadJob {
    fn clone(&self) -> (c: Self)
        ensures
            c == *self,
    {
        DownloadJob { port_name: self.port_name.clone(), save_path: self.save_path.clone() }
    }
}

/// `t` continues with `next` after showing `lines` and entering `phase`.
pub open spec fn goes_on(
    t: DownloadTransition,
    lines: Seq<(LogMsgType, Seq<char>)>,
    phase: Option<DownloadPhase>,
    next: DownloadStep,
) -> bool {
    &&& log_lines(t.logs@) == lines
    &&& t.phase == phase
    &&& t.next == FlashNext::Call(next)
}

/// `t` ends the download with the error `text`.
pub open spec fn download_fails(t: DownloadTransition, text: Seq<char>) -> bool {
    &&& t.logs@.len() == 0
    &&& t.phase is None
    &&& t.next matches FlashNext::Failed(e) && e@ == text
}

/// The result of each call can be taken as it comes: the flash information names a
/// flash at least as large as the bootloader area (a smaller one would make the read
/// size overflow).
pub open spec fn download_result_fits(step: DownloadStep, result: CallResult) -> bool {
    step is ReadInfo ==> (result matches CallResult::Info { total_size, .. }
        && total_size >= TEKNIC_BOOTLOADER_OFFSET_ADDRESS)
}

/// How a download goes on after each call. A null object or `false` from a call that
/// the download checks ends it with that call's error. The flash information gives the
/// size to read: the flash above the bootloader. Reading and resetting each enter their
/// phase.
pub open spec fn download_after_post(
    job: DownloadJob,
    step: DownloadStep,
    result: CallResult,
    t: DownloadTransition,
) -> bool {
    let info = |text: Seq<char>| (LogMsgType::Info, text);
    let debug = |text: Seq<char>| (LogMsgType::Debug, text);
    match step {
        DownloadStep::CreatePortFactory => if result is Refused {
            download_fails(t, "Failed to create Port Factory"@)
        } else {
            goes_on(t, seq![], None, DownloadStep::CreatePort)
        },
        DownloadStep::CreatePort => if result is Refused {
            download_fails(t, "Failed to create serial port: "@ + job.port_name@)
        } else {
            goes_on(t, seq![debug("Serial port created successfully"@)], None, DownloadStep::CreateSamba)
        },
        DownloadStep::CreateSamba => if result is Refused {
            download_fails(t, "Failed to create Samba"@)
        } else {
            goes_on(t, seq![], None, DownloadStep::Connect)
        },
        DownloadStep::Connect => if result is Refused {
            download_fails(
                t,
                "Failed to connect to device at "@ + job.port_name@ + " via Samba at 115200 baud."@,
            )
        } else {
            goes_on(t, seq![info("Connected to device via Samba"@)], None, DownloadStep::CreateDevice)
        },
        DownloadStep::CreateDevice => if result is Refused {
            download_fails(t, "Failed to create Device"@)
        } else {
            goes_on(t, seq![debug("Device created successfully"@)], None, DownloadStep::CreateObserver)
        },
        DownloadStep::CreateObserver => if result is Refused {
            download_fails(t, "Failed to create Bossa Observer"@)
        } else {
            goes_on(t, seq![], None, DownloadStep::CreateFlasherInfo)
        },
        DownloadStep::CreateFlasherInfo => if result is Refused {
            download_fails(t, "Failed to create Flasher Info"@)
        } else {
            goes_on(t, seq![], None, DownloadStep::ReadInfo)
        },
        DownloadStep::ReadInfo => match result {
            CallResult::Info { description, total_size } => goes_on(
                t,
                seq![
                    info("Found SAMBA device: "@ + description@),
                    info("Detected Flash Size: "@ + decimal(total_size as nat) + " bytes"@),
                    info("Reading firmware to "@ + job.save_path@),
                ],
                Some(DownloadPhase::Reading),
                DownloadStep::Read((total_size - TEKNIC_BOOTLOADER_OFFSET_ADDRESS) as u32),
            ),
            _ => false,
        },
        DownloadStep::Read(_) => goes_on(
            t,
            seq![info("Firmware read complete"@), info("Resetting device..."@)],
            Some(DownloadPhase::Resetting),
            DownloadStep::Reset,
        ),
        DownloadStep::Reset => {
            &&& log_lines(t.logs@) == seq![info("Reset complete"@)]
            &&& t.phase is None
            &&& t.next is Finished
        },
    }
}

impl DownloadJob {
    /// The first call of the download.
    pub fn first_step() -> (step: DownloadStep)
        ensures
            step == DownloadStep::CreatePortFactory,
    {
        DownloadStep::CreatePortFactory
    }

    fn fail(text: String) -> (t: DownloadTransition)
        ensures
            download_fails(t, text@),
    {
        DownloadTransition { logs: Vec::new(), phase: None, next: FlashNext::Failed(text) }
    }

    fn quietly(next: DownloadStep) -> (t: DownloadTransition)
        ensures
            goes_on(t, seq![], None, next),
    {
        let logs: Vec<LogMsg> = Vec::new();
        assert(log_lines(logs@) =~= seq![]);
        DownloadTransition { logs, phase: None, next: FlashNext::Call(next) }
    }

    fn logging(log_type: LogMsgType, text: String, next: DownloadStep) -> (t: DownloadTransition)
        ensures
            goes_on(t, seq![(log_type, text@)], None, next),
    {
        let mut logs: Vec<LogMsg> = Vec::new();
        assert(log_lines(logs@) =~= Seq::empty());
        push_log(&mut logs, log_type, text);
        assert(log_lines(logs@) =~= seq![(log_type, text@)]);
        DownloadTransition { logs, phase: None, next: FlashNext::Call(next) }
    }

    /// What follows a call of the download.
    pub fn after(&self, step: DownloadStep, result: CallResult) -> (t: DownloadTransition)
        requires
            download_result_fits(step, result),
        ensures
            download_after_post(*self, step, result, t),
    {
        let refused = match result {
            CallResult::Refused => true,
            _ => false,
        };
        match step {
            DownloadStep::CreatePortFactory => if refused {
                Self::fail(String::from_str("Failed to create Port Factory"))
            } else {
                Self::quietly(DownloadStep::CreatePort)
            },
            DownloadStep::CreatePort => if refused {
                let mut e = String::from_str("Failed to create serial port: ");
                e.append(self.port_name.as_str());
                Self::fail(e)
            } else {
                Self::logging(
                    LogMsgType::Debug,
                    String::from_str("Serial port created successfully"),
                    DownloadStep::CreateSamba,
                )
            },
            DownloadStep::CreateSamba => if refused {
                Self::fail(String::from_str("Failed to create Samba"))
            } else {
                Self::quietly(DownloadStep::Connect)
            },
            DownloadStep::Connect => if refused {
                let mut e = String::from_str("Failed to connect to device at ");
                e.append(self.port_name.as_str());
                e.append(" via Samba at 115200 baud.");
                Self::fail(e)
            } else {
                Self::logging(
                    LogMsgType::Info,
                    String::from_str("Connected to device via Samba"),
                    DownloadStep::CreateDevice,
                )
            },
            DownloadStep::CreateDevice => if refused {
                Self::fail(String::from_str("Failed to create Device"))
            } else {
                Self::logging(
                    LogMsgType::Debug,
                    String::from_str("Device created successfully"),
                    DownloadStep::CreateObserver,
                )
            },
            DownloadStep::CreateObserver => if refused {
                Self::fail(String::from_str("Failed to create Bossa Observer"))
            } else {
                Self::quietly(DownloadStep::CreateFlasherInfo)
            },
            DownloadStep::CreateFlasherInfo => if refused {
                Self::fail(String::from_str("Failed to create Flasher Info"))
            } else {
                Self::quietly(DownloadStep::ReadInfo)
            },
            DownloadStep::ReadInfo => {
                let (description, total_size) = match result {
                    CallResult::Info { description, total_size } => (description, total_size),
                    _ => (String::new(), TEKNIC_BOOTLOADER_OFFSET_ADDRESS),
                };
                let mut found = String::from_str("Found SAMBA device: ");
                found.append(description.as_str());
                let mut size = String::from_str("Detected Flash Size: ");
                push_decimal(&mut size, total_size);
                size.append(" bytes");
                let mut reading = String::from_str("Reading firmware to ");
                reading.append(self.save_path.as_str());
                let mut logs: Vec<LogMsg> = Vec::new();
                assert(log_lines(logs@) =~= Seq::empty());
                push_log(&mut logs, LogMsgType::Info, found);
                push_log(&mut logs, LogMsgType::Info, size);
                push_log(&mut logs, LogMsgType::Info, reading);
                proof {
                    assert(size@ =~= "Detected Flash Size: "@ + decimal(total_size as nat) + " bytes"@);
                    assert(log_lines(logs@) =~= seq![
                        (LogMsgType::Info, "Found SAMBA device: "@ + description@),
                        (LogMsgType::Info, "Detected Flash Size: "@ + decimal(total_size as nat) + " bytes"@),
                        (LogMsgType::Info, "Reading firmware to "@ + self.save_path@),
                    ]);
                }
                let read_size = firmware_read_size(total_size);
                DownloadTransition {
                    logs,
                    phase: Some(DownloadPhase::Reading),
                    next: FlashNext::Call(DownloadStep::Read(read_size)),
                }
            },
            DownloadStep::Read(_) => {
                let mut logs: Vec<LogMsg> = Vec::new();
                assert(log_lines(logs@) =~= Seq::empty());
                push_log(&mut logs, LogMsgType::Info, String::from_str("Firmware read complete"));
                push_log(&mut logs, LogMsgType::Info, String::from_str("Resetting device..."));
                assert(log_lines(logs@) =~= seq![
                    (LogMsgType::Info, "Firmware read complete"@),
                    (LogMsgType::Info, "Resetting device..."@),
                ]);
                DownloadTransition {
                    logs,
                    phase: Some(DownloadPhase::Resetting),
                    next: FlashNext::Call(DownloadStep::Reset),
                }
            },
            DownloadStep::Reset => {
                let mut logs: Vec<LogMsg> = Vec::new();
                assert(log_lines(logs@) =~= Seq::empty());
                push_log(&mut logs, LogMsgType::Info, String::from_str("Reset complete"));
                assert(log_lines(logs@) =~= seq![(LogMsgType::Info, "Reset complete"@)]);
                DownloadTransition { logs, phase: None, next: FlashNext::Finished }
            },
        }
    }
}


/// Where a download stands, from the temporary file to the rebooted ClearCore.
#[derive(Debug)]
pub enum DownloadStage {
    /// Finding the temporary file to read the firmware into.
    PreparingPath,
    /// Getting the ClearCore into its bootloader; the firmware goes to this file.
    GettingBootloader(String),
    /// Running the reading job.
    Reading(DownloadJob),
    /// Waiting for the ClearCore to come back.
    AwaitingReboot,
    /// The download succeeded.
    Succeeded,
    /// The download failed with this error.
    Failed(String),
}

/// The outside work that a download asks for next.
#[derive(Debug)]
pub enum DownloadWork {
    /// Find (and create the folder of) the temporary file.
    PrepareTempPath,
    /// Get the ClearCore into its bootloader.
    GetBootloader,
    /// Run the reading job.
    Read(DownloadJob),
    /// Wait until a port is this USB device, for at most this many milliseconds.
    WaitForPort { usb_id: UsbId, timeout_ms: u64 },
    /// Nothing more: send the final event.
    Finish(DownloadEvent),
}

/// What came of a download's outside work.
#[derive(Debug)]
pub enum DownloadInput {
    /// The temporary file's path.
    TempPathReady(String),
    /// The temporary file's path is not valid Unicode.
    TempPathNotText,
    /// The bootloader is at this port.
    BootloaderReady(String),
    /// Getting to the bootloader failed with this error.
    BootloaderFailed(String),
    Read,
    /// Reading failed with this error.
    ReadFailed(String),
    /// The ClearCore's port is back.
    PortFound,
    TimedOut,
    /// Waiting failed with this error.
    WaitFailed(String),
}

/// One step of a download: the new stage, the log lines to show, and the work to do next.
#[derive(Debug)]
pub struct DownloadSequenceStep {
    pub stage: DownloadStage,
    pub logs: Vec<LogMsg>,
    pub work: DownloadWork,
}

/// The work that a stage waits on.
pub open spec fn download_work_of(stage: DownloadStage) -> DownloadWork {
    match stage {
        DownloadStage::PreparingPath => DownloadWork::PrepareTempPath,
        DownloadStage::GettingBootloader(_) => DownloadWork::GetBootloader,
        DownloadStage::Reading(job) => DownloadWork::Read(job),
        DownloadStage::AwaitingReboot => DownloadWork::WaitForPort {
            usb_id: UsbId::spec_clearcore_serial(),
            timeout_ms: 10000,
        },
        DownloadStage::Succeeded => DownloadWork::Finish(DownloadEvent::Success),
        DownloadStage::Failed(e) => DownloadWork::Finish(DownloadEvent::Error(e)),
    }
}

/// `step` ends the download with the error `text`: no log line, and an `Error` event.
pub open spec fn download_sequence_fails(step: DownloadSequenceStep, text: Seq<char>) -> bool {
    &&& step.stage matches DownloadStage::Failed(e) && e@ == text
    &&& step.logs@.len() == 0
    &&& step.work matches DownloadWork::Finish(DownloadEvent::Error(e)) && e@ == text
}

/// `step` moves to `stage`, after showing `lines`, and asks for the stage's work.
pub open spec fn download_sequence_moves(
    step: DownloadSequenceStep,
    lines: Seq<(LogMsgType, Seq<char>)>,
    stage: DownloadStage,
) -> bool {
    &&& step.stage == stage
    &&& log_lines(step.logs@) == lines
    &&& step.work == download_work_of(stage)
}

/// How a download proceeds: find the temporary file, get the bootloader, read the
/// firmware into the file, then wait up to ten seconds for the ClearCore to come
/// back; any failure ends it with an `Error` event that names it, and the end of the
/// wait with a `Success` event. An input that a stage does not wait for changes nothing.
pub open spec fn download_sequence_post(stage: DownloadStage, input: DownloadInput, step: DownloadSequenceStep) -> bool {
    let info = |text: Seq<char>| (LogMsgType::Info, text);
    match (stage, input) {
        (DownloadStage::PreparingPath, DownloadInput::TempPathReady(path)) => {
            &&& step.stage matches DownloadStage::GettingBootloader(p) && p@ == path@
            &&& step.logs@.len() == 0
            &&& step.work is GetBootloader
        },
        (DownloadStage::PreparingPath, DownloadInput::TempPathNotText) => download_sequence_fails(
            step,
            "Failed to convert temp path to string"@,
        ),
        (DownloadStage::GettingBootloader(path), DownloadInput::BootloaderReady(port)) => {
            &&& step.stage matches DownloadStage::Reading(job) && job.port_name@ == port@ && job.save_path@
                == path@
            &&& log_lines(step.logs@) == seq![info("Bootloader Port: "@ + port@)]
            &&& step.work == download_work_of(step.stage)
        },
        (DownloadStage::GettingBootloader(_), DownloadInput::BootloaderFailed(e)) => download_sequence_fails(
            step,
            e@,
        ),
        (DownloadStage::Reading(_), DownloadInput::Read) => download_sequence_moves(
            step,
            seq![info("Firmware downloaded successfully"@)],
            DownloadStage::AwaitingReboot,
        ),
        (DownloadStage::Reading(_), DownloadInput::ReadFailed(e)) => download_sequence_fails(
            step,
            "Failed to download firmware: "@ + e@,
        ),
        (DownloadStage::AwaitingReboot, DownloadInput::PortFound) => download_sequence_moves(
            step,
            seq![info("ClearCore found after reboot."@)],
            DownloadStage::Succeeded,
        ),
        (DownloadStage::AwaitingReboot, DownloadInput::TimedOut) => download_sequence_fails(
            step,
            "deadline has elapsed"@,
        ),
        (DownloadStage::AwaitingReboot, DownloadInput::WaitFailed(e)) => download_sequence_fails(step, e@),
        (other, _) => download_sequence_moves(step, seq![], other),
    }
}

impl DownloadStage {
    /// The first step of a download: announce it and find the temporary file.
    pub fn start() -> (step: DownloadSequenceStep)
        ensures
            step.stage is PreparingPath,
            log_lines(step.logs@) == seq![(LogMsgType::Info, "Starting firmware download sequence..."@)],
            step.work is PrepareTempPath,
    {
        let mut logs: Vec<LogMsg> = Vec::new();
        assert(log_lines(logs@) =~= Seq::empty());
        push_log(&mut logs, LogMsgType::Info, String::from_str("Starting firmware download sequence..."));
        assert(log_lines(logs@) =~= seq![(LogMsgType::Info, "Starting firmware download sequence..."@)]);
        DownloadSequenceStep { stage: DownloadStage::PreparingPath, logs, work: DownloadWork::PrepareTempPath }
    }

    fn work_of(&self) -> (w: DownloadWork)
        ensures
            w == download_work_of(*self),
    {
        match self {
            DownloadStage::PreparingPath => DownloadWork::PrepareTempPath,
            DownloadStage::GettingBootloader(_) => DownloadWork::GetBootloader,
            DownloadStage::Reading(job) => DownloadWork::Read(job.clone()),
            DownloadStage::AwaitingReboot => DownloadWork::WaitForPort {
                usb_id: UsbId::clearcore_serial(),
                timeout_ms: 10000,
            },
            DownloadStage::Succeeded => DownloadWork::Finish(DownloadEvent::Success),
            DownloadStage::Failed(e) => DownloadWork::Finish(DownloadEvent::Error(e.clone())),
        }
    }

    fn fail(text: String) -> (step: DownloadSequenceStep)
        ensures
            download_sequence_fails(step, text@),
    {
        let event = DownloadEvent::Error(text.clone());
        DownloadSequenceStep { stage: DownloadStage::Failed(text), logs: Vec::new(), work: DownloadWork::Finish(event) }
    }

    fn moving(lines: Vec<LogMsg>, stage: DownloadStage) -> (step: DownloadSequenceStep)
        ensures
            step.stage == stage,
            step.logs@ == lines@,
            step.work == download_work_of(stage),
    {
        let work = stage.work_of();
        DownloadSequenceStep { stage, logs: lines, work }
    }

    fn one_line(text: String) -> (logs: Vec<LogMsg>)
        ensures
            log_lines(logs@) == seq![(LogMsgType::Info, text@)],
    {
        let mut logs: Vec<LogMsg> = Vec::new();
        assert(log_lines(logs@) =~= Seq::empty());
        push_log(&mut logs, LogMsgType::Info, text);
        assert(log_lines(logs@) =~= seq![(LogMsgType::Info, text@)]);
        logs
    }

    /// The next step of the download, given what came of the work this stage asked for.
    pub fn step(self, input: DownloadInput) -> (step: DownloadSequenceStep)
        ensures
            download_sequence_post(self, input, step),
    {
        let none: Vec<LogMsg> = Vec::new();
        assert(log_lines(none@) =~= seq![]);
        match (self, input) {
            (DownloadStage::PreparingPath, DownloadInput::TempPathReady(path)) => Self::moving(
                none,
                DownloadStage::GettingBootloader(path),
            ),
            (DownloadStage::PreparingPath, DownloadInput::TempPathNotText) => Self::fail(
                String::from_str("Failed to convert temp path to string"),
            ),
            (DownloadStage::GettingBootloader(path), DownloadInput::BootloaderReady(port)) => {
                let mut text = String::from_str("Bootloader Port: ");
                text.append(port.as_str());
                Self::moving(Self::one_line(text), DownloadStage::Reading(DownloadJob { port_name: port, save_path: path }))
            },
            (DownloadStage::GettingBootloader(_), DownloadInput::BootloaderFailed(e)) => Self::fail(e),
            (DownloadStage::Reading(_), DownloadInput::Read) => Self::moving(
                Self::one_line(String::from_str("Firmware downloaded successfully")),
                DownloadStage::AwaitingReboot,
            ),
            (DownloadStage::Reading(_), DownloadInput::ReadFailed(e)) => {
                let mut text = String::from_str("Failed to download firmware: ");
                text.append(e.as_str());
                Self::fail(text)
            },
            (DownloadStage::AwaitingReboot, DownloadInput::PortFound) => Self::moving(
                Self::one_line(String::from_str("ClearCore found after reboot.")),
                DownloadStage::Succeeded,
            ),
            (DownloadStage::AwaitingReboot, DownloadInput::TimedOut) => Self::fail(
                String::from_str("deadline has elapsed"),
            ),
            (DownloadStage::AwaitingReboot, DownloadInput::WaitFailed(e)) => Self::fail(e),
            (other, _) => Self::moving(none, other),
        }
    }
}


/// A download reports success only when the ClearCore came back after the reading.
pub proof fn download_success_only_after_reboot(
    stage: DownloadStage,
    input: DownloadInput,
    step: DownloadSequenceStep,
)
    requires
        download_sequence_post(stage, input, step),
        step.work matches DownloadWork::Finish(e) && e is Success,
        !(stage is Succeeded),
    ensures
        stage is AwaitingReboot,
        input is PortFound,
{
}

/// The reading job reads exactly the flash above the bootloader that the device reported.
pub proof fn reads_the_application_area(job: DownloadJob, result: CallResult, t: DownloadTransition)
    requires
        download_result_fits(DownloadStep::ReadInfo, result),
        download_after_post(job, DownloadStep::ReadInfo, result, t),
    ensures
        t.next matches FlashNext::Call(DownloadStep::Read(size)) && size + TEKNIC_BOOTLOADER_OFFSET_ADDRESS
            == result->total_size,
        t.phase == Some(DownloadPhase::Reading),
{
}

/// Once the firmware is read, the download waits up to ten seconds for the
/// ClearCore's application serial port (USB 2890:8022, the port the serial monitor
/// uses) to come back, not for the bootloader (2890:0022); and it reports success
/// only when that wait finds the port.
pub proof fn download_awaits_the_application_port(
    job: DownloadJob,
    read: DownloadSequenceStep,
    stage: DownloadStage,
    input: DownloadInput,
    finished: DownloadSequenceStep,
)
    requires
        download_sequence_post(DownloadStage::Reading(job), DownloadInput::Read, read),
        download_sequence_post(stage, input, finished),
        finished.work matches DownloadWork::Finish(e) && e is Success,
        !(stage is Succeeded),
    ensures
        read.stage is AwaitingReboot,
        read.work matches DownloadWork::WaitForPort { usb_id, timeout_ms } && usb_id.vid == 0x2890 && usb_id.pid
            == 0x8022 && usb_id == SerialConfig::spec_serial_monitor().usb_id && usb_id
            != UsbId::spec_clearcore_bootloader() && timeout_ms == 10000,
        stage is AwaitingReboot && input is PortFound,
        download_work_of(stage) == read.work,
{
}

/// A call that a download makes into the flashing library, with its arguments.
#[derive(Debug)]
pub enum DownloadCall {
    CreatePortFactory,
    /// Create the serial port of this name; `usb` marks it as a USB port.
    CreatePort { port_name: String, usb: bool },
    CreateSamba,
    /// Connect the SAM-BA client over the port at this many bits per second.
    Connect { baud_rate: i32 },
    CreateDevice,
    CreateObserver,
    /// Create the flasher and the record of the flash information.
    CreateFlasherInfo,
    ReadInfo,
    /// Read `size` bytes of the flash from the address `offset` into the file `path`.
    Read { path: String, size: u32, offset: u32 },
    Reset,
}

/// The call that a step of the download makes: the bootloader's port, as a USB port;
/// a connection at 115200 baud; and the read of the application area, from just
/// above the bootloader, into the job's file.
pub open spec fn download_call_is(job: DownloadJob, step: DownloadStep, call: DownloadCall) -> bool {
    match step {
        DownloadStep::CreatePortFactory => call is CreatePortFactory,
        DownloadStep::CreatePort => call matches DownloadCall::CreatePort { port_name, usb } && port_name@
            == job.port_name@ && usb,
        DownloadStep::CreateSamba => call is CreateSamba,
        DownloadStep::Connect => call == DownloadCall::Connect { baud_rate: 115200 },
        DownloadStep::CreateDevice => call is CreateDevice,
        DownloadStep::CreateObserver => call is CreateObserver,
        DownloadStep::CreateFlasherInfo => call is CreateFlasherInfo,
        DownloadStep::ReadInfo => call is ReadInfo,
        DownloadStep::Read(n) => call matches DownloadCall::Read { path, size, offset } && path@ == job.save_path@
            && size == n && offset == TEKNIC_BOOTLOADER_OFFSET_ADDRESS,
        DownloadStep::Reset => call is Reset,
    }
}

impl DownloadJob {
    /// The call that a step of this download makes, with its arguments.
    pub fn call(&self, step: DownloadStep) -> (call: DownloadCall)
        ensures
            download_call_is(*self, step, call),
    {
        match step {
            DownloadStep::CreatePortFactory => DownloadCall::CreatePortFactory,
            DownloadStep::CreatePort => DownloadCall::CreatePort { port_name: self.port_name.clone(), usb: true },
            DownloadStep::CreateSamba => DownloadCall::CreateSamba,
            DownloadStep::Connect => DownloadCall::Connect { baud_rate: 115200 },
            DownloadStep::CreateDevice => DownloadCall::CreateDevice,
            DownloadStep::CreateObserver => DownloadCall::CreateObserver,
            DownloadStep::CreateFlasherInfo => DownloadCall::CreateFlasherInfo,
            DownloadStep::ReadInfo => DownloadCall::ReadInfo,
            DownloadStep::Read(size) => DownloadCall::Read {
                path: self.save_path.clone(),
                size,
                offset: TEKNIC_BOOTLOADER_OFFSET_ADDRESS,
            },
            DownloadStep::Reset => DownloadCall::Reset,
        }
    }
}

} // verus!
