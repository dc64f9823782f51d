//! Firmware upload: its phases, progress and events, and the checks on what the
//! flashing library reports.

use vstd::prelude::*;
use vstd::string::*;
use crate::serial::{log_lines, push_log, CallResult, FlashNext, TEKNIC_BOOTLOADER_OFFSET_ADDRESS};
use crate::text::{decimal, push_decimal};
use crate::types::{LogMsg, LogMsgType, SerialConfig, UsbId};

verus! {

/// What an upload sends to the upload screen.
#[derive(Debug)]
pub enum UploadEvent {
    Log(LogMsg),
    Error(String),
    ProgressBarUpdate(UploadProgressBar),
    Success,
}

impl Clone for UploadEvent {
    fn clone(&self) -> (c: Self)
        ensures
            c == *self,
    {
        match self {
            UploadEvent::Log(m) => UploadEvent::Log(m.clone()),
            UploadEvent::Error(e) => UploadEvent::Error(e.clone()),
            UploadEvent::ProgressBarUpdate(p) => UploadEvent::ProgressBarUpdate(*p),
            UploadEvent::Success => UploadEvent::Success,
        }
    }
}

impl UploadEvent {
    /// A log message of the given kind.
    pub fn log(log_type: LogMsgType, message: String) -> (e: UploadEvent)
        ensures
            e matches UploadEvent::Log(m) && m.log_type == log_type && m.message@ == message@,
    {
        UploadEvent::Log(LogMsg::new(log_type, message))
    }
}

/// Which firmware file to upload.
#[derive(Debug, Hash)]
pub struct UploadConfig {
    pub file_path: String,
}

impl Clone for UploadConfig {
    fn clone(&self) -> (c: Self)
        ensures
            c == *self,
    {
        UploadConfig { file_path: self.file_path.clone() }
    }
}

/// The phases of an upload.
#[derive(Clone, Copy, PartialEq, Eq, Structural, Debug)]
pub enum UploadPhase {
    Initializing,
    Erasing,
    Writing,
    Verifying,
    Resetting,
}

impl Default for UploadPhase {
    fn default() -> (p: UploadPhase)
        ensures
            p == UploadPhase::Initializing,
    {
        UploadPhase::Initializing
    }
}

impl UploadPhase {
    /// The phase as the progress bar names it.
    pub open spec fn label_text(self) -> Seq<char> {
        match self {
            UploadPhase::Initializing => "Initializing"@,
            UploadPhase::Erasing => "Erasing Flash"@,
            UploadPhase::Writing => "Writing Firmware"@,
            UploadPhase::Verifying => "Verifying Firmware"@,
            UploadPhase::Resetting => "Resetting Device"@,
        }
    }

    /// The phase as the progress bar names it.
    pub fn label(&self) -> (s: String)
        ensures
            s@ == self.label_text(),
    {
        match self {
            UploadPhase::Initializing => String::from_str("Initializing"),
            UploadPhase::Erasing => String::from_str("Erasing Flash"),
            UploadPhase::Writing => String::from_str("Writing Firmware"),
            UploadPhase::Verifying => String::from_str("Verifying Firmware"),
            UploadPhase::Resetting => String::from_str("Resetting Device"),
        }
    }
}

/// A progress report: the phase, and how many of how many pages it has done.
#[derive(Clone, Copy, PartialEq, Eq, Structural, Debug)]
pub struct UploadProgressBar {
    pub phase: UploadPhase,
    pub current: u32,
    pub total: u32,
}

/// The progress that the flashing library reports while an upload runs.
#[derive(Clone, Copy, Debug)]
pub struct ProgressState {
    pub phase: UploadPhase,
    pub current: u32,
    pub total: u32,
}

impl ProgressState {
    /// Before the first phase: `Initializing`, 0 of 100.
    pub fn new() -> (s: ProgressState)
        ensures
            s.phase == UploadPhase::Initializing,
            s.current == 0,
            s.total == 100,
    {
        ProgressState { phase: UploadPhase::Initializing, current: 0, total: 100 }
    }

    /// Enters a phase; its progress starts at 0 of 100.
    pub fn set_phase(&mut self, phase: UploadPhase)
        ensures
            final(self).phase == phase,
            final(self).current == 0,
            final(self).total == 100,
    {
        self.phase = phase;
        self.current = 0;
        self.total = 100;
    }

    /// Records the library's progress callback; its signed counts are taken as unsigned
    /// (a negative count wraps, as `as u32` does).
    pub fn record_progress(&mut self, current: i32, total: i32)
        ensures
            final(self).phase == old(self).phase,
            final(self).current == current as u32,
            final(self).total == total as u32,
    {
        self.current = current as u32;
        self.total = total as u32;
    }

    /// The progress bar that shows this state.
    pub fn snapshot(&self) -> (bar: UploadProgressBar)
        ensures
            bar == (UploadProgressBar { phase: self.phase, current: self.current, total: self.total }),
    {
        UploadProgressBar { phase: self.phase, current: self.current, total: self.total }
    }
}

/// `Verification failed: P page errors, T total errors`.
pub open spec fn verification_failed_text(page_errors: u32, total_errors: u32) -> Seq<char> {
    "Verification failed: "@ + decimal(page_errors as nat) + " page errors, "@ + decimal(total_errors as nat)
        + " total errors"@
}

/// Judges the flashing library's verification of the written firmware: it fails when
/// the library reports failure or counts any error.
pub fn check_verification(verify_ok: bool, page_errors: u32, total_errors: u32) -> (r: Result<(), String>)
    ensures
        r is Ok <==> (verify_ok && total_errors == 0),
        r matches Err(e) ==> e@ == verification_failed_text(page_errors, total_errors),
{
    if !verify_ok || total_errors > 0 {
        let mut e = String::from_str("Verification failed: ");
        push_decimal(&mut e, page_errors);
        e.append(" page errors, ");
        push_decimal(&mut e, total_errors);
        e.append(" total errors");
        assert(e@ =~= verification_failed_text(page_errors, total_errors));
        Err(e)
    } else {
        Ok(())
    }
}


/// The calls that an upload makes into the flashing library, in order.
#[derive(Clone, Copy, PartialEq, Eq, Structural, Debug)]
pub enum UploadStep {
    /// Create the serial port of the bootloader.
    CreatePort,
    /// Create the SAM-BA client.
    CreateSamba,
    /// Connect the client over the port at 115200 baud.
    Connect,
    /// Create and detect the device.
    CreateDevice,
    /// Create the observer that forwards the library's output.
    CreateObserver,
    /// Create the flasher.
    CreateFlasher,
    /// Read the flash information.
    ReadInfo,
    /// Erase the application area.
    Erase,
    /// Write the firmware file to the application area.
    Write,
    /// Verify the application area against the file.
    Verify,
    /// Reset the device.
    Reset,
}

/// What follows a call of an upload: log lines to show, maybe a phase to enter, and
/// what comes next.
#[derive(Debug)]
pub struct UploadTransition {
    pub logs: Vec<LogMsg>,
    pub phase: Option<UploadPhase>,
    pub next: FlashNext<UploadStep>,
}

/// An upload of a firmware file through the bootloader at a serial port.
#[derive(Debug)]
pub struct UploadJob {
    pub port_name: String,
    pub firmware_path: String,
}

impl Clone for UploadJob {
    fn clone(&self) -> (c: Self)
        ensures
            c == *self,
    {
        UploadJob { port_name: self.port_name.clone(), firmware_path: self.firmware_path.clone() }
    }
}

/// `t` continues with `next` after showing `lines` and entering `phase`.
pub open spec fn continues(
    t: UploadTransition,
    lines: Seq<(LogMsgType, Seq<char>)>,
    phase: Option<UploadPhase>,
    next: UploadStep,
) -> bool {
    &&& log_lines(t.logs@) == lines
    &&& t.phase == phase
    &&& t.next == FlashNext::Call(next)
}

/// `t` ends the upload with the error `text`.
pub open spec fn upload_fails(t: UploadTransition, text: Seq<char>) -> bool {
    &&& t.logs@.len() == 0
    &&& t.phase is None
    &&& t.next matches FlashNext::Failed(e) && e@ == text
}

/// The description that reading the flash information gave (empty for another result).
pub open spec fn info_description(result: CallResult) -> Seq<char> {
    match result {
        CallResult::Info { description, .. } => description@,
        _ => Seq::empty(),
    }
}

/// The verification's verdict (a result that is no verdict counts as a failure without
/// errors).
pub open spec fn verdict(result: CallResult) -> (bool, u32, u32) {
    match result {
        CallResult::Verified { ok, page_errors, total_errors } => (ok, page_errors, total_errors),
        _ => (false, 0, 0),
    }
}

/// How an upload goes on after each call. A call whose null object or `false` the
/// upload checks (port, SAM-BA client, connection, observer) ends it with its error;
/// the others always go on. Erasing, writing, verifying and resetting each enter their
/// phase; a failed verification ends the upload.
pub open spec fn upload_after_post(job: UploadJob, step: UploadStep, result: CallResult, t: UploadTransition) -> bool {
    let info = |text: Seq<char>| (LogMsgType::Info, text);
    let debug = |text: Seq<char>| (LogMsgType::Debug, text);
    match step {
        UploadStep::CreatePort => if result is Refused {
            upload_fails(t, "Failed to create serial port: "@ + job.port_name@)
        } else {
            continues(t, seq![debug("Serial port created successfully"@)], None, UploadStep::CreateSamba)
        },
        UploadStep::CreateSamba => if result is Refused {
            upload_fails(t, "Failed to create Samba"@)
        } else {
            continues(t, seq![debug("Samba created successfully"@)], None, UploadStep::Connect)
        },
        UploadStep::Connect => if result is Refused {
            upload_fails(t, "Failed to connect to device via Samba"@)
        } else {
            continues(t, seq![info("Connected to device via Samba"@)], None, UploadStep::CreateDevice)
        },
        UploadStep::CreateDevice => continues(
            t,
            seq![debug("Device created successfully"@)],
            None,
            UploadStep::CreateObserver,
        ),
        UploadStep::CreateObserver => if result is Refused {
            upload_fails(t, "Failed to create observer"@)
        } else {
            continues(t, seq![debug("Observer created successfully"@)], None, UploadStep::CreateFlasher)
        },
        UploadStep::CreateFlasher => continues(
            t,
            seq![debug("Flasher created successfully"@)],
            None,
            UploadStep::ReadInfo,
        ),
        UploadStep::ReadInfo => continues(
            t,
            seq![info("Device info: "@ + info_description(result)), info("Erasing flash..."@)],
            Some(UploadPhase::Erasing),
            UploadStep::Erase,
        ),
        UploadStep::Erase => continues(
            t,
            seq![info("Writing firmware from "@ + job.firmware_path@)],
            Some(UploadPhase::Writing),
            UploadStep::Write,
        ),
        UploadStep::Write => continues(
            t,
            seq![info("Verifying firmware..."@)],
            Some(UploadPhase::Verifying),
            UploadStep::Verify,
        ),
        UploadStep::Verify => {
            let (ok, page_errors, total_errors) = verdict(result);
            if ok && total_errors == 0 {
                continues(
                    t,
                    seq![info("Firmware verification successful"@), info("Resetting device..."@)],
                    Some(UploadPhase::Resetting),
                    UploadStep::Reset,
                )
            } else {
                upload_fails(t, verification_failed_text(page_errors, total_errors))
            }
        },
        UploadStep::Reset => {
            &&& log_lines(t.logs@) == seq![info("Reset complete"@)]
            &&& t.phase is None
            &&& t.next is Finished
        },
    }
}

impl UploadJob {
    /// The first call of the upload.
    pub fn first_step() -> (step: UploadStep)
        ensures
            step == UploadStep::CreatePort,
    {
        UploadStep::CreatePort
    }

    fn fail(text: String) -> (t: UploadTransition)
        ensures
            upload_fails(t, text@),
    {
        UploadTransition { logs: Vec::new(), phase: None, next: FlashNext::Failed(text) }
    }

    fn go_on(log_type: LogMsgType, text: String, phase: Option<UploadPhase>, next: UploadStep) -> (t: UploadTransition)
        ensures
            continues(t, seq![(log_type, text@)], phase, next),
    {
        let mut logs: Vec<LogMsg> = Vec::new();
        assert(log_lines(logs@) =~= Seq::empty());
        push_log(&mut logs, log_type, text);
        assert(log_lines(logs@) =~= seq![(log_type, text@)]);
        UploadTransition { logs, phase, next: FlashNext::Call(next) }
    }

    /// What follows a call of the upload.
    pub fn after(&self, step: UploadStep, result: CallResult) -> (t: UploadTransition)
        ensures
            upload_after_post(*self, step, result, t),
    {
        let refused = match result {
            CallResult::Refused => true,
            _ => false,
        };
        match step {
            UploadStep::CreatePort => if refused {
                let mut e = String::from_str("Failed to create serial port: ");
                e.append(self.port_name.as_str());
                Self::fail(e)
            } else {
                Self::go_on(
                    LogMsgType::Debug,
                    String::from_str("Serial port created successfully"),
                    None,
                    UploadStep::CreateSamba,
                )
            },
            UploadStep::CreateSamba => if refused {
                Self::fail(String::from_str("Failed to create Samba"))
            } else {
                Self::go_on(LogMsgType::Debug, String::from_str("Samba created successfully"), None, UploadStep::Connect)
            },
            UploadStep::Connect => if refused {
                Self::fail(String::from_str("Failed to connect to device via Samba"))
            } else {
                Self::go_on(
                    LogMsgType::Info,
                    String::from_str("Connected to device via Samba"),
                    None,
                    UploadStep::CreateDevice,
                )
            },
            UploadStep::CreateDevice => Self::go_on(
                LogMsgType::Debug,
                String::from_str("Device created successfully"),
                None,
                UploadStep::CreateObserver,
            ),
            UploadStep::CreateObserver => if refused {
                Self::fail(String::from_str("Failed to create observer"))
            } else {
                Self::go_on(
                    LogMsgType::Debug,
                    String::from_str("Observer created successfully"),
                    None,
                    UploadStep::CreateFlasher,
                )
            },
            UploadStep::CreateFlasher => Self::go_on(
                LogMsgType::Debug,
                String::from_str("Flasher created successfully"),
                None,
                UploadStep::ReadInfo,
            ),
            UploadStep::ReadInfo => {
                let mut text = String::from_str("Device info: ");
                match &result {
                    CallResult::Info { description, .. } => text.append(description.as_str()),
                    _ => {},
                }
                assert(text@ =~= "Device info: "@ + info_description(result));
                let mut logs: Vec<LogMsg> = Vec::new();
                assert(log_lines(logs@) =~= Seq::empty());
                push_log(&mut logs, LogMsgType::Info, text);
                push_log(&mut logs, LogMsgType::Info, String::from_str("Erasing flash..."));
                assert(log_lines(logs@) =~= seq![
                    (LogMsgType::Info, "Device info: "@ + info_description(result)),
                    (LogMsgType::Info, "Erasing flash..."@),
                ]);
                UploadTransition {
                    logs,
                    phase: Some(UploadPhase::Erasing),
                    next: FlashNext::Call(UploadStep::Erase),
                }
            },
            UploadStep::Erase => {
                let mut text = String::from_str("Writing firmware from ");
                text.append(self.firmware_path.as_str());
                Self::go_on(LogMsgType::Info, text, Some(UploadPhase::Writing), UploadStep::Write)
            },
            UploadStep::Write => Self::go_on(
                LogMsgType::Info,
                String::from_str("Verifying firmware..."),
                Some(UploadPhase::Verifying),
                UploadStep::Verify,
            ),
            UploadStep::Verify => {
                let (ok, page_errors, total_errors) = match result {
                    CallResult::Verified { ok, page_errors, total_errors } => (ok, page_errors, total_errors),
                    _ => (false, 0, 0),
                };
                match check_verification(ok, page_errors, total_errors) {
                    Ok(()) => {
                        let mut logs: Vec<LogMsg> = Vec::new();
                        assert(log_lines(logs@) =~= Seq::empty());
                        push_log(&mut logs, LogMsgType::Info, String::from_str("Firmware verification successful"));
                        push_log(&mut logs, LogMsgType::Info, String::from_str("Resetting device..."));
                        assert(log_lines(logs@) =~= seq![
                            (LogMsgType::Info, "Firmware verification successful"@),
                            (LogMsgType::Info, "Resetting device..."@),
                        ]);
                        UploadTransition {
                            logs,
                            phase: Some(UploadPhase::Resetting),
                            next: FlashNext::Call(UploadStep::Reset),
                        }
                    },
                    Err(e) => Self::fail(e),
                }
            },
            UploadStep::Reset => {
                let mut logs: Vec<LogMsg> = Vec::new();
                assert(log_lines(logs@) =~= Seq::empty());
                push_log(&mut logs, LogMsgType::Info, String::from_str("Reset complete"));
                assert(log_lines(logs@) =~= seq![(LogMsgType::Info, "Reset complete"@)]);
                UploadTransition { logs, phase: None, next: FlashNext::Finished }
            },
        }
    }
}


/// Where an upload stands, from the firmware file to the rebooted ClearCore.
#[derive(Debug)]
pub enum UploadStage {
    /// Checking that the firmware file exists.
    CheckingFile,
    /// Getting the ClearCore into its bootloader.
    GettingBootloader,
    /// Making the firmware path absolute, for the bootloader at this port.
    ResolvingPath(String),
    /// Running the flashing job.
    Flashing(UploadJob),
    /// Waiting for the ClearCore to come back with its new firmware.
    AwaitingReboot,
    /// The upload succeeded.
    Succeeded,
    /// The upload failed with this error.
    Failed(String),
}

/// The outside work that an upload asks for next.
#[derive(Debug)]
pub enum UploadWork {
    /// Check that the firmware file exists.
    CheckFile,
    /// Get the ClearCore into its bootloader.
    GetBootloader,
    /// Make the firmware path absolute and readable as text.
    ResolvePath,
    /// Run the flashing job.
    Flash(UploadJob),
    /// Wait until a port is this USB device, for at most this many milliseconds.
    WaitForPort { usb_id: UsbId, timeout_ms: u64 },
    /// Nothing more: send the final event.
    Finish(UploadEvent),
}

/// What came of an upload's outside work.
#[derive(Debug)]
pub enum UploadInput {
    FileFound,
    /// The file is missing; its path as `{:?}` shows it.
    FileMissing(String),
    /// The bootloader is at this port.
    BootloaderReady(String),
    /// Getting to the bootloader failed with this error.
    BootloaderFailed(String),
    /// The absolute firmware path.
    PathResolved(String),
    /// Making the path absolute failed.
    PathNotAbsolute,
    /// The absolute path is not valid Unicode.
    PathNotText,
    Flashed,
    /// Flashing failed with this error.
    FlashFailed(String),
    /// The ClearCore's port is back.
    PortFound,
    TimedOut,
    /// Waiting failed with this error.
    WaitFailed(String),
}

/// One step of an upload: the new stage, the log lines to show, and the work to do next.
#[derive(Debug)]
pub struct UploadSequenceStep {
    pub stage: UploadStage,
    pub logs: Vec<LogMsg>,
    pub work: UploadWork,
}

/// `step` ends the upload with the error `text`: no log line, and an `Error` event.
pub open spec fn sequence_fails(step: UploadSequenceStep, text: Seq<char>) -> bool {
    &&& step.stage matches UploadStage::Failed(e) && e@ == text
    &&& step.logs@.len() == 0
    &&& step.work matches UploadWork::Finish(UploadEvent::Error(e)) && e@ == text
}

/// `step` moves to `stage` and asks for `work`, after showing `lines`.
pub open spec fn sequence_moves(
    step: UploadSequenceStep,
    lines: Seq<(LogMsgType, Seq<char>)>,
    stage: UploadStage,
    work: UploadWork,
) -> bool {
    &&& step.stage == stage
    &&& log_lines(step.logs@) == lines
    &&& step.work == work
}

/// How an upload proceeds: check the file, get the bootloader, resolve the path, flash,
/// then wait up to ten seconds for the ClearCore to come back; any failure ends it with
/// an `Error` event that names it, and the end of the wait with a `Success` event. An
/// input that a stage does not wait for changes nothing.
pub open spec fn upload_sequence_post(stage: UploadStage, input: UploadInput, step: UploadSequenceStep) -> bool {
    let info = |text: Seq<char>| (LogMsgType::Info, text);
    match (stage, input) {
        (UploadStage::CheckingFile, UploadInput::FileFound) => sequence_moves(
            step,
            seq![],
            UploadStage::GettingBootloader,
            UploadWork::GetBootloader,
        ),
        (UploadStage::CheckingFile, UploadInput::FileMissing(path)) => sequence_fails(
            step,
            "Firmware file not found: "@ + path@,
        ),
        (UploadStage::GettingBootloader, UploadInput::BootloaderReady(port)) => sequence_moves(
            step,
            seq![],
            UploadStage::ResolvingPath(port),
            UploadWork::ResolvePath,
        ),
        (UploadStage::GettingBootloader, UploadInput::BootloaderFailed(e)) => sequence_fails(step, e@),
        (UploadStage::ResolvingPath(port), UploadInput::PathResolved(path)) => {
            &&& step.stage matches UploadStage::Flashing(job) && job.port_name@ == port@ && job.firmware_path@ == path@
            &&& log_lines(step.logs@) == seq![info("Firmware path: "@ + path@)]
            &&& step.work == upload_work_of(step.stage)
        },
        (UploadStage::ResolvingPath(_), UploadInput::PathNotAbsolute) => sequence_fails(
            step,
            "Failed to get absolute firmware path. Likely the path is invalid or file does not exist."@,
        ),
        (UploadStage::ResolvingPath(_), UploadInput::PathNotText) => sequence_fails(
            step,
            "Failed to convert firmware path to string. Likely the path contains invalid characters."@,
        ),
        (UploadStage::Flashing(_), UploadInput::Flashed) => sequence_moves(
            step,
            seq![info("Firmware uploaded successfully"@)],
            UploadStage::AwaitingReboot,
            UploadWork::WaitForPort { usb_id: UsbId::spec_clearcore_serial(), timeout_ms: 10000 },
        ),
        (UploadStage::Flashing(_), UploadInput::FlashFailed(e)) => sequence_fails(
            step,
            "Failed to upload firmware: "@ + e@,
        ),
        (UploadStage::AwaitingReboot, UploadInput::PortFound) => sequence_moves(
            step,
            seq![info("cc serial port found after uploading firmware. Reset success"@)],
            UploadStage::Succeeded,
            UploadWork::Finish(UploadEvent::Success),
        ),
        (UploadStage::AwaitingReboot, UploadInput::TimedOut) => sequence_fails(step, "deadline has elapsed"@),
        (UploadStage::AwaitingReboot, UploadInput::WaitFailed(e)) => sequence_fails(step, e@),
        (other, _) => {
            &&& step.stage == other
            &&& step.logs@.len() == 0
            &&& step.work == upload_work_of(other)
        },
    }
}

/// The work that a stage waits on (a stage that needs its inputs asks again for them).
pub open spec fn upload_work_of(stage: UploadStage) -> UploadWork {
    match stage {
        UploadStage::CheckingFile => UploadWork::CheckFile,
        UploadStage::GettingBootloader => UploadWork::GetBootloader,
        UploadStage::ResolvingPath(_) => UploadWork::ResolvePath,
        UploadStage::Flashing(job) => UploadWork::Flash(job),
        UploadStage::AwaitingReboot => UploadWork::WaitForPort {
            usb_id: UsbId::spec_clearcore_serial(),
            timeout_ms: 10000,
        },
        UploadStage::Succeeded => UploadWork::Finish(UploadEvent::Success),
        UploadStage::Failed(e) => UploadWork::Finish(UploadEvent::Error(e)),
    }
}

impl UploadStage {
    /// The first step of an upload: announce it and check the file.
    pub fn start() -> (step: UploadSequenceStep)
        ensures
            step.stage is CheckingFile,
            log_lines(step.logs@) == seq![(LogMsgType::Info, "Starting firmware upload sequence..."@)],
            step.work is CheckFile,
    {
        let mut logs: Vec<LogMsg> = Vec::new();
        assert(log_lines(logs@) =~= Seq::empty());
        push_log(&mut logs, LogMsgType::Info, String::from_str("Starting firmware upload sequence..."));
        assert(log_lines(logs@) =~= seq![(LogMsgType::Info, "Starting firmware upload sequence..."@)]);
        UploadSequenceStep { stage: UploadStage::CheckingFile, logs, work: UploadWork::CheckFile }
    }

    fn fail(text: String) -> (step: UploadSequenceStep)
        ensures
            sequence_fails(step, text@),
    {
        let event = UploadEvent::Error(text.clone());
        UploadSequenceStep { stage: UploadStage::Failed(text), logs: Vec::new(), work: UploadWork::Finish(event) }
    }

    fn quiet(stage: UploadStage, work: UploadWork) -> (step: UploadSequenceStep)
        ensures
            sequence_moves(step, seq![], stage, work),
    {
        let logs: Vec<LogMsg> = Vec::new();
        assert(log_lines(logs@) =~= seq![]);
        UploadSequenceStep { stage, logs, work }
    }

    fn noted(text: String, stage: UploadStage, work: UploadWork) -> (step: UploadSequenceStep)
        ensures
            sequence_moves(step, seq![(LogMsgType::Info, text@)], stage, work),
    {
        let mut logs: Vec<LogMsg> = Vec::new();
        assert(log_lines(logs@) =~= Seq::empty());
        push_log(&mut logs, LogMsgType::Info, text);
        assert(log_lines(logs@) =~= seq![(LogMsgType::Info, text@)]);
        UploadSequenceStep { stage, logs, work }
    }

    /// The next step of the upload, given what came of the work this stage asked for.
    pub fn step(self, input: UploadInput) -> (step: UploadSequenceStep)
        ensures
            upload_sequence_post(self, input, step),
    {
        match (self, input) {
            (UploadStage::CheckingFile, UploadInput::FileFound) => Self::quiet(
                UploadStage::GettingBootloader,
                UploadWork::GetBootloader,
            ),
            (UploadStage::CheckingFile, UploadInput::FileMissing(path)) => {
                let mut e = String::from_str("Firmware file not found: ");
                e.append(path.as_str());
                Self::fail(e)
            },
            (UploadStage::GettingBootloader, UploadInput::BootloaderReady(port)) => Self::quiet(
                UploadStage::ResolvingPath(port),
                UploadWork::ResolvePath,
            ),
            (UploadStage::GettingBootloader, UploadInput::BootloaderFailed(e)) => Self::fail(e),
            (UploadStage::ResolvingPath(port), UploadInput::PathResolved(path)) => {
                let mut text = String::from_str("Firmware path: ");
                text.append(path.as_str());
                let job = UploadJob { port_name: port, firmware_path: path };
                let work = UploadWork::Flash(job.clone());
                Self::noted(text, UploadStage::Flashing(job), work)
            },
            (UploadStage::ResolvingPath(_), UploadInput::PathNotAbsolute) => Self::fail(
                String::from_str(
                    "Failed to get absolute firmware path. Likely the path is invalid or file does not exist.",
                ),
            ),
            (UploadStage::ResolvingPath(_), UploadInput::PathNotText) => Self::fail(
                String::from_str(
                    "Failed to convert firmware path to string. Likely the path contains invalid characters.",
                ),
            ),
            (UploadStage::Flashing(_), UploadInput::Flashed) => Self::noted(
                String::from_str("Firmware uploaded successfully"),
                UploadStage::AwaitingReboot,
                UploadWork::WaitForPort { usb_id: UsbId::clearcore_serial(), timeout_ms: 10000 },
            ),
            (UploadStage::Flashing(_), UploadInput::FlashFailed(e)) => {
                let mut text = String::from_str("Failed to upload firmware: ");
                text.append(e.as_str());
                Self::fail(text)
            },
            (UploadStage::AwaitingReboot, UploadInput::PortFound) => Self::noted(
                String::from_str("cc serial port found after uploading firmware. Reset success"),
                UploadStage::Succeeded,
                UploadWork::Finish(UploadEvent::Success),
            ),
            (UploadStage::AwaitingReboot, UploadInput::TimedOut) => Self::fail(
                String::from_str("deadline has elapsed"),
            ),
            (UploadStage::AwaitingReboot, UploadInput::WaitFailed(e)) => Self::fail(e),
            (other, _) => {
                let work = match &other {
                    UploadStage::CheckingFile => UploadWork::CheckFile,
                    UploadStage::GettingBootloader => UploadWork::GetBootloader,
                    UploadStage::ResolvingPath(_) => UploadWork::ResolvePath,
                    UploadStage::Flashing(job) => UploadWork::Flash(job.clone()),
                    UploadStage::AwaitingReboot => UploadWork::WaitForPort {
                        usb_id: UsbId::clearcore_serial(),
                        timeout_ms: 10000,
                    },
                    UploadStage::Succeeded => UploadWork::Finish(UploadEvent::Success),
                    UploadStage::Failed(e) => UploadWork::Finish(UploadEvent::Error(e.clone())),
                };
                UploadSequenceStep { stage: other, logs: Vec::new(), work }
            },
        }
    }
}


/// The device is reset only after the written firmware verified without errors, and
/// the flashing job finishes only with that reset.
pub proof fn reset_only_after_clean_verification(
    job: UploadJob,
    step: UploadStep,
    result: CallResult,
    t: UploadTransition,
)
    requires
        upload_after_post(job, step, result, t),
    ensures
        t.next == FlashNext::Call(UploadStep::Reset) ==> step == UploadStep::Verify && verdict(result).0
            && verdict(result).2 == 0,
        t.next is Finished ==> step == UploadStep::Reset,
{
}

/// The phases come in their order: erasing after the flash information, writing after
/// erasing, verifying after writing, resetting after a clean verification.
pub proof fn phases_in_order(job: UploadJob, step: UploadStep, result: CallResult, t: UploadTransition)
    requires
        upload_after_post(job, step, result, t),
    ensures
        t.phase == Some(UploadPhase::Erasing) <==> step == UploadStep::ReadInfo,
        t.phase == Some(UploadPhase::Writing) <==> step == UploadStep::Erase,
        t.phase == Some(UploadPhase::Verifying) <==> step == UploadStep::Write,
        t.phase == Some(UploadPhase::Resetting) ==> step == UploadStep::Verify,
        t.phase != Some(UploadPhase::Initializing),
{
}

/// An upload reports success only when the ClearCore came back after the flashing.
pub proof fn success_only_after_reboot(stage: UploadStage, input: UploadInput, step: UploadSequenceStep)
    requires
        upload_sequence_post(stage, input, step),
        step.work matches UploadWork::Finish(e) && e is Success,
        !(stage is Succeeded),
    ensures
        stage is AwaitingReboot,
        input is PortFound,
{
}

/// Once the firmware is flashed, the upload waits up to ten seconds for the
/// ClearCore's application serial port (USB 2890:8022, the port the serial monitor
/// uses) to come back, not for the bootloader (2890:0022); and it reports success
/// only when that wait finds the port.
pub proof fn upload_awaits_the_application_port(
    job: UploadJob,
    flashed: UploadSequenceStep,
    stage: UploadStage,
    input: UploadInput,
    finished: UploadSequenceStep,
)
    requires
        upload_sequence_post(UploadStage::Flashing(job), UploadInput::Flashed, flashed),
        upload_sequence_post(stage, input, finished),
        finished.work matches UploadWork::Finish(e) && e is Success,
        !(stage is Succeeded),
    ensures
        flashed.stage is AwaitingReboot,
        flashed.work matches UploadWork::WaitForPort { usb_id, timeout_ms } && usb_id.vid == 0x2890 && usb_id.pid
            == 0x8022 && usb_id == SerialConfig::spec_serial_monitor().usb_id && usb_id
            != UsbId::spec_clearcore_bootloader() && timeout_ms == 10000,
        stage is AwaitingReboot && input is PortFound,
        upload_work_of(stage) == flashed.work,
{
}

/// A call that an upload makes into the flashing library, with its arguments.
#[derive(Debug)]
pub enum UploadCall {
    /// Create the serial port of this name; `usb` marks it as a USB port.
    CreatePort { port_name: String, usb: bool },
    CreateSamba,
    /// Connect the SAM-BA client over the port at this many bits per second.
    Connect { baud_rate: i32 },
    CreateDevice,
    CreateObserver,
    CreateFlasher,
    ReadInfo,
    /// Erase the flash from this address on.
    Erase { offset: u32 },
    /// Write the file to the flash at this address.
    Write { path: String, offset: u32 },
    /// Compare the flash at this address with the file.
    Verify { path: String, offset: u32 },
    Reset,
}

/// The call that a step of the upload makes: the bootloader's port, as a USB port; a
/// connection at 115200 baud; and the firmware file erased, written and verified at
/// the application's address, just above the bootloader.
pub open spec fn upload_call_is(job: UploadJob, step: UploadStep, call: UploadCall) -> bool {
    match step {
        UploadStep::CreatePort => call matches UploadCall::CreatePort { port_name, usb } && port_name@
            == job.port_name@ && usb,
        UploadStep::CreateSamba => call is CreateSamba,
        UploadStep::Connect => call == UploadCall::Connect { baud_rate: 115200 },
        UploadStep::CreateDevice => call is CreateDevice,
        UploadStep::CreateObserver => call is CreateObserver,
        UploadStep::CreateFlasher => call is CreateFlasher,
        UploadStep::ReadInfo => call is ReadInfo,
        UploadStep::Erase => call == UploadCall::Erase { offset: TEKNIC_BOOTLOADER_OFFSET_ADDRESS },
        UploadStep::Write => call matches UploadCall::Write { path, offset } && path@ == job.firmware_path@
            && offset == TEKNIC_BOOTLOADER_OFFSET_ADDRESS,
        UploadStep::Verify => call matches UploadCall::Verify { path, offset } && path@ == job.firmware_path@
            && offset == TEKNIC_BOOTLOADER_OFFSET_ADDRESS,
        UploadStep::Reset => call is Reset,
    }
}

impl UploadJob {
    /// The call that a step of this upload makes, with its arguments.
    pub fn call(&self, step: UploadStep) -> (call: UploadCall)
        ensures
            upload_call_is(*self, step, call),
    {
        match step {
            UploadStep::CreatePort => UploadCall::CreatePort { port_name: self.port_name.clone(), usb: true },
            UploadStep::CreateSamba => UploadCall::CreateSamba,
            UploadStep::Connect => UploadCall::Connect { baud_rate: 115200 },
            UploadStep::CreateDevice => UploadCall::CreateDevice,
            UploadStep::CreateObserver => UploadCall::CreateObserver,
            UploadStep::CreateFlasher => UploadCall::CreateFlasher,
            UploadStep::ReadInfo => UploadCall::ReadInfo,
            UploadStep::Erase => UploadCall::Erase { offset: TEKNIC_BOOTLOADER_OFFSET_ADDRESS },
            UploadStep::Write => UploadCall::Write {
                path: self.firmware_path.clone(),
                offset: TEKNIC_BOOTLOADER_OFFSET_ADDRESS,
            },
            UploadStep::Verify => UploadCall::Verify {
                path: self.firmware_path.clone(),
                offset: TEKNIC_BOOTLOADER_OFFSET_ADDRESS,
            },
            UploadStep::Reset => UploadCall::Reset,
        }
    }
}

} // verus!
