//! The upload screen: its state, and how it follows the upload's events.

use vstd::prelude::*;
use vstd::string::*;
use crate::app::{App, AppScreen, Command};
use crate::serial::upload::{UploadEvent, UploadProgressBar};
use crate::types::{LogEntry, LogMsgType, Timestamp};

verus! {

broadcast use crate::types::lemma_push_keeps_entries;

/// Messages of the upload screen.
#[derive(Debug)]
pub enum UploadScreenMessage {
    Event(UploadEvent),
}

impl Clone for UploadScreenMessage {
    fn clone(&self) -> (c: Self)
        ensures
            c == *self,
    {
        match self {
            UploadScreenMessage::Event(e) => UploadScreenMessage::Event(e.clone()),
        }
    }
}

/// How far the upload has come.
#[derive(Debug)]
pub enum UploadProgress {
    Preparing,
    Uploading(UploadProgressBar),
    Complete,
    Failed(String),
}

impl Clone for UploadProgress {
    fn clone(&self) -> (c: Self)
        ensures
            c == *self,
    {
        match self {
            UploadProgress::Preparing => UploadProgress::Preparing,
            UploadProgress::Uploading(p) => UploadProgress::Uploading(*p),
            UploadProgress::Complete => UploadProgress::Complete,
            UploadProgress::Failed(e) => UploadProgress::Failed(e.clone()),
        }
    }
}

impl UploadProgress {
    /// The upload is over, one way or the other.
    pub open spec fn spec_is_finished(self) -> bool {
        self is Complete || self is Failed
    }

    /// Whether the upload is over, one way or the other.
    pub fn is_finished(&self) -> (b: bool)
        ensures
            b == self.spec_is_finished(),
    {
        match self {
            UploadProgress::Complete => true,
            UploadProgress::Failed(_) => true,
            _ => false,
        }
    }

    /// How the upload screen states the upload's progress in words; while the upload
    /// runs, its progress bar shows instead.
    pub open spec fn spec_status_text(self) -> Option<Seq<char>> {
        match self {
            UploadProgress::Preparing => Some("Preparing upload..."@),
            UploadProgress::Uploading(_) => None,
            UploadProgress::Complete => Some("Upload complete!"@),
            UploadProgress::Failed(e) => Some("Upload failed: "@ + e@),
        }
    }

    /// The upload's progress in words: preparing, complete, or failed with its error;
    /// `None` while it runs.
    pub fn status_text(&self) -> (t: Option<String>)
        ensures
            t matches Some(s) ==> self.spec_status_text() == Some(s@),
            t is None <==> self.spec_status_text() is None,
    {
        match self {
            UploadProgress::Preparing => Some(String::from_str("Preparing upload...")),
            UploadProgress::Uploading(_) => None,
            UploadProgress::Complete => Some(String::from_str("Upload complete!")),
            UploadProgress::Failed(e) => {
                let mut text = String::from_str("Upload failed: ");
                text.append(e.as_str());
                Some(text)
            },
        }
    }
}

/// The upload screen's state.
#[derive(Debug)]
pub struct UploadState {
    /// The firmware file being uploaded.
    pub file_path: String,
    pub progress: UploadProgress,
    /// Whether to open the serial monitor once the upload succeeded.
    pub monitor_after: bool,
    pub logs: Vec<LogEntry>,
}

impl UploadState {
    /// An upload of the file that has not started yet.
    pub fn new(file_path: String, monitor_after: bool) -> (s: UploadState)
        ensures
            s.file_path@ == file_path@,
            s.progress is Preparing,
            s.monitor_after == monitor_after,
            s.logs@.len() == 0,
    {
        UploadState { file_path, progress: UploadProgress::Preparing, monitor_after, logs: Vec::new() }
    }
}

/// `new` is `old` with one entry appended, stamped `now`, whose message is of kind
/// `log_type` and reads `text`.
pub open spec fn appends_entry(
    old: Seq<LogEntry>,
    new: Seq<LogEntry>,
    now: Timestamp,
    log_type: LogMsgType,
    text: Seq<char>,
) -> bool {
    &&& new.len() == old.len() + 1
    &&& new.subrange(0, old.len() as int) == old
    &&& new.last().timestamp == now
    &&& new.last().message.log_type == log_type
    &&& new.last().message.message@ == text
}

/// How an upload event that arrives at the time `now` changes the upload screen, and
/// what the app does next.
pub open spec fn upload_event_post(
    old: UploadState,
    event: UploadEvent,
    now: Timestamp,
    new: UploadState,
    cmd: Command,
) -> bool {
    &&& new.file_path == old.file_path
    &&& new.monitor_after == old.monitor_after
    &&& match event {
        UploadEvent::Log(line) => {
            &&& new.progress == old.progress
            &&& appends_entry(old.logs@, new.logs@, now, line.log_type, line.message@)
            &&& cmd is Nothing
        },
        UploadEvent::Error(err) => {
            &&& new.progress matches UploadProgress::Failed(e) && e@ == err@
            &&& appends_entry(old.logs@, new.logs@, now, LogMsgType::Error, "CRITICAL ERROR: "@ + err@)
            &&& cmd is Nothing
        },
        UploadEvent::ProgressBarUpdate(bar) => {
            &&& new.progress == UploadProgress::Uploading(bar)
            &&& new.logs@ == old.logs@
            &&& cmd is Nothing
        },
        UploadEvent::Success => {
            &&& new.progress is Complete
            &&& appends_entry(
                old.logs@,
                new.logs@,
                now,
                LogMsgType::Info,
                "SUCCESS: Firmware uploaded successfully."@,
            )
            &&& if old.monitor_after {
                cmd is StartMonitoringSoon
            } else {
                cmd is Nothing
            }
        },
    }
}

/// How an upload screen message changes the app: an upload event changes the upload
/// screen, and is ignored on any other screen.
pub open spec fn upload_screen_post(old: App, msg: UploadScreenMessage, now: Timestamp, new: App, cmd: Command) -> bool {
    &&& new.toast == old.toast
    &&& new.monitor_after_upload == old.monitor_after_upload
    &&& match (old.screen, msg) {
        (AppScreen::Upload(s), UploadScreenMessage::Event(e)) => new.screen matches AppScreen::Upload(t)
            && upload_event_post(s, e, now, t, cmd),
        _ => new.screen == old.screen && cmd is Nothing,
    }
}

impl UploadState {
    /// Follows one event of the upload, which arrives at the time `now`.
    pub fn apply_event(&mut self, event: UploadEvent, now: Timestamp) -> (cmd: Command)
        ensures
            upload_event_post(*old(self), event, now, *final(self), cmd),
    {
        match event {
            UploadEvent::Log(line) => {
                self.logs.push(LogEntry::new_now(line, now));
                Command::Nothing
            },
            UploadEvent::Error(err) => {
                let mut text = String::from_str("CRITICAL ERROR: ");
                text.append(err.as_str());
                self.progress = UploadProgress::Failed(err);
                self.logs.push(LogEntry::new_error_now(text, now));
                Command::Nothing
            },
            UploadEvent::ProgressBarUpdate(bar) => {
                self.progress = UploadProgress::Uploading(bar);
                Command::Nothing
            },
            UploadEvent::Success => {
                self.progress = UploadProgress::Complete;
                self.logs.push(LogEntry::new_info_now(String::from_str("SUCCESS: Firmware uploaded successfully."), now));
                if self.monitor_after {
                    Command::StartMonitoringSoon
                } else {
                    Command::Nothing
                }
            },
        }
    }
}

impl App {
    /// Handles a message of the upload screen that arrives at the time `now`.
    pub fn handle_upload_screen_message(&mut self, msg: UploadScreenMessage, now: Timestamp) -> (cmd: Command)
        ensures
            upload_screen_post(*old(self), msg, now, *final(self), cmd),
    {
        match msg {
            UploadScreenMessage::Event(event) => {
                let mut screen = AppScreen::Main;
                std::mem::swap(&mut screen, &mut self.screen);
                match screen {
                    AppScreen::Upload(mut state) => {
                        let cmd = state.apply_event(event, now);
                        self.screen = AppScreen::Upload(state);
                        cmd
                    },
                    other => {
                        self.screen = other;
                        Command::Nothing
                    },
                }
            },
        }
    }
}

} // verus!
