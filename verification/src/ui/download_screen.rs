//! The download screen: its state, how it follows the download's events, and how
//! saving the downloaded firmware ends.

use vstd::prelude::*;
use vstd::string::*;
use crate::app::{App, AppScreen, Command};
use crate::serial::download::{DownloadEvent, DownloadProgressBar};
use crate::types::{LogEntry, LogMsg, LogMsgType, Timestamp};
use crate::ui::toast::{Toast, ToastLevel};
use crate::ui::upload_screen::appends_entry;

verus! {

broadcast use crate::types::lemma_push_keeps_entries;

/// Where the downloaded firmware was saved, as `{:?}` shows the path and its file name.
#[derive(Debug)]
pub struct SavedFile {
    pub path: String,
    pub file_name: String,
}

impl Clone for SavedFile {
    fn clone(&self) -> (c: Self)
        ensures
            c == *self,
    {
        SavedFile { path: self.path.clone(), file_name: self.file_name.clone() }
    }
}

/// Messages of the download screen.
#[derive(Debug)]
pub enum DownloadScreenMessage {
    Event(DownloadEvent),
    /// The firmware was saved, or saving failed with this error.
    SaveFileResult(Result<SavedFile, String>),
    /// The user cancelled the save dialog.
    SaveCancelled,
}

impl Clone for DownloadScreenMessage {
    fn clone(&self) -> (c: Self)
        ensures
            c == *self,
    {
        match self {
            DownloadScreenMessage::Event(e) => DownloadScreenMessage::Event(e.clone()),
            DownloadScreenMessage::SaveFileResult(Ok(s)) => DownloadScreenMessage::SaveFileResult(Ok(s.clone())),
            DownloadScreenMessage::SaveFileResult(Err(e)) => DownloadScreenMessage::SaveFileResult(Err(e.clone())),
            DownloadScreenMessage::SaveCancelled => DownloadScreenMessage::SaveCancelled,
        }
    }
}

/// How far the download has come.
#[derive(Debug)]
pub enum DownloadProgress {
    Preparing,
    Downloading(DownloadProgressBar),
    Complete,
    Failed(String),
}

impl Clone for DownloadProgress {
    fn clone(&self) -> (c: Self)
        ensures
            c == *self,
    {
        match self {
            DownloadProgress::Preparing => DownloadProgress::Preparing,
            DownloadProgress::Downloading(p) => DownloadProgress::Downloading(*p),
            DownloadProgress::Complete => DownloadProgress::Complete,
            DownloadProgress::Failed(e) => DownloadProgress::Failed(e.clone()),
        }
    }
}

impl DownloadProgress {
    /// The download is over, one way or the other.
    pub open spec fn spec_is_finished(self) -> bool {
        self is Complete || self is Failed
    }

    /// Whether the download is over, one way or the other.
    pub fn is_finished(&self) -> (b: bool)
        ensures
            b == self.spec_is_finished(),
    {
        match self {
            DownloadProgress::Complete => true,
            DownloadProgress::Failed(_) => true,
            _ => false,
        }
    }

    /// How the download screen states the download's progress in words; while the
    /// download runs, its progress bar shows instead.
    pub open spec fn spec_status_text(self) -> Option<Seq<char>> {
        match self {
            DownloadProgress::Preparing => Some("Preparing download..."@),
            DownloadProgress::Downloading(_) => None,
            DownloadProgress::Complete => Some("Download complete!"@),
            DownloadProgress::Failed(e) => Some("Download failed: "@ + e@),
        }
    }

    /// The download's progress in words: preparing, complete, or failed with its error;
    /// `None` while it runs.
    pub fn status_text(&self) -> (t: Option<String>)
        ensures
            t matches Some(s) ==> self.spec_status_text() == Some(s@),
            t is None <==> self.spec_status_text() is None,
    {
        match self {
            DownloadProgress::Preparing => Some(String::from_str("Preparing download...")),
            DownloadProgress::Downloading(_) => None,
            DownloadProgress::Complete => Some(String::from_str("Download complete!")),
            DownloadProgress::Failed(e) => {
                let mut text = String::from_str("Download failed: ");
                text.append(e.as_str());
                Some(text)
            },
        }
    }
}

/// The download screen's state.
#[derive(Debug)]
pub struct DownloadState {
    pub progress: DownloadProgress,
    pub logs: Vec<LogEntry>,
}

impl DownloadState {
    /// A download that has not started yet.
    pub fn new() -> (s: DownloadState)
        ensures
            s.progress is Preparing,
            s.logs@.len() == 0,
    {
        DownloadState { progress: DownloadProgress::Preparing, logs: Vec::new() }
    }
}

/// How a download event that arrives at the time `now` changes the download screen,
/// and what the app does next.
pub open spec fn download_event_post(
    old: DownloadState,
    event: DownloadEvent,
    now: Timestamp,
    new: DownloadState,
    cmd: Command,
) -> bool {
    match event {
        DownloadEvent::Log(line) => {
            &&& new.progress == old.progress
            &&& appends_entry(old.logs@, new.logs@, now, line.log_type, line.message@)
            &&& cmd is Nothing
        },
        DownloadEvent::Error(err) => {
            &&& new.progress matches DownloadProgress::Failed(e) && e@ == err@
            &&& appends_entry(old.logs@, new.logs@, now, LogMsgType::ClearCore, "CRITICAL ERROR: "@ + err@)
            &&& cmd is Nothing
        },
        DownloadEvent::ProgressBarUpdate(bar) => {
            &&& new.progress == DownloadProgress::Downloading(bar)
            &&& new.logs@ == old.logs@
            &&& cmd is Nothing
        },
        DownloadEvent::Success => {
            &&& new.progress is Complete
            &&& appends_entry(
                old.logs@,
                new.logs@,
                now,
                LogMsgType::ClearCore,
                "SUCCESS: Firmware downloaded to temp storage. Prompting for save..."@,
            )
            &&& cmd is SaveDownloadedFirmware
        },
    }
}

/// The toast and the log line with which saving the firmware ends.
pub open spec fn save_outcome(msg: DownloadScreenMessage) -> (ToastLevel, Seq<char>, Seq<char>) {
    match msg {
        DownloadScreenMessage::SaveFileResult(Ok(saved)) => (
            ToastLevel::Info,
            "Saved to "@ + saved.file_name@,
            "Saved firmware to "@ + saved.path@,
        ),
        DownloadScreenMessage::SaveFileResult(Err(err)) => (ToastLevel::Error, err@, "Error saving file: "@ + err@),
        _ => (ToastLevel::Warning, "File save cancelled"@, "User cancelled file save operation."@),
    }
}

/// How a download screen message changes the app. A download event changes the
/// download screen and is ignored elsewhere; the end of saving shows a toast on any
/// screen and is logged on the download screen.
pub open spec fn download_screen_post(
    old: App,
    msg: DownloadScreenMessage,
    now: Timestamp,
    new: App,
    cmd: Command,
) -> bool {
    &&& new.monitor_after_upload == old.monitor_after_upload
    &&& match msg {
        DownloadScreenMessage::Event(e) => {
            &&& new.toast == old.toast
            &&& match old.screen {
                AppScreen::Download(s) => new.screen matches AppScreen::Download(t) && download_event_post(
                    s,
                    e,
                    now,
                    t,
                    cmd,
                ),
                _ => new.screen == old.screen && cmd is Nothing,
            }
        },
        _ => {
            let (level, toast_text, log_text) = save_outcome(msg);
            &&& new.toast matches Some(t) && t.level == level && t.message@ == toast_text
            &&& cmd is Nothing
            &&& match old.screen {
                AppScreen::Download(s) => new.screen matches AppScreen::Download(t) && t.progress == s.progress
                    && appends_entry(s.logs@, t.logs@, now, LogMsgType::ClearCore, log_text),
                _ => new.screen == old.screen,
            }
        },
    }
}

impl DownloadState {
    /// Follows one event of the download, which arrives at the time `now`.
    pub fn apply_event(&mut self, event: DownloadEvent, now: Timestamp) -> (cmd: Command)
        ensures
            download_event_post(*old(self), event, now, *final(self), cmd),
    {
        match event {
            DownloadEvent::Log(line) => {
                self.logs.push(LogEntry::new_now(line, now));
                Command::Nothing
            },
            DownloadEvent::Error(err) => {
                let mut text = String::from_str("CRITICAL ERROR: ");
                text.append(err.as_str());
                self.progress = DownloadProgress::Failed(err);
                self.logs.push(LogEntry::new_now(LogMsg::clear_core(text), now));
                Command::Nothing
            },
            DownloadEvent::ProgressBarUpdate(bar) => {
                self.progress = DownloadProgress::Downloading(bar);
                Command::Nothing
            },
            DownloadEvent::Success => {
                self.progress = DownloadProgress::Complete;
                self.logs.push(
                    LogEntry::new_now(
                        LogMsg::clear_core(
                            String::from_str("SUCCESS: Firmware downloaded to temp storage. Prompting for save..."),
                        ),
                        now,
                    ),
                );
                Command::SaveDownloadedFirmware
            },
        }
    }
}

impl App {
    /// Logs a line, stamped `now`, on the download screen; other screens are left as they are.
    fn log_on_download_screen(&mut self, text: String, now: Timestamp)
        ensures
            final(self).toast == old(self).toast,
            final(self).monitor_after_upload == old(self).monitor_after_upload,
            match old(self).screen {
                AppScreen::Download(s) => final(self).screen matches AppScreen::Download(t) && t.progress
                    == s.progress && appends_entry(s.logs@, t.logs@, now, LogMsgType::ClearCore, text@),
                _ => final(self).screen == old(self).screen,
            },
    {
        let mut screen = AppScreen::Main;
        std::mem::swap(&mut screen, &mut self.screen);
        match screen {
            AppScreen::Download(mut state) => {
                state.logs.push(LogEntry::new_now(LogMsg::clear_core(text), now));
                self.screen = AppScreen::Download(state);
            },
            other => {
                self.screen = other;
            },
        }
    }

    /// Handles a message of the download screen that arrives at the time `now`.
    pub fn handle_download_screen_message(&mut self, msg: DownloadScreenMessage, now: Timestamp) -> (cmd: Command)
        ensures
            download_screen_post(*old(self), msg, now, *final(self), cmd),
    {
        match msg {
            DownloadScreenMessage::Event(event) => {
                let mut screen = AppScreen::Main;
                std::mem::swap(&mut screen, &mut self.screen);
                match screen {
                    AppScreen::Download(mut state) => {
                        let cmd = state.apply_event(event, now);
                        self.screen = AppScreen::Download(state);
                        cmd
                    },
                    other => {
                        self.screen = other;
                        Command::Nothing
                    },
                }
            },
            DownloadScreenMessage::SaveFileResult(Ok(saved)) => {
                let mut toast_text = String::from_str("Saved to ");
                toast_text.append(saved.file_name.as_str());
                let mut log_text = String::from_str("Saved firmware to ");
                log_text.append(saved.path.as_str());
                self.toast = Some(Toast::info(toast_text));
                self.log_on_download_screen(log_text, now);
                Command::Nothing
            },
            DownloadScreenMessage::SaveFileResult(Err(err)) => {
                let mut log_text = String::from_str("Error saving file: ");
                log_text.append(err.as_str());
                self.toast = Some(Toast::error(err));
                self.log_on_download_screen(log_text, now);
                Command::Nothing
            },
            DownloadScreenMessage::SaveCancelled => {
                self.toast = Some(Toast::warning(String::from_str("File save cancelled")));
                self.log_on_download_screen(String::from_str("User cancelled file save operation."), now);
                Command::Nothing
            },
        }
    }
}

} // verus!
