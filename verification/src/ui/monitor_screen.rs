//! The serial monitor screen: its state, and how it follows the connection and the
//! user's requests.

use vstd::prelude::*;
use vstd::string::*;
use crate::app::{App, AppScreen, Command};
use crate::serial::monitor::MonitorConnectionState;
use crate::text::{join_lines, join_lines_spec, string_views, trim_end, trim_end_spec};
use crate::types::{LogEntry, LogMsg, LogMsgType, SerialConfig, Timestamp};
use crate::ui::toast::{Toast, ToastLevel};
use crate::ui::upload_screen::appends_entry;

verus! {

broadcast use crate::types::lemma_push_keeps_entries;

/// Messages of the monitor screen.
#[derive(Debug)]
pub enum MonitorScreenMessage {
    ConnectionStateChanged(MonitorConnectionState),
    SerialData(String),
    JumpToBottom,
    CopyLogs,
    SaveLogs,
    /// Saving ended: saved (`true`), cancelled (`false`), or failed with this error.
    SaveLogsFinished(Result<bool, String>),
}

impl Clone for MonitorScreenMessage {
    fn clone(&self) -> (c: Self)
        ensures
            c == *self,
    {
        match self {
            MonitorScreenMessage::ConnectionStateChanged(s) => MonitorScreenMessage::ConnectionStateChanged(s.clone()),
            MonitorScreenMessage::SerialData(d) => MonitorScreenMessage::SerialData(d.clone()),
            MonitorScreenMessage::JumpToBottom => MonitorScreenMessage::JumpToBottom,
            MonitorScreenMessage::CopyLogs => MonitorScreenMessage::CopyLogs,
            MonitorScreenMessage::SaveLogs => MonitorScreenMessage::SaveLogs,
            MonitorScreenMessage::SaveLogsFinished(Ok(b)) => MonitorScreenMessage::SaveLogsFinished(Ok(*b)),
            MonitorScreenMessage::SaveLogsFinished(Err(e)) => MonitorScreenMessage::SaveLogsFinished(Err(e.clone())),
        }
    }
}

/// The monitor screen's state.
#[derive(Debug)]
pub struct MonitorState {
    pub serial_config: SerialConfig,
    pub connection_state: MonitorConnectionState,
    pub logs: Vec<LogEntry>,
}

impl Default for MonitorState {
    /// The monitor at its start: the ClearCore's serial settings, disconnected until
    /// the connection reports otherwise, and no log yet.
    fn default() -> (s: MonitorState)
        ensures
            s.serial_config == SerialConfig::spec_serial_monitor(),
            s.connection_state is Disconnected,
            s.logs@.len() == 0,
    {
        MonitorState {
            serial_config: SerialConfig::default(),
            connection_state: MonitorConnectionState::Disconnected,
            logs: Vec::new(),
        }
    }
}

/// The log as text: one `[timestamp] message` line per entry.
pub open spec fn logs_text(logs: Seq<LogEntry>) -> Seq<char> {
    join_lines_spec(logs.map_values(|e: LogEntry| e.display_text()))
}

impl MonitorState {
    /// The log as text: one `[timestamp] message` line per entry.
    pub fn log_text(&self) -> (s: String)
        ensures
            s@ == logs_text(self.logs@),
    {
        let mut lines: Vec<String> = Vec::new();
        let n = self.logs.len();
        let mut i: usize = 0;
        while i < n
            invariant
                n == self.logs@.len(),
                i <= n,
                lines@.len() == i,
                forall|j: int| 0 <= j < i ==> (#[trigger] lines@[j])@ == self.logs@[j].display_text(),
            decreases n - i,
        {
            lines.push(self.logs[i].to_display_string());
            i = i + 1;
        }
        let s = join_lines(&lines);
        assert(string_views(lines@) =~= self.logs@.map_values(|e: LogEntry| e.display_text()));
        s
    }
}

/// The monitor's state is as before.
pub open spec fn monitor_unchanged(old: MonitorState, new: MonitorState) -> bool {
    &&& new.connection_state == old.connection_state
    &&& new.logs@ == old.logs@
}

/// `toast` is a toast of the level with the text.
pub open spec fn shows_toast(toast: Option<Toast>, level: ToastLevel, text: Seq<char>) -> bool {
    toast matches Some(t) && t.level == level && t.message@ == text
}

/// How a message changes the monitor screen and the toast, and what the app does next.
pub open spec fn monitor_message_post(
    old: MonitorState,
    old_toast: Option<Toast>,
    msg: MonitorScreenMessage,
    now: Timestamp,
    new: MonitorState,
    new_toast: Option<Toast>,
    cmd: Command,
) -> bool {
    &&& new.serial_config == old.serial_config
    &&& match msg {
        MonitorScreenMessage::SerialData(line) => {
            &&& new.connection_state == old.connection_state
            &&& new_toast == old_toast
            &&& cmd is Nothing
            &&& if trim_end_spec(line@).len() == 0 {
                new.logs@ == old.logs@
            } else {
                appends_entry(old.logs@, new.logs@, now, LogMsgType::ClearCore, trim_end_spec(line@))
            }
        },
        MonitorScreenMessage::ConnectionStateChanged(state) => {
            &&& new.connection_state == state
            &&& new.logs@ == old.logs@
            &&& new_toast == old_toast
            &&& cmd is Nothing
        },
        MonitorScreenMessage::JumpToBottom => {
            &&& monitor_unchanged(old, new)
            &&& new_toast == old_toast
            &&& cmd is ScrollLogToEnd
        },
        MonitorScreenMessage::CopyLogs => {
            &&& monitor_unchanged(old, new)
            &&& shows_toast(new_toast, ToastLevel::Info, "Logs copied to clipboard"@)
            &&& cmd matches Command::CopyToClipboard(text) && text@ == logs_text(old.logs@)
        },
        MonitorScreenMessage::SaveLogs => {
            &&& monitor_unchanged(old, new)
            &&& new_toast == old_toast
            &&& cmd matches Command::SaveLogText(text) && text@ == logs_text(old.logs@)
        },
        MonitorScreenMessage::SaveLogsFinished(Ok(saved)) => {
            &&& monitor_unchanged(old, new)
            &&& cmd is Nothing
            &&& if saved {
                shows_toast(new_toast, ToastLevel::Info, "Serial log saved successfully"@)
            } else {
                new_toast == old_toast
            }
        },
        MonitorScreenMessage::SaveLogsFinished(Err(err)) => {
            &&& monitor_unchanged(old, new)
            &&& cmd is Nothing
            &&& shows_toast(new_toast, ToastLevel::Error, "Failed to save serial log: "@ + err@)
        },
    }
}

/// How a monitor screen message changes the app; on another screen it changes nothing.
pub open spec fn monitor_screen_post(old: App, msg: MonitorScreenMessage, now: Timestamp, new: App, cmd: Command) -> bool {
    &&& new.monitor_after_upload == old.monitor_after_upload
    &&& match old.screen {
        AppScreen::Monitor(s) => new.screen matches AppScreen::Monitor(t) && monitor_message_post(
            s,
            old.toast,
            msg,
            now,
            t,
            new.toast,
            cmd,
        ),
        _ => new.screen == old.screen && new.toast == old.toast && cmd is Nothing,
    }
}

impl MonitorState {
    /// Handles one message on the monitor screen, arriving at the time `now`; the toast
    /// is the app's.
    pub fn apply_message(&mut self, toast: &mut Option<Toast>, msg: MonitorScreenMessage, now: Timestamp) -> (cmd: Command)
        ensures
            monitor_message_post(*old(self), *old(toast), msg, now, *final(self), *final(toast), cmd),
    {
        match msg {
            MonitorScreenMessage::SerialData(line) => {
                let trimmed = trim_end(line.as_str());
                if !trimmed.is_empty() {
                    self.logs.push(LogEntry::new_now(LogMsg::clear_core(String::from_str(trimmed)), now));
                }
                Command::Nothing
            },
            MonitorScreenMessage::ConnectionStateChanged(state) => {
                self.connection_state = state;
                Command::Nothing
            },
            MonitorScreenMessage::JumpToBottom => Command::ScrollLogToEnd,
            MonitorScreenMessage::CopyLogs => {
                let content = self.log_text();
                *toast = Some(Toast::info(String::from_str("Logs copied to clipboard")));
                Command::CopyToClipboard(content)
            },
            MonitorScreenMessage::SaveLogs => Command::SaveLogText(self.log_text()),
            MonitorScreenMessage::SaveLogsFinished(Ok(saved)) => {
                if saved {
                    *toast = Some(Toast::info(String::from_str("Serial log saved successfully")));
                }
                Command::Nothing
            },
            MonitorScreenMessage::SaveLogsFinished(Err(err)) => {
                let mut text = String::from_str("Failed to save serial log: ");
                text.append(err.as_str());
                *toast = Some(Toast::error(text));
                Command::Nothing
            },
        }
    }
}

impl App {
    /// Handles a message of the monitor screen that arrives at the time `now`.
    pub fn handle_monitor_screen_message(&mut self, msg: MonitorScreenMessage, now: Timestamp) -> (cmd: Command)
        ensures
            monitor_screen_post(*old(self), msg, now, *final(self), cmd),
    {
        let mut screen = AppScreen::Main;
        std::mem::swap(&mut screen, &mut self.screen);
        match screen {
            AppScreen::Monitor(mut state) => {
                let cmd = state.apply_message(&mut self.toast, msg, now);
                self.screen = AppScreen::Monitor(state);
                cmd
            },
            other => {
                self.screen = other;
                Command::Nothing
            },
        }
    }
}

} // verus!
