//! The main screen: choosing to upload, download or monitor.

use vstd::prelude::*;
use crate::app::{App, AppScreen, Command};
use crate::types::SerialConfig;
use crate::ui::download_screen::DownloadState;
use crate::ui::monitor_screen::MonitorState;
use crate::ui::upload_screen::UploadState;

verus! {

/// Messages of the main screen.
#[derive(Debug)]
pub enum MainScreenMessage {
    SelectFile,
    /// The chosen firmware file, or `None` when the user cancelled.
    FileSelected(Option<String>),
    SetMonitorAfterUpload(bool),
    StartMonitoring,
    StartDownload,
}

impl Clone for MainScreenMessage {
    fn clone(&self) -> (c: Self)
        ensures
            c == *self,
    {
        match self {
            MainScreenMessage::SelectFile => MainScreenMessage::SelectFile,
            MainScreenMessage::FileSelected(Some(p)) => MainScreenMessage::FileSelected(Some(p.clone())),
            MainScreenMessage::FileSelected(None) => MainScreenMessage::FileSelected(None),
            MainScreenMessage::SetMonitorAfterUpload(b) => MainScreenMessage::SetMonitorAfterUpload(*b),
            MainScreenMessage::StartMonitoring => MainScreenMessage::StartMonitoring,
            MainScreenMessage::StartDownload => MainScreenMessage::StartDownload,
        }
    }
}

/// How a main screen message changes the app, and what the app does next.
pub open spec fn main_screen_post(old: App, msg: MainScreenMessage, new: App, cmd: Command) -> bool {
    &&& new.toast == old.toast
    &&& match msg {
        MainScreenMessage::SelectFile => {
            &&& new.screen == old.screen
            &&& new.monitor_after_upload == old.monitor_after_upload
            &&& cmd is PickFirmwareFile
        },
        MainScreenMessage::FileSelected(Some(path)) => {
            &&& new.screen matches AppScreen::Upload(u) && u.file_path@ == path@ && u.progress is Preparing
                && u.monitor_after == old.monitor_after_upload && u.logs@.len() == 0
            &&& new.monitor_after_upload == old.monitor_after_upload
            &&& cmd is Nothing
        },
        MainScreenMessage::FileSelected(None) => {
            &&& new.screen == old.screen
            &&& new.monitor_after_upload == old.monitor_after_upload
            &&& cmd is Nothing
        },
        MainScreenMessage::SetMonitorAfterUpload(enabled) => {
            &&& new.screen == old.screen
            &&& new.monitor_after_upload == enabled
            &&& cmd is Nothing
        },
        MainScreenMessage::StartMonitoring => {
            &&& new.screen matches AppScreen::Monitor(m) && m.serial_config == SerialConfig::spec_serial_monitor()
                && m.connection_state is Disconnected && m.logs@.len() == 0
            &&& new.monitor_after_upload == old.monitor_after_upload
            &&& cmd is Nothing
        },
        MainScreenMessage::StartDownload => {
            &&& new.screen matches AppScreen::Download(d) && d.progress is Preparing && d.logs@.len() == 0
            &&& new.monitor_after_upload == old.monitor_after_upload
            &&& cmd is Nothing
        },
    }
}

impl App {
    /// Handles a message of the main screen.
    pub fn handle_main_screen_message(&mut self, msg: MainScreenMessage) -> (cmd: Command)
        ensures
            main_screen_post(*old(self), msg, *final(self), cmd),
    {
        match msg {
            MainScreenMessage::SelectFile => Command::PickFirmwareFile,
            MainScreenMessage::FileSelected(Some(path)) => {
                self.screen = AppScreen::Upload(UploadState::new(path, self.monitor_after_upload));
                Command::Nothing
            },
            MainScreenMessage::FileSelected(None) => Command::Nothing,
            MainScreenMessage::SetMonitorAfterUpload(enabled) => {
                self.monitor_after_upload = enabled;
                Command::Nothing
            },
            MainScreenMessage::StartMonitoring => {
                self.screen = AppScreen::Monitor(MonitorState::default());
                Command::Nothing
            },
            MainScreenMessage::StartDownload => {
                self.screen = AppScreen::Download(DownloadState::new());
                Command::Nothing
            },
        }
    }
}

} // verus!
