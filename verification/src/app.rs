//! The application: which screen is shown, and how messages change it.

use vstd::prelude::*;
use vstd::string::*;
use crate::serial::download::DownloadEvent;
use crate::serial::upload::{UploadConfig, UploadEvent};
use crate::ui::download_screen::{download_screen_post, DownloadScreenMessage, DownloadState};
use crate::ui::main_screen::{main_screen_post, MainScreenMessage};
use crate::ui::monitor_screen::{monitor_screen_post, MonitorScreenMessage, MonitorState};
use crate::ui::toast::Toast;
use crate::types::Timestamp;
use crate::ui::upload_screen::{upload_screen_post, UploadScreenMessage, UploadState};

verus! {

/// The application's screens.
#[derive(Debug)]
pub enum AppScreen {
    Main,
    Upload(UploadState),
    Monitor(MonitorState),
    Download(DownloadState),
}

/// The application state.
#[derive(Debug)]
pub struct App {
    pub screen: AppScreen,
    /// Whether to open the serial monitor after a successful upload.
    pub monitor_after_upload: bool,
    pub toast: Option<Toast>,
}

/// Application messages.
#[derive(Debug)]
pub enum Message {
    MainScreen(MainScreenMessage),
    UploadScreen(UploadScreenMessage),
    DownloadScreen(DownloadScreenMessage),
    MonitorScreen(MonitorScreenMessage),
    BackToMain,
    CloseToast,
    Tick,
}

impl Clone for Message {
    fn clone(&self) -> (c: Self)
        ensures
            c == *self,
    {
        match self {
            Message::MainScreen(m) => Message::MainScreen(m.clone()),
            Message::UploadScreen(m) => Message::UploadScreen(m.clone()),
            Message::DownloadScreen(m) => Message::DownloadScreen(m.clone()),
            Message::MonitorScreen(m) => Message::MonitorScreen(m.clone()),
            Message::BackToMain => Message::BackToMain,
            Message::CloseToast => Message::CloseToast,
            Message::Tick => Message::Tick,
        }
    }
}

/// Work that the application asks for after a message; each answers with a message.
#[derive(Debug)]
pub enum Command {
    Nothing,
    /// Ask the user for a `.bin` firmware file; answer with `FileSelected`.
    PickFirmwareFile,
    /// Wait a second, then send `StartMonitoring`.
    StartMonitoringSoon,
    /// Ask the user where to save the downloaded firmware and move it there; answer
    /// with `SaveFileResult` or `SaveCancelled`.
    SaveDownloadedFirmware,
    /// Scroll the serial log to its end.
    ScrollLogToEnd,
    /// Put the text on the clipboard.
    CopyToClipboard(String),
    /// Ask the user where to save the serial log and write the text there; answer with
    /// `SaveLogsFinished`.
    SaveLogText(String),
}


/// The background work that a screen listens to.
#[derive(Debug)]
pub enum SubscriptionKind {
    /// No background work.
    Idle,
    /// The serial monitor's connection.
    Monitor,
    /// The upload of this firmware file.
    Upload(UploadConfig),
    /// The firmware download.
    Download,
}

/// How a message that arrives at the time `now` changes the app (log entries are
/// stamped `now`), and what the app does next.
pub open spec fn update_post(old: App, msg: Message, now: Timestamp, new: App, cmd: Command) -> bool {
    match msg {
        Message::MainScreen(m) => main_screen_post(old, m, new, cmd),
        Message::UploadScreen(m) => upload_screen_post(old, m, now, new, cmd),
        Message::DownloadScreen(m) => download_screen_post(old, m, now, new, cmd),
        Message::MonitorScreen(m) => monitor_screen_post(old, m, now, new, cmd),
        Message::BackToMain => {
            &&& new.screen is Main
            &&& new.toast is None
            &&& new.monitor_after_upload == old.monitor_after_upload
            &&& cmd is Nothing
        },
        Message::CloseToast => {
            &&& new.screen == old.screen
            &&& new.toast is None
            &&& new.monitor_after_upload == old.monitor_after_upload
            &&& cmd is Nothing
        },
        Message::Tick => {
            &&& new == old
            &&& cmd is Nothing
        },
    }
}

/// The window title of each screen.
pub open spec fn title_text(screen: AppScreen) -> Seq<char> {
    match screen {
        AppScreen::Main => "ClearCore Flasher"@,
        AppScreen::Upload(_) => "ClearCore Flasher - Upload"@,
        AppScreen::Download(_) => "ClearCore Flasher - Download"@,
        AppScreen::Monitor(_) => "ClearCore Flasher - Monitor"@,
    }
}

/// What the app listens to on its screen: the monitor's connection; an upload or a
/// download until it is finished; nothing on the main screen.
pub open spec fn subscription_post(app: App, sub: SubscriptionKind) -> bool {
    match app.screen {
        AppScreen::Main => sub is Idle,
        AppScreen::Monitor(_) => sub is Monitor,
        AppScreen::Upload(s) => if s.progress.spec_is_finished() {
            sub is Idle
        } else {
            sub matches SubscriptionKind::Upload(c) && c.file_path@ == s.file_path@
        },
        AppScreen::Download(s) => if s.progress.spec_is_finished() {
            sub is Idle
        } else {
            sub is Download
        },
    }
}

impl App {
    /// The app as it starts: the main screen, no monitoring after upload, no toast.
    pub fn new() -> (r: (App, Command))
        ensures
            r.0.screen is Main,
            !r.0.monitor_after_upload,
            r.0.toast is None,
            r.1 is Nothing,
    {
        (App { screen: AppScreen::Main, monitor_after_upload: false, toast: None }, Command::Nothing)
    }

    /// The window title.
    pub fn title(&self) -> (t: String)
        ensures
            t@ == title_text(self.screen),
    {
        match self.screen {
            AppScreen::Main => String::from_str("ClearCore Flasher"),
            AppScreen::Upload(_) => String::from_str("ClearCore Flasher - Upload"),
            AppScreen::Download(_) => String::from_str("ClearCore Flasher - Download"),
            AppScreen::Monitor(_) => String::from_str("ClearCore Flasher - Monitor"),
        }
    }

    /// Handles a message that arrives at the time `now`, which the caller reads from
    /// the clock.
    pub fn update(&mut self, message: Message, now: Timestamp) -> (cmd: Command)
        ensures
            update_post(*old(self), message, now, *final(self), cmd),
    {
        match message {
            Message::MainScreen(msg) => self.handle_main_screen_message(msg),
            Message::UploadScreen(msg) => self.handle_upload_screen_message(msg, now),
            Message::DownloadScreen(msg) => self.handle_download_screen_message(msg, now),
            Message::MonitorScreen(msg) => self.handle_monitor_screen_message(msg, now),
            Message::BackToMain => {
                self.screen = AppScreen::Main;
                self.toast = None;
                Command::Nothing
            },
            Message::CloseToast => {
                self.toast = None;
                Command::Nothing
            },
            Message::Tick => Command::Nothing,
        }
    }

    /// The background work to listen to on the current screen.
    pub fn subscription(&self) -> (sub: SubscriptionKind)
        ensures
            subscription_post(*self, sub),
    {
        match &self.screen {
            AppScreen::Monitor(_) => SubscriptionKind::Monitor,
            AppScreen::Upload(state) => {
                if state.progress.is_finished() {
                    SubscriptionKind::Idle
                } else {
                    SubscriptionKind::Upload(UploadConfig { file_path: state.file_path.clone() })
                }
            },
            AppScreen::Download(state) => {
                if state.progress.is_finished() {
                    SubscriptionKind::Idle
                } else {
                    SubscriptionKind::Download
                }
            },
            AppScreen::Main => SubscriptionKind::Idle,
        }
    }
}


/// `new` keeps every entry of `old`, in order, and may add more after them.
pub open spec fn keeps_entries<T>(old: Seq<T>, new: Seq<T>) -> bool {
    old.len() <= new.len() && new.subrange(0, old.len() as int) == old
}

/// Once an upload has failed or succeeded, the app stops listening to it.
pub proof fn finished_upload_stops_listening(
    old: App,
    event: UploadEvent,
    now: Timestamp,
    new: App,
    cmd: Command,
    sub: SubscriptionKind,
)
    requires
        old.screen is Upload,
        event is Error || event is Success,
        update_post(old, Message::UploadScreen(UploadScreenMessage::Event(event)), now, new, cmd),
        subscription_post(new, sub),
    ensures
        sub is Idle,
{
}

/// Once a download has failed or succeeded, the app stops listening to it.
pub proof fn finished_download_stops_listening(
    old: App,
    event: DownloadEvent,
    now: Timestamp,
    new: App,
    cmd: Command,
    sub: SubscriptionKind,
)
    requires
        old.screen is Download,
        event is Error || event is Success,
        update_post(old, Message::DownloadScreen(DownloadScreenMessage::Event(event)), now, new, cmd),
        subscription_post(new, sub),
    ensures
        sub is Idle,
{
}

/// With "Monitor after upload" chosen, a successful upload asks to start monitoring,
/// and starting it opens a fresh serial monitor that the app then listens to.
pub proof fn monitor_follows_successful_upload(
    a0: App,
    t1: Timestamp,
    a1: App,
    c1: Command,
    t2: Timestamp,
    a2: App,
    c2: Command,
    sub: SubscriptionKind,
)
    requires
        a0.screen matches AppScreen::Upload(s) && s.monitor_after,
        update_post(a0, Message::UploadScreen(UploadScreenMessage::Event(UploadEvent::Success)), t1, a1, c1),
        update_post(a1, Message::MainScreen(MainScreenMessage::StartMonitoring), t2, a2, c2),
        subscription_post(a2, sub),
    ensures
        c1 is StartMonitoringSoon,
        a2.screen matches AppScreen::Monitor(m) && m.connection_state is Disconnected && m.logs@.len() == 0,
        sub is Monitor,
{
}

/// The upload screen's "monitor after" choice is the main screen's at the moment the
/// file was chosen, and the upload's events never change it or the file.
pub proof fn upload_keeps_its_file_and_choice(old: App, msg: Message, now: Timestamp, new: App, cmd: Command)
    requires
        old.screen is Upload,
        msg is UploadScreen,
        update_post(old, msg, now, new, cmd),
    ensures
        new.screen matches AppScreen::Upload(t) && t.file_path == old.screen->Upload_0.file_path
            && t.monitor_after == old.screen->Upload_0.monitor_after,
{
}

/// Messages of the screen itself and of the other screens' workers never drop log
/// entries: while the screen stays, its log only grows. (A main screen message or
/// `BackToMain` replaces the screen.)
pub proof fn screen_logs_only_grow(old: App, msg: Message, now: Timestamp, new: App, cmd: Command)
    requires
        !(msg is MainScreen),
        !(msg is BackToMain),
        update_post(old, msg, now, new, cmd),
    ensures
        old.screen matches AppScreen::Upload(s) ==> new.screen matches AppScreen::Upload(t) && keeps_entries(
            s.logs@,
            t.logs@,
        ),
        old.screen matches AppScreen::Download(s) ==> new.screen matches AppScreen::Download(t) && keeps_entries(
            s.logs@,
            t.logs@,
        ),
        old.screen matches AppScreen::Monitor(s) ==> new.screen matches AppScreen::Monitor(t) && keeps_entries(
            s.logs@,
            t.logs@,
        ),
{
    assert(old.screen is Upload ==> keeps_entries(
        old.screen->Upload_0.logs@,
        old.screen->Upload_0.logs@,
    )) by {
        if old.screen is Upload {
            assert(old.screen->Upload_0.logs@.subrange(0, old.screen->Upload_0.logs@.len() as int)
                =~= old.screen->Upload_0.logs@);
        }
    }
    assert(old.screen is Download ==> keeps_entries(
        old.screen->Download_0.logs@,
        old.screen->Download_0.logs@,
    )) by {
        if old.screen is Download {
            assert(old.screen->Download_0.logs@.subrange(0, old.screen->Download_0.logs@.len() as int)
                =~= old.screen->Download_0.logs@);
        }
    }
    assert(old.screen is Monitor ==> keeps_entries(
        old.screen->Monitor_0.logs@,
        old.screen->Monitor_0.logs@,
    )) by {
        if old.screen is Monitor {
            assert(old.screen->Monitor_0.logs@.subrange(0, old.screen->Monitor_0.logs@.len() as int)
                =~= old.screen->Monitor_0.logs@);
        }
    }
}

} // verus!
