use clearcore_flash::app::{App, AppScreen, Command, Message, SubscriptionKind};
use clearcore_flash::serial::download::{DownloadEvent, DownloadPhase, DownloadProgressBar};
use clearcore_flash::serial::monitor::MonitorConnectionState;
use clearcore_flash::serial::upload::{UploadEvent, UploadPhase, UploadProgressBar};
use clearcore_flash::types::{LogMsg, LogMsgType, SerialConfig, Timestamp};
use clearcore_flash::ui::download_screen::{DownloadProgress, DownloadScreenMessage, SavedFile};
use clearcore_flash::ui::main_screen::MainScreenMessage;
use clearcore_flash::ui::monitor_screen::MonitorScreenMessage;
use clearcore_flash::ui::toast::ToastLevel;
use clearcore_flash::ui::upload_screen::{UploadProgress, UploadScreenMessage};

fn at() -> Timestamp {
    Timestamp::new(9, 30, 15, 250_000_000).unwrap()
}

fn upload_event(app: &mut App, e: UploadEvent) -> Command {
    app.update(Message::UploadScreen(UploadScreenMessage::Event(e)), at())
}

fn download_event(app: &mut App, e: DownloadEvent) -> Command {
    app.update(Message::DownloadScreen(DownloadScreenMessage::Event(e)), at())
}

#[test]
fn starts_on_the_main_screen() {
    let (app, cmd) = App::new();
    assert!(matches!(app.screen, AppScreen::Main));
    assert!(!app.monitor_after_upload);
    assert!(app.toast.is_none());
    assert!(matches!(cmd, Command::Nothing));
    assert_eq!(app.title(), "ClearCore Flasher");
    assert!(matches!(app.subscription(), SubscriptionKind::Idle));
}

#[test]
fn upload_with_monitor_after() {
    let (mut app, _) = App::new();
    assert!(matches!(app.update(Message::MainScreen(MainScreenMessage::SelectFile), at()), Command::PickFirmwareFile));
    app.update(Message::MainScreen(MainScreenMessage::SetMonitorAfterUpload(true)), at());
    app.update(Message::MainScreen(MainScreenMessage::FileSelected(Some("fw.bin".to_string()))), at());
    assert_eq!(app.title(), "ClearCore Flasher - Upload");
    match app.subscription() {
        SubscriptionKind::Upload(c) => assert_eq!(c.file_path, "fw.bin"),
        _ => panic!("expected the upload subscription"),
    }

    upload_event(&mut app, UploadEvent::log(LogMsgType::Info, "started".to_string()));
    let bar = UploadProgressBar { phase: UploadPhase::Writing, current: 3, total: 9 };
    upload_event(&mut app, UploadEvent::ProgressBarUpdate(bar));
    let cmd = upload_event(&mut app, UploadEvent::Success);
    assert!(matches!(cmd, Command::StartMonitoringSoon));
    match &app.screen {
        AppScreen::Upload(s) => {
            assert!(matches!(s.progress, UploadProgress::Complete));
            assert_eq!(s.logs.len(), 2);
            assert_eq!(s.logs[0].message.message, "started");
            assert_eq!(s.logs[1].message.message, "SUCCESS: Firmware uploaded successfully.");
            assert_eq!(s.logs[1].message.log_type, LogMsgType::Info);
        }
        _ => panic!("expected the upload screen"),
    }
    assert!(matches!(app.subscription(), SubscriptionKind::Idle));

    app.update(Message::MainScreen(MainScreenMessage::StartMonitoring), at());
    match &app.screen {
        AppScreen::Monitor(m) => {
            assert!(matches!(m.connection_state, MonitorConnectionState::Disconnected));
            assert_eq!(m.serial_config, SerialConfig::serial_monitor());
            assert!(m.logs.is_empty());
        }
        _ => panic!("expected the monitor screen"),
    }
    assert!(matches!(app.subscription(), SubscriptionKind::Monitor));
}

#[test]
fn failed_upload_without_monitor_after() {
    let (mut app, _) = App::new();
    app.update(Message::MainScreen(MainScreenMessage::FileSelected(Some("a.bin".to_string()))), at());
    let cmd = upload_event(&mut app, UploadEvent::Error("boom".to_string()));
    assert!(matches!(cmd, Command::Nothing));
    match &app.screen {
        AppScreen::Upload(s) => {
            assert!(matches!(&s.progress, UploadProgress::Failed(e) if e == "boom"));
            assert_eq!(s.logs[0].message.message, "CRITICAL ERROR: boom");
            assert_eq!(s.logs[0].message.log_type, LogMsgType::Error);
        }
        _ => panic!("expected the upload screen"),
    }
    assert!(matches!(upload_event(&mut app, UploadEvent::Success), Command::Nothing));
    assert!(matches!(app.subscription(), SubscriptionKind::Idle));
}

#[test]
fn cancelled_file_choice_stays_on_main() {
    let (mut app, _) = App::new();
    app.update(Message::MainScreen(MainScreenMessage::FileSelected(None)), at());
    assert!(matches!(app.screen, AppScreen::Main));
}

#[test]
fn events_for_other_screens_are_ignored() {
    let (mut app, _) = App::new();
    assert!(matches!(upload_event(&mut app, UploadEvent::Success), Command::Nothing));
    assert!(matches!(download_event(&mut app, DownloadEvent::Success), Command::Nothing));
    app.update(Message::MonitorScreen(MonitorScreenMessage::SerialData("x".to_string())), at());
    assert!(matches!(app.screen, AppScreen::Main));
}

#[test]
fn download_and_save() {
    let (mut app, _) = App::new();
    app.update(Message::MainScreen(MainScreenMessage::StartDownload), at());
    assert_eq!(app.title(), "ClearCore Flasher - Download");
    assert!(matches!(app.subscription(), SubscriptionKind::Download));
    let bar = DownloadProgressBar { phase: DownloadPhase::Reading, current: 1, total: 2 };
    download_event(&mut app, DownloadEvent::ProgressBarUpdate(bar));
    download_event(&mut app, DownloadEvent::Log(LogMsg::new(LogMsgType::BossaNative, "read".to_string())));
    let cmd = download_event(&mut app, DownloadEvent::Success);
    assert!(matches!(cmd, Command::SaveDownloadedFirmware));
    assert!(matches!(app.subscription(), SubscriptionKind::Idle));

    let saved = SavedFile { path: "\"/tmp/firmware.bin\"".to_string(), file_name: "\"firmware.bin\"".to_string() };
    app.update(Message::DownloadScreen(DownloadScreenMessage::SaveFileResult(Ok(saved))), at());
    let toast = app.toast.clone().unwrap();
    assert_eq!(toast.level, ToastLevel::Info);
    assert_eq!(toast.message, "Saved to \"firmware.bin\"");
    match &app.screen {
        AppScreen::Download(s) => {
            assert!(matches!(s.progress, DownloadProgress::Complete));
            let texts: Vec<&str> = s.logs.iter().map(|e| e.message.message.as_str()).collect();
            assert_eq!(
                texts,
                vec![
                    "read",
                    "SUCCESS: Firmware downloaded to temp storage. Prompting for save...",
                    "Saved firmware to \"/tmp/firmware.bin\"",
                ]
            );
        }
        _ => panic!("expected the download screen"),
    }

    app.update(Message::DownloadScreen(DownloadScreenMessage::SaveFileResult(Err("disk full".to_string()))), at());
    assert_eq!(app.toast.as_ref().unwrap().level, ToastLevel::Error);
    assert_eq!(app.toast.as_ref().unwrap().message, "disk full");
    app.update(Message::DownloadScreen(DownloadScreenMessage::SaveCancelled), at());
    assert_eq!(app.toast.as_ref().unwrap().message, "File save cancelled");
    match &app.screen {
        AppScreen::Download(s) => {
            assert_eq!(s.logs[3].message.message, "Error saving file: disk full");
            assert_eq!(s.logs[4].message.message, "User cancelled file save operation.");
        }
        _ => panic!("expected the download screen"),
    }

    app.update(Message::CloseToast, at());
    assert!(app.toast.is_none());
    assert!(matches!(app.screen, AppScreen::Download(_)));
}

#[test]
fn failed_download() {
    let (mut app, _) = App::new();
    app.update(Message::MainScreen(MainScreenMessage::StartDownload), at());
    download_event(&mut app, DownloadEvent::Error("no device".to_string()));
    match &app.screen {
        AppScreen::Download(s) => {
            assert!(matches!(&s.progress, DownloadProgress::Failed(e) if e == "no device"));
            assert_eq!(s.logs[0].message.message, "CRITICAL ERROR: no device");
        }
        _ => panic!("expected the download screen"),
    }
}

#[test]
fn monitor_screen_messages() {
    let (mut app, _) = App::new();
    app.update(Message::MainScreen(MainScreenMessage::StartMonitoring), at());
    assert_eq!(app.title(), "ClearCore Flasher - Monitor");
    app.update(Message::MonitorScreen(MonitorScreenMessage::ConnectionStateChanged(
        MonitorConnectionState::Connected("COM3".to_string()),
    )), at());
    app.update(Message::MonitorScreen(MonitorScreenMessage::SerialData("first line\r\n".to_string())), at());
    app.update(Message::MonitorScreen(MonitorScreenMessage::SerialData("  \r\n".to_string())), at());
    app.update(Message::MonitorScreen(MonitorScreenMessage::SerialData("second".to_string())), at());
    let logs_text = match &app.screen {
        AppScreen::Monitor(m) => {
            assert!(matches!(&m.connection_state, MonitorConnectionState::Connected(p) if p == "COM3"));
            assert_eq!(m.logs.len(), 2);
            assert_eq!(m.logs[0].message.message, "first line");
            assert_eq!(m.logs[0].message.log_type, LogMsgType::ClearCore);
            let expected = format!("{}\n{}", m.logs[0].to_display_string(), m.logs[1].to_display_string());
            assert_eq!(m.log_text(), expected);
            expected
        }
        _ => panic!("expected the monitor screen"),
    };
    assert!(logs_text.ends_with("] second"));

    match app.update(Message::MonitorScreen(MonitorScreenMessage::CopyLogs), at()) {
        Command::CopyToClipboard(text) => assert_eq!(text, logs_text),
        _ => panic!("expected a clipboard copy"),
    }
    assert_eq!(app.toast.as_ref().unwrap().message, "Logs copied to clipboard");
    match app.update(Message::MonitorScreen(MonitorScreenMessage::SaveLogs), at()) {
        Command::SaveLogText(text) => assert_eq!(text, logs_text),
        _ => panic!("expected a save request"),
    }
    assert!(matches!(app.update(Message::MonitorScreen(MonitorScreenMessage::JumpToBottom), at()), Command::ScrollLogToEnd));

    app.update(Message::CloseToast, at());
    app.update(Message::MonitorScreen(MonitorScreenMessage::SaveLogsFinished(Ok(false))), at());
    assert!(app.toast.is_none());
    app.update(Message::MonitorScreen(MonitorScreenMessage::SaveLogsFinished(Ok(true))), at());
    assert_eq!(app.toast.as_ref().unwrap().message, "Serial log saved successfully");
    app.update(Message::MonitorScreen(MonitorScreenMessage::SaveLogsFinished(Err("denied".to_string()))), at());
    assert_eq!(app.toast.as_ref().unwrap().level, ToastLevel::Error);
    assert_eq!(app.toast.as_ref().unwrap().message, "Failed to save serial log: denied");

    assert!(matches!(app.update(Message::Tick, at()), Command::Nothing));
    app.update(Message::BackToMain, at());
    assert!(matches!(app.screen, AppScreen::Main));
    assert!(app.toast.is_none());
}

#[test]
fn log_entries_carry_the_time_of_their_message() {
    let (mut app, _) = App::new();
    app.update(Message::MainScreen(MainScreenMessage::StartMonitoring), at());
    let later = Timestamp::new(9, 31, 0, 0).unwrap();
    app.update(Message::MonitorScreen(MonitorScreenMessage::SerialData("hi\n".to_string())), later);
    match &app.screen {
        AppScreen::Monitor(m) => {
            assert_eq!(m.logs.len(), 1);
            assert_eq!(m.logs[0].format_timestamp(), "09:31:00.000");
        }
        _ => panic!("expected the monitor screen"),
    }
}
