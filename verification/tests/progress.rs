use clearcore_flash::serial::download::{
    firmware_read_size, DownloadConfig, DownloadEvent, DownloadPhase, DownloadProgressBar,
    ProgressState as DownloadProgressState,
};
use clearcore_flash::serial::upload::{
    check_verification, ProgressState as UploadProgressState, UploadEvent, UploadPhase, UploadProgressBar,
};
use clearcore_flash::serial::TEKNIC_BOOTLOADER_OFFSET_ADDRESS;
use clearcore_flash::types::LogMsgType;
use clearcore_flash::ui::download_screen::DownloadProgress;
use clearcore_flash::ui::upload_screen::UploadProgress;

#[test]
fn phase_labels() {
    assert_eq!(UploadPhase::Erasing.label(), "Erasing Flash");
    assert_eq!(UploadPhase::Verifying.label(), "Verifying Firmware");
    assert_eq!(UploadPhase::default(), UploadPhase::Initializing);
    assert_eq!(DownloadPhase::Reading.label(), "Reading Firmware");
    assert_eq!(DownloadPhase::Resetting.label(), "Resetting Device");
    assert_eq!(DownloadPhase::default().label(), "Initializing");
}

#[test]
fn upload_progress_state() {
    let mut s = UploadProgressState::new();
    assert_eq!(s.snapshot(), UploadProgressBar { phase: UploadPhase::Initializing, current: 0, total: 100 });
    s.set_phase(UploadPhase::Writing);
    s.record_progress(12, 256);
    assert_eq!(s.snapshot(), UploadProgressBar { phase: UploadPhase::Writing, current: 12, total: 256 });
    s.set_phase(UploadPhase::Verifying);
    assert_eq!(s.snapshot(), UploadProgressBar { phase: UploadPhase::Verifying, current: 0, total: 100 });
    s.record_progress(-1, 3);
    assert_eq!(s.current, u32::MAX);
}

#[test]
fn download_progress_state() {
    let mut s = DownloadProgressState::new();
    s.set_phase(DownloadPhase::Reading);
    s.record_progress(7, 8);
    assert_eq!(s.snapshot(), DownloadProgressBar { phase: DownloadPhase::Reading, current: 7, total: 8 });
    s.set_phase(DownloadPhase::Resetting);
    assert_eq!(s.snapshot(), DownloadProgressBar { phase: DownloadPhase::Resetting, current: 0, total: 100 });
}

#[test]
fn verification_judgement() {
    assert_eq!(check_verification(true, 0, 0), Ok(()));
    assert_eq!(
        check_verification(false, 0, 0),
        Err("Verification failed: 0 page errors, 0 total errors".to_string())
    );
    assert_eq!(
        check_verification(true, 2, 17),
        Err("Verification failed: 2 page errors, 17 total errors".to_string())
    );
}

#[test]
fn read_size_skips_the_bootloader() {
    assert_eq!(TEKNIC_BOOTLOADER_OFFSET_ADDRESS, 0x4000);
    assert_eq!(firmware_read_size(0x80000), 0x7c000);
    assert_eq!(firmware_read_size(0x4000), 0);
}

#[test]
fn event_constructors() {
    match UploadEvent::log(LogMsgType::Debug, "d".to_string()) {
        UploadEvent::Log(m) => {
            assert_eq!(m.log_type, LogMsgType::Debug);
            assert_eq!(m.message, "d");
        }
        _ => panic!("expected a log event"),
    }
    match DownloadEvent::log(LogMsgType::BossaNative, "b".to_string()) {
        DownloadEvent::Log(m) => assert_eq!(m.log_type, LogMsgType::BossaNative),
        _ => panic!("expected a log event"),
    }
    assert_eq!(DownloadConfig::default(), DownloadConfig {});
}

#[test]
fn progress_in_words() {
    assert_eq!(UploadProgress::Preparing.status_text().as_deref(), Some("Preparing upload..."));
    assert_eq!(UploadProgress::Complete.status_text().as_deref(), Some("Upload complete!"));
    assert_eq!(
        UploadProgress::Failed("no port".to_string()).status_text().as_deref(),
        Some("Upload failed: no port")
    );
    let bar = UploadProgressBar { phase: UploadPhase::Writing, current: 3, total: 9 };
    assert_eq!(UploadProgress::Uploading(bar).status_text(), None);

    assert_eq!(DownloadProgress::Preparing.status_text().as_deref(), Some("Preparing download..."));
    assert_eq!(DownloadProgress::Complete.status_text().as_deref(), Some("Download complete!"));
    assert_eq!(
        DownloadProgress::Failed("timeout".to_string()).status_text().as_deref(),
        Some("Download failed: timeout")
    );
    let bar = DownloadProgressBar { phase: DownloadPhase::Reading, current: 1, total: 2 };
    assert_eq!(DownloadProgress::Downloading(bar).status_text(), None);
}
