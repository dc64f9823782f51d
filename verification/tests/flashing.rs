use clearcore_flash::serial::download::{
    DownloadCall, DownloadEvent, DownloadInput, DownloadJob, DownloadPhase, DownloadStage, DownloadStep, DownloadWork,
};
use clearcore_flash::serial::upload::{
    UploadCall, UploadEvent, UploadInput, UploadJob, UploadPhase, UploadStage, UploadStep, UploadWork,
};
use clearcore_flash::serial::{
    library_output, BootloaderInput, BootloaderSearch, BootloaderWork, CallResult, FlashNext, PortInfo,
};
use clearcore_flash::types::{LogMsg, LogMsgType, UsbId};

fn lines(logs: &[LogMsg]) -> Vec<(LogMsgType, &str)> {
    logs.iter().map(|m| (m.log_type, m.message.as_str())).collect()
}

fn port(name: &str, id: UsbId) -> PortInfo {
    PortInfo { port_name: name.to_string(), usb_id: Some(id) }
}

#[test]
fn touch_into_bootloader() {
    let s = BootloaderSearch::start();
    assert!(matches!(s.work, BootloaderWork::FindPort(id) if id == UsbId::clearcore_serial()));
    let s = s.search.step(BootloaderInput::PortFound(port("COM3", UsbId::clearcore_serial())));
    assert_eq!(lines(&s.logs), vec![(LogMsgType::Info, "cc serial port found")]);
    assert!(matches!(&s.work, BootloaderWork::TouchPort { port_name, baud_rate: 1200 } if port_name == "COM3"));
    let s = s.search.step(BootloaderInput::Touched);
    assert_eq!(
        lines(&s.logs),
        vec![(LogMsgType::Info, "cc serial port COM3 opened"), (LogMsgType::Info, "cc serial port COM3 closed")]
    );
    assert!(matches!(s.work, BootloaderWork::WaitForDisconnect { timeout_ms: 5000, .. }));
    let s = s.search.step(BootloaderInput::Changed);
    assert_eq!(lines(&s.logs), vec![(LogMsgType::Info, "cc serial port disconnected")]);
    assert!(matches!(s.work, BootloaderWork::WaitForPort { usb_id, timeout_ms: 10000 } if usb_id == UsbId::clearcore_bootloader()));
    let s = s.search.step(BootloaderInput::PortFound(port("COM4", UsbId::clearcore_bootloader())));
    assert_eq!(lines(&s.logs), vec![(LogMsgType::Info, "cc touched to bootloader, waiting 1 second")]);
    assert!(matches!(s.work, BootloaderWork::Sleep(1000)));
    let s = s.search.step(BootloaderInput::Slept);
    assert!(matches!(&s.search, BootloaderSearch::Found(p) if p.port_name == "COM4"));
    assert!(matches!(s.work, BootloaderWork::Finished));
}

#[test]
fn failed_touch_and_timeouts() {
    let s = BootloaderSearch::Touching("COM3".to_string()).step(BootloaderInput::TouchFailed("busy".to_string()));
    assert_eq!(
        lines(&s.logs),
        vec![(
            LogMsgType::Error,
            "Failed to open cc serial port COM3 at 1200bps. \nThis might not be a problem on windows. Error: busy"
        )]
    );
    assert!(matches!(s.search, BootloaderSearch::AwaitingDisconnect));
    let s = s.search.step(BootloaderInput::TimedOut);
    assert!(matches!(&s.search, BootloaderSearch::Failed(e) if e == "Failed to touch cc serial port to bootloader"));
    let s = BootloaderSearch::AwaitingBootloader.step(BootloaderInput::WaitFailed("x".to_string()));
    assert!(matches!(&s.search, BootloaderSearch::Failed(e) if e == "Failed to touch cc serial port to bootloader"));
}

#[test]
fn already_in_bootloader_or_missing() {
    let s = BootloaderSearch::start().search.step(BootloaderInput::PortNotFound);
    assert!(matches!(s.work, BootloaderWork::FindPort(id) if id == UsbId::clearcore_bootloader()));
    let found = s.search.step(BootloaderInput::PortFound(port("COM9", UsbId::clearcore_bootloader())));
    assert_eq!(
        lines(&found.logs),
        vec![(LogMsgType::Warn, "Clearcore already in bootloader mode, skipping touching to bootloader")]
    );
    assert!(matches!(&found.search, BootloaderSearch::Found(p) if p.port_name == "COM9"));
    let missing = BootloaderSearch::FindingBootloader.step(BootloaderInput::PortNotFound);
    assert_eq!(lines(&missing.logs), vec![(LogMsgType::Error, "Failed to find cc serial port")]);
    assert!(matches!(&missing.search, BootloaderSearch::Failed(e) if e == "Failed to find cc serial port"));
}

fn upload_job() -> UploadJob {
    UploadJob { port_name: "COM4".to_string(), firmware_path: "/fw/app.bin".to_string() }
}

#[test]
fn upload_job_runs_in_order() {
    let job = upload_job();
    let mut step = UploadJob::first_step();
    let mut all: Vec<(LogMsgType, String)> = Vec::new();
    let mut phases = Vec::new();
    loop {
        let result = match step {
            UploadStep::ReadInfo => CallResult::Info { description: "SAMD51".to_string(), total_size: 0x80000 },
            UploadStep::Verify => CallResult::Verified { ok: true, page_errors: 0, total_errors: 0 },
            _ => CallResult::Done,
        };
        let t = job.after(step, result);
        all.extend(t.logs.iter().map(|m| (m.log_type, m.message.clone())));
        if let Some(p) = t.phase {
            phases.push(p);
        }
        match t.next {
            FlashNext::Call(next) => step = next,
            FlashNext::Finished => break,
            FlashNext::Failed(e) => panic!("unexpected failure {e}"),
        }
    }
    assert_eq!(phases, vec![UploadPhase::Erasing, UploadPhase::Writing, UploadPhase::Verifying, UploadPhase::Resetting]);
    assert_eq!(all.len(), 13);
    assert_eq!(all[6], (LogMsgType::Info, "Device info: SAMD51".to_string()));
    assert_eq!(all[8], (LogMsgType::Info, "Writing firmware from /fw/app.bin".to_string()));
    assert_eq!(all[12], (LogMsgType::Info, "Reset complete".to_string()));
}

#[test]
fn upload_job_failures() {
    let job = upload_job();
    assert!(matches!(job.after(UploadStep::CreatePort, CallResult::Refused).next,
        FlashNext::Failed(e) if e == "Failed to create serial port: COM4"));
    assert!(matches!(job.after(UploadStep::Connect, CallResult::Refused).next,
        FlashNext::Failed(e) if e == "Failed to connect to device via Samba"));
    assert!(matches!(job.after(UploadStep::CreateObserver, CallResult::Refused).next,
        FlashNext::Failed(e) if e == "Failed to create observer"));
    assert!(matches!(job.after(UploadStep::CreateDevice, CallResult::Refused).next,
        FlashNext::Call(UploadStep::CreateObserver)));
    let t = job.after(UploadStep::Verify, CallResult::Verified { ok: true, page_errors: 1, total_errors: 3 });
    assert!(matches!(t.next, FlashNext::Failed(e) if e == "Verification failed: 1 page errors, 3 total errors"));
    assert!(t.phase.is_none());
}

#[test]
fn upload_sequence() {
    let s = UploadStage::start();
    assert_eq!(lines(&s.logs), vec![(LogMsgType::Info, "Starting firmware upload sequence...")]);
    let s = s.stage.step(UploadInput::FileFound);
    assert!(matches!(s.work, UploadWork::GetBootloader));
    let s = s.stage.step(UploadInput::BootloaderReady("COM4".to_string()));
    assert!(matches!(s.work, UploadWork::ResolvePath));
    let s = s.stage.step(UploadInput::PathResolved("/abs/fw.bin".to_string()));
    assert_eq!(lines(&s.logs), vec![(LogMsgType::Info, "Firmware path: /abs/fw.bin")]);
    assert!(matches!(&s.work, UploadWork::Flash(j) if j.port_name == "COM4" && j.firmware_path == "/abs/fw.bin"));
    let s = s.stage.step(UploadInput::Flashed);
    assert!(matches!(s.work, UploadWork::WaitForPort { timeout_ms: 10000, .. }));
    let s = s.stage.step(UploadInput::PortFound);
    assert_eq!(lines(&s.logs), vec![(LogMsgType::Info, "cc serial port found after uploading firmware. Reset success")]);
    assert!(matches!(s.work, UploadWork::Finish(UploadEvent::Success)));
}

#[test]
fn upload_sequence_failures() {
    let s = UploadStage::CheckingFile.step(UploadInput::FileMissing("\"x.bin\"".to_string()));
    assert!(matches!(&s.work, UploadWork::Finish(UploadEvent::Error(e)) if e == "Firmware file not found: \"x.bin\""));
    let job = UploadJob { port_name: "p".to_string(), firmware_path: "f".to_string() };
    let s = UploadStage::Flashing(job).step(UploadInput::FlashFailed("Failed to create Samba".to_string()));
    assert!(matches!(&s.stage, UploadStage::Failed(e) if e == "Failed to upload firmware: Failed to create Samba"));
    let s = UploadStage::AwaitingReboot.step(UploadInput::TimedOut);
    assert!(matches!(&s.work, UploadWork::Finish(UploadEvent::Error(e)) if e == "deadline has elapsed"));
    let s = UploadStage::ResolvingPath("p".to_string()).step(UploadInput::PathNotText);
    assert!(matches!(&s.stage, UploadStage::Failed(e) if e.starts_with("Failed to convert firmware path to string")));
}

fn download_job() -> DownloadJob {
    DownloadJob { port_name: "COM4".to_string(), save_path: "/tmp/fw.bin".to_string() }
}

#[test]
fn download_job_runs_in_order() {
    let job = download_job();
    let mut step = DownloadJob::first_step();
    let mut all: Vec<(LogMsgType, String)> = Vec::new();
    let mut read_size = None;
    loop {
        let result = match step {
            DownloadStep::ReadInfo => CallResult::Info { description: "SAMD51".to_string(), total_size: 0x80000 },
            _ => CallResult::Done,
        };
        if let DownloadStep::Read(n) = step {
            read_size = Some(n);
        }
        let t = job.after(step, result);
        all.extend(t.logs.iter().map(|m| (m.log_type, m.message.clone())));
        match t.next {
            FlashNext::Call(next) => step = next,
            FlashNext::Finished => break,
            FlashNext::Failed(e) => panic!("unexpected failure {e}"),
        }
    }
    assert_eq!(read_size, Some(0x7c000));
    assert!(all.contains(&(LogMsgType::Info, "Detected Flash Size: 524288 bytes".to_string())));
    assert!(all.contains(&(LogMsgType::Info, "Reading firmware to /tmp/fw.bin".to_string())));
    assert_eq!(all.last().unwrap().1, "Reset complete");
    let t = job.after(DownloadStep::Read(1), CallResult::Done);
    assert_eq!(t.phase, Some(DownloadPhase::Resetting));
}

#[test]
fn download_job_failures() {
    let job = download_job();
    assert!(matches!(job.after(DownloadStep::CreatePortFactory, CallResult::Refused).next,
        FlashNext::Failed(e) if e == "Failed to create Port Factory"));
    assert!(matches!(job.after(DownloadStep::Connect, CallResult::Refused).next,
        FlashNext::Failed(e) if e == "Failed to connect to device at COM4 via Samba at 115200 baud."));
    assert!(matches!(job.after(DownloadStep::CreateFlasherInfo, CallResult::Refused).next,
        FlashNext::Failed(e) if e == "Failed to create Flasher Info"));
}

#[test]
fn download_sequence() {
    let s = DownloadStage::start();
    assert_eq!(lines(&s.logs), vec![(LogMsgType::Info, "Starting firmware download sequence...")]);
    assert!(matches!(s.work, DownloadWork::PrepareTempPath));
    let s = s.stage.step(DownloadInput::TempPathReady("/tmp/t.bin".to_string()));
    assert!(matches!(s.work, DownloadWork::GetBootloader));
    let s = s.stage.step(DownloadInput::BootloaderReady("COM4".to_string()));
    assert_eq!(lines(&s.logs), vec![(LogMsgType::Info, "Bootloader Port: COM4")]);
    assert!(matches!(&s.work, DownloadWork::Read(j) if j.save_path == "/tmp/t.bin"));
    let s = s.stage.step(DownloadInput::Read);
    assert_eq!(lines(&s.logs), vec![(LogMsgType::Info, "Firmware downloaded successfully")]);
    let s = s.stage.step(DownloadInput::PortFound);
    assert!(matches!(s.work, DownloadWork::Finish(DownloadEvent::Success)));
    let f = DownloadStage::Reading(download_job()).step(DownloadInput::ReadFailed("boom".to_string()));
    assert!(matches!(&f.work, DownloadWork::Finish(DownloadEvent::Error(e)) if e == "Failed to download firmware: boom"));
}

#[test]
fn library_output_is_trimmed() {
    let m = library_output("  Erase flash\n");
    assert_eq!(m.log_type, LogMsgType::BossaNative);
    assert_eq!(m.message, "Erase flash");
}

#[test]
fn upload_and_download_calls_carry_their_arguments() {
    let job = UploadJob { port_name: "/dev/ttyACM1".to_string(), firmware_path: "/tmp/fw.bin".to_string() };
    assert!(matches!(job.call(UploadStep::CreatePort), UploadCall::CreatePort { port_name, usb: true } if port_name == "/dev/ttyACM1"));
    assert!(matches!(job.call(UploadStep::Connect), UploadCall::Connect { baud_rate: 115200 }));
    assert!(matches!(job.call(UploadStep::Erase), UploadCall::Erase { offset: 0x4000 }));
    assert!(matches!(job.call(UploadStep::Write), UploadCall::Write { path, offset: 0x4000 } if path == "/tmp/fw.bin"));
    assert!(matches!(job.call(UploadStep::Verify), UploadCall::Verify { path, offset: 0x4000 } if path == "/tmp/fw.bin"));
    assert!(matches!(job.call(UploadStep::Reset), UploadCall::Reset));

    let job = DownloadJob { port_name: "COM7".to_string(), save_path: "/tmp/out.bin".to_string() };
    assert!(matches!(job.call(DownloadStep::CreatePort), DownloadCall::CreatePort { port_name, usb: true } if port_name == "COM7"));
    assert!(matches!(job.call(DownloadStep::Connect), DownloadCall::Connect { baud_rate: 115200 }));
    assert!(matches!(
        job.call(DownloadStep::Read(0x3c000)),
        DownloadCall::Read { path, size: 0x3c000, offset: 0x4000 } if path == "/tmp/out.bin"
    ));
}
