use foundry_bootstrap::config::{parse_unsigned, AppConfig, EnvSettings};
use foundry_bootstrap::events::{stream_step, sse_frame, EventKind, ProgressBus, ProgressEvent, StreamInput, StreamOutput};
use foundry_bootstrap::initialization::{check_required_env, print_system_info, validate_env, ConfigError, SystemInfo};
use foundry_bootstrap::install::{ExtractorService, InstallError};
use foundry_bootstrap::shutdown::ShutdownSlot;
use foundry_bootstrap::supervisor::{launch_command, Supervisor, SupervisorAction, SupervisorEvent, SupervisorState};
use foundry_bootstrap::text::{decimal, hundredths, tenths};
use foundry_bootstrap::transfer::{upload_chunk_event, upload_complete_event, upload_field_event, DownloadService};
use tokio::sync::oneshot;

fn settings() -> EnvSettings {
    EnvSettings {
        static_files_dir: None,
        server_port: None,
        application_port: None,
        server_host: None,
        target_dir: None,
        application_dir: None,
        data_dir: None,
        application_host: None,
    }
}

#[test]
fn decimal_rendering() {
    assert_eq!(decimal(0), "0");
    assert_eq!(decimal(1234), "1234");
    assert_eq!(decimal(u64::MAX), u64::MAX.to_string());
    assert_eq!(tenths(325), "32.5");
    assert_eq!(tenths(7), "0.7");
    assert_eq!(hundredths(1205), "12.05");
}

#[test]
fn sse_frame_of_an_event() {
    let e = ProgressEvent::new(EventKind::Downloading, "Downloading archive...", Some(100));
    assert_eq!(
        e.to_sse_format(),
        "data: {\"event_type\":\"downloading\",\"message\":\"Downloading archive...\",\"progress\":10.0}\n\n"
    );
    let quoted = ProgressEvent::new(EventKind::Error, "bad \"name\"\n", None);
    assert_eq!(
        quoted.to_sse_format(),
        "data: {\"event_type\":\"error\",\"message\":\"bad \\\"name\\\"\\n\",\"progress\":null}\n\n"
    );
    let control = ProgressEvent::new(EventKind::Start, "a\u{1}b\t\\", None);
    assert_eq!(
        control.to_sse_format(),
        "data: {\"event_type\":\"start\",\"message\":\"a\\u0001b\\t\\\\\",\"progress\":null}\n\n"
    );
    assert_eq!(
        sse_frame(EventKind::Complete, "\"m\"", Some(1000)),
        "data: {\"event_type\":\"complete\",\"message\":\"m\",\"progress\":100.0}\n\n"
    );
}

#[test]
fn stream_decisions() {
    match stream_step(StreamInput::KeepAlive) {
        StreamOutput::Send(t) => assert_eq!(t, ":\n\n"),
        _ => panic!("keep-alive must send a comment"),
    }
    let e = ProgressEvent::new(EventKind::Start, "go", Some(0));
    match stream_step(StreamInput::Event(e.clone())) {
        StreamOutput::Send(t) => assert_eq!(t, e.to_sse_format()),
        _ => panic!("an event must be sent"),
    }
    assert!(matches!(stream_step(StreamInput::Lagged), StreamOutput::Skip));
    assert!(matches!(stream_step(StreamInput::Closed), StreamOutput::End));
}

#[test]
fn bus_delivers_to_subscribers_only_after_subscription() {
    let bus = ProgressBus::new(16);
    assert!(!bus.publish(ProgressEvent::new(EventKind::Start, "nobody", Some(0))));
    let mut rx = bus.subscribe();
    let e = ProgressEvent::new(EventKind::Start, "someone", Some(0));
    assert!(bus.publish(e.clone()));
    assert_eq!(rx.try_recv().unwrap(), e);
    assert!(rx.try_recv().is_err());
}

#[test]
fn download_reports() {
    let e = DownloadService::size_event(10 * 1024 * 1024);
    assert_eq!(e.message, "Download size: 10 MB");
    assert_eq!(e.progress, Some(150));
    assert_eq!(DownloadService::size_event(0).message, "Download size unknown");

    let mib = 1024 * 1024;
    let half = DownloadService::chunk_event(0, 5 * mib, 10 * mib).unwrap();
    assert_eq!(half.message, "Downloaded: 5.0 MB (50%)");
    assert_eq!(half.progress, Some(325));
    let decile = DownloadService::chunk_event(0, 1000, 10000).unwrap();
    assert_eq!(decile.progress, Some(185));
    assert!(DownloadService::chunk_event(1000, 1500, 10000).is_none());
    let unknown = DownloadService::chunk_event(4 * mib, 5 * mib, 0).unwrap();
    assert_eq!(unknown.message, "Downloaded: 5.0 MB");
    assert_eq!(unknown.progress, Some(300));
    assert!(DownloadService::chunk_event(0, mib, 0).is_none());
    let over = DownloadService::chunk_event(0, 20 * mib, 10 * mib).unwrap();
    assert_eq!(over.progress, Some(500));
    assert!(DownloadService::status_ok(200));
    assert!(DownloadService::status_ok(204));
    assert!(!DownloadService::status_ok(404));
    assert!(!DownloadService::status_ok(301));
}

#[test]
fn upload_reports() {
    assert_eq!(upload_field_event(0).progress, Some(100));
    let e = upload_chunk_event(0, 512 * 1024).unwrap();
    assert_eq!(e.message, "Uploaded: 0.5 MB");
    assert_eq!(e.progress, Some(105));
    assert!(upload_chunk_event(1, 1000).is_none());
    let big = upload_chunk_event(0, 100 * 1024 * 1024).unwrap();
    assert_eq!(big.progress, Some(500));
    let done = upload_complete_event(1536 * 1024);
    assert_eq!(done.message, "Upload complete: 1.50 MB");
    assert_eq!(done.progress, Some(500));
}

#[test]
fn install_reports() {
    assert_eq!(ExtractorService::entries_event(10).message, "Extracting 10 files...");
    assert_eq!(ExtractorService::extracted_event().progress, Some(850));
    assert_eq!(
        ExtractorService::error_text(&InstallError::ArchiveNotFound("/t/archive.zip".to_string())),
        "Archive file not found at path: /t/archive.zip"
    );
    assert_eq!(ExtractorService::error_text(&InstallError::CorruptArchive("bad header".to_string())), "Invalid ZIP file: bad header");
    assert_eq!(ExtractorService::error_text(&InstallError::DirectoryError("denied".to_string())), "denied");
    assert_eq!(
        ExtractorService::error_text(&InstallError::WorkerPanicked("boom".to_string())),
        "Extraction thread panicked: boom"
    );
    assert_eq!(ExtractorService::error_text(&InstallError::OpenFailed("gone".to_string())), "Failed to open archive file: gone");
}

#[test]
fn shutdown_slot_fires_once() {
    let (tx, mut rx) = oneshot::channel::<()>();
    let mut slot = ShutdownSlot::new(tx);
    assert!(slot.is_pending());
    assert!(slot.fire());
    assert!(!slot.fire());
    assert!(!slot.is_pending());
    assert!(rx.try_recv().is_ok());
}

#[test]
fn shutdown_slot_tolerates_a_gone_receiver() {
    let (tx, rx) = oneshot::channel::<()>();
    drop(rx);
    let mut slot = ShutdownSlot::new(tx);
    assert!(slot.fire());
    assert!(!slot.fire());
    let mut empty = ShutdownSlot::empty();
    assert!(!empty.fire());
}

#[test]
fn supervisor_terminates_on_shutdown_while_running() {
    let (mut sup, first) = Supervisor::new();
    assert_eq!(first, SupervisorAction::CheckScript(0));
    assert_eq!(sup.step(SupervisorEvent::ScriptChecked(true)), SupervisorAction::Spawn);
    assert_eq!(sup.step(SupervisorEvent::Spawned), SupervisorAction::Watch);
    assert_eq!(sup.step(SupervisorEvent::ShutdownRequested), SupervisorAction::Terminate);
    assert_eq!(sup.state, SupervisorState::Stopped);
    assert_eq!(sup.step(SupervisorEvent::ChildExited), SupervisorAction::Done);
    assert_eq!(sup.step(SupervisorEvent::ScriptChecked(true)), SupervisorAction::Done);
}

#[test]
fn supervisor_respawns_once_after_exit() {
    let (mut sup, _) = Supervisor::new();
    sup.step(SupervisorEvent::ScriptChecked(true));
    sup.step(SupervisorEvent::Spawned);
    assert_eq!(sup.step(SupervisorEvent::ChildExited), SupervisorAction::CheckScript(5));
    assert_eq!(sup.step(SupervisorEvent::ScriptChecked(true)), SupervisorAction::Spawn);
    assert_eq!(sup.step(SupervisorEvent::Spawned), SupervisorAction::Watch);
    assert_eq!(sup.state, SupervisorState::Running);
}

#[test]
fn supervisor_waits_for_script_and_retries_failed_spawn() {
    let (mut sup, _) = Supervisor::new();
    assert_eq!(sup.step(SupervisorEvent::ScriptChecked(false)), SupervisorAction::CheckScript(10));
    assert_eq!(sup.step(SupervisorEvent::ScriptChecked(true)), SupervisorAction::Spawn);
    assert_eq!(sup.step(SupervisorEvent::SpawnFailed), SupervisorAction::CheckScript(5));
    assert_eq!(sup.state, SupervisorState::WaitingForScript);
    assert_eq!(sup.step(SupervisorEvent::ShutdownRequested), SupervisorAction::Done);
}

#[test]
fn launch_line() {
    let args = vec!["--port=4444".to_string(), "--noupnp".to_string()];
    assert_eq!(
        launch_command("/foundryvtt/main.js", &args),
        vec!["npx", "--yes", "node", "/foundryvtt/main.js", "--port=4444", "--noupnp"]
    );
}

#[test]
fn number_parsing() {
    assert_eq!(parse_unsigned("4444", 65535), Some(4444));
    assert_eq!(parse_unsigned("+80", 65535), Some(80));
    assert_eq!(parse_unsigned("65535", 65535), Some(65535));
    assert_eq!(parse_unsigned("65536", 65535), None);
    assert_eq!(parse_unsigned("", 65535), None);
    assert_eq!(parse_unsigned("+", 65535), None);
    assert_eq!(parse_unsigned("12a", 65535), None);
    assert_eq!(parse_unsigned("-1", 65535), None);
    assert_eq!(parse_unsigned("99999999999999999999999", 4294967295), None);
}

#[test]
fn configuration_defaults() {
    let c = AppConfig::from_settings(&settings(), "/work/tmp");
    assert_eq!(c.static_files_dir, "static");
    assert_eq!(c.server_port, 4444);
    assert_eq!(c.server_host, "0.0.0.0");
    assert_eq!(c.target_dir, "/work/tmp");
    assert_eq!(
        c.foundry_args,
        vec!["--dataPath=/foundrydata", "--port=4444", "--hostname=foundry.vtt", "--noupnp", "--proxySSL"]
    );
    assert_eq!(c.foundry_script, "/foundryvtt/main.js");
}

#[test]
fn configuration_precedence() {
    let mut s = settings();
    s.server_port = Some("8080".to_string());
    s.application_port = Some("9090".to_string());
    s.application_dir = Some("/opt/app/".to_string());
    s.data_dir = Some("/data".to_string());
    let c = AppConfig::from_settings(&s, "/work/tmp");
    assert_eq!(c.server_port, 8080);
    assert_eq!(c.target_dir, "/opt/app/");
    assert_eq!(c.foundry_script, "/opt/app/main.js");
    assert_eq!(c.foundry_args[0], "--dataPath=/data");
    assert_eq!(c.foundry_args[1], "--port=8080");

    s.target_dir = Some("/explicit".to_string());
    s.server_port = Some("not a port".to_string());
    let d = AppConfig::from_settings(&s, "/work/tmp");
    assert_eq!(d.target_dir, "/explicit");
    assert_eq!(d.server_port, 4444);

    s.server_port = None;
    assert_eq!(AppConfig::from_settings(&s, "/w").server_port, 9090);
}

#[test]
fn boot_checks() {
    let mut s = settings();
    assert_eq!(
        check_required_env(&s),
        Err(ConfigError::MissingVariables(vec![
            "APPLICATION_DIR".to_string(),
            "DATA_DIR".to_string(),
            "APPLICATION_HOST".to_string()
        ]))
    );
    s.application_dir = Some("/same".to_string());
    s.application_host = Some("h".to_string());
    assert_eq!(check_required_env(&s), Err(ConfigError::MissingVariables(vec!["DATA_DIR".to_string()])));
    s.data_dir = Some("/same".to_string());
    assert_eq!(check_required_env(&s), Ok(()));
    assert_eq!(validate_env(&s), Err(ConfigError::SameDirectories));
    s.data_dir = Some("/data".to_string());
    assert_eq!(validate_env(&s), Ok(()));
    s.application_port = Some("x1".to_string());
    assert_eq!(validate_env(&s), Err(ConfigError::InvalidPort("x1".to_string())));
    s.application_port = Some("70000".to_string());
    assert_eq!(validate_env(&s), Ok(()));
}

#[test]
fn system_summary_lines() {
    let info = SystemInfo {
        hostname: "box".to_string(),
        kernel: "6.1".to_string(),
        os: "Debian".to_string(),
        cpu: String::new(),
        memory: "2G".to_string(),
        disk: "10G".to_string(),
        node_version: "20.1.0".to_string(),
        npm_version: "10.2.0".to_string(),
    };
    assert_eq!(
        print_system_info(&info),
        vec![
            "System Information:",
            "  - Hostname: box",
            "  - OS: Debian (Kernel: 6.1)",
            "  - Resources: CPU: Unknown, Memory: 2G, Free Disk: 10G",
            "  - Node: v20.1.0, NPM: v10.2.0",
        ]
    );
}
