use foundry_bootstrap::events::{EventKind, ProgressEvent};
use foundry_bootstrap::install::InstallError;
use foundry_bootstrap::pipeline::{info, AcquireError, PipelineRun, Reply, Stage};
use foundry_bootstrap::shutdown::ShutdownSlot;
use tokio::sync::oneshot;

fn kinds(run: &PipelineRun) -> Vec<EventKind> {
    run.events.iter().map(|e| e.kind).collect()
}

fn error_events(run: &PipelineRun) -> usize {
    run.events.iter().filter(|e| e.kind == EventKind::Error).count()
}

fn assert_monotone(run: &PipelineRun) {
    let mut last = 0u32;
    for e in &run.events {
        if let Some(p) = e.progress {
            assert!(p >= last, "progress went from {} to {}", last, p);
            assert!(p <= 1000);
            last = p;
        }
    }
}

fn failure(run: &PipelineRun) -> (u16, String) {
    match &run.reply {
        Some(Reply::Failure(status, body)) => (*status, body.error.clone()),
        other => panic!("expected a failure reply, got {:?}", other),
    }
}

#[test]
fn download_of_valid_archive_completes_and_hands_over() {
    let (tx, mut rx) = oneshot::channel::<()>();
    let mut slot = ShutdownSlot::new(tx);
    let mut run = PipelineRun::for_download("http://x/good.zip");
    run.target_ready();
    let size: u64 = 12 * 1024 * 1024;
    run.transfer_begun(size);
    for _ in 0..12 {
        run.chunk_received(1024 * 1024);
    }
    run.acquire_done();
    run.file_checked(&Ok(size));
    run.archive_opened(10);
    run.installed();
    run.finish(true, &mut slot);

    assert_eq!(run.stage, Stage::Completed);
    assert_eq!(
        run.reply,
        Some(Reply::Success(foundry_bootstrap::pipeline::SuccessResponse {
            message: "Downloaded and extracted content from: http://x/good.zip".to_string()
        }))
    );
    let n = run.events.len();
    assert_eq!(run.events[n - 2].kind, EventKind::Complete);
    assert_eq!(run.events[n - 2].progress, Some(1000));
    assert_eq!(run.events[n - 1].kind, EventKind::Transition);
    assert_eq!(run.events[n - 3].kind, EventKind::Cleanup);
    assert_eq!(error_events(&run), 0);
    assert!(run.events.iter().any(|e| e.message == "Extracting 10 files..."));
    assert!(run.events.iter().any(|e| e.message == format!("Download complete: {} bytes", size)));
    assert_monotone(&run);
    assert!(rx.try_recv().is_ok());
    assert!(!slot.is_pending());
    assert!(run.archive_removed);
}

#[test]
fn download_with_bad_status_fails_once() {
    let mut run = PipelineRun::for_download("http://x/404");
    run.target_ready();
    run.acquire_failed(&AcquireError::BadStatus("404 Not Found".to_string()));
    assert_eq!(run.stage, Stage::Errored);
    let (status, text) = failure(&run);
    assert_eq!(status, 500);
    assert_eq!(text, "Failed to download file: Download failed with status: 404 Not Found");
    assert_eq!(error_events(&run), 1);
    assert_eq!(run.events.last().unwrap().message, text);
    assert_eq!(run.transferred, 0);
}

#[test]
fn empty_upload_is_rejected_without_extraction() {
    let mut run = PipelineRun::for_upload();
    run.target_ready();
    run.field_begun();
    run.acquire_done();
    let (status, text) = failure(&run);
    assert_eq!(status, 400);
    assert_eq!(text, "Uploaded file is empty");
    assert_eq!(run.events.last().unwrap().kind, EventKind::Error);
    assert_eq!(run.events.last().unwrap().message, "Uploaded file is empty");
    run.file_checked(&Ok(10));
    run.installed();
    assert!(!kinds(&run).contains(&EventKind::Extracting));
    assert_eq!(error_events(&run), 1);
}

#[test]
fn corrupted_entry_fails_and_keeps_archive() {
    let (tx, mut rx) = oneshot::channel::<()>();
    let mut slot = ShutdownSlot::new(tx);
    let mut run = PipelineRun::for_download("http://x/bad.zip");
    run.target_ready();
    run.transfer_begun(0);
    run.chunk_received(2048);
    run.acquire_done();
    run.file_checked(&Ok(2048));
    run.archive_opened(3);
    run.install_failed(&InstallError::ExtractionFailed("invalid checksum".to_string()));
    let (status, text) = failure(&run);
    assert_eq!(status, 500);
    assert_eq!(text, "Failed to extract file: Extraction failed: invalid checksum");
    run.installed();
    run.finish(true, &mut slot);
    assert!(!kinds(&run).contains(&EventKind::Cleanup));
    assert!(!kinds(&run).contains(&EventKind::Complete));
    assert_eq!(run.stage, Stage::Errored);
    assert!(!run.archive_removed);
    assert!(slot.is_pending());
    assert!(rx.try_recv().is_err());
}

#[test]
fn connection_drop_and_empty_body_end_in_one_error() {
    let mut run = PipelineRun::for_download("http://x/drop");
    run.target_ready();
    run.transfer_begun(100);
    run.chunk_received(10);
    run.acquire_failed(&AcquireError::StreamFailed("connection reset".to_string()));
    assert_eq!(failure(&run).1, "Failed to download file: Failed reading download stream: connection reset");
    run.acquire_done();
    run.file_checked(&Ok(100));
    assert_eq!(error_events(&run), 1);
    assert_eq!(run.events.last().unwrap().kind, EventKind::Error);

    let mut empty = PipelineRun::for_download("http://x/empty");
    empty.target_ready();
    empty.transfer_begun(0);
    empty.acquire_done();
    empty.file_checked(&Ok(0));
    assert_eq!(failure(&empty), (500, "Downloaded file is empty".to_string()));
    empty.archive_opened(1);
    assert_eq!(error_events(&empty), 1);
    assert!(!kinds(&empty).contains(&EventKind::Extracting));
}

#[test]
fn request_failure_and_directory_failure_messages() {
    let mut run = PipelineRun::for_download("http://nowhere");
    run.target_ready();
    run.acquire_failed(&AcquireError::RequestFailed("dns error".to_string()));
    assert_eq!(failure(&run), (500, "Failed to download file: Failed to send request: dns error".to_string()));

    let mut dir = PipelineRun::for_upload();
    dir.target_failed("permission denied");
    assert_eq!(failure(&dir), (500, "Failed to create target directory: permission denied".to_string()));
    dir.target_ready();
    assert_eq!(dir.stage, Stage::Errored);

    let mut up = PipelineRun::for_upload();
    up.target_ready();
    up.acquire_failed(&AcquireError::WriteFailed("disk full".to_string()));
    assert_eq!(failure(&up), (500, "Error writing to file: disk full".to_string()));
}

#[test]
fn verify_failure_is_reported() {
    let mut run = PipelineRun::for_upload();
    run.target_ready();
    run.field_begun();
    run.chunk_received(100);
    run.acquire_done();
    run.file_checked(&Err("no such file".to_string()));
    assert_eq!(failure(&run), (500, "Failed to verify uploaded file: no such file".to_string()));
}

#[test]
fn progress_never_goes_down_in_an_upload() {
    let (tx, _rx) = oneshot::channel::<()>();
    let mut slot = ShutdownSlot::new(tx);
    let mut run = PipelineRun::for_upload();
    run.target_ready();
    run.field_begun();
    for _ in 0..100 {
        run.chunk_received(300 * 1024);
    }
    run.field_begun();
    for _ in 0..200 {
        run.chunk_received(300 * 1024);
    }
    run.acquire_done();
    run.file_checked(&Ok(run.transferred));
    run.archive_opened(5);
    run.installed();
    run.finish(true, &mut slot);
    assert_monotone(&run);
    let uploaded = run.events.iter().find(|e| e.kind == EventKind::Uploaded).unwrap();
    assert_eq!(uploaded.progress, Some(500));
    assert_eq!(uploaded.message, "Upload complete: 87.89 MB");
    assert_eq!(run.stage, Stage::Completed);
}

#[test]
fn progress_values_of_a_download_follow_the_stages() {
    let (tx, _rx) = oneshot::channel::<()>();
    let mut slot = ShutdownSlot::new(tx);
    let mut run = PipelineRun::for_download("http://x/a.zip");
    run.target_ready();
    run.transfer_begun(10 * 1024 * 1024);
    run.chunk_received(5 * 1024 * 1024);
    run.chunk_received(5 * 1024 * 1024);
    run.acquire_done();
    run.file_checked(&Ok(10 * 1024 * 1024));
    run.archive_opened(2);
    run.installed();
    run.finish(true, &mut slot);
    let progress: Vec<Option<u32>> = run.events.iter().map(|e| e.progress).collect();
    assert_eq!(
        progress,
        vec![
            Some(0),
            Some(100),
            Some(150),
            Some(325),
            Some(500),
            None,
            Some(500),
            Some(600),
            Some(650),
            Some(850),
            Some(900),
            Some(1000),
            Some(1000)
        ]
    );
    assert_eq!(run.events[3].message, "Downloaded: 5.0 MB (50%)");
    assert_monotone(&run);
}

#[test]
fn cleanup_failure_still_completes() {
    let mut slot = ShutdownSlot::empty();
    let mut run = PipelineRun::for_upload();
    run.target_ready();
    run.field_begun();
    run.chunk_received(4096);
    run.acquire_done();
    run.file_checked(&Ok(4096));
    run.installed();
    run.finish(false, &mut slot);
    assert_eq!(run.stage, Stage::Completed);
    assert!(!run.archive_removed);
    assert_eq!(error_events(&run), 0);
    let cleanup = run.events.iter().find(|e| e.kind == EventKind::Cleanup).unwrap();
    assert_eq!(cleanup.progress, Some(900));
    assert!(!kinds(&run).contains(&EventKind::Transition));
    assert_eq!(
        run.reply,
        Some(Reply::Success(foundry_bootstrap::pipeline::SuccessResponse {
            message: "Successfully uploaded and extracted content".to_string()
        }))
    );
    assert_eq!(run.events.last().unwrap().kind, EventKind::Complete);
}

#[test]
fn second_request_does_not_fire_shutdown_again() {
    let (tx, mut rx) = oneshot::channel::<()>();
    let mut slot = ShutdownSlot::new(tx);
    for _ in 0..2 {
        let mut run = PipelineRun::for_upload();
        run.target_ready();
        run.chunk_received(1);
        run.acquire_done();
        run.file_checked(&Ok(1));
        run.installed();
        run.finish(true, &mut slot);
        assert_eq!(run.stage, Stage::Completed);
    }
    assert!(rx.try_recv().is_ok());
    assert!(!slot.is_pending());
}

#[test]
fn start_events_and_liveness_reply() {
    let run = PipelineRun::for_download("http://x/y.zip");
    assert_eq!(
        run.events,
        vec![ProgressEvent::new(EventKind::Start, "Starting download from http://x/y.zip", Some(0))]
    );
    let up = PipelineRun::for_upload();
    assert_eq!(up.events[0].message, "Starting file upload process");
    assert_eq!(info().message, "Server is running");
}

#[test]
fn nothing_follows_an_error_whatever_the_input() {
    let (tx, mut rx) = oneshot::channel::<()>();
    let mut slot = ShutdownSlot::new(tx);
    let mut run = PipelineRun::for_download("http://x/refused");
    run.target_ready();
    run.acquire_failed(&AcquireError::RequestFailed("connection refused".to_string()));
    let before = run.events.clone();
    run.target_ready();
    run.transfer_begun(10);
    run.chunk_received(10);
    run.acquire_done();
    run.file_checked(&Ok(10));
    run.archive_opened(1);
    run.installed();
    run.install_failed(&InstallError::CorruptArchive("x".to_string()));
    run.finish(true, &mut slot);
    assert_eq!(run.events, before);
    assert_eq!(run.stage, Stage::Errored);
    assert_eq!(error_events(&run), 1);
    assert!(slot.is_pending());
    assert!(rx.try_recv().is_err());
}

#[test]
fn every_transition_is_reported() {
    let mut up = PipelineRun::for_upload();
    up.target_ready();
    assert_eq!(up.events.len(), 2);
    assert_eq!(up.events[1].kind, EventKind::Uploading);
    assert_eq!(up.events[1].progress, None);
    let mut down = PipelineRun::for_download("http://x/a.zip");
    down.target_ready();
    down.transfer_begun(0);
    let n = down.events.len();
    down.acquire_done();
    assert_eq!(down.stage, Stage::Verifying);
    assert_eq!(down.events.len(), n + 1);
    assert_eq!(down.events[n].message, "Download stream finished");
}
