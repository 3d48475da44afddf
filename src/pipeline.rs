//! The install pipeline: acquire the archive, verify it, unpack it, clean up,
//! and hand over. One `PipelineRun` follows one request from start to a
//! terminal stage, and keeps the narrative of progress events it produced.
//!
//! The caller performs each step (network, disk, unpacking) and tells the run
//! how it went; the run decides the next stage, the events to report, and the
//! reply owed to the client.
use vstd::prelude::*;
use vstd::string::*;
use crate::events::{EventKind, ProgressEvent, FULL_PROGRESS};
use crate::install::{
    install_error_text, entries_message, ExtractorService, InstallError, ENTRIES_KNOWN_TENTHS,
    EXTRACTED_TENTHS, EXTRACT_START_TENTHS,
};
use crate::shutdown::ShutdownSlot;
use crate::text::{decimal, decimal_text};
use crate::transfer::{
    download_message, download_report_due, download_tenths, size_message, upload_complete_message,
    upload_message, upload_tenths, crossed, upload_chunk_event, upload_complete_event,
    upload_field_event, DownloadService, DOWNLOAD_START_TENTHS, DOWNLOAD_UNKNOWN_TENTHS,
    TRANSFER_DONE_TENTHS, UPLOAD_REPORT_BYTES,
};

verus! {

pub const STATUS_BAD_REQUEST: u16 = 400;

pub const STATUS_SERVER_ERROR: u16 = 500;

/// Progress when a download is about to start.
pub const DOWNLOAD_BEGIN_TENTHS: u32 = 100;

/// Progress when the archive file is about to be removed.
pub const CLEANUP_TENTHS: u32 = 900;

/// The body of a download request.
pub struct UrlPayload {
    pub url: String,
}

/// The body of a successful reply.
#[derive(Clone, Debug, PartialEq, Eq)]
pub struct SuccessResponse {
    pub message: String,
}

/// The body of a failed reply.
#[derive(Clone, Debug, PartialEq, Eq)]
pub struct ErrorResponse {
    pub error: String,
}

/// The reply to the liveness probe.
pub fn info() -> (r: SuccessResponse)
    ensures
        r.message@ == "Server is running"@,
{
    SuccessResponse { message: "Server is running".to_owned() }
}

/// Where the archive comes from.
#[derive(Clone, Copy, Debug, PartialEq, Eq, Structural)]
pub enum Source {
    Download,
    Upload,
}

/// The stage a run is in. `Completed` and `Errored` are terminal.
#[derive(Clone, Copy, Debug, PartialEq, Eq, Structural)]
pub enum Stage {
    Idle,
    Acquiring,
    Verifying,
    Installing,
    CleaningUp,
    Completed,
    Errored,
}

/// Why the archive bytes could not be had. Each variant carries the detail
/// reported by the transport or the filesystem.
#[derive(Clone, Debug, PartialEq, Eq)]
pub enum AcquireError {
    /// The request could not be sent, or the connection failed.
    RequestFailed(String),
    /// The server answered with a status that is not success (the status).
    BadStatus(String),
    /// The incoming stream broke off.
    StreamFailed(String),
    /// The archive file could not be created.
    CreateFailed(String),
    /// A write to the archive file failed.
    WriteFailed(String),
}

/// The reply owed to the client once a run is over.
#[derive(Clone, Debug, PartialEq, Eq)]
pub enum Reply {
    Success(SuccessResponse),
    Failure(u16, ErrorResponse),
}

pub open spec fn start_message(source: Source, url: Seq<char>) -> Seq<char> {
    match source {
        Source::Download => "Starting download from "@ + url,
        Source::Upload => "Starting file upload process"@,
    }
}

pub open spec fn acquire_failure_message(source: Source, e: AcquireError) -> Seq<char> {
    match source {
        Source::Download => "Failed to download file: "@ + match e {
            AcquireError::RequestFailed(d) => "Failed to send request: "@ + d@,
            AcquireError::BadStatus(d) => "Download failed with status: "@ + d@,
            AcquireError::StreamFailed(d) => "Failed reading download stream: "@ + d@,
            AcquireError::CreateFailed(d) => "Failed to create file: "@ + d@,
            AcquireError::WriteFailed(d) => "Failed to write file: "@ + d@,
        },
        Source::Upload => match e {
            AcquireError::CreateFailed(d) => "Failed to create file: "@ + d@,
            AcquireError::WriteFailed(d) => "Error writing to file: "@ + d@,
            AcquireError::RequestFailed(d) => "Upload error: "@ + d@,
            AcquireError::BadStatus(d) => "Upload error: "@ + d@,
            AcquireError::StreamFailed(d) => "Upload error: "@ + d@,
        },
    }
}

fn prefixed(prefix: &str, detail: &str) -> (r: String)
    ensures
        r@ == prefix@ + detail@,
{
    let mut s = prefix.to_owned();
    s.append(detail);
    s
}

fn acquire_failure_text(source: Source, e: &AcquireError) -> (r: String)
    ensures
        r@ == acquire_failure_message(source, *e),
{
    match source {
        Source::Download => {
            let inner = match e {
                AcquireError::RequestFailed(d) => prefixed("Failed to send request: ", d.as_str()),
                AcquireError::BadStatus(d) => prefixed("Download failed with status: ", d.as_str()),
                AcquireError::StreamFailed(d) => prefixed("Failed reading download stream: ", d.as_str()),
                AcquireError::CreateFailed(d) => prefixed("Failed to create file: ", d.as_str()),
                AcquireError::WriteFailed(d) => prefixed("Failed to write file: ", d.as_str()),
            };
            prefixed("Failed to download file: ", inner.as_str())
        },
        Source::Upload => match e {
            AcquireError::CreateFailed(d) => prefixed("Failed to create file: ", d.as_str()),
            AcquireError::WriteFailed(d) => prefixed("Error writing to file: ", d.as_str()),
            AcquireError::RequestFailed(d) => prefixed("Upload error: ", d.as_str()),
            AcquireError::BadStatus(d) => prefixed("Upload error: ", d.as_str()),
            AcquireError::StreamFailed(d) => prefixed("Upload error: ", d.as_str()),
        },
    }
}

pub open spec fn empty_message(source: Source) -> Seq<char> {
    match source {
        Source::Download => "Downloaded file is empty"@,
        Source::Upload => "Uploaded file is empty"@,
    }
}

pub open spec fn verify_failure_message(source: Source, detail: Seq<char>) -> Seq<char> {
    match source {
        Source::Download => "Failed to verify downloaded file: "@ + detail,
        Source::Upload => "Failed to verify uploaded file: "@ + detail,
    }
}

pub open spec fn success_message(source: Source, url: Seq<char>) -> Seq<char> {
    match source {
        Source::Download => "Downloaded and extracted content from: "@ + url,
        Source::Upload => "Successfully uploaded and extracted content"@,
    }
}

/// The highest progress a run may have reported while in a stage.
pub open spec fn stage_ceiling(s: Stage) -> u32 {
    match s {
        Stage::Idle => 0,
        Stage::Acquiring => TRANSFER_DONE_TENTHS,
        Stage::Verifying => TRANSFER_DONE_TENTHS,
        Stage::Installing => ENTRIES_KNOWN_TENTHS,
        Stage::CleaningUp => CLEANUP_TENTHS,
        Stage::Completed => FULL_PROGRESS,
        Stage::Errored => FULL_PROGRESS,
    }
}

/// The reported progress values never go down along the sequence.
pub open spec fn progress_monotone(s: Seq<ProgressEvent>) -> bool {
    forall|i: int, j: int|
        0 <= i < j < s.len() && s[i].progress is Some && s[j].progress is Some ==> #[trigger] s[i].progress->0
            <= #[trigger] s[j].progress->0
}

pub open spec fn event_is(e: ProgressEvent, kind: EventKind, msg: Seq<char>, p: Option<u32>) -> bool {
    e.kind == kind && e.message@ == msg && e.progress == p
}

/// `new` is `old` with one event appended.
pub open spec fn logged_one(old: Seq<ProgressEvent>, new: Seq<ProgressEvent>, kind: EventKind, msg: Seq<char>, p: Option<u32>) -> bool {
    &&& new.len() == old.len() + 1
    &&& forall|i: int| 0 <= i < old.len() ==> new[i] == old[i]
    &&& event_is(new[old.len() as int], kind, msg, p)
}

/// `new` is `old` with two events appended.
pub open spec fn logged_two(
    old: Seq<ProgressEvent>,
    new: Seq<ProgressEvent>,
    k1: EventKind,
    m1: Seq<char>,
    first_progress: Option<u32>,
    k2: EventKind,
    m2: Seq<char>,
    second_progress: Option<u32>,
) -> bool {
    &&& new.len() == old.len() + 2
    &&& forall|i: int| 0 <= i < old.len() ==> new[i] == old[i]
    &&& event_is(new[old.len() as int], k1, m1, first_progress)
    &&& event_is(new[old.len() + 1 as int], k2, m2, second_progress)
}

pub open spec fn max_u32(a: u32, b: u32) -> u32 {
    if a >= b {
        a
    } else {
        b
    }
}

/// One install request, from its first event to its reply.
pub struct PipelineRun {
    pub source: Source,
    pub stage: Stage,
    /// The archive's address, for a download; empty for an upload.
    pub url: String,
    /// Every event reported so far, oldest first.
    pub events: Vec<ProgressEvent>,
    /// The highest progress reported so far.
    pub last_progress: u32,
    /// Archive bytes received so far.
    pub transferred: u64,
    /// The announced size of a download, zero when unknown.
    pub expected: u64,
    /// The reply, once the run is over.
    pub reply: Option<Reply>,
    /// Whether cleanup removed the archive file; the archive is only removed
    /// after a successful install.
    pub archive_removed: bool,
}

impl PipelineRun {
    pub open spec fn wf(&self) -> bool {
        let s = self.events@;
        &&& self.last_progress <= stage_ceiling(self.stage)
        &&& forall|i: int| 0 <= i < s.len() ==> (#[trigger] s[i].progress matches Some(p) ==> p <= self.last_progress)
        &&& progress_monotone(s)
        &&& forall|i: int| 0 <= i < s.len() - 1 ==> #[trigger] s[i].kind != EventKind::Error
        &&& (self.stage is Errored) <==> (s.len() > 0 && s.last().kind == EventKind::Error)
        &&& (self.stage is Completed || self.stage is Errored) <==> self.reply is Some
        &&& self.archive_removed ==> self.stage is Completed
        &&& self.stage is Errored ==> (self.reply matches Some(Reply::Failure(_, body)) && body.error@ == s.last().message@)
    }

    /// Everything but the event log and the progress mark is as in `o`.
    pub open spec fn same_apart_from_log(&self, o: &PipelineRun) -> bool {
        &&& self.source == o.source
        &&& self.stage == o.stage
        &&& self.url == o.url
        &&& self.transferred == o.transferred
        &&& self.expected == o.expected
        &&& self.reply == o.reply
        &&& self.archive_removed == o.archive_removed
    }

    /// A run for a download from `url`, having reported its start at 0 %.
    pub fn for_download(url: &str) -> (r: Self)
        ensures
            r.wf(),
            r.source == Source::Download,
            r.stage == Stage::Idle,
            r.url@ == url@,
            r.transferred == 0,
            r.expected == 0,
            r.reply is None,
            !r.archive_removed,
            r.events@.len() == 1,
            event_is(r.events@[0], EventKind::Start, start_message(Source::Download, url@), Some(0)),
    {
        let mut m = "Starting download from ".to_owned();
        m.append(url);
        let mut events: Vec<ProgressEvent> = Vec::new();
        events.push(ProgressEvent { kind: EventKind::Start, message: m, progress: Some(0) });
        PipelineRun {
            source: Source::Download,
            stage: Stage::Idle,
            url: url.to_owned(),
            events,
            last_progress: 0,
            transferred: 0,
            expected: 0,
            reply: None,
            archive_removed: false,
        }
    }

    /// A run for an upload, having reported its start at 0 %.
    pub fn for_upload() -> (r: Self)
        ensures
            r.wf(),
            r.source == Source::Upload,
            r.stage == Stage::Idle,
            r.url@ == Seq::<char>::empty(),
            r.transferred == 0,
            r.expected == 0,
            r.reply is None,
            !r.archive_removed,
            r.events@.len() == 1,
            event_is(r.events@[0], EventKind::Start, start_message(Source::Upload, Seq::empty()), Some(0)),
    {
        let mut events: Vec<ProgressEvent> = Vec::new();
        events.push(ProgressEvent::new(EventKind::Start, "Starting file upload process", Some(0)));
        PipelineRun {
            source: Source::Upload,
            stage: Stage::Idle,
            url: String::new(),
            events,
            last_progress: 0,
            transferred: 0,
            expected: 0,
            reply: None,
            archive_removed: false,
        }
    }

    fn log(&mut self, e: ProgressEvent)
        requires
            old(self).wf(),
            !(old(self).stage is Errored),
            e.kind != EventKind::Error,
            e.progress matches Some(p) ==> old(self).last_progress <= p <= stage_ceiling(old(self).stage),
        ensures
            final(self).events@ == old(self).events@.push(e),
            final(self).last_progress == (match e.progress {
                Some(p) => p,
                None => old(self).last_progress,
            }),
            final(self).same_apart_from_log(old(self)),
            final(self).wf(),
    {
        match e.progress {
            Some(p) => {
                self.last_progress = p;
            },
            None => {},
        }
        self.events.push(e);
        proof {
            let s = self.events@;
            assert forall|i: int, j: int|
                0 <= i < j < s.len() && s[i].progress is Some && s[j].progress is Some implies #[trigger] s[i].progress->0
                    <= #[trigger] s[j].progress->0 by {
                if j < s.len() - 1 {
                    assert(s[i] == old(self).events@[i]);
                    assert(s[j] == old(self).events@[j]);
                } else {
                    assert(s[i] == old(self).events@[i]);
                }
            }
        }
    }

    /// Logs `e` with its progress raised to what was already reported.
    fn log_raised(&mut self, e: ProgressEvent)
        requires
            old(self).wf(),
            old(self).stage is Acquiring,
            e.kind != EventKind::Error,
            e.progress matches Some(p) && p <= TRANSFER_DONE_TENTHS,
        ensures
            final(self).events@.len() == old(self).events@.len() + 1,
            forall|i: int| 0 <= i < old(self).events@.len() ==> final(self).events@[i] == old(self).events@[i],
            event_is(final(self).events@.last(), e.kind, e.message@, Some(max_u32(e.progress->0, old(self).last_progress))),
            final(self).same_apart_from_log(old(self)),
            final(self).wf(),
    {
        let p = match e.progress {
            Some(p) => p,
            None => 0,
        };
        let raised = if p >= self.last_progress {
            p
        } else {
            self.last_progress
        };
        self.log(ProgressEvent { kind: e.kind, message: e.message, progress: Some(raised) });
    }

    fn fail(&mut self, message: String, status: u16)
        requires
            old(self).wf(),
            !(old(self).stage is Errored),
            !(old(self).stage is Completed),
        ensures
            final(self).stage == Stage::Errored,
            logged_one(old(self).events@, final(self).events@, EventKind::Error, message@, None),
            final(self).reply matches Some(Reply::Failure(st, body)) && st == status && body.error@ == message@,
            final(self).source == old(self).source,
            final(self).url == old(self).url,
            final(self).transferred == old(self).transferred,
            final(self).expected == old(self).expected,
            final(self).archive_removed == old(self).archive_removed,
            final(self).wf(),
    {
        let body = ErrorResponse { error: message.clone() };
        self.events.push(ProgressEvent { kind: EventKind::Error, message, progress: None });
        self.stage = Stage::Errored;
        self.reply = Some(Reply::Failure(status, body));
        proof {
            let s = self.events@;
            assert forall|i: int, j: int|
                0 <= i < j < s.len() && s[i].progress is Some && s[j].progress is Some implies #[trigger] s[i].progress->0
                    <= #[trigger] s[j].progress->0 by {
                assert(s[i] == old(self).events@[i]);
                assert(s[j] == old(self).events@[j]);
            }
            assert forall|i: int| 0 <= i < s.len() implies (#[trigger] s[i].progress matches Some(p) ==> p <= self.last_progress) by {
                if i < s.len() - 1 {
                    assert(s[i] == old(self).events@[i]);
                }
            }
            assert forall|i: int| 0 <= i < s.len() - 1 implies #[trigger] s[i].kind != EventKind::Error by {
                assert(s[i] == old(self).events@[i]);
            }
        }
    }

    /// Source, address and byte counts are as in `o`.
    pub open spec fn keeps_request(&self, o: &PipelineRun) -> bool {
        &&& self.source == o.source
        &&& self.url == o.url
        &&& self.transferred == o.transferred
        &&& self.expected == o.expected
        &&& self.archive_removed == o.archive_removed
    }

    /// The target directory is in place: acquisition begins. A download
    /// reports it at 10 %; an upload reports that it waits for the file,
    /// without a progress value.
    pub fn target_ready(&mut self)
        requires
            old(self).wf(),
        ensures
            final(self).wf(),
            old(self).stage != Stage::Idle ==> *final(self) == *old(self),
            old(self).stage == Stage::Idle ==> {
                &&& final(self).stage == Stage::Acquiring
                &&& final(self).keeps_request(old(self))
                &&& final(self).reply is None
                &&& old(self).source == Source::Download ==> logged_one(old(self).events@, final(self).events@, EventKind::Downloading, "Downloading archive..."@, Some(DOWNLOAD_BEGIN_TENTHS))
                &&& old(self).source == Source::Upload ==> logged_one(old(self).events@, final(self).events@, EventKind::Uploading, "Waiting for the uploaded file..."@, None)
            },
    {
        if self.stage != Stage::Idle {
            return;
        }
        self.stage = Stage::Acquiring;
        if self.source == Source::Download {
            self.log(ProgressEvent::new(EventKind::Downloading, "Downloading archive...", Some(DOWNLOAD_BEGIN_TENTHS)));
        } else {
            self.log(ProgressEvent::new(EventKind::Uploading, "Waiting for the uploaded file...", None));
        }
    }

    /// The target directory could not be made: the run fails with 500.
    pub fn target_failed(&mut self, detail: &str)
        requires
            old(self).wf(),
        ensures
            final(self).wf(),
            old(self).stage != Stage::Idle ==> *final(self) == *old(self),
            old(self).stage == Stage::Idle ==> {
                &&& final(self).stage == Stage::Errored
                &&& final(self).keeps_request(old(self))
                &&& logged_one(old(self).events@, final(self).events@, EventKind::Error, "Failed to create target directory: "@ + detail@, None)
                &&& final(self).reply matches Some(Reply::Failure(st, body)) && st == STATUS_SERVER_ERROR && body.error@ == "Failed to create target directory: "@ + detail@
            },
    {
        if self.stage != Stage::Idle {
            return;
        }
        let mut m = "Failed to create target directory: ".to_owned();
        m.append(detail);
        self.fail(m, STATUS_SERVER_ERROR);
    }

    /// The download answered and announced `content_length` bytes (zero when
    /// unknown). Reported at 15 %, or at the progress already reached.
    pub fn transfer_begun(&mut self, content_length: u64)
        requires
            old(self).wf(),
        ensures
            final(self).wf(),
            !(old(self).stage == Stage::Acquiring && old(self).source == Source::Download) ==> *final(self) == *old(self),
            old(self).stage == Stage::Acquiring && old(self).source == Source::Download ==> {
                &&& final(self).stage == Stage::Acquiring
                &&& final(self).expected == content_length
                &&& final(self).source == old(self).source
                &&& final(self).url == old(self).url
                &&& final(self).transferred == old(self).transferred
                &&& final(self).archive_removed == old(self).archive_removed
                &&& final(self).reply is None
                &&& logged_one(old(self).events@, final(self).events@, EventKind::Downloading, size_message(content_length as nat), Some(max_u32(DOWNLOAD_START_TENTHS, old(self).last_progress)))
            },
    {
        if !(self.stage == Stage::Acquiring && self.source == Source::Download) {
            return;
        }
        self.expected = content_length;
        self.log_raised(DownloadService::size_event(content_length));
    }

    /// An upload field begins. Reported at the upload progress reached so far.
    pub fn field_begun(&mut self)
        requires
            old(self).wf(),
        ensures
            final(self).wf(),
            !(old(self).stage == Stage::Acquiring && old(self).source == Source::Upload) ==> *final(self) == *old(self),
            old(self).stage == Stage::Acquiring && old(self).source == Source::Upload ==> {
                &&& final(self).stage == Stage::Acquiring
                &&& final(self).keeps_request(old(self))
                &&& final(self).reply is None
                &&& logged_one(old(self).events@, final(self).events@, EventKind::Uploading, "Uploading file..."@, Some(max_u32(upload_tenths(old(self).transferred as nat) as u32, old(self).last_progress)))
            },
    {
        if !(self.stage == Stage::Acquiring && self.source == Source::Upload) {
            return;
        }
        self.log_raised(upload_field_event(self.transferred));
    }

    /// `len` more bytes were written to the archive file. A report is made
    /// when one is due; its progress never falls below what was reported.
    pub fn chunk_received(&mut self, len: u64)
        requires
            old(self).wf(),
        ensures
            final(self).wf(),
            old(self).stage != Stage::Acquiring ==> *final(self) == *old(self),
            old(self).stage == Stage::Acquiring ==> {
                let before = old(self).transferred as nat;
                let after = final(self).transferred as nat;
                let total = old(self).expected as nat;
                &&& final(self).transferred == (if old(self).transferred as nat + len as nat > u64::MAX as nat { u64::MAX as nat } else { old(self).transferred as nat + len as nat })
                &&& final(self).stage == Stage::Acquiring
                &&& final(self).source == old(self).source
                &&& final(self).url == old(self).url
                &&& final(self).expected == old(self).expected
                &&& final(self).archive_removed == old(self).archive_removed
                &&& final(self).reply is None
                &&& old(self).source == Source::Download ==> {
                    &&& download_report_due(before, after, total) ==> logged_one(old(self).events@, final(self).events@, EventKind::Downloading, download_message(after, total), Some(max_u32(if total > 0 { download_tenths(after, total) as u32 } else { DOWNLOAD_UNKNOWN_TENTHS }, old(self).last_progress)))
                    &&& !download_report_due(before, after, total) ==> final(self).events@ == old(self).events@
                }
                &&& old(self).source == Source::Upload ==> {
                    &&& crossed(before, after, UPLOAD_REPORT_BYTES as nat) ==> logged_one(old(self).events@, final(self).events@, EventKind::Uploading, upload_message(after), Some(max_u32(upload_tenths(after) as u32, old(self).last_progress)))
                    &&& !crossed(before, after, UPLOAD_REPORT_BYTES as nat) ==> final(self).events@ == old(self).events@
                }
            },
    {
        if self.stage != Stage::Acquiring {
            return;
        }
        let before = self.transferred;
        let after = if len > u64::MAX - before {
            u64::MAX
        } else {
            before + len
        };
        let report = if self.source == Source::Download {
            DownloadService::chunk_event(before, after, self.expected)
        } else {
            upload_chunk_event(before, after)
        };
        self.transferred = after;
        match report {
            Some(e) => self.log_raised(e),
            None => {},
        }
    }

    /// The archive bytes could not be had: the run fails with 500.
    pub fn acquire_failed(&mut self, err: &AcquireError)
        requires
            old(self).wf(),
        ensures
            final(self).wf(),
            old(self).stage != Stage::Acquiring ==> *final(self) == *old(self),
            old(self).stage == Stage::Acquiring ==> {
                &&& final(self).stage == Stage::Errored
                &&& final(self).keeps_request(old(self))
                &&& logged_one(old(self).events@, final(self).events@, EventKind::Error, acquire_failure_message(old(self).source, *err), None)
                &&& final(self).reply matches Some(Reply::Failure(st, body)) && st == STATUS_SERVER_ERROR && body.error@ == acquire_failure_message(old(self).source, *err)
            },
    {
        if self.stage != Stage::Acquiring {
            return;
        }
        let m = acquire_failure_text(self.source, err);
        self.fail(m, STATUS_SERVER_ERROR);
    }

    /// The incoming stream ended. An upload that brought no bytes fails with
    /// 400; one that did reports completion at 50 %. A download reports that
    /// its stream ended, without a progress value: its size is reported once
    /// the file is checked. A run that does not fail goes on to verify the file.
    pub fn acquire_done(&mut self)
        requires
            old(self).wf(),
        ensures
            final(self).wf(),
            old(self).stage != Stage::Acquiring ==> *final(self) == *old(self),
            old(self).stage == Stage::Acquiring && old(self).source == Source::Upload && old(self).transferred == 0 ==> {
                &&& final(self).stage == Stage::Errored
                &&& final(self).keeps_request(old(self))
                &&& logged_one(old(self).events@, final(self).events@, EventKind::Error, "Uploaded file is empty"@, None)
                &&& final(self).reply matches Some(Reply::Failure(st, body)) && st == STATUS_BAD_REQUEST && body.error@ == "Uploaded file is empty"@
            },
            old(self).stage == Stage::Acquiring && old(self).source == Source::Upload && old(self).transferred > 0 ==> {
                &&& final(self).stage == Stage::Verifying
                &&& final(self).keeps_request(old(self))
                &&& final(self).reply is None
                &&& logged_one(old(self).events@, final(self).events@, EventKind::Uploaded, upload_complete_message(old(self).transferred as nat), Some(TRANSFER_DONE_TENTHS))
            },
            old(self).stage == Stage::Acquiring && old(self).source == Source::Download ==> {
                &&& final(self).stage == Stage::Verifying
                &&& final(self).keeps_request(old(self))
                &&& final(self).reply is None
                &&& logged_one(old(self).events@, final(self).events@, EventKind::Downloading, "Download stream finished"@, None)
            },
    {
        if self.stage != Stage::Acquiring {
            return;
        }
        if self.source == Source::Upload {
            if self.transferred == 0 {
                self.fail("Uploaded file is empty".to_owned(), STATUS_BAD_REQUEST);
                return;
            }
            self.log(upload_complete_event(self.transferred));
        } else {
            self.log(ProgressEvent::new(EventKind::Downloading, "Download stream finished", None));
        }
        self.stage = Stage::Verifying;
    }

    /// The written archive file was examined: `size` is its length in bytes,
    /// or why it could not be read. A missing or empty file fails the run with
    /// 500. Otherwise a download reports its size at 50 %, and extraction is
    /// announced at 60 %.
    pub fn file_checked(&mut self, size: &Result<u64, String>)
        requires
            old(self).wf(),
        ensures
            final(self).wf(),
            old(self).stage != Stage::Verifying ==> *final(self) == *old(self),
            old(self).stage == Stage::Verifying ==> match size {
                Err(d) => {
                    &&& final(self).stage == Stage::Errored
                    &&& final(self).keeps_request(old(self))
                    &&& logged_one(old(self).events@, final(self).events@, EventKind::Error, verify_failure_message(old(self).source, d@), None)
                    &&& final(self).reply matches Some(Reply::Failure(st, body)) && st == STATUS_SERVER_ERROR && body.error@ == verify_failure_message(old(self).source, d@)
                },
                Ok(n) => if *n == 0 {
                    &&& final(self).stage == Stage::Errored
                    &&& final(self).keeps_request(old(self))
                    &&& logged_one(old(self).events@, final(self).events@, EventKind::Error, empty_message(old(self).source), None)
                    &&& final(self).reply matches Some(Reply::Failure(st, body)) && st == STATUS_SERVER_ERROR && body.error@ == empty_message(old(self).source)
                } else {
                    &&& final(self).stage == Stage::Installing
                    &&& final(self).keeps_request(old(self))
                    &&& final(self).reply is None
                    &&& old(self).source == Source::Download ==> logged_two(old(self).events@, final(self).events@,
                        EventKind::Downloaded, "Download complete: "@ + decimal_text(*n as nat) + " bytes"@, Some(TRANSFER_DONE_TENTHS),
                        EventKind::Extracting, "Extracting archive..."@, Some(EXTRACT_START_TENTHS))
                    &&& old(self).source == Source::Upload ==> logged_one(old(self).events@, final(self).events@,
                        EventKind::Extracting, "Extracting archive..."@, Some(EXTRACT_START_TENTHS))
                },
            },
    {
        if self.stage != Stage::Verifying {
            return;
        }
        match size {
            Err(d) => {
                let m = if self.source == Source::Download {
                    prefixed("Failed to verify downloaded file: ", d.as_str())
                } else {
                    prefixed("Failed to verify uploaded file: ", d.as_str())
                };
                self.fail(m, STATUS_SERVER_ERROR);
            },
            Ok(n) => {
                if *n == 0 {
                    let m = if self.source == Source::Download {
                        "Downloaded file is empty".to_owned()
                    } else {
                        "Uploaded file is empty".to_owned()
                    };
                    self.fail(m, STATUS_SERVER_ERROR);
                    return;
                }
                if self.source == Source::Download {
                    let mut m = "Download complete: ".to_owned();
                    let digits = decimal(*n);
                    m.append(digits.as_str());
                    m.append(" bytes");
                    self.log(ProgressEvent { kind: EventKind::Downloaded, message: m, progress: Some(TRANSFER_DONE_TENTHS) });
                }
                self.stage = Stage::Installing;
                self.log(ProgressEvent::new(EventKind::Extracting, "Extracting archive...", Some(EXTRACT_START_TENTHS)));
            },
        }
    }

    /// The archive opened and holds `entries` entries: reported at 65 %.
    pub fn archive_opened(&mut self, entries: u64)
        requires
            old(self).wf(),
        ensures
            final(self).wf(),
            old(self).stage != Stage::Installing ==> *final(self) == *old(self),
            old(self).stage == Stage::Installing ==> {
                &&& final(self).same_apart_from_log(old(self))
                &&& logged_one(old(self).events@, final(self).events@, EventKind::Extracting, entries_message(entries as nat), Some(ENTRIES_KNOWN_TENTHS))
            },
    {
        if self.stage != Stage::Installing {
            return;
        }
        self.log(ExtractorService::entries_event(entries));
    }

    /// The archive could not be installed: the run fails with 500, and the
    /// archive file is left where it is.
    pub fn install_failed(&mut self, err: &InstallError)
        requires
            old(self).wf(),
        ensures
            final(self).wf(),
            old(self).stage != Stage::Installing ==> *final(self) == *old(self),
            old(self).stage == Stage::Installing ==> {
                &&& final(self).stage == Stage::Errored
                &&& final(self).keeps_request(old(self))
                &&& logged_one(old(self).events@, final(self).events@, EventKind::Error, "Failed to extract file: "@ + install_error_text(*err), None)
                &&& final(self).reply matches Some(Reply::Failure(st, body)) && st == STATUS_SERVER_ERROR && body.error@ == "Failed to extract file: "@ + install_error_text(*err)
            },
    {
        if self.stage != Stage::Installing {
            return;
        }
        let text = ExtractorService::error_text(err);
        let m = prefixed("Failed to extract file: ", text.as_str());
        self.fail(m, STATUS_SERVER_ERROR);
    }

    /// Every entry was unpacked: reported at 85 %, then the removal of the
    /// archive file is announced at 90 %.
    pub fn installed(&mut self)
        requires
            old(self).wf(),
        ensures
            final(self).wf(),
            old(self).stage != Stage::Installing ==> *final(self) == *old(self),
            old(self).stage == Stage::Installing ==> {
                &&& final(self).stage == Stage::CleaningUp
                &&& final(self).keeps_request(old(self))
                &&& final(self).reply is None
                &&& logged_two(old(self).events@, final(self).events@,
                    EventKind::Extracted, "ZIP extraction completed successfully"@, Some(EXTRACTED_TENTHS),
                    EventKind::Cleanup, "Cleaning up temporary files..."@, Some(CLEANUP_TENTHS))
            },
    {
        if self.stage != Stage::Installing {
            return;
        }
        self.stage = Stage::CleaningUp;
        self.log(ExtractorService::extracted_event());
        self.log(ProgressEvent::new(EventKind::Cleanup, "Cleaning up temporary files...", Some(CLEANUP_TENTHS)));
    }

    /// Cleanup was attempted; `archive_removed` says whether the archive file
    /// went. It is recorded, and a failure does not stop the run. The run completes at 100 %
    /// and fires the shutdown slot; if that handed the signal over, the
    /// hand-over is reported too.
    pub fn finish(&mut self, archive_removed: bool, slot: &mut ShutdownSlot)
        requires
            old(self).wf(),
        ensures
            final(self).wf(),
            old(self).stage != Stage::CleaningUp ==> *final(self) == *old(self) && *final(slot) == *old(slot),
            old(self).stage == Stage::CleaningUp ==> {
                &&& final(self).stage == Stage::Completed
                &&& final(self).source == old(self).source
                &&& final(self).url == old(self).url
                &&& final(self).transferred == old(self).transferred
                &&& final(self).expected == old(self).expected
                &&& final(self).archive_removed == archive_removed
                &&& final(self).reply matches Some(Reply::Success(body)) && body.message@ == success_message(old(self).source, old(self).url@)
                &&& !final(slot).is_armed()
                &&& old(slot).is_armed() ==> logged_two(old(self).events@, final(self).events@,
                    EventKind::Complete, "Download and extraction complete!"@, Some(FULL_PROGRESS),
                    EventKind::Transition, "Transitioning to Foundry VTT..."@, Some(FULL_PROGRESS))
                &&& !old(slot).is_armed() ==> logged_one(old(self).events@, final(self).events@,
                    EventKind::Complete, "Download and extraction complete!"@, Some(FULL_PROGRESS))
            },
    {
        if self.stage != Stage::CleaningUp {
            return;
        }
        let message = if self.source == Source::Download {
            prefixed("Downloaded and extracted content from: ", self.url.as_str())
        } else {
            "Successfully uploaded and extracted content".to_owned()
        };
        self.reply = Some(Reply::Success(SuccessResponse { message }));
        self.stage = Stage::Completed;
        self.archive_removed = archive_removed;
        self.log(ProgressEvent::new(EventKind::Complete, "Download and extraction complete!", Some(FULL_PROGRESS)));
        if slot.fire() {
            self.log(ProgressEvent::new(EventKind::Transition, "Transitioning to Foundry VTT...", Some(FULL_PROGRESS)));
        }
    }
}

/// How many error events a sequence holds.
pub open spec fn error_count(s: Seq<ProgressEvent>) -> nat
    decreases s.len(),
{
    if s.len() == 0 {
        0
    } else {
        error_count(s.drop_last()) + if s.last().kind == EventKind::Error {
            1nat
        } else {
            0nat
        }
    }
}

proof fn lemma_no_errors(s: Seq<ProgressEvent>)
    requires
        forall|i: int| 0 <= i < s.len() ==> #[trigger] s[i].kind != EventKind::Error,
    ensures
        error_count(s) == 0,
    decreases s.len(),
{
    if s.len() > 0 {
        let t = s.drop_last();
        assert forall|i: int| 0 <= i < t.len() implies #[trigger] t[i].kind != EventKind::Error by {
            assert(t[i] == s[i]);
        }
        lemma_no_errors(t);
    }
}

/// A failed run has reported exactly one error event, as its last event, and
/// owes a failure reply carrying the same text. A run that has not failed has
/// reported no error at all.
pub proof fn law_failure_reported_once(run: PipelineRun)
    requires
        run.wf(),
    ensures
        run.stage == Stage::Errored ==> {
            &&& error_count(run.events@) == 1
            &&& run.events@.last().kind == EventKind::Error
            &&& run.reply matches Some(Reply::Failure(_, body)) && body.error@ == run.events@.last().message@
        },
        run.stage != Stage::Errored ==> error_count(run.events@) == 0,
{
    let s = run.events@;
    if s.len() > 0 {
        let t = s.drop_last();
        assert forall|i: int| 0 <= i < t.len() implies #[trigger] t[i].kind != EventKind::Error by {
            assert(t[i] == s[i]);
        }
        lemma_no_errors(t);
        if run.stage != Stage::Errored {
            lemma_no_errors(s);
        }
    }
}

/// Within a run, the reported progress never goes down: of two events that
/// carry a progress value, the later one's is at least the earlier one's, and
/// each lies in 0 ..= 100 percent.
pub proof fn law_progress_monotone(run: PipelineRun, i: int, j: int)
    requires
        run.wf(),
        0 <= i < j < run.events@.len(),
        run.events@[i].progress is Some,
        run.events@[j].progress is Some,
    ensures
        run.events@[i].progress->0 <= run.events@[j].progress->0,
        run.events@[j].progress->0 <= FULL_PROGRESS,
{
    assert(run.events@[j].progress matches Some(p) ==> p <= run.last_progress);
}

} // verus!
