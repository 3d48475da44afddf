//! Progress reporting while archive bytes arrive, by download or by upload.
//!
//! A download reports in the band 15 % to 50 %: in proportion to the bytes
//! received where the total is known, at a fixed 30 % where it is not. An upload
//! reports in the band 10 % to 50 %, one percent per MiB received.
use vstd::prelude::*;
use vstd::string::*;
use vstd::arithmetic::div_mod::{lemma_div_is_ordered, lemma_div_by_multiple};
use vstd::arithmetic::mul::lemma_mul_inequality;
use crate::events::{EventKind, ProgressEvent};
use crate::text::{decimal, decimal_text, hundredths, hundredths_text, tenths, tenths_text};

verus! {

pub const MIB: u64 = 1048576;

/// A download reports at least once per this many bytes.
pub const DOWNLOAD_REPORT_BYTES: u64 = 5 * 1048576;

/// An upload reports once per this many bytes.
pub const UPLOAD_REPORT_BYTES: u64 = 524288;

/// Progress (in tenths of a percent) when a download begins.
pub const DOWNLOAD_START_TENTHS: u32 = 150;

/// Progress while a download of unknown size runs.
pub const DOWNLOAD_UNKNOWN_TENTHS: u32 = 300;

/// Progress when an upload field begins.
pub const UPLOAD_START_TENTHS: u32 = 100;

/// Progress when the archive bytes are all in.
pub const TRANSFER_DONE_TENTHS: u32 = 500;

pub open spec fn min_nat(a: nat, b: nat) -> nat {
    if a <= b {
        a
    } else {
        b
    }
}

/// Going from `before` to `after` bytes passed a multiple of `step`.
pub open spec fn crossed(before: nat, after: nat, step: nat) -> bool {
    after / step > before / step
}

/// Download progress in tenths of a percent: `15 + 35 * done / total` percent,
/// counting no more than `total` bytes.
pub open spec fn download_tenths(done: nat, total: nat) -> nat {
    150 + min_nat(done, total) * 350 / total
}

/// Whole percent of a known-size download received.
pub open spec fn download_percent(done: nat, total: nat) -> nat {
    min_nat(done, total) * 100 / total
}

/// Which tenth of a known-size download has been received.
pub open spec fn download_decile(done: nat, total: nat) -> nat {
    min_nat(done, total) * 10 / total
}

/// Bytes as MiB in tenths.
pub open spec fn mib_tenths(bytes: nat) -> nat {
    bytes * 10 / (MIB as nat)
}

/// A download moving from `before` to `after` bytes reports: every 5 MiB, and,
/// where the total is known, at every tenth of it.
pub open spec fn download_report_due(before: nat, after: nat, total: nat) -> bool {
    crossed(before, after, DOWNLOAD_REPORT_BYTES as nat) || (total > 0 && download_decile(after, total)
        > download_decile(before, total))
}

pub open spec fn size_message(content_length: nat) -> Seq<char> {
    if content_length > 0 {
        "Download size: "@ + decimal_text(content_length / (MIB as nat)) + " MB"@
    } else {
        "Download size unknown"@
    }
}

pub open spec fn download_message(done: nat, total: nat) -> Seq<char> {
    if total > 0 {
        "Downloaded: "@ + tenths_text(mib_tenths(done)) + " MB ("@ + decimal_text(
            download_percent(done, total),
        ) + "%)"@
    } else {
        "Downloaded: "@ + tenths_text(mib_tenths(done)) + " MB"@
    }
}

/// Upload progress in tenths of a percent: 10 % and one percent per MiB, at most 50 %.
pub open spec fn upload_tenths(done: nat) -> nat {
    min_nat(UPLOAD_START_TENTHS as nat + mib_tenths(done), TRANSFER_DONE_TENTHS as nat)
}

pub open spec fn upload_message(done: nat) -> Seq<char> {
    "Uploaded: "@ + tenths_text(mib_tenths(done)) + " MB"@
}

pub open spec fn upload_complete_message(done: nat) -> Seq<char> {
    "Upload complete: "@ + hundredths_text(done * 100 / (MIB as nat)) + " MB"@
}

proof fn lemma_scaled_share(x: nat, t: nat, k: nat)
    requires
        x <= t,
        t > 0,
    ensures
        x * k / t <= k,
{
    lemma_mul_inequality(x as int, t as int, k as int);
    lemma_div_is_ordered((x * k) as int, (t * k) as int, t as int);
    lemma_div_by_multiple(k as int, t as int);
    assert(t * k == k * t) by (nonlinear_arith);
}

/// Computes `min(done, total) * scale / total` for a known total.
fn share_of(done: u64, total: u64, scale: u64) -> (r: u64)
    requires
        total > 0,
        scale <= 1000,
    ensures
        r == min_nat(done as nat, total as nat) * (scale as nat) / (total as nat),
        r <= scale,
{
    let capped: u64 = if done <= total {
        done
    } else {
        total
    };
    proof {
        lemma_scaled_share(capped as nat, total as nat, scale as nat);
        assert(capped as nat * (scale as nat) <= u64::MAX as nat * 1000) by (nonlinear_arith)
            requires
                capped <= u64::MAX,
                scale <= 1000,
        ;
    }
    let wide: u128 = (capped as u128) * (scale as u128);
    (wide / (total as u128)) as u64
}

fn mib_tenths_of(bytes: u64) -> (r: u64)
    ensures
        r == mib_tenths(bytes as nat),
{
    ((bytes as u128) * 10 / (MIB as u128)) as u64
}

/// The download step of the pipeline: what it reports as bytes arrive.
pub struct DownloadService;

impl DownloadService {
    /// Whether a response status means success: 200 to 299.
    pub fn status_ok(code: u16) -> (r: bool)
        ensures
            r == (200 <= code && code < 300),
    {
        200 <= code && code < 300
    }

    /// The report made once the response headers are in, at 15 %.
    /// A length of zero stands for an unknown size.
    pub fn size_event(content_length: u64) -> (r: ProgressEvent)
        ensures
            r.kind == EventKind::Downloading,
            r.message@ == size_message(content_length as nat),
            r.progress == Some(DOWNLOAD_START_TENTHS),
            r.wf(),
    {
        if content_length > 0 {
            let mut m = "Download size: ".to_owned();
            let mb = decimal(content_length / MIB);
            m.append(mb.as_str());
            m.append(" MB");
            ProgressEvent { kind: EventKind::Downloading, message: m, progress: Some(DOWNLOAD_START_TENTHS) }
        } else {
            ProgressEvent::new(EventKind::Downloading, "Download size unknown", Some(DOWNLOAD_START_TENTHS))
        }
    }

    /// The report due when the byte count goes from `before` to `after`, if any.
    /// `total` is the announced size, zero when unknown.
    pub fn chunk_event(before: u64, after: u64, total: u64) -> (r: Option<ProgressEvent>)
        requires
            before <= after,
        ensures
            r is Some <==> download_report_due(before as nat, after as nat, total as nat),
            r matches Some(e) ==> {
                &&& e.kind == EventKind::Downloading
                &&& e.message@ == download_message(after as nat, total as nat)
                &&& e.progress == Some(
                    if total > 0 {
                        download_tenths(after as nat, total as nat) as u32
                    } else {
                        DOWNLOAD_UNKNOWN_TENTHS
                    },
                )
                &&& e.wf()
            },
            r matches Some(e) && total > 0 ==> download_tenths(after as nat, total as nat)
                <= TRANSFER_DONE_TENTHS,
    {
        let step_due = after / DOWNLOAD_REPORT_BYTES > before / DOWNLOAD_REPORT_BYTES;
        let decile_due = if total > 0 {
            share_of(after, total, 10) > share_of(before, total, 10)
        } else {
            false
        };
        if !step_due && !decile_due {
            return None;
        }
        let mut m = "Downloaded: ".to_owned();
        let mb = tenths(mib_tenths_of(after));
        m.append(mb.as_str());
        m.append(" MB");
        if total > 0 {
            m.append(" (");
            let pct = decimal(share_of(after, total, 100));
            m.append(pct.as_str());
            m.append("%)");
            proof {
                reveal_strlit(" MB");
                reveal_strlit(" (");
                reveal_strlit(" MB (");
            }
            assert(m@ =~= download_message(after as nat, total as nat));
            let p = 150 + share_of(after, total, 350);
            Some(ProgressEvent { kind: EventKind::Downloading, message: m, progress: Some(p as u32) })
        } else {
            assert(m@ =~= download_message(after as nat, total as nat));
            Some(ProgressEvent { kind: EventKind::Downloading, message: m, progress: Some(DOWNLOAD_UNKNOWN_TENTHS) })
        }
    }
}

/// The report made when an upload field begins, at the progress reached so far.
pub fn upload_field_event(done: u64) -> (r: ProgressEvent)
    ensures
        r.kind == EventKind::Uploading,
        r.message@ == "Uploading file..."@,
        r.progress == Some(upload_tenths(done as nat) as u32),
        r.wf(),
{
    let p = upload_progress(done);
    ProgressEvent::new(EventKind::Uploading, "Uploading file...", Some(p))
}

fn upload_progress(done: u64) -> (r: u32)
    ensures
        r == upload_tenths(done as nat),
        UPLOAD_START_TENTHS <= r <= TRANSFER_DONE_TENTHS,
{
    let t = mib_tenths_of(done);
    if t >= 400 {
        TRANSFER_DONE_TENTHS
    } else {
        (100 + t) as u32
    }
}

/// The report due when the uploaded byte count goes from `before` to `after`:
/// one each time a multiple of 512 KiB is passed.
pub fn upload_chunk_event(before: u64, after: u64) -> (r: Option<ProgressEvent>)
    requires
        before <= after,
    ensures
        r is Some <==> crossed(before as nat, after as nat, UPLOAD_REPORT_BYTES as nat),
        r matches Some(e) ==> {
            &&& e.kind == EventKind::Uploading
            &&& e.message@ == upload_message(after as nat)
            &&& e.progress == Some(upload_tenths(after as nat) as u32)
            &&& e.wf()
        },
{
    if after / UPLOAD_REPORT_BYTES <= before / UPLOAD_REPORT_BYTES {
        return None;
    }
    let mut m = "Uploaded: ".to_owned();
    let mb = tenths(mib_tenths_of(after));
    m.append(mb.as_str());
    m.append(" MB");
    Some(ProgressEvent { kind: EventKind::Uploading, message: m, progress: Some(upload_progress(after)) })
}

/// The report made when every uploaded byte has been written, at 50 %.
pub fn upload_complete_event(done: u64) -> (r: ProgressEvent)
    ensures
        r.kind == EventKind::Uploaded,
        r.message@ == upload_complete_message(done as nat),
        r.progress == Some(TRANSFER_DONE_TENTHS),
        r.wf(),
{
    let mut m = "Upload complete: ".to_owned();
    let h = hundredths(((done as u128) * 100 / (MIB as u128)) as u64);
    m.append(h.as_str());
    m.append(" MB");
    ProgressEvent { kind: EventKind::Uploaded, message: m, progress: Some(TRANSFER_DONE_TENTHS) }
}

} // verus!
