//! Outcomes of unpacking an archive into the target directory, and what the
//! installer reports about them.
use vstd::prelude::*;
use vstd::string::*;
use crate::events::{EventKind, ProgressEvent};
use crate::text::{decimal, decimal_text};

verus! {

/// Why an archive could not be installed. Each variant carries the detail
/// reported by the filesystem or the archive reader.
#[derive(Clone, Debug, PartialEq, Eq)]
pub enum InstallError {
    /// No file at the archive path (the path).
    ArchiveNotFound(String),
    /// The target directory could not be created.
    DirectoryError(String),
    /// The archive file could not be opened.
    OpenFailed(String),
    /// The file is not a well-formed archive.
    CorruptArchive(String),
    /// An entry could not be unpacked.
    ExtractionFailed(String),
    /// The unpacking worker crashed.
    WorkerPanicked(String),
}

pub open spec fn install_error_text(e: InstallError) -> Seq<char> {
    match e {
        InstallError::ArchiveNotFound(p) => "Archive file not found at path: "@ + p@,
        InstallError::DirectoryError(d) => d@,
        InstallError::OpenFailed(d) => "Failed to open archive file: "@ + d@,
        InstallError::CorruptArchive(d) => "Invalid ZIP file: "@ + d@,
        InstallError::ExtractionFailed(d) => "Extraction failed: "@ + d@,
        InstallError::WorkerPanicked(d) => "Extraction thread panicked: "@ + d@,
    }
}

/// Progress (in tenths of a percent) when extraction is announced.
pub const EXTRACT_START_TENTHS: u32 = 600;

/// Progress once the entry count is known.
pub const ENTRIES_KNOWN_TENTHS: u32 = 650;

/// Progress once every entry is unpacked.
pub const EXTRACTED_TENTHS: u32 = 850;

pub open spec fn entries_message(count: nat) -> Seq<char> {
    "Extracting "@ + decimal_text(count) + " files..."@
}

/// The extraction step of the pipeline: what it reports.
pub struct ExtractorService;

impl ExtractorService {
    /// The text of an installation failure.
    pub fn error_text(e: &InstallError) -> (r: String)
        ensures
            r@ == install_error_text(*e),
    {
        let (prefix, detail) = match e {
            InstallError::ArchiveNotFound(p) => ("Archive file not found at path: ", p),
            InstallError::DirectoryError(d) => ("", d),
            InstallError::OpenFailed(d) => ("Failed to open archive file: ", d),
            InstallError::CorruptArchive(d) => ("Invalid ZIP file: ", d),
            InstallError::ExtractionFailed(d) => ("Extraction failed: ", d),
            InstallError::WorkerPanicked(d) => ("Extraction thread panicked: ", d),
        };
        let mut s = prefix.to_owned();
        s.append(detail.as_str());
        proof {
            reveal_strlit("");
            if e is DirectoryError {
                assert(s@ =~= install_error_text(*e));
            }
        }
        s
    }

    /// The report made once the archive is open and its entries counted, at 65 %.
    pub fn entries_event(count: u64) -> (r: ProgressEvent)
        ensures
            r.kind == EventKind::Extracting,
            r.message@ == entries_message(count as nat),
            r.progress == Some(ENTRIES_KNOWN_TENTHS),
            r.wf(),
    {
        let mut m = "Extracting ".to_owned();
        let n = decimal(count);
        m.append(n.as_str());
        m.append(" files...");
        ProgressEvent { kind: EventKind::Extracting, message: m, progress: Some(ENTRIES_KNOWN_TENTHS) }
    }

    /// The report made once every entry is unpacked, at 85 %.
    pub fn extracted_event() -> (r: ProgressEvent)
        ensures
            r.kind == EventKind::Extracted,
            r.message@ == "ZIP extraction completed successfully"@,
            r.progress == Some(EXTRACTED_TENTHS),
            r.wf(),
    {
        ProgressEvent::new(EventKind::Extracted, "ZIP extraction completed successfully", Some(EXTRACTED_TENTHS))
    }
}

} // verus!
