//! The download-task abstraction: one source-to-destination transfer unit,
//! consumed exactly once, together with the result and error types that a
//! completed transfer produces.

use vstd::prelude::*;

verus! {

/// Error produced by one transfer task. `Error` carries the source URL, the
/// destination path and the underlying message; it covers network, directory
/// creation, file creation, stream read and write failures alike.
/// `JoinError` signals that the awaited work was cancelled or the worker
/// failed unexpectedly, so the task's outcome could not be retrieved.
#[derive(Debug, Clone, PartialEq, Eq)]
pub enum DownloadError {
    Error { url: String, path: String, error: String },
    JoinError,
}

/// Successful completion marker of one transfer.
#[derive(Debug, Clone, PartialEq, Eq)]
pub enum DownloadStatus {
    Success,
}

/// The outcome of one task: produced exactly once per task, immutable,
/// consumed by the progress sink and, in aggregate, by the owning composite.
#[derive(Debug, PartialEq, Eq)]
pub struct DownloadResult(pub Result<DownloadStatus, DownloadError>);

impl DownloadResult {
    /// Whether this outcome counts as a success.
    pub open spec fn spec_is_ok(&self) -> bool {
        self.0 is Ok
    }

    pub fn is_ok(&self) -> (r: bool)
        ensures
            r == self.spec_is_ok(),
    {
        self.0.is_ok()
    }
}

/// The description of a task visible through its contracted accessors:
/// source URL, destination path, and the expected content hash (empty when
/// none is carried).
pub open spec fn spec_desc_of(t: FileDownloader) -> (Seq<char>, Seq<char>, Seq<char>) {
    (
        t.spec_url(),
        t.spec_path(),
        match t.spec_sha1() {
            Some(s) => s,
            None => Seq::empty(),
        },
    )
}

/// One unit of work: fetch one URL to one destination, optionally eligible
/// for post-download verification against an expected content hash.
/// Immutable once constructed; execution takes ownership, so a task cannot
/// be re-submitted.
#[derive(Debug)]
pub struct FileDownloader {
    url: String,
    path: String,
    sha1: Option<String>,
}

impl FileDownloader {
    pub closed spec fn spec_url(&self) -> Seq<char> {
        self.url@
    }

    pub closed spec fn spec_path(&self) -> Seq<char> {
        self.path@
    }

    pub closed spec fn spec_sha1(&self) -> Option<Seq<char>> {
        match self.sha1 {
            Some(s) => Some(s@),
            None => None,
        }
    }

    pub fn new(url: String, path: String) -> (t: Self)
        ensures
            t.spec_url() == url@,
            t.spec_path() == path@,
            t.spec_sha1() is None,
    {
        FileDownloader { url, path, sha1: None }
    }

    /// Record the expected content hash for post-download verification.
    pub fn with_sha1(self, sha1: String) -> (t: Self)
        ensures
            t.spec_url() == self.spec_url(),
            t.spec_path() == self.spec_path(),
            t.spec_sha1() == Some(sha1@),
    {
        FileDownloader { sha1: Some(sha1), ..self }
    }

    pub fn url(&self) -> (r: &String)
        ensures
            r@ == self.spec_url(),
    {
        &self.url
    }

    pub fn path(&self) -> (r: &String)
        ensures
            r@ == self.spec_path(),
    {
        &self.path
    }

    pub fn expected_sha1(&self) -> (r: &Option<String>)
        ensures
            match r {
                Some(s) => self.spec_sha1() == Some(s@),
                None => self.spec_sha1() is None,
            },
    {
        &self.sha1
    }

    /// Consume the task, yielding its source, destination and expected hash.
    /// The driver that performs the transfer calls this once per task.
    pub fn into_parts(self) -> (r: (String, String, Option<String>))
        ensures
            r.0@ == self.spec_url(),
            r.1@ == self.spec_path(),
            match r.2 {
                Some(s) => self.spec_sha1() == Some(s@),
                None => self.spec_sha1() is None,
            },
    {
        (self.url, self.path, self.sha1)
    }
}

} // verus!
