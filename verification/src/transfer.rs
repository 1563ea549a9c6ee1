//! Fetching the finished file: where it is fetched from, what it is called
//! locally, and how far the transfer has come.

use vstd::prelude::*;
use crate::format::Encoding;
use crate::submit::JobHandle;
use crate::submit::JobHandleView;
use crate::text::join;

verus! {

impl JobHandleView {
    /// The address from which the finished file is fetched.
    pub open spec fn download_url(self) -> Seq<char> {
        self.status_url() + "/download"@
    }

    /// The name of the local file.
    pub open spec fn file_name(self, encoding: Encoding) -> Seq<char> {
        self.handoff + "."@ + encoding.extension()
    }
}

impl JobHandle {
    /// The address from which the finished file is fetched.
    pub fn download_url(&self) -> (url: String)
        ensures
            url@ == self@.download_url(),
    {
        self.status_url().concat("/download")
    }

    /// The name of the local file: the handoff, a dot, and the extension of
    /// the encoding.
    pub fn file_name(&self, encoding: Encoding) -> (name: String)
        ensures
            name@ == self@.file_name(encoding),
    {
        join(self.handoff.as_str(), ".").concat(encoding.to_extension())
    }
}

/// The sum of two byte counts, held at the largest count there is.
pub open spec fn spec_count_add(written: u64, len: u64) -> u64 {
    if written + len <= u64::MAX {
        (written + len) as u64
    } else {
        u64::MAX
    }
}

/// How far a transfer has come.
#[derive(Debug, Clone, Copy, PartialEq, Eq, Structural)]
pub struct Progress {
    /// The bytes written to the local file so far.
    pub written: u64,
    /// The length that the service announced, if it announced one.
    pub expected: Option<u64>,
}

impl Progress {
    /// The progress after `len` more bytes.
    pub open spec fn spec_advanced(self, len: u64) -> Progress {
        Progress { written: spec_count_add(self.written, len), expected: self.expected }
    }

    /// The length for a display that needs one: the announced length, and 0
    /// where none was announced.
    pub open spec fn spec_display_length(self) -> u64 {
        match self.expected {
            Some(length) => length,
            None => 0,
        }
    }

    /// The progress of a transfer that has written nothing yet.
    pub fn start(expected: Option<u64>) -> (progress: Progress)
        ensures
            progress == (Progress { written: 0, expected }),
    {
        Progress { written: 0, expected }
    }

    /// The progress after `len` more bytes were written. The announced length
    /// is neither changed nor compared with what was written.
    pub fn advanced(self, len: u64) -> (progress: Progress)
        ensures
            progress == self.spec_advanced(len),
    {
        let written = if len <= u64::MAX - self.written {
            self.written + len
        } else {
            u64::MAX
        };
        Progress { written, expected: self.expected }
    }

    /// The length for a display that needs one.
    pub fn display_length(&self) -> (length: u64)
        ensures
            length == self.spec_display_length(),
    {
        match self.expected {
            Some(length) => length,
            None => 0,
        }
    }
}

/// What a finished download hands to the caller.
#[derive(Debug, Clone, PartialEq, Eq)]
pub struct DownloadResult {
    /// The name of the file in the destination directory.
    pub file_name: String,
    pub bytes_written: u64,
    /// The time from the start of the download to the closing of the file.
    pub elapsed_ms: u128,
}

/// A [`DownloadResult`] with its texts as sequences of characters.
pub struct DownloadResultView {
    pub file_name: Seq<char>,
    pub bytes_written: u64,
    pub elapsed_ms: u128,
}

impl View for DownloadResult {
    type V = DownloadResultView;

    open spec fn view(&self) -> DownloadResultView {
        DownloadResultView {
            file_name: self.file_name@,
            bytes_written: self.bytes_written,
            elapsed_ms: self.elapsed_ms,
        }
    }
}

impl DownloadResult {
    /// A copy of the result.
    pub fn duplicate(&self) -> (copy: DownloadResult)
        ensures
            copy@ == self@,
    {
        DownloadResult {
            file_name: self.file_name.clone(),
            bytes_written: self.bytes_written,
            elapsed_ms: self.elapsed_ms,
        }
    }
}

} // verus!
