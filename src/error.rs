//! The ways in which one download attempt can fail.
use vstd::prelude::*;
use crate::text::push_all;

verus! {

/// A failed download attempt.
#[derive(Debug)]
pub enum DownloadError {
    /// The transport failed, or the server answered with a failure status
    /// other than 416.
    Http(String),
    /// A local file could not be read, written, opened or renamed.
    Io(String),
    /// The server's answer could not be used.
    InvalidResponse(String),
    /// The server answered 416: the requested range starts at or past the end.
    RangeNotSatisfiable,
    /// The size probe gave no readable size.
    UnsupportedServer,
    /// A range header could not be encoded.
    InvalidRange,
}

impl DownloadError {
    /// Whether another attempt may follow this failure after a pause.
    pub open spec fn spec_is_retryable(&self) -> bool {
        !(self is RangeNotSatisfiable) && !(self is UnsupportedServer)
    }

    /// Whether another attempt may follow this failure after a pause: all but
    /// 416 and an unsupported server, which both end the download with success.
    pub fn is_retryable(&self) -> (r: bool)
        ensures
            r == self.spec_is_retryable(),
    {
        match self {
            DownloadError::RangeNotSatisfiable => false,
            DownloadError::UnsupportedServer => false,
            _ => true,
        }
    }

    /// A one-line description of the failure.
    pub fn message(&self) -> (r: String)
        ensures
            self matches DownloadError::Http(d) ==> r@ == "HTTP error: "@ + d@,
            self matches DownloadError::Io(d) ==> r@ == "IO error: "@ + d@,
            self matches DownloadError::InvalidResponse(d) ==> r@ == "Invalid response: "@ + d@,
            self is RangeNotSatisfiable ==> r@ == "Range not satisfiable"@,
            self is UnsupportedServer ==> r@ == "Server reports no usable size"@,
            self is InvalidRange ==> r@ == "Invalid range header"@,
    {
        let mut r = String::new();
        match self {
            DownloadError::Http(d) => {
                push_all(&mut r, "HTTP error: ");
                push_all(&mut r, d.as_str());
            },
            DownloadError::Io(d) => {
                push_all(&mut r, "IO error: ");
                push_all(&mut r, d.as_str());
            },
            DownloadError::InvalidResponse(d) => {
                push_all(&mut r, "Invalid response: ");
                push_all(&mut r, d.as_str());
            },
            DownloadError::RangeNotSatisfiable => {
                push_all(&mut r, "Range not satisfiable");
            },
            DownloadError::UnsupportedServer => {
                push_all(&mut r, "Server reports no usable size");
            },
            DownloadError::InvalidRange => {
                push_all(&mut r, "Invalid range header");
            },
        }
        r
    }
}

} // verus!
