//! The error kinds a fetch or download can end with.

use vstd::prelude::*;

verus! {

/// Everything that can go wrong while resolving a repository identifier,
/// fetching a manifest, or downloading a file.  Every operation of this crate
/// that can fail reports one of these kinds; none is retried internally.
#[derive(Clone, Copy, Debug, PartialEq, Eq, Structural)]
pub enum FetchError {
    /// A bare repository string did not have the `owner/name` shape.
    InvalidFormat,
    /// A repository URL could not be parsed as a URL at all.
    InvalidUrl,
    /// A repository URL had fewer than two path segments.
    InsufficientPathSegments,
    /// A network request failed at the transport level.
    NetworkError,
    /// A response body or header did not have the expected shape.
    DecodeError,
    /// The size probe succeeded but carried no content-length header.
    MissingContentLength,
    /// The destination sink could not be opened.
    IoError,
    /// The byte stream was interrupted mid-copy.
    TransferError,
}

/// What each error kind means, in words.
pub open spec fn describe_spec(e: FetchError) -> Seq<char> {
    match e {
        FetchError::InvalidFormat => "RepoId expects 'org/repo' format"@,
        FetchError::InvalidUrl => "Invalid repository URL"@,
        FetchError::InsufficientPathSegments => "Insufficient path segments"@,
        FetchError::NetworkError => "Network request failed"@,
        FetchError::DecodeError => "Unexpected response shape"@,
        FetchError::MissingContentLength => "Failed to read content-length header"@,
        FetchError::IoError => "Failed to open destination file"@,
        FetchError::TransferError => "Transfer interrupted mid-stream"@,
    }
}

impl FetchError {
    /// A short human-readable account of the error, for callers that report
    /// it to a user.
    pub fn describe(&self) -> (r: &'static str)
        ensures
            r@ == describe_spec(*self),
    {
        match self {
            FetchError::InvalidFormat => "RepoId expects 'org/repo' format",
            FetchError::InvalidUrl => "Invalid repository URL",
            FetchError::InsufficientPathSegments => "Insufficient path segments",
            FetchError::NetworkError => "Network request failed",
            FetchError::DecodeError => "Unexpected response shape",
            FetchError::MissingContentLength => "Failed to read content-length header",
            FetchError::IoError => "Failed to open destination file",
            FetchError::TransferError => "Transfer interrupted mid-stream",
        }
    }
}

} // verus!
