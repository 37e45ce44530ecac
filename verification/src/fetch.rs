//! The fetcher facade: listing a repository's files and downloading one of
//! them, with all network and file traffic behind a caller-supplied
//! transport.

use vstd::prelude::*;

use crate::download::parse_content_length;
use crate::download::resolve_url;
use crate::download::TransferProgress;
use crate::error::FetchError;
use crate::from_url::repo_id_from_url;
use crate::from_url::url_parse_ok;
use crate::from_url::url_segments;
use crate::manifest::manifest_outcome;
use crate::manifest::manifest_url;
use crate::manifest::HfLfsManifest;
use crate::manifest::HfModelsJson;
use crate::manifest::ManifestFault;
use crate::repo::RepoId;

verus! {

/// The outside world of one fetch operation: the network requests and the
/// destination sink.  The library never performs these itself; a caller
/// supplies an implementation (an HTTP client writing to a file, or a fake
/// for tests), and every decision taken on the outcomes is verified here.
pub trait Transport {
    /// Issues the metadata GET for `url` and decodes the response body as
    /// the expected JSON shape, reporting a transport or decode fault.
    fn get_models_json(&mut self, url: &str) -> Result<HfModelsJson, ManifestFault>;

    /// Opens (creates or truncates) the destination sink named `name`;
    /// `false` when it cannot be opened.
    fn open_sink(&mut self, name: &str) -> bool;

    /// Issues the size probe (a HEAD-equivalent request) for `url`.  On a
    /// completed request the result carries the content-length header value
    /// when one was present; `Err` is a transport failure.
    fn probe_content_length(&mut self, url: &str) -> Result<Option<String>, ()>;

    /// Tells the caller the expected transfer size before the transfer
    /// begins, for display purposes.
    fn announce_size(&mut self, total: u64);

    /// Issues the GET for `url` and streams the response body to the open
    /// sink in a single pass, recording every chunk written in `progress`;
    /// `Err` is a read or write failure mid-stream, after which whatever
    /// was already written stays in the sink.
    fn fetch_stream(&mut self, url: &str, progress: &mut TransferProgress) -> Result<(), ()>;
}

/// The two operations of the facade: listing the files of a repository and
/// downloading one named file.
pub trait Fetcher {
    /// Fetches the manifest of `repo`: every filename the metadata endpoint
    /// reports, in its order.  Fails with `NetworkError` or `DecodeError`
    /// only.
    fn fetch_manifest(&mut self, repo: &RepoId) -> (r: Result<HfLfsManifest, FetchError>)
        ensures
            r matches Err(e) ==> e == FetchError::NetworkError || e == FetchError::DecodeError,
    ;

    /// Downloads the file `model` of `repo` to the destination sink named
    /// `model`, and returns the number of bytes written.  The sink is opened
    /// before any network request; the size probe must carry a well-formed
    /// content-length header before the transfer starts; a failed transfer
    /// leaves the partial bytes in the sink.
    ///
    /// The remote filename is handed to the sink as the destination name
    /// without any sanitization, so a name carrying path structure (`../`,
    /// an absolute path) escapes the working directory: a known
    /// path-traversal risk, kept deliberately because rejecting such names
    /// would narrow the accepted input space.
    fn download_model(&mut self, repo: &RepoId, model: &str) -> (r: Result<u64, FetchError>)
        ensures
            r matches Err(e) ==> (e == FetchError::IoError || e == FetchError::NetworkError || e
                == FetchError::MissingContentLength || e == FetchError::DecodeError || e
                == FetchError::TransferError),
    ;
}

/// The one concrete fetcher: composes the verified identifier, manifest and
/// download logic over a transport.
pub struct HfFetcher<T: Transport> {
    /// The supplied outside world: network requests and the destination sink.
    pub transport: T,
}

impl<T: Transport> Fetcher for HfFetcher<T> {
    fn fetch_manifest(&mut self, repo: &RepoId) -> (r: Result<HfLfsManifest, FetchError>) {
        let url = manifest_url(repo);
        let response = self.transport.get_models_json(url.as_str());
        manifest_outcome(response)
    }

    fn download_model(&mut self, repo: &RepoId, model: &str) -> (r: Result<u64, FetchError>) {
        let url = resolve_url(repo, model);
        if !self.transport.open_sink(model) {
            return Err(FetchError::IoError);
        }
        let header = match self.transport.probe_content_length(url.as_str()) {
            Ok(h) => h,
            Err(()) => {
                return Err(FetchError::NetworkError);
            },
        };
        let total = match parse_content_length(&header) {
            Ok(t) => t,
            Err(e) => {
                return Err(e);
            },
        };
        self.transport.announce_size(total);
        let mut progress = TransferProgress::new(total);
        match self.transport.fetch_stream(url.as_str(), &mut progress) {
            Ok(()) => Ok(progress.transferred),
            Err(()) => Err(FetchError::TransferError),
        }
    }
}

/// Resolves a full repository URL and fetches that repository's manifest.
/// A URL the parser rejects is `InvalidUrl`, one with fewer than two path
/// segments `InsufficientPathSegments`; past that, the fetch behaves as
/// `fetch_manifest` does.
pub fn fetch_manifest_url<T: Transport>(transport: &mut T, hf_repo_url: &str) -> (r: Result<
    HfLfsManifest,
    FetchError,
>)
    ensures
        !url_parse_ok(hf_repo_url@) ==> r == Err::<HfLfsManifest, FetchError>(
            FetchError::InvalidUrl,
        ),
        url_parse_ok(hf_repo_url@) && url_segments(hf_repo_url@) is None ==> r == Err::<
            HfLfsManifest,
            FetchError,
        >(FetchError::InsufficientPathSegments),
        url_parse_ok(hf_repo_url@) ==> (url_segments(hf_repo_url@) matches Some(segs) && segs.len()
            < 2 ==> r == Err::<HfLfsManifest, FetchError>(FetchError::InsufficientPathSegments)),
        url_parse_ok(hf_repo_url@) ==> (url_segments(hf_repo_url@) matches Some(segs) && segs.len()
            >= 2 ==> (r matches Err(e) ==> e == FetchError::NetworkError || e
            == FetchError::DecodeError)),
        r matches Err(e) ==> (e == FetchError::InvalidUrl || e
            == FetchError::InsufficientPathSegments || e == FetchError::NetworkError || e
            == FetchError::DecodeError),
{
    let repo = match repo_id_from_url(hf_repo_url) {
        Ok(repo) => repo,
        Err(e) => {
            return Err(e);
        },
    };
    let url = manifest_url(&repo);
    let response = transport.get_models_json(url.as_str());
    manifest_outcome(response)
}

} // verus!
