//! The manifest a repository's metadata endpoint reports: an ordered list of
//! the filenames the repository offers.

use vstd::prelude::*;

use crate::error::FetchError;
use crate::repo::RepoId;

verus! {

/// One entry of the metadata response: a file the repository offers, named
/// by its repository-relative filename.
#[derive(Clone, Debug)]
pub struct HfFile {
    pub rfilename: String,
}

/// The decoded shape of the metadata response body: the list of files the
/// repository offers, in the order the service reported them.  Fields of the
/// response other than the file list are not represented; the service may
/// send any number of them.
#[derive(Clone, Debug)]
pub struct HfModelsJson {
    pub siblings: Vec<HfFile>,
}

/// An ordered list of the filenames available in one repository, as reported
/// by the metadata endpoint at fetch time.  No deduplication, sorting or
/// filtering is applied.
#[derive(Clone, Debug)]
pub struct HfLfsManifest {
    pub files: Vec<String>,
}

/// The filenames of a decoded metadata response, in order: the deep view of
/// an entry is its filename.
pub open spec fn filenames_of(json: HfModelsJson) -> Seq<Seq<char>> {
    json.siblings.deep_view()
}

impl DeepView for HfFile {
    type V = Seq<char>;

    open spec fn deep_view(&self) -> Seq<char> {
        self.rfilename@
    }
}

/// How fetching the metadata response body can fail, as the transport layer
/// reports it: the request itself failed, or the body it returned did not
/// decode as the expected JSON shape.
#[derive(Clone, Copy, Debug, PartialEq, Eq, Structural)]
pub enum ManifestFault {
    /// The request did not complete at the transport level.
    Network,
    /// The response body was not of the expected JSON shape.
    Malformed,
}

/// The metadata request URL for a repository: the fixed API path template
/// with the canonical `owner/name` string interpolated.
pub fn manifest_url(repo: &RepoId) -> (r: String)
    ensures
        r@ == "https://huggingface.co/api/models/"@ + repo@,
{
    let mut s = String::from_str("https://huggingface.co/api/models/");
    s.append(repo.as_str());
    s
}

/// Turns the outcome of the metadata request into the manifest: a transport
/// failure becomes `NetworkError`, an undecodable body becomes
/// `DecodeError`, and a decoded response is projected to its filenames —
/// every entry, in the exact order the service reported them, nothing added
/// or removed.
pub fn manifest_outcome(response: Result<HfModelsJson, ManifestFault>) -> (r: Result<
    HfLfsManifest,
    FetchError,
>)
    ensures
        response matches Ok(json) ==> (r matches Ok(m) && m.files.deep_view()
            == filenames_of(json)),
        response == Err::<HfModelsJson, ManifestFault>(ManifestFault::Network) ==> r
            == Err::<HfLfsManifest, FetchError>(FetchError::NetworkError),
        response == Err::<HfModelsJson, ManifestFault>(ManifestFault::Malformed) ==> r
            == Err::<HfLfsManifest, FetchError>(FetchError::DecodeError),
        r matches Err(e) ==> e == FetchError::NetworkError || e == FetchError::DecodeError,
{
    match response {
        Ok(json) => {
            let mut files: Vec<String> = Vec::new();
            let n = json.siblings.len();
            let mut i: usize = 0;
            while i < n
                invariant
                    i <= n,
                    n == json.siblings.len(),
                    files@.len() == i,
                    forall|j: int| 0 <= j < i ==> files@[j]@ == json.siblings@[j].rfilename@,
                decreases n - i,
            {
                files.push(json.siblings[i].rfilename.clone());
                i += 1;
            }
            proof {
                assert(files.deep_view() =~~= filenames_of(json));
            }
            Ok(HfLfsManifest { files })
        },
        Err(ManifestFault::Network) => Err(FetchError::NetworkError),
        Err(ManifestFault::Malformed) => Err(FetchError::DecodeError),
    }
}

} // verus!
