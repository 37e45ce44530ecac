//! Deriving a [`RepoId`] from a full repository URL: the owner and name are
//! the first two path segments; anything after them is discarded.

use vstd::prelude::*;

use crate::error::FetchError;
use crate::repo::repo_id_wf;
use crate::repo::RepoId;

verus! {

/// The error the `url` crate reports for an unparsable URL.
#[verifier::external_type_specification]
#[verifier::external_body]
pub struct ExUrlParseError(url::ParseError);

/// Whether `url::Url::parse` accepts the string as a URL.
pub uninterp spec fn url_parse_ok(s: Seq<char>) -> bool;

/// The path segments `url::Url::path_segments` reports for a parsable URL:
/// `None` for a URL that cannot be a base (its path does not start with
/// `/`), otherwise the `/`-separated pieces of the path.
pub uninterp spec fn url_segments(s: Seq<char>) -> Option<Seq<Seq<char>>>;

/// Relies on `url::Url::parse` to accept or reject the string, and on
/// `url::Url::path_segments` to hand out the path segments of an accepted
/// one.  Both depend on the input string alone.
#[verifier::external_body]
fn split_url_path(url: &str) -> (r: Result<Option<Vec<String>>, url::ParseError>)
    ensures
        r is Ok <==> url_parse_ok(url@),
        r matches Ok(segs) ==> segs.deep_view() == url_segments(url@),
{
    match url::Url::parse(url) {
        Err(e) => Err(e),
        Ok(u) => Ok(u.path_segments().map(|parts| parts.map(|s| s.to_string()).collect())),
    }
}

/// Derives a repository identifier from a full repository URL.  A string the
/// URL parser rejects is `InvalidUrl`; a URL whose path has fewer than two
/// segments (or no segmented path at all) is `InsufficientPathSegments`;
/// otherwise the first two path segments become owner and name, and any
/// further segments are discarded.
pub fn repo_id_from_url(url: &str) -> (r: Result<RepoId, FetchError>)
    ensures
        !url_parse_ok(url@) ==> r == Err::<RepoId, FetchError>(FetchError::InvalidUrl),
        url_parse_ok(url@) && url_segments(url@) is None ==> r == Err::<RepoId, FetchError>(
            FetchError::InsufficientPathSegments,
        ),
        url_parse_ok(url@) ==> (url_segments(url@) matches Some(segs) ==> (if segs.len() < 2 {
            r == Err::<RepoId, FetchError>(FetchError::InsufficientPathSegments)
        } else {
            r matches Ok(id) && id@ == segs[0] + seq!['/'] + segs[1] && repo_id_wf(id)
        })),
{
    match split_url_path(url) {
        Err(_) => Err(FetchError::InvalidUrl),
        Ok(None) => Err(FetchError::InsufficientPathSegments),
        Ok(Some(segments)) => {
            if segments.len() < 2 {
                Err(FetchError::InsufficientPathSegments)
            } else {
                let owner = &segments[0];
                let name = &segments[1];
                Ok(RepoId::new(owner.as_str(), name.as_str()))
            }
        },
    }
}

} // verus!
