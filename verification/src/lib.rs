//! Discovery and retrieval of files hosted in a remote model repository,
//! addressed by an `owner/name` pair.
//!
//! The crate resolves a human-supplied identifier (a bare `owner/name`
//! string or a full repository URL) into a canonical [`RepoId`], fetches a
//! manifest of the files a repository offers, and drives the download of one
//! named file while accounting for transfer progress.  All network and file
//! traffic goes through a caller-supplied [`Transport`], so the logic here is
//! independent of any particular HTTP client.

use vstd::prelude::*;

mod download;
mod error;
mod fetch;
mod from_url;
mod manifest;
mod repo;

pub use fetch::fetch_manifest_url;
pub use fetch::Fetcher;
pub use fetch::HfFetcher;
pub use fetch::Transport;

pub use download::dec_val;
pub use download::is_dec_u64;
pub use download::parse_content_length;
pub use download::resolve_url;
pub use download::TransferProgress;

pub use manifest::filenames_of;
pub use manifest::manifest_outcome;
pub use manifest::manifest_url;
pub use manifest::HfFile;
pub use manifest::HfLfsManifest;
pub use manifest::HfModelsJson;
pub use manifest::ManifestFault;

pub use error::FetchError;
pub use from_url::repo_id_from_url;
pub use from_url::url_parse_ok;
pub use from_url::url_segments;
pub use repo::lemma_parse_round_trip;
pub use repo::repo_id_wf;
pub use repo::RepoId;

verus! {

} // verus!
