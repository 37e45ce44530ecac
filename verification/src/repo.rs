//! The canonical `owner/name` repository identifier, and how one is obtained
//! from a bare string or from a full repository URL.

use vstd::prelude::*;

use crate::error::FetchError;

verus! {

/// A canonical repository identifier.  The wrapped string is always of the
/// form `owner/name`: it contains at least one `/`.
#[derive(Clone, Debug)]
pub struct RepoId(String);

impl View for RepoId {
    type V = Seq<char>;

    closed spec fn view(&self) -> Seq<char> {
        self.0@
    }
}

/// A `RepoId` is well formed when its canonical string contains the
/// `owner/name` separator.
pub open spec fn repo_id_wf(id: RepoId) -> bool {
    id@.contains('/')
}

impl RepoId {
    /// Joins an owner and a repository name into the canonical `owner/name`
    /// string.  No validation is performed beyond the concatenation itself.
    pub fn new(org: &str, repo: &str) -> (r: RepoId)
        ensures
            r@ == org@ + seq!['/'] + repo@,
            repo_id_wf(r),
    {
        let mut s = String::from_str(org);
        s.append("/");
        s.append(repo);
        proof {
            reveal_strlit("/");
            assert(s@ =~= org@ + seq!['/'] + repo@);
            assert(s@[org@.len() as int] == '/');
        }
        RepoId(s)
    }

    /// Splits `input` at the first `/` into an owner and a name; everything
    /// after that first separator (further slashes included) becomes the
    /// name.  An input without any `/` is rejected as `InvalidFormat`.
    /// Because only the first separator is inspected, the canonical string of
    /// a successfully parsed identifier is the input itself.
    pub fn parse(input: &str) -> (r: Result<RepoId, FetchError>)
        ensures
            r is Ok <==> input@.contains('/'),
            r matches Ok(id) ==> id@ == input@ && repo_id_wf(id),
            !input@.contains('/') ==> r == Err::<RepoId, FetchError>(FetchError::InvalidFormat),
    {
        let len = input.unicode_len();
        let mut i: usize = 0;
        while i < len
            invariant
                len == input@.len(),
                i <= len,
                forall|j: int| 0 <= j < i ==> input@[j] != '/',
            decreases len - i,
        {
            if input.get_char(i) == '/' {
                let org = input.substring_char(0, i);
                let name = input.substring_char(i + 1, len);
                let id = RepoId::new(org, name);
                proof {
                    assert(id@ =~= input@);
                }
                return Ok(id);
            }
            i += 1;
        }
        proof {
            assert(forall|j: int| 0 <= j < input@.len() ==> input@[j] != '/');
        }
        Err(FetchError::InvalidFormat)
    }

    /// The canonical `owner/name` string, unaltered.
    pub fn as_str(&self) -> (r: &str)
        ensures
            r@ == self@,
    {
        self.0.as_str()
    }
}

impl PartialEq for RepoId {
    /// Two identifiers are equal exactly when their canonical strings are.
    fn eq(&self, other: &RepoId) -> (r: bool) {
        self.0.eq(&other.0)
    }
}

impl vstd::std_specs::cmp::PartialEqSpecImpl for RepoId {
    open spec fn obeys_eq_spec() -> bool {
        true
    }

    open spec fn eq_spec(&self, other: &RepoId) -> bool {
        self@ == other@
    }
}

impl std::str::FromStr for RepoId {
    type Err = FetchError;

    /// `s.parse::<RepoId>()` returns exactly what `RepoId::parse(s)` does.
    fn from_str(s: &str) -> (r: Result<RepoId, FetchError>)
        ensures
            r is Ok <==> s@.contains('/'),
            r matches Ok(id) ==> id@ == s@,
            !s@.contains('/') ==> r == Err::<RepoId, FetchError>(FetchError::InvalidFormat),
    {
        RepoId::parse(s)
    }
}

/// Parsing the canonical form back is the identity: for a non-empty owner
/// and a name free of `/`, `RepoId::parse` accepts `owner + "/" + name`, and
/// the identifier it yields renders as exactly `owner + "/" + name` again.
/// The parameter `r` is the result of that call, constrained as `parse`'s
/// contract states it.
pub proof fn lemma_parse_round_trip(owner: Seq<char>, name: Seq<char>, r: Result<
    RepoId,
    FetchError,
>)
    requires
        owner.len() > 0,
        !name.contains('/'),
        r is Ok <==> (owner + seq!['/'] + name).contains('/'),
        r matches Ok(id) ==> id@ == owner + seq!['/'] + name,
    ensures
        r matches Ok(id) && id@ == owner + seq!['/'] + name,
{
    let s = owner + seq!['/'] + name;
    assert(s[owner.len() as int] == '/');
}

} // verus!
