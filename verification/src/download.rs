//! The verified core of a download: the resolve URL, the content-length
//! probe, and the progress accounting for the streamed transfer.

use vstd::prelude::*;

use crate::error::FetchError;
use crate::repo::RepoId;

verus! {

/// The file-resolution URL for a named file of a repository's default
/// branch: the fixed path template with the canonical `owner/name` string
/// and the filename interpolated, neither re-encoded nor altered.
pub fn resolve_url(repo: &RepoId, model: &str) -> (r: String)
    ensures
        r@ == "https://huggingface.co/"@ + repo@ + "/resolve/main/"@ + model@,
{
    let mut s = String::from_str("https://huggingface.co/");
    s.append(repo.as_str());
    s.append("/resolve/main/");
    s.append(model);
    s
}

/// Whether `c` is a decimal digit.
pub open spec fn is_digit(c: char) -> bool {
    '0' <= c && c <= '9'
}

/// The numeric value of the decimal digit `c`.
pub open spec fn digit_val(c: char) -> int {
    c as int - '0' as int
}

/// The value of `s` read as a decimal numeral.
pub open spec fn dec_val(s: Seq<char>) -> int
    decreases s.len(),
{
    if s.len() == 0 {
        0
    } else {
        dec_val(s.drop_last()) * 10 + digit_val(s.last())
    }
}

/// Whether `s` is a decimal numeral whose value fits in a `u64`: non-empty,
/// digits only, and no larger than `u64::MAX`.
pub open spec fn is_dec_u64(s: Seq<char>) -> bool {
    &&& s.len() > 0
    &&& forall|i: int| 0 <= i < s.len() ==> is_digit(s[i])
    &&& dec_val(s) <= u64::MAX
}

/// A numeral of digits has a non-negative value.
proof fn lemma_dec_val_nonneg(s: Seq<char>)
    requires
        forall|i: int| 0 <= i < s.len() ==> is_digit(s[i]),
    ensures
        dec_val(s) >= 0,
    decreases s.len(),
{
    if s.len() > 0 {
        lemma_dec_val_nonneg(s.drop_last());
    }
}

/// In a numeral of digits, the value of a prefix never exceeds the value of
/// the whole.
proof fn lemma_dec_val_prefix(s: Seq<char>, i: int)
    requires
        forall|k: int| 0 <= k < s.len() ==> is_digit(s[k]),
        0 <= i <= s.len(),
    ensures
        dec_val(s.take(i)) <= dec_val(s),
    decreases s.len() - i,
{
    if i < s.len() {
        lemma_dec_val_prefix(s, i + 1);
        lemma_dec_val_nonneg(s.take(i));
        assert(s.take(i + 1).drop_last() =~= s.take(i));
        assert(s.take(i + 1).last() == s[i]);
    } else {
        assert(s.take(i) =~= s);
    }
}

/// The largest value a decimal accumulator may hold before taking one more
/// digit could pass `u64::MAX`: this is `u64::MAX / 10`, whose last omitted
/// digit is 5.
const DEC_ACC_LIMIT: u64 = 1844674407370955161;

/// Reads the content-length header of the size probe.  An absent header is
/// `MissingContentLength`; a present one must be a decimal numeral that fits
/// in a `u64` (a non-negative integer), else the probe response is
/// malformed and the result is `DecodeError`.
#[verifier::loop_isolation(false)]
pub fn parse_content_length(header: &Option<String>) -> (r: Result<u64, FetchError>)
    ensures
        header is None ==> r == Err::<u64, FetchError>(FetchError::MissingContentLength),
        header matches Some(h) ==> (if is_dec_u64(h@) {
            r == Ok::<u64, FetchError>(dec_val(h@) as u64)
        } else {
            r == Err::<u64, FetchError>(FetchError::DecodeError)
        }),
{
    let h = if let Some(value) = header {
        value.as_str()
    } else {
        return Err(FetchError::MissingContentLength);
    };
    let len = h.unicode_len();
    if len == 0 {
        return Err(FetchError::DecodeError);
    }
    let mut value: u64 = 0;
    let mut i: usize = 0;
    while i < len
        invariant
            len == h@.len(),
            0 < len,
            i <= len,
            forall|k: int| 0 <= k < i ==> is_digit(h@[k]),
            value == dec_val(h@.take(i as int)),
        decreases len - i,
    {
        let c = h.get_char(i);
        if c < '0' || c > '9' {
            assert(!is_digit(h@[i as int]));
            return Err(FetchError::DecodeError);
        }
        let d = (c as u32 - '0' as u32) as u64;
        if value > DEC_ACC_LIMIT || (value == DEC_ACC_LIMIT && d > 5) {
            proof {
                assert(h@.take(i + 1 as int).drop_last() =~= h@.take(i as int));
                assert(dec_val(h@.take(i + 1 as int)) > u64::MAX);
                if is_dec_u64(h@) {
                    lemma_dec_val_prefix(h@, i + 1 as int);
                }
            }
            return Err(FetchError::DecodeError);
        }
        proof {
            assert(h@.take(i + 1 as int).drop_last() =~= h@.take(i as int));
        }
        value = value * 10 + d;
        i += 1;
    }
    proof {
        assert(h@.take(len as int) =~= h@);
    }
    Ok(value)
}

/// The ephemeral accounting of one download: the expected size as declared
/// by the size probe, and the bytes transferred so far.  Owned by one
/// download and discarded when it finishes.
pub struct TransferProgress {
    /// The expected transfer size in bytes, as the size probe declared it.
    pub total: u64,
    /// Cumulative bytes written to the destination so far.
    pub transferred: u64,
}

impl TransferProgress {
    /// Fresh accounting for a transfer of `total` expected bytes: nothing
    /// transferred yet.
    pub fn new(total: u64) -> (s: TransferProgress)
        ensures
            s.total == total,
            s.transferred == 0,
    {
        TransferProgress { total, transferred: 0 }
    }

    /// Accounts one chunk of `n` bytes written to the destination.  The
    /// cumulative count grows by exactly `n`, saturating at `u64::MAX`; the
    /// declared total is untouched.
    pub fn record_chunk(&mut self, n: u64)
        ensures
            final(self).total == old(self).total,
            final(self).transferred == if old(self).transferred + n <= u64::MAX {
                (old(self).transferred + n) as u64
            } else {
                u64::MAX
            },
    {
        if n <= u64::MAX - self.transferred {
            self.transferred = self.transferred + n;
        } else {
            self.transferred = u64::MAX;
        }
    }

    /// The cumulative count to report to a progress observer: the bytes
    /// transferred, clamped to the declared total.  What is reported never
    /// exceeds the declared total.
    pub fn reported(&self) -> (r: u64)
        ensures
            r == if self.transferred <= self.total {
                self.transferred
            } else {
                self.total
            },
            r <= self.total,
    {
        if self.transferred <= self.total {
            self.transferred
        } else {
            self.total
        }
    }
}

} // verus!
