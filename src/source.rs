use vstd::prelude::*;
use vstd::string::*;

use crate::layout::{join, join_path};

verus! {

/// The kinds of source a reference can name.
#[derive(Debug, Clone, Copy, PartialEq, Eq, Structural)]
pub enum SourceKind {
    /// A directory on this machine, used in place.
    Local,
    /// A git repository, cloned into the cache.
    Git,
    /// A download over HTTP, kept in the cache.
    Http,
}

/// Why a source could not be resolved.
#[derive(Debug, Clone, Copy, PartialEq, Eq, Structural)]
pub enum SourceError {
    /// The reference names no kind of source.
    ReferenceError,
    /// Offline, with nothing in the cache for the reference.
    OfflineError,
    /// The first fetch of the reference failed.
    FetchError,
}

/// How a cached source is brought up to date.
#[derive(Debug, Clone, Copy, PartialEq, Eq, Structural)]
pub enum FetchAction {
    /// Nothing is cached yet: fetch it.
    Clone,
    /// A copy is cached: refresh it, keeping the copy if that fails.
    Update,
    /// A copy is cached and the run is offline: use it as it is.
    UseCached,
}

pub open spec fn ends_with(s: Seq<char>, suffix: Seq<char>) -> bool {
    s.len() >= suffix.len() && s.subrange(s.len() - suffix.len(), s.len() as int) == suffix
}

pub open spec fn starts_with(s: Seq<char>, prefix: Seq<char>) -> bool {
    s.len() >= prefix.len() && s.subrange(0, prefix.len() as int) == prefix
}

/// The position of the first `ch` in `s` at or after `k`.
pub open spec fn first_from(s: Seq<char>, ch: char, k: int) -> Option<int>
    decreases s.len() - k,
{
    if k < 0 || k >= s.len() {
        None
    } else if s[k] == ch {
        Some(k)
    } else {
        first_from(s, ch, k + 1)
    }
}

pub open spec fn first_index(s: Seq<char>, ch: char) -> Option<int> {
    first_from(s, ch, 0)
}

/// `user@host:path`, the short form of an ssh URL that git accepts: an `@` after
/// a non-empty user, a non-empty host up to the first `:`, no `/` before it,
/// and a non-empty path.
pub open spec fn is_scp_like(s: Seq<char>) -> bool {
    match (first_index(s, ':'), first_index(s, '@')) {
        (Some(c), Some(a)) => 0 < a && a + 1 < c && c + 1 < s.len() && (first_index(s, '/') is None
            || first_index(s, '/')->0 > c),
        _ => false,
    }
}

/// The position of the first `ch` in `s`.
pub fn index_of(s: &str, ch: char) -> (r: Option<usize>)
    ensures
        match r {
            Some(i) => first_index(s@, ch) == Some(i as int) && i < s@.len(),
            None => first_index(s@, ch) is None,
        },
{
    let n = s.unicode_len();
    let mut k: usize = 0;
    while k < n
        invariant
            n == s@.len(),
            k <= n,
            first_index(s@, ch) == first_from(s@, ch, k as int),
        decreases n - k,
    {
        if s.get_char(k) == ch {
            return Some(k);
        }
        k = k + 1;
    }
    None
}

fn scp_like(s: &str) -> (r: bool)
    ensures
        r == is_scp_like(s@),
{
    let n = s.unicode_len();
    match (index_of(s, ':'), index_of(s, '@')) {
        (Some(c), Some(a)) => 0 < a && a < c && c - a > 1 && n - c > 1 && match index_of(s, '/') {
            None => true,
            Some(slash) => slash > c,
        },
        _ => false,
    }
}

/// The kind of source a reference names: the path itself where it exists here;
/// else a git repository where it ends in `.git` or has the `user@host:path`
/// form; else a download where it is an `http://` or `https://` URL.
pub open spec fn kind_of(reference: Seq<char>, exists_locally: bool) -> Result<SourceKind, SourceError> {
    if exists_locally {
        Ok(SourceKind::Local)
    } else if ends_with(reference, ".git"@) || is_scp_like(reference) {
        Ok(SourceKind::Git)
    } else if starts_with(reference, "http://"@) || starts_with(reference, "https://"@) {
        Ok(SourceKind::Http)
    } else {
        Err(SourceError::ReferenceError)
    }
}

pub fn text_ends_with(s: &str, suffix: &str) -> (r: bool)
    ensures
        r == ends_with(s@, suffix@),
{
    let n = s.unicode_len();
    let m = suffix.unicode_len();
    if n < m {
        return false;
    }
    crate::text::same_text(s.substring_char(n - m, n), suffix)
}

pub fn text_starts_with(s: &str, prefix: &str) -> (r: bool)
    ensures
        r == starts_with(s@, prefix@),
{
    let n = s.unicode_len();
    let m = prefix.unicode_len();
    if n < m {
        return false;
    }
    crate::text::same_text(s.substring_char(0, m), prefix)
}

/// Tells which kind of source a reference names, given whether it exists as a
/// path here.
pub fn classify(reference: &str, exists_locally: bool) -> (r: Result<SourceKind, SourceError>)
    ensures
        r == kind_of(reference@, exists_locally),
{
    if exists_locally {
        Ok(SourceKind::Local)
    } else if text_ends_with(reference, ".git") || scp_like(reference) {
        Ok(SourceKind::Git)
    } else if text_starts_with(reference, "http://") || text_starts_with(reference, "https://") {
        Ok(SourceKind::Http)
    } else {
        Err(SourceError::ReferenceError)
    }
}

/// How a source is fetched, given whether the cache holds it and whether the
/// run is offline.
pub open spec fn fetch_plan(cached: bool, offline: bool) -> Result<FetchAction, SourceError> {
    if !cached {
        if offline {
            Err(SourceError::OfflineError)
        } else {
            Ok(FetchAction::Clone)
        }
    } else if offline {
        Ok(FetchAction::UseCached)
    } else {
        Ok(FetchAction::Update)
    }
}

/// Decides how to fetch a source.
pub fn fetch_action(cached: bool, offline: bool) -> (r: Result<FetchAction, SourceError>)
    ensures
        r == fetch_plan(cached, offline),
{
    if !cached {
        if offline {
            Err(SourceError::OfflineError)
        } else {
            Ok(FetchAction::Clone)
        }
    } else if offline {
        Ok(FetchAction::UseCached)
    } else {
        Ok(FetchAction::Update)
    }
}

/// The outcome of a fetch: a failed first fetch is fatal; a failed refresh of a
/// cached copy falls back to that copy.
pub open spec fn fetch_outcome(action: FetchAction, fetched: bool) -> Result<(), SourceError> {
    match action {
        FetchAction::Clone => if fetched {
            Ok(())
        } else {
            Err(SourceError::FetchError)
        },
        _ => Ok(()),
    }
}

/// Settles a fetch once it was tried.
pub fn settle_fetch(action: FetchAction, fetched: bool) -> (r: Result<(), SourceError>)
    ensures
        r == fetch_outcome(action, fetched),
{
    match action {
        FetchAction::Clone => {
            if fetched {
                Ok(())
            } else {
                Err(SourceError::FetchError)
            }
        },
        _ => Ok(()),
    }
}

/// Whether resolving a source succeeds: the plan allows it and the fetch, where
/// one is needed, works.
pub open spec fn resolves(cached: bool, offline: bool, fetched: bool) -> bool {
    match fetch_plan(cached, offline) {
        Ok(action) => fetch_outcome(action, fetched) is Ok,
        Err(_) => false,
    }
}

/// Whether the cache holds the source after a resolve.
pub open spec fn cached_after(cached: bool, offline: bool, fetched: bool) -> bool {
    cached || resolves(cached, offline, fetched)
}

/// Resolving a reference a second time, offline and with no network, succeeds
/// exactly where the first resolve did.
pub proof fn lemma_offline_rerun(cached: bool, offline: bool, fetched: bool, fetched_again: bool)
    ensures
        resolves(cached_after(cached, offline, fetched), true, fetched_again) == resolves(
            cached,
            offline,
            fetched,
        ),
{
}

pub open spec fn hex_char(d: nat) -> char {
    if d < 10 {
        (('0' as nat) + d) as char
    } else {
        (('a' as nat) + (d - 10)) as char
    }
}

/// The bytes in lower-case hexadecimal, two digits each.
pub open spec fn hex_text(b: Seq<u8>) -> Seq<char>
    decreases b.len(),
{
    if b.len() == 0 {
        Seq::empty()
    } else {
        hex_text(b.drop_last()) + seq![hex_char((b.last() / 16) as nat), hex_char((b.last() % 16) as nat)]
    }
}

fn hex_digit(d: u8) -> (r: &'static str)
    requires
        d < 16,
    ensures
        r@ == seq![hex_char(d as nat)],
{
    if d == 0 {
        proof {
            reveal_strlit("0");
        }
        "0"
    } else if d == 1 {
        proof {
            reveal_strlit("1");
        }
        "1"
    } else if d == 2 {
        proof {
            reveal_strlit("2");
        }
        "2"
    } else if d == 3 {
        proof {
            reveal_strlit("3");
        }
        "3"
    } else if d == 4 {
        proof {
            reveal_strlit("4");
        }
        "4"
    } else if d == 5 {
        proof {
            reveal_strlit("5");
        }
        "5"
    } else if d == 6 {
        proof {
            reveal_strlit("6");
        }
        "6"
    } else if d == 7 {
        proof {
            reveal_strlit("7");
        }
        "7"
    } else if d == 8 {
        proof {
            reveal_strlit("8");
        }
        "8"
    } else if d == 9 {
        proof {
            reveal_strlit("9");
        }
        "9"
    } else if d == 10 {
        proof {
            reveal_strlit("a");
        }
        "a"
    } else if d == 11 {
        proof {
            reveal_strlit("b");
        }
        "b"
    } else if d == 12 {
        proof {
            reveal_strlit("c");
        }
        "c"
    } else if d == 13 {
        proof {
            reveal_strlit("d");
        }
        "d"
    } else if d == 14 {
        proof {
            reveal_strlit("e");
        }
        "e"
    } else {
        proof {
            reveal_strlit("f");
        }
        "f"
    }
}

/// The SHA-256 digest of a byte string.
pub uninterp spec fn sha256_digest(data: Seq<u8>) -> Seq<u8>;

/// Relies on `sha2::Sha256::digest` (the `digest::Digest` trait): the SHA-256
/// digest of the text's bytes, whose output size is 32 bytes.
#[verifier::external_body]
fn sha256(data: &str) -> (r: Vec<u8>)
    ensures
        r@ == sha256_digest(data.spec_bytes()),
        r@.len() == 32,
{
    <sha2::Sha256 as sha2::Digest>::digest(data.as_bytes()).to_vec()
}

/// The cache directory of a download whose URL has the given digest:
/// `<http cache>/<digest in hex>`.
pub fn http_cache_dir_from_digest(http_cache: &str, digest: &Vec<u8>) -> (r: String)
    ensures
        r@ == join_path(http_cache@, hex_text(digest@)),
{
    let mut name = String::new();
    let mut i: usize = 0;
    while i < digest.len()
        invariant
            i <= digest@.len(),
            name@ == hex_text(digest@.subrange(0, i as int)),
        decreases digest@.len() - i,
    {
        let b = digest[i];
        let ghost before = name@;
        name.append(hex_digit(b / 16));
        name.append(hex_digit(b % 16));
        assert(digest@.subrange(0, i + 1).drop_last() =~= digest@.subrange(0, i as int));
        assert(name@ =~= hex_text(digest@.subrange(0, i + 1)));
        i = i + 1;
    }
    assert(digest@.subrange(0, digest@.len() as int) =~= digest@);
    join(http_cache, name.as_str())
}

/// The directory a download is cached in: `<http cache>/<sha256 of the URL>`.
/// The same URL gives the same directory each time.
pub fn http_cache_dir_for(http_cache: &str, url: &str) -> (r: String)
    ensures
        r@ == join_path(http_cache@, hex_text(sha256_digest(url.spec_bytes()))),
{
    let digest = sha256(url);
    http_cache_dir_from_digest(http_cache, &digest)
}

/// The directory a git source is cached in: `<git cache>/<host>/<owner>/<repo>-<ref>`.
pub open spec fn git_cache_path(
    git_cache: Seq<char>,
    host: Seq<char>,
    owner: Seq<char>,
    repo: Seq<char>,
    git_ref: Seq<char>,
) -> Seq<char> {
    join_path(join_path(join_path(git_cache, host), owner), repo + "-"@ + git_ref)
}

/// The directory a git source is cached in. The same reference gives the same
/// directory each time, and two refs of one repository get two directories.
pub fn git_cache_dir_for(git_cache: &str, host: &str, owner: &str, repo: &str, git_ref: &str) -> (r:
    String)
    ensures
        r@ == git_cache_path(git_cache@, host@, owner@, repo@, git_ref@),
{
    let a = join(git_cache, host);
    let b = join(a.as_str(), owner);
    let mut leaf = repo.to_owned();
    leaf.append("-");
    leaf.append(git_ref);
    join(b.as_str(), leaf.as_str())
}

} // verus!
