//! The persisted version record and its on-disk format.
//!
//! The record `{ last_version, last_modified }` is the sole source of truth
//! for the current archive version.  It is stored as a single JSON document
//! in a fixed canonical shape:
//!
//! ```text
//! {"last_version":<decimal>,"last_modified":"<timestamp>"}
//! ```
//!
//! Rendering and parsing are verified against the same mathematical
//! definition of that shape, and parsing succeeds exactly on the canonical
//! renderings, so a committed record always reads back as the version that
//! was committed.

use vstd::prelude::*;

use crate::errors::CoreError;
use crate::text::{
    canonical_digits, dec_digits, dec_val, digit_val, is_digit_char,
    lemma_canonical_digits_unique, lemma_dec_digits_wf, lemma_dec_val_of_digits,
    lemma_dec_val_take_le, char_is_digit, num_to_dec_str, str_matches_at,
};

verus! {

/// The persisted version record: the current archive version and the time of
/// the last upload.
#[derive(Debug)]
pub struct VersionsData {
    pub last_version: i32,
    pub last_modified: String,
}

/// A character that may stand unescaped inside a JSON string: printable
/// ASCII except the quote and the backslash.
pub open spec fn plain_char(c: char) -> bool {
    &&& ' ' <= c <= '~'
    &&& c != '"'
    &&& c != '\\'
}

/// All characters of `s` are plain.
pub open spec fn plain_chars(s: Seq<char>) -> bool {
    forall|i: int| 0 <= i < s.len() ==> plain_char(s[i])
}

/// A record the store can persist: a non-negative version and a timestamp
/// that needs no JSON escaping.
pub open spec fn versions_valid(d: VersionsData) -> bool {
    &&& 0 <= d.last_version
    &&& plain_chars(d.last_modified@)
}

/// The canonical rendering of a version record.
pub open spec fn render_versions_spec(version: int, modified: Seq<char>) -> Seq<char> {
    "{\"last_version\":"@ + dec_digits(version as nat) + ",\"last_modified\":\""@ + modified
        + "\"}"@
}

/// The end of the run of digit characters that starts at `i`.
pub open spec fn digits_end(s: Seq<char>, i: int) -> int
    decreases s.len() - i when 0 <= i <= s.len()
{
    if i < s.len() && is_digit_char(s[i]) {
        digits_end(s, i + 1)
    } else {
        i
    }
}

/// The position of the first quote character at or after `i`.
pub open spec fn quote_end(s: Seq<char>, i: int) -> int
    decreases s.len() - i when 0 <= i <= s.len()
{
    if i < s.len() && s[i] != '"' {
        quote_end(s, i + 1)
    } else {
        i
    }
}

/// Parsing a version record: `Some((version, modified))` exactly when `s` is
/// the canonical rendering of that pair.
pub open spec fn parse_versions_spec(s: Seq<char>) -> Option<(int, Seq<char>)> {
    let p = "{\"last_version\":"@;
    let mid = ",\"last_modified\":\""@;
    if s.len() < p.len() || s.subrange(0, p.len() as int) != p {
        None
    } else {
        let j = digits_end(s, p.len() as int);
        let digits = s.subrange(p.len() as int, j);
        if !canonical_digits(digits) || dec_val(digits) > i32::MAX as nat {
            None
        } else if j + mid.len() > s.len() || s.subrange(j, j + mid.len()) != mid {
            None
        } else {
            let k = j + mid.len() as int;
            let q = quote_end(s, k);
            let text = s.subrange(k, q);
            if s.len() - q == 2 && s[q + 1] == '}' && plain_chars(text) {
                Some((dec_val(digits) as int, text))
            } else {
                None
            }
        }
    }
}

proof fn lemma_digits_end_bounds(s: Seq<char>, i: int)
    requires
        0 <= i <= s.len(),
    ensures
        i <= digits_end(s, i) <= s.len(),
        forall|t: int| i <= t < digits_end(s, i) ==> is_digit_char(s[t]),
        digits_end(s, i) < s.len() ==> !is_digit_char(s[digits_end(s, i)]),
    decreases s.len() - i,
{
    if i < s.len() && is_digit_char(s[i]) {
        lemma_digits_end_bounds(s, i + 1);
    }
}

proof fn lemma_digits_end_eq(s: Seq<char>, i: int, j: int)
    requires
        0 <= i <= j <= s.len(),
        forall|t: int| i <= t < j ==> is_digit_char(s[t]),
        j < s.len() ==> !is_digit_char(s[j]),
    ensures
        digits_end(s, i) == j,
    decreases j - i,
{
    if i < j {
        lemma_digits_end_eq(s, i + 1, j);
    }
}

proof fn lemma_quote_end_bounds(s: Seq<char>, i: int)
    requires
        0 <= i <= s.len(),
    ensures
        i <= quote_end(s, i) <= s.len(),
        forall|t: int| i <= t < quote_end(s, i) ==> s[t] != '"',
        quote_end(s, i) < s.len() ==> s[quote_end(s, i)] == '"',
    decreases s.len() - i,
{
    if i < s.len() && s[i] != '"' {
        lemma_quote_end_bounds(s, i + 1);
    }
}

proof fn lemma_quote_end_eq(s: Seq<char>, i: int, j: int)
    requires
        0 <= i <= j <= s.len(),
        forall|t: int| i <= t < j ==> s[t] != '"',
        j < s.len() ==> s[j] == '"',
    ensures
        quote_end(s, i) == j,
    decreases j - i,
{
    if i < j {
        lemma_quote_end_eq(s, i + 1, j);
    }
}

/// Committing a record and reading it back yields the record unchanged: the
/// canonical rendering of any valid `(version, modified)` pair parses to
/// exactly that pair.
pub proof fn lemma_versions_round_trip(version: int, modified: Seq<char>)
    requires
        0 <= version <= i32::MAX as int,
        plain_chars(modified),
    ensures
        parse_versions_spec(render_versions_spec(version, modified)) == Some(
            (version, modified),
        ),
{
    reveal_strlit("{\"last_version\":");
    reveal_strlit(",\"last_modified\":\"");
    reveal_strlit("\"}");
    let p = "{\"last_version\":"@;
    let mid = ",\"last_modified\":\""@;
    let suf = "\"}"@;
    let d = dec_digits(version as nat);
    lemma_dec_digits_wf(version as nat);
    lemma_dec_val_of_digits(version as nat);
    let s = render_versions_spec(version, modified);
    assert(p.len() == 16 && mid.len() == 18 && suf.len() == 2);
    assert(s.len() == 16 + d.len() + 18 + modified.len() + 2);
    assert(s.subrange(0, 16) =~= p);
    let j = 16 + d.len() as int;
    assert(forall|t: int| 16 <= t < j ==> s[t] == d[t - 16]);
    assert(s[j] == mid[0]);
    assert(!is_digit_char(','));
    lemma_digits_end_eq(s, 16, j);
    assert(s.subrange(16, j) =~= d);
    assert(dec_val(d) == version as nat);
    assert(s.subrange(j, j + 18) =~= mid);
    let k = j + 18;
    let q = k + modified.len() as int;
    assert(forall|t: int| k <= t < q ==> s[t] == modified[t - k] && s[t] != '"');
    assert(s[q] == suf[0] && s[q] == '"');
    lemma_quote_end_eq(s, k, q);
    assert(s.subrange(k, q) =~= modified);
    assert(s.len() - q == 2);
    assert(s[q + 1] == suf[1] && s[q + 1] == '}');
}

/// Parsing is sound: a string that parses is the canonical rendering of the
/// parsed record, so no two distinct records share a rendering and nothing
/// but a rendering is accepted.
pub proof fn lemma_parse_versions_sound(s: Seq<char>)
    requires
        parse_versions_spec(s) is Some,
    ensures
        0 <= parse_versions_spec(s).unwrap().0 <= i32::MAX as int,
        plain_chars(parse_versions_spec(s).unwrap().1),
        s == render_versions_spec(
            parse_versions_spec(s).unwrap().0,
            parse_versions_spec(s).unwrap().1,
        ),
{
    reveal_strlit("{\"last_version\":");
    reveal_strlit(",\"last_modified\":\"");
    reveal_strlit("\"}");
    let p = "{\"last_version\":"@;
    let mid = ",\"last_modified\":\""@;
    let suf = "\"}"@;
    assert(p.len() == 16 && mid.len() == 18 && suf.len() == 2);
    let j = digits_end(s, 16);
    lemma_digits_end_bounds(s, 16);
    let digits = s.subrange(16, j);
    let k = j + 18;
    let q = quote_end(s, k);
    lemma_quote_end_bounds(s, k);
    let text = s.subrange(k, q);
    let v = dec_val(digits) as int;
    lemma_canonical_digits_unique(digits);
    assert(dec_digits(v as nat) == digits);
    let r = render_versions_spec(v, text);
    assert(r.len() == 16 + digits.len() + 18 + text.len() + 2);
    assert(s.len() == r.len());
    assert forall|t: int| 0 <= t < s.len() implies s[t] == r[t] by {
        if t < 16 {
            assert(s.subrange(0, 16) == p);
            assert(s.subrange(0, 16)[t] == s[t]);
        } else if t < j {
            assert(digits[t - 16] == s[t]);
        } else if t < k {
            assert(s.subrange(j, j + 18) == mid);
            assert(s.subrange(j, j + 18)[t - j] == s[t]);
        } else if t < q {
            assert(text[t - k] == s[t]);
        } else if t == q {
            assert(s[q] == '"');
        } else {
            assert(t == q + 1);
            assert(s[q + 1] == '}');
        }
    }
    assert(s =~= r);
}

/// Renders a version record in the canonical on-disk shape.
pub fn render_versions(d: &VersionsData) -> (r: String)
    requires
        versions_valid(*d),
    ensures
        r@ == render_versions_spec(d.last_version as int, d.last_modified@),
{
    let mut s = String::from_str("{\"last_version\":");
    let digits = num_to_dec_str(d.last_version as u32);
    s.append(digits.as_str());
    s.append(",\"last_modified\":\"");
    s.append(d.last_modified.as_str());
    s.append("\"}");
    proof {
        assert(s@ =~= render_versions_spec(d.last_version as int, d.last_modified@));
    }
    s
}

/// Parses the version record file; `None` on anything but a canonical
/// record.
#[verifier::loop_isolation(false)]
pub fn parse_versions(s: &str) -> (r: Option<VersionsData>)
    ensures
        match r {
            Some(d) => parse_versions_spec(s@) == Some(
                (d.last_version as int, d.last_modified@),
            ) && d.last_version >= 0,
            None => parse_versions_spec(s@) is None,
        },
{
    proof {
        reveal_strlit("{\"last_version\":");
        reveal_strlit(",\"last_modified\":\"");
        reveal_strlit("\"}");
    }
    let n = s.unicode_len();
    if !str_matches_at(s, 0, "{\"last_version\":") {
        return None;
    }
    // Scan the digit run that starts right after the opening key.
    let mut j: usize = 16;
    while j < n && char_is_digit(s.get_char(j))
        invariant
            16 <= j <= n,
            n == s@.len(),
            forall|t: int| 16 <= t < j ==> is_digit_char(s@[t]),
        decreases n - j,
    {
        j = j + 1;
    }
    proof {
        lemma_digits_end_eq(s@, 16, j as int);
    }
    let ghost digits = s@.subrange(16, j as int);
    if j == 16 {
        return None;
    }
    if j > 17 && s.get_char(16) == '0' {
        assert(digits[0] == '0' && digits.len() > 1);
        return None;
    }
    assert(canonical_digits(digits));
    // Accumulate the value, refusing anything beyond the version range.
    let mut acc: u64 = 0;
    let mut t: usize = 16;
    while t < j
        invariant
            16 <= t <= j <= n,
            n == s@.len(),
            forall|u: int| 16 <= u < j ==> is_digit_char(s@[u]),
            digits == s@.subrange(16, j as int),
            acc == dec_val(digits.take(t - 16)),
            acc <= i32::MAX as u64,
        decreases j - t,
    {
        let cv = s.get_char(t) as u32;
        assert(is_digit_char(s@[t as int]));
        let d = (cv - 48) as u64;
        proof {
            assert(digits.take(t + 1 - 16).drop_last() =~= digits.take(t - 16));
            assert(digits.take(t + 1 - 16).last() == s@[t as int]);
            assert(digit_val(s@[t as int]) == cv - 48);
        }
        let next = acc * 10 + d;
        if next > i32::MAX as u64 {
            proof {
                lemma_dec_val_take_le(digits, t + 1 - 16);
                assert(digits.take(digits.len() as int) =~= digits);
            }
            return None;
        }
        acc = next;
        t = t + 1;
    }
    proof {
        assert(digits.take(j - 16) =~= digits);
    }
    let version = acc as i32;
    if !str_matches_at(s, j, ",\"last_modified\":\"") {
        return None;
    }
    let k = j + 18;
    // Scan the timestamp text up to the closing quote, admitting only plain
    // characters.
    let mut q: usize = k;
    while q < n && s.get_char(q) != '"'
        invariant
            k <= q <= n,
            k == j + 18,
            j + 18 <= n,
            n == s@.len(),
            forall|t2: int| k <= t2 < q ==> s@[t2] != '"' && plain_char(s@[t2]),
        decreases n - q,
    {
        let cv = s.get_char(q) as u32;
        if cv < 32 || cv > 126 || cv == 92 {
            proof {
                lemma_quote_end_bounds(s@, k as int);
                if quote_end(s@, k as int) <= q {
                    assert(s@[quote_end(s@, k as int)] == '"');
                }
                assert(quote_end(s@, k as int) > q);
                let text = s@.subrange(k as int, quote_end(s@, k as int));
                assert(!plain_char(text[q - k]));
            }
            return None;
        }
        q = q + 1;
    }
    if q == n {
        proof {
            lemma_quote_end_eq(s@, k as int, n as int);
        }
        return None;
    }
    proof {
        lemma_quote_end_eq(s@, k as int, q as int);
    }
    if n - q != 2 {
        return None;
    }
    if s.get_char(q + 1) != '}' {
        return None;
    }
    let text = s.substring_char(k, q);
    let modified = String::from_str(text);
    proof {
        assert(plain_chars(s@.subrange(k as int, q as int)));
        assert(dec_val(digits) <= i32::MAX as nat);
    }
    Some(VersionsData { last_version: version, last_modified: modified })
}

/// Relies on chrono's `Utc::now` and `DateTime::to_rfc3339`: the current
/// time rendered as an RFC 3339 timestamp, a nonempty string of digits and
/// the ASCII punctuation `- : T + . Z`, all of which are plain characters.
#[verifier::external_body]
fn now_timestamp() -> (r: String)
    ensures
        r@.len() > 0,
        plain_chars(r@),
{
    chrono::Utc::now().to_rfc3339()
}

/// The record written when no version file exists yet: version 1, stamped
/// with the current time.
pub fn initial_versions_json() -> (r: String)
    ensures
        parse_versions_spec(r@) matches Some(rec) && rec.0 == 1,
{
    let d = VersionsData { last_version: 1, last_modified: now_timestamp() };
    let r = render_versions(&d);
    proof {
        lemma_versions_round_trip(1, d.last_modified@);
    }
    r
}

/// The record committed after a successful upload: the new version, stamped
/// with the current time.  Overwrites the previous record wholesale.
pub fn commit_versions_json(new_version: i32) -> (r: String)
    requires
        0 <= new_version,
    ensures
        parse_versions_spec(r@) matches Some(rec) && rec.0 == new_version as int,
{
    let d = VersionsData { last_version: new_version, last_modified: now_timestamp() };
    let r = render_versions(&d);
    proof {
        lemma_versions_round_trip(new_version as int, d.last_modified@);
    }
    r
}

/// The record that advances the counter by one past `last_version`.
pub fn update_latest_version(last_version: i32) -> (r: String)
    requires
        0 <= last_version < i32::MAX,
    ensures
        parse_versions_spec(r@) matches Some(rec) && rec.0 == last_version + 1,
{
    commit_versions_json(last_version + 1)
}

/// Reads the current archive version out of the version file's contents.
///
/// `contents` is `None` when the file does not exist: the store then counts
/// from 1 (the caller should also persist [`initial_versions_json`]).  A file
/// that is not a canonical record is corruption and a `StorageError`.
pub fn get_archive_version(contents: Option<&String>) -> (r: Result<i32, CoreError>)
    ensures
        match contents {
            None => r == Ok::<i32, CoreError>(1),
            Some(s) => match parse_versions_spec(s@) {
                Some(rec) => r matches Ok(v) && v as int == rec.0 && v >= 0,
                None => r == Err::<i32, CoreError>(CoreError::StorageError),
            },
        },
{
    match contents {
        None => Ok(1),
        Some(s) => match parse_versions(s.as_str()) {
            Some(d) => Ok(d.last_version),
            None => Err(CoreError::StorageError),
        },
    }
}

} // verus!
