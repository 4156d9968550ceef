//! Endpoint URLs.
//!
//! Every request targets an absolute URL. Resource modules extend a base URL
//! with path segments and query parameters before execution, and the
//! pagination loop parses cursor URLs taken from response envelopes. The
//! actual URL syntax (parsing, normalization, percent-encoding) is the `url`
//! crate's business; this module wraps the few operations the pipeline needs
//! and gives their results names the contracts can speak about.

use crate::error::Error;
use vstd::prelude::*;
use vstd::string::StringExecFns;

verus! {

/// The normalized text of `s` parsed as an absolute URL, or nothing when `s`
/// is not one. Determined by `s` alone.
pub uninterp spec fn url_norm(s: Seq<char>) -> Option<Seq<char>>;

/// The text of `s` with one more path segment `seg` (percent-encoded as
/// needed), or nothing when `s` does not parse as a segment-capable URL or
/// the rebuilt text would overrun the url crate's 32-bit serialization
/// limit. The url crate ignores the segments `"."` and `".."`, so for those
/// two values the text comes back with no segment added. Determined by the
/// two arguments alone.
pub uninterp spec fn url_push(s: Seq<char>, seg: Seq<char>) -> Option<Seq<char>>;

/// The text of `s` with the query pair `key=value` appended (encoded as
/// needed), or nothing when `s` does not parse or the rebuilt text would
/// overrun the url crate's 32-bit serialization limit. Determined by the
/// three arguments alone.
pub uninterp spec fn url_query(s: Seq<char>, key: Seq<char>, value: Seq<char>) -> Option<Seq<char>>;

/// A character-level bound under which a segment push surely stays within
/// the url crate's 32-bit serialization limit: a character is at most four
/// bytes, a percent-encoded byte at most three, so this condition implies
/// the wrappers' byte-level guard passes.
pub open spec fn push_fits(s: Seq<char>, seg: Seq<char>) -> bool {
    url_norm(s) matches Some(b) && 4 * b.len() + 12 * seg.len() + 2 <= u32::MAX
}

/// Why a segment push may be refused: the url crate rejects the text, or
/// the rebuilt text may overrun the crate's 32-bit serialization limit (a
/// character is at least one byte, so a tripped byte-level guard implies
/// this character-level bound with the limit quartered).
pub open spec fn push_may_refuse(s: Seq<char>, seg: Seq<char>) -> bool {
    url_push(s, seg) is None || (url_norm(s) matches Some(b) && b.len() + 3 * seg.len() + 2
        > 0x3FFFFFFF)
}

/// The query-pair counterpart of `push_fits`.
pub open spec fn query_fits(s: Seq<char>, key: Seq<char>, value: Seq<char>) -> bool {
    url_norm(s) matches Some(b) && 4 * b.len() + 12 * (key.len() + value.len()) + 2 <= u32::MAX
}

/// The query-pair counterpart of `push_may_refuse`.
pub open spec fn query_may_refuse(s: Seq<char>, key: Seq<char>, value: Seq<char>) -> bool {
    url_query(s, key, value) is None || (url_norm(s) matches Some(b) && b.len() + 3 * (key.len()
        + value.len()) + 2 > 0x3FFFFFFF)
}

/// Relies on `url::Url::parse` and `url::Url::as_str`: parsing either
/// normalizes the text of an absolute URL or rejects it, on the input text
/// alone.
#[verifier::external_body]
fn normalize_url_text(s: &str) -> (r: Option<String>)
    ensures
        r matches Some(t) ==> url_norm(s@) == Some(t@),
        r is None ==> url_norm(s@) is None,
{
    match url::Url::parse(s) {
        Ok(u) => Some(u.as_str().to_string()),
        Err(_) => None,
    }
}

/// Relies on `url::PathSegmentsMut::push` (reached through `url::Url::parse`
/// and `url::Url::path_segments_mut`): appends one percent-encoded path
/// segment, on the two texts alone; cannot-be-a-base URLs are rejected. The
/// crate panics once a rebuilt serialization overruns its 32-bit length
/// limit, so a byte-level guard (parsed length plus three bytes per segment
/// byte plus a separator) returns `None` before that point is reachable.
#[verifier::external_body]
fn push_url_segment_text(s: &str, seg: &str) -> (r: Option<String>)
    ensures
        r matches Some(t) ==> url_push(s@, seg@) == Some(t@),
        r is None ==> push_may_refuse(s@, seg@),
        push_fits(s@, seg@) && url_push(s@, seg@) is Some ==> r is Some,
{
    match url::Url::parse(s) {
        Err(_) => None,
        Ok(mut u) => {
            let fits = u.as_str().len() as u64 + 3 * (seg.len() as u64) + 2 <= u32::MAX as u64;
            match u.path_segments_mut() {
                Ok(mut p) if fits => {
                    p.push(seg);
                },
                _ => {
                    return None;
                },
            }
            Some(u.as_str().to_string())
        },
    }
}

/// Relies on `form_urlencoded::Serializer::append_pair` (reached through
/// `url::Url::parse` and `url::Url::query_pairs_mut`): appends one encoded
/// query pair, on the three texts alone. The crate panics once a rebuilt
/// serialization overruns its 32-bit length limit (restoring a fragment
/// after the append, among others), so a byte-level guard returns `None`
/// before that point is reachable.
#[verifier::external_body]
fn append_url_query_text(s: &str, key: &str, value: &str) -> (r: Option<String>)
    ensures
        r matches Some(t) ==> url_query(s@, key@, value@) == Some(t@),
        r is None ==> query_may_refuse(s@, key@, value@),
        query_fits(s@, key@, value@) && url_query(s@, key@, value@) is Some ==> r is Some,
{
    match url::Url::parse(s) {
        Err(_) => None,
        Ok(mut u) => {
            let grown = key.len() as u64 + value.len() as u64;
            if u.as_str().len() as u64 + 3 * grown + 2 > u32::MAX as u64 {
                return None;
            }
            u.query_pairs_mut().append_pair(key, value);
            Some(u.as_str().to_string())
        },
    }
}

/// An absolute endpoint URL, held as its normalized text.
#[derive(Debug, PartialEq, Eq)]
pub struct ApiUrl {
    text: String,
}

impl View for ApiUrl {
    type V = Seq<char>;

    closed spec fn view(&self) -> Seq<char> {
        self.text@
    }
}

impl ApiUrl {
    /// Parses `s` as an absolute URL; rejected text is reported back inside
    /// the error.
    pub fn parse(s: &str) -> (r: Result<ApiUrl, Error>)
        ensures
            match r {
                Ok(u) => url_norm(s@) == Some(u@),
                Err(e) => url_norm(s@) is None && (e matches Error::UrlParse(t) && t@ == s@),
            },
    {
        match normalize_url_text(s) {
            Some(t) => Ok(ApiUrl { text: t }),
            None => Err(Error::UrlParse(String::from_str(s))),
        }
    }

    /// The URL with one more path segment. An error names the URL that could
    /// not take one: either the url crate rejected it, or the rebuilt text
    /// could overrun the crate's 32-bit serialization limit; under the
    /// `push_fits` bound success is owed whenever the crate grants the push.
    pub fn push_segment(self, seg: &str) -> (r: Result<ApiUrl, Error>)
        ensures
            match r {
                Ok(u) => url_push(self@, seg@) == Some(u@),
                Err(e) => push_may_refuse(self@, seg@) && (e matches Error::UrlParse(t)
                    && t@ == self@),
            },
            push_fits(self@, seg@) && url_push(self@, seg@) is Some ==> r is Ok,
    {
        match push_url_segment_text(self.text.as_str(), seg) {
            Some(t) => Ok(ApiUrl { text: t }),
            None => Err(Error::UrlParse(self.text)),
        }
    }

    /// The URL with one more query pair. An error names the URL that could
    /// not take one: either the url crate rejected it, or the rebuilt text
    /// could overrun the crate's 32-bit serialization limit; under the
    /// `query_fits` bound success is owed whenever the crate grants the
    /// append.
    pub fn append_query(self, key: &str, value: &str) -> (r: Result<ApiUrl, Error>)
        ensures
            match r {
                Ok(u) => url_query(self@, key@, value@) == Some(u@),
                Err(e) => query_may_refuse(self@, key@, value@) && (e matches Error::UrlParse(
                    t,
                ) && t@ == self@),
            },
            query_fits(self@, key@, value@) && url_query(self@, key@, value@) is Some ==> r is Ok,
    {
        match append_url_query_text(self.text.as_str(), key, value) {
            Some(t) => Ok(ApiUrl { text: t }),
            None => Err(Error::UrlParse(self.text)),
        }
    }

    /// The URL's text.
    pub fn as_str(&self) -> (r: &str)
        ensures
            r@ == self@,
    {
        self.text.as_str()
    }
}

/// The character of one decimal digit.
pub open spec fn dec_digit(d: int) -> char
    recommends
        0 <= d < 10,
{
    if d == 0 {
        '0'
    } else if d == 1 {
        '1'
    } else if d == 2 {
        '2'
    } else if d == 3 {
        '3'
    } else if d == 4 {
        '4'
    } else if d == 5 {
        '5'
    } else if d == 6 {
        '6'
    } else if d == 7 {
        '7'
    } else if d == 8 {
        '8'
    } else {
        '9'
    }
}

/// The shortest decimal digit string of `n`.
pub open spec fn dec_rep(n: nat) -> Seq<char>
    decreases n,
{
    if n < 10 {
        seq![dec_digit(n as int)]
    } else {
        dec_rep(n / 10) + seq![dec_digit((n % 10) as int)]
    }
}

/// The text of one decimal digit.
fn digit_text(d: usize) -> (r: &'static str)
    requires
        d < 10,
    ensures
        r@ == seq![dec_digit(d as int)],
{
    match d {
        0 => {
            proof {
                reveal_strlit("0");
            }
            "0"
        },
        1 => {
            proof {
                reveal_strlit("1");
            }
            "1"
        },
        2 => {
            proof {
                reveal_strlit("2");
            }
            "2"
        },
        3 => {
            proof {
                reveal_strlit("3");
            }
            "3"
        },
        4 => {
            proof {
                reveal_strlit("4");
            }
            "4"
        },
        5 => {
            proof {
                reveal_strlit("5");
            }
            "5"
        },
        6 => {
            proof {
                reveal_strlit("6");
            }
            "6"
        },
        7 => {
            proof {
                reveal_strlit("7");
            }
            "7"
        },
        8 => {
            proof {
                reveal_strlit("8");
            }
            "8"
        },
        _ => {
            proof {
                reveal_strlit("9");
            }
            "9"
        },
    }
}

/// The shortest decimal digit string of `n`, most significant digit first.
pub fn format_usize(n: usize) -> (r: String)
    ensures
        r@ == dec_rep(n as nat),
    decreases n,
{
    if n < 10 {
        String::from_str(digit_text(n))
    } else {
        let mut front = format_usize(n / 10);
        front.append(digit_text(n % 10));
        front
    }
}

} // verus!
