//! What is decided about a request for a picture: whether the path names
//! one, what kind of file it is, and whether the client's copy is still
//! good.

use crate::text::{copy_range, ends_with, holds_at, text_of, to_chars};
use chrono::{DateTime, NaiveDateTime, Utc};
use vstd::prelude::*;

verus! {

/// The form of the timestamps in the headers of a response.
pub const HTTP_TIMESTAMP_FORMAT: &'static str = "%a, %d %b %Y %H:%M:%S GMT";

pub open spec fn is_letter_or_digit(c: char) -> bool {
    ('A' <= c <= 'Z') || ('a' <= c <= 'z') || ('0' <= c <= '9')
}

pub open spec fn is_stem_char(c: char) -> bool {
    is_letter_or_digit(c) || c == '-' || c == '_'
}

/// A file name that may be asked for: a stem of letters, digits, `-` and `_`,
/// one `.`, and an ending of letters and digits; neither part empty.
pub open spec fn is_image_name(name: Seq<char>) -> bool {
    exists|dot: int|
        0 < dot < name.len() - 1 && #[trigger] name[dot] == '.' && (forall|i: int|
            0 <= i < dot ==> is_stem_char(#[trigger] name[i])) && (forall|i: int|
            dot < i < name.len() ==> is_letter_or_digit(#[trigger] name[i]))
}

/// The file name that a path asks for: what follows `/images/`, where that
/// is a file name that may be asked for.
pub open spec fn image_name_of(path: Seq<char>) -> Option<Seq<char>> {
    if path.len() >= 8 && path.take(8) == "/images/"@ && is_image_name(path.skip(8)) {
        Some(path.skip(8))
    } else {
        None
    }
}

fn letter_or_digit(c: char) -> (b: bool)
    ensures
        b == is_letter_or_digit(c),
{
    (c >= 'A' && c <= 'Z') || (c >= 'a' && c <= 'z') || (c >= '0' && c <= '9')
}

/// The name of the picture that a path asks for, if it asks for one.
pub fn image_file_name(path: &str) -> (name: Option<String>)
    ensures
        match name {
            Some(n) => image_name_of(path@) == Some(n@),
            None => image_name_of(path@) is None,
        },
{
    let chars = to_chars(path);
    let lead = to_chars("/images/");
    proof {
        reveal_strlit("/images/");
    }
    if !holds_at(&chars, 0, &lead) {
        return None;
    }
    let n = chars.len();
    let ghost name = chars@.skip(8);
    // the stem
    let mut i: usize = 8;
    while i < n && (letter_or_digit(chars[i]) || chars[i] == '-' || chars[i] == '_')
        invariant
            8 <= i <= n,
            n == chars.len(),
            forall|j: int| 8 <= j < i ==> is_stem_char(#[trigger] chars@[j]),
        decreases n - i,
    {
        i += 1;
    }
    if i == 8 || i >= n || chars[i] != '.' || i + 1 == n {
        proof {
            if is_image_name(name) {
                let dot = choose|dot: int|
                    0 < dot < name.len() - 1 && #[trigger] name[dot] == '.' && (forall|k: int|
                        0 <= k < dot ==> is_stem_char(#[trigger] name[k])) && (forall|k: int|
                        dot < k < name.len() ==> is_letter_or_digit(#[trigger] name[k]));
                // the stem ends where the first character stands that is none of its own
                if i < n {
                    if dot + 8 < i {
                        assert(is_stem_char(chars@[dot + 8]));
                    } else if dot + 8 > i {
                        assert(is_stem_char(name[i - 8]));
                    }
                } else {
                    assert(is_stem_char(chars@[dot + 8]));
                }
            }
        }
        return None;
    }
    let dot: usize = i;
    // the ending
    let mut k: usize = dot + 1;
    while k < n
        invariant
            8 < dot < k <= n,
            n == chars.len(),
            chars@ == path@,
            chars@[dot as int] == '.',
            forall|j: int| 8 <= j < dot ==> is_stem_char(#[trigger] chars@[j]),
            forall|j: int| dot < j < k ==> is_letter_or_digit(#[trigger] chars@[j]),
        decreases n - k,
    {
        if !letter_or_digit(chars[k]) {
            proof {
                let name = chars@.skip(8);
                if is_image_name(name) {
                    let d = choose|d: int|
                        0 < d < name.len() - 1 && #[trigger] name[d] == '.' && (forall|j: int|
                            0 <= j < d ==> is_stem_char(#[trigger] name[j])) && (forall|j: int|
                            d < j < name.len() ==> is_letter_or_digit(#[trigger] name[j]));
                    if d + 8 < dot {
                        assert(is_stem_char(chars@[d + 8]));
                    } else if d + 8 > dot {
                        assert(is_stem_char(name[dot - 8]));
                    } else {
                        assert(is_letter_or_digit(name[k - 8]));
                    }
                }
            }
            return None;
        }
        k += 1;
    }
    proof {
        assert(name[dot - 8] == '.');
        assert forall|j: int| 0 <= j < dot - 8 implies is_stem_char(#[trigger] name[j]) by {
            assert(name[j] == chars@[j + 8]);
        }
        assert forall|j: int| dot - 8 < j < name.len() implies is_letter_or_digit(
            #[trigger] name[j],
        ) by {
            assert(name[j] == chars@[j + 8]);
        }
        assert(chars@.subrange(8, n as int) == name);
        assert(chars@.subrange(0, 8) == chars@.take(8));
    }
    Some(text_of(&copy_range(&chars, 8, n)))
}

/// The kind of content that a file name stands for, by its ending.
pub open spec fn content_type_of(filename: Seq<char>) -> Seq<char> {
    if ends_with(filename, ".jpg"@) || ends_with(filename, ".jpeg"@) {
        "image/jpeg"@
    } else if ends_with(filename, ".png"@) {
        "image/png"@
    } else {
        "application/octet-stream"@
    }
}

/// Whether `chars` ends with the text `ending`.
fn has_ending(chars: &Vec<char>, ending: &str) -> (b: bool)
    ensures
        b == ends_with(chars@, ending@),
{
    let tail = to_chars(ending);
    if tail.len() > chars.len() {
        return false;
    }
    let at = chars.len() - tail.len();
    assert(chars@.subrange(at as int, at + tail.len()) == chars@.skip(at as int));
    holds_at(chars, at, &tail)
}

/// The content type to send a file under.
pub fn content_type(filename: &str) -> (kind: &'static str)
    ensures
        kind@ == content_type_of(filename@),
{
    let chars = to_chars(filename);
    if has_ending(&chars, ".jpg") || has_ending(&chars, ".jpeg") {
        "image/jpeg"
    } else if has_ending(&chars, ".png") {
        "image/png"
    } else {
        "application/octet-stream"
    }
}

/// The moment that a timestamp of a header names, as `chrono` reads it: the
/// seconds since 1970 and the nanoseconds within the second.
pub uninterp spec fn http_timestamp(text: Seq<char>) -> Option<(int, int)>;

/// How `chrono` writes a moment as the timestamp of a header, where it can
/// hold the moment.
pub uninterp spec fn http_timestamp_text(seconds: int, nanoseconds: int) -> Option<Seq<char>>;

/// Calls `chrono::NaiveDateTime::parse_from_str` with the form of a header's
/// timestamp, and takes what it reads as a moment in UTC.
#[verifier::external_body]
fn read_http_timestamp(text: &str) -> (moment: Option<(i64, u32)>)
    ensures
        match moment {
            Some(m) => http_timestamp(text@) == Some((m.0 as int, m.1 as int)),
            None => http_timestamp(text@) is None,
        },
{
    match NaiveDateTime::parse_from_str(text, HTTP_TIMESTAMP_FORMAT) {
        Ok(t) => Some((t.and_utc().timestamp(), t.and_utc().timestamp_subsec_nanos())),
        Err(_) => None,
    }
}

/// Calls `chrono::DateTime::<Utc>::from_timestamp` and writes the moment in
/// the form of a header's timestamp.
#[verifier::external_body]
fn write_http_timestamp(seconds: i64, nanoseconds: u32) -> (text: Option<String>)
    ensures
        match text {
            Some(t) => http_timestamp_text(seconds as int, nanoseconds as int) == Some(t@),
            None => http_timestamp_text(seconds as int, nanoseconds as int) is None,
        },
{
    match DateTime::<Utc>::from_timestamp(seconds, nanoseconds) {
        Some(t) => Some(t.format(HTTP_TIMESTAMP_FORMAT).to_string()),
        None => None,
    }
}

/// Whether the moment `a` is not later than `b`, each given by seconds and
/// nanoseconds.
pub open spec fn not_later(a: (int, int), b: (int, int)) -> bool {
    a.0 < b.0 || (a.0 == b.0 && a.1 <= b.1)
}

/// Whether the client's copy is still good: the file's time of change is
/// known and is not later than the moment the client names.
pub open spec fn unchanged_since(modified: Option<(int, int)>, since: Option<(int, int)>) -> bool {
    match (modified, since) {
        (Some(m), Some(s)) => not_later(m, s),
        _ => false,
    }
}

/// A moment by its two numbers.
pub open spec fn moment_view(moment: Option<(i64, u32)>) -> Option<(int, int)> {
    match moment {
        Some(m) => Some((m.0 as int, m.1 as int)),
        None => None,
    }
}

/// Whether a file that changed at `modified` is unchanged since the moment
/// `since`. No, where either is unknown.
pub fn is_unchanged_since(modified: Option<(i64, u32)>, since: Option<(i64, u32)>) -> (b: bool)
    ensures
        b == unchanged_since(moment_view(modified), moment_view(since)),
{
    match (modified, since) {
        (Some(m), Some(s)) => m.0 < s.0 || (m.0 == s.0 && m.1 <= s.1),
        _ => false,
    }
}

/// Whether the answer to a request is that nothing has changed: the request
/// names a moment in its header `If-Modified-Since`, the header can be read,
/// and the file has not changed since.
pub fn not_modified(modified: Option<(i64, u32)>, if_modified_since: Option<&str>) -> (b: bool)
    ensures
        b == match if_modified_since {
            Some(header) => unchanged_since(moment_view(modified), http_timestamp(header@)),
            None => false,
        },
{
    match if_modified_since {
        Some(header) => is_unchanged_since(modified, read_http_timestamp(header)),
        None => false,
    }
}

/// The text for the header `Last-Modified`, where the file's time of change
/// is known and can be written.
pub fn last_modified_text(modified: Option<(i64, u32)>) -> (text: Option<String>)
    ensures
        match text {
            Some(t) => modified matches Some(m) && http_timestamp_text(m.0 as int, m.1 as int)
                == Some(t@),
            None => modified matches Some(m) ==> http_timestamp_text(m.0 as int, m.1 as int)
                is None,
        },
{
    match modified {
        Some(m) => write_http_timestamp(m.0, m.1),
        None => None,
    }
}

} // verus!
