//! What the library has from other crates and from the standard library,
//! each call behind one function whose contract is taken on trust.

use crate::model::FileTime;
use crate::text::{chars_of, decimal_text, holds_char};
use vstd::prelude::*;

verus! {

/// The 256-bit MD6 digest of `data`, or nothing where the hash function
/// reports a failure.
pub uninterp spec fn md6_256(data: Seq<u8>) -> Option<Seq<u8>>;

/// Calls `md6::hash` for a digest of 256 bits, on data whose length in bits
/// can be counted in 64 bits. Trusted: the digest depends on the data alone,
/// and on failure nothing is returned.
#[verifier::external_body]
pub(crate) fn md6_digest(data: &[u8]) -> (res: Option<[u8; 32]>)
    requires
        data@.len() * 8 <= u64::MAX,
    ensures
        match res {
            Some(d) => md6_256(data@) == Some(d@),
            None => md6_256(data@).is_none(),
        },
{
    let mut out: [u8; 32] = [0u8; 32];
    match md6::hash(256, data, &mut out) {
        Ok(()) => Some(out),
        Err(_) => None,
    }
}

/// A media type: its top-level type, such as `image`, and the whole of it as
/// it is sent in `Content-Type`.
#[derive(Clone, Debug, PartialEq, Eq)]
pub struct Mime {
    pub top: String,
    pub text: String,
}

/// The media type guessed for a path from its extension, as top-level type and
/// full text, or nothing where the extension is unknown.
pub uninterp spec fn guessed_mime(path: Seq<char>) -> Option<(Seq<char>, Seq<char>)>;

/// Calls `mime_guess::guess_mime_type_opt`. Trusted: the guess depends on the
/// path's text alone.
#[verifier::external_body]
pub(crate) fn guess_mime(path: &str) -> (res: Option<Mime>)
    ensures
        match res {
            Some(m) => guessed_mime(path@) == Some((m.top@, m.text@)),
            None => guessed_mime(path@).is_none(),
        },
{
    mime_guess::guess_mime_type_opt(path).map(|m| Mime { top: m.0.as_str().to_string(), text: m.to_string() })
}

/// The lower-case form of an ASCII upper-case letter; any other character
/// unchanged.
pub open spec fn ascii_lower(c: char) -> char {
    if 'A' as u32 <= c as u32 <= 'Z' as u32 {
        ((c as u32) + 32) as char
    } else {
        c
    }
}

/// Whether two texts are equal up to the case of their ASCII letters.
pub open spec fn eq_ignore_ascii_case(a: Seq<char>, b: Seq<char>) -> bool {
    &&& a.len() == b.len()
    &&& forall|i: int| 0 <= i < a.len() ==> ascii_lower(#[trigger] a[i]) == ascii_lower(b[i])
}

/// Compares two texts as `unicase::UniCase` values. Trusted: they are equal
/// exactly where the texts are equal up to the case of their ASCII letters.
#[verifier::external_body]
pub(crate) fn unicase_eq(a: &str, b: &str) -> (res: bool)
    ensures
        res == eq_ignore_ascii_case(a@, b@),
{
    unicase::UniCase(a) == unicase::UniCase(b)
}

/// A number in base ten, with a minus sign before it where it is negative.
pub open spec fn signed_text(n: int) -> Seq<char> {
    if n < 0 {
        "-"@ + decimal_text((-n) as nat)
    } else {
        decimal_text(n as nat)
    }
}

/// A number in base ten, filled up with a zero to two characters.
pub open spec fn two_digits(n: int) -> Seq<char> {
    if 0 <= n < 10 {
        "0"@ + decimal_text(n as nat)
    } else {
        signed_text(n)
    }
}

/// A calendar time written as date and time of day, `%F %T` in the notation
/// of `strftime`, from its year since 1900, month since January, day of the
/// month, hour, minute and second: the year, the month from 1 and the day
/// with hyphens between them, a space, and the hour, the minute and the
/// second with colons between them, each but the year in two digits.
pub open spec fn date_time_text(year: int, mon: int, mday: int, hour: int, min: int, sec: int) -> Seq<char> {
    signed_text(year + 1900) + "-"@ + two_digits(mon + 1) + "-"@ + two_digits(mday) + " "@ + two_digits(
        hour,
    ) + ":"@ + two_digits(min) + ":"@ + two_digits(sec)
}

/// Calls `time::Tm::strftime` with the format `%F %T`, for a year that can be
/// counted from the year 0. Trusted: the call succeeds exactly where the
/// month and the day of the week are in range, and gives the date and the
/// time of day as `date_time_text` writes them.
#[verifier::external_body]
pub(crate) fn format_time(t: &FileTime) -> (res: Option<String>)
    requires
        t.year + 1900 <= i32::MAX,
    ensures
        res.is_some() <==> (0 <= t.wday <= 6 && 0 <= t.mon <= 11),
        res matches Some(s) ==> s@ == date_time_text(
            t.year as int,
            t.mon as int,
            t.mday as int,
            t.hour as int,
            t.min as int,
            t.sec as int,
        ),
{
    let tm = time::Tm {
        tm_sec: t.sec, tm_min: t.min, tm_hour: t.hour, tm_mday: t.mday, tm_mon: t.mon, tm_year: t.year,
        tm_wday: t.wday, tm_yday: t.yday, tm_isdst: t.isdst, tm_utcoff: t.utcoff, tm_nsec: t.nsec,
    };
    tm.strftime("%F %T").ok().map(|f| f.to_string())
}

/// `base` with `part` joined to it as a path.
pub uninterp spec fn joined_path(base: Seq<char>, part: Seq<char>) -> Seq<char>;

/// Calls `Path::join`. Trusted: the joined path depends on the two texts
/// alone, by the path syntax of the platform the library is built for.
#[verifier::external_body]
pub(crate) fn path_join(base: &str, part: &str) -> (res: String)
    ensures
        res@ == joined_path(base@, part@),
{
    std::path::Path::new(base).join(part).to_string_lossy().into_owned()
}

/// `path` with the extension of its last component set to `extension`.
pub uninterp spec fn path_with_extension(path: Seq<char>, extension: Seq<char>) -> Seq<char>;

/// Whether a text can be the extension of a path: it holds no path
/// separator.
pub open spec fn usable_extension(extension: Seq<char>) -> bool {
    !extension.contains('/') && !extension.contains('\\')
}

/// Whether a text can be the extension of a path.
pub fn is_usable_extension(extension: &str) -> (b: bool)
    ensures
        b == usable_extension(extension@),
{
    let chars = chars_of(extension);
    !holds_char(&chars, '/') && !holds_char(&chars, '\\')
}

/// Calls `Path::with_extension`, which takes no extension with a path
/// separator in it. Trusted: the new path depends on the two texts alone.
#[verifier::external_body]
pub(crate) fn with_extension(path: &str, extension: &str) -> (res: String)
    requires
        usable_extension(extension@),
    ensures
        res@ == path_with_extension(path@, extension@),
{
    std::path::Path::new(path).with_extension(extension).to_string_lossy().into_owned()
}

/// The extension of the last component of `path`, if it has one.
pub uninterp spec fn path_extension(path: Seq<char>) -> Option<Seq<char>>;

/// Calls `Path::extension`. Trusted: the extension depends on the path's text
/// alone.
#[verifier::external_body]
pub(crate) fn extension_of(path: &str) -> (res: Option<String>)
    ensures
        match res {
            Some(e) => path_extension(path@) == Some(e@),
            None => path_extension(path@).is_none(),
        },
{
    std::path::Path::new(path).extension().and_then(|e| e.to_str()).map(|e| e.to_owned())
}

/// The last component of `path`, if it ends in one.
pub uninterp spec fn path_file_name(path: Seq<char>) -> Option<Seq<char>>;

/// Calls `Path::file_name`. Trusted: the name depends on the path's text
/// alone.
#[verifier::external_body]
pub(crate) fn file_name_of(path: &str) -> (res: Option<String>)
    ensures
        match res {
            Some(n) => path_file_name(path@) == Some(n@),
            None => path_file_name(path@).is_none(),
        },
{
    std::path::Path::new(path).file_name().and_then(|e| e.to_str()).map(|e| e.to_owned())
}

/// `s` in lower case.
pub uninterp spec fn lowercase(s: Seq<char>) -> Seq<char>;

/// Calls `str::to_lowercase`. Trusted: the result depends on the text alone.
#[verifier::external_body]
pub(crate) fn to_lowercase(s: &str) -> (res: String)
    ensures
        res@ == lowercase(s@),
{
    s.to_lowercase()
}

} // verus!
