//! Small verified helpers on text.

use vstd::prelude::*;
use vstd::string::StrSliceExecFns;

verus! {

/// Character-by-character equality of two strings.
pub fn same_text(a: &str, b: &str) -> (r: bool)
    ensures
        r == (a@ == b@),
{
    let n = a.unicode_len();
    if n != b.unicode_len() {
        return false;
    }
    let mut i: usize = 0;
    while i < n
        invariant
            n == a@.len(),
            n == b@.len(),
            i <= n,
            a@.subrange(0, i as int) == b@.subrange(0, i as int),
        decreases n - i,
    {
        if a.get_char(i) != b.get_char(i) {
            return false;
        }
        proof {
            assert(a@.subrange(0, i + 1) == a@.subrange(0, i as int).push(a@[i as int]));
            assert(b@.subrange(0, i + 1) == b@.subrange(0, i as int).push(b@[i as int]));
        }
        i = i + 1;
    }
    proof {
        assert(a@ == a@.subrange(0, n as int));
        assert(b@ == b@.subrange(0, n as int));
    }
    true
}

/// What `str::to_lowercase` makes of a text.
pub uninterp spec fn lower_of(s: Seq<char>) -> Seq<char>;

/// Relies on `str::to_lowercase`: the result depends on the characters alone.
#[verifier::external_body]
pub(crate) fn lowercase(s: &str) -> (r: String)
    ensures
        r@ == lower_of(s@),
{
    s.to_lowercase()
}

/// The text of an optional string.
pub open spec fn opt_view(o: Option<String>) -> Option<Seq<char>> {
    match o {
        Some(s) => Some(s@),
        None => None,
    }
}

/// `needle` stands somewhere in `hay` as a contiguous run.
pub open spec fn occurs_in(needle: Seq<char>, hay: Seq<char>) -> bool {
    exists|i: int|
        0 <= i && i + needle.len() <= hay.len() && #[trigger] hay.subrange(i, i + needle.len())
            == needle
}

/// Relies on `str::contains` with a string pattern: true exactly when the
/// pattern matches a sub-slice of the text.
#[verifier::external_body]
pub(crate) fn contains_text(hay: &str, needle: &str) -> (r: bool)
    ensures
        r == occurs_in(needle@, hay@),
{
    hay.contains(needle)
}

/// `s` begins with `p`.
pub open spec fn starts_with(s: Seq<char>, p: Seq<char>) -> bool {
    p.len() <= s.len() && s.subrange(0, p.len() as int) == p
}

/// Whether `s` begins with `p`, character by character.
pub fn has_prefix(s: &str, p: &str) -> (r: bool)
    ensures
        r == starts_with(s@, p@),
{
    let n = p.unicode_len();
    if n > s.unicode_len() {
        return false;
    }
    let mut i: usize = 0;
    while i < n
        invariant
            n == p@.len(),
            n <= s@.len(),
            i <= n,
            s@.subrange(0, i as int) == p@.subrange(0, i as int),
        decreases n - i,
    {
        if s.get_char(i) != p.get_char(i) {
            proof {
                assert(s@.subrange(0, n as int)[i as int] != p@[i as int]);
            }
            return false;
        }
        proof {
            assert(s@.subrange(0, i + 1) == s@.subrange(0, i as int).push(s@[i as int]));
            assert(p@.subrange(0, i + 1) == p@.subrange(0, i as int).push(p@[i as int]));
        }
        i = i + 1;
    }
    proof {
        assert(p@ == p@.subrange(0, n as int));
    }
    true
}

/// The category of an attachment by its MIME type.
pub open spec fn category_of(mime: Option<Seq<char>>) -> Seq<char> {
    match mime {
        Some(m) => if starts_with(m, "image/"@) {
            "image"@
        } else if starts_with(m, "application/pdf"@) || starts_with(m, "application/msword"@)
            || starts_with(m, "application/vnd.openxmlformats-officedocument"@) || starts_with(
            m,
            "text/"@,
        ) {
            "document"@
        } else if starts_with(m, "application/zip"@) || starts_with(m, "application/x-rar"@)
            || starts_with(m, "application/x-7z"@) {
            "archive"@
        } else {
            "other"@
        },
        None => "other"@,
    }
}

/// Sorts an attachment into `image`, `document`, `archive` or `other` by
/// the prefix of its MIME type.
pub fn categorize_attachment(mime_type: &Option<String>) -> (r: String)
    ensures
        r@ == category_of(
            match mime_type {
                Some(m) => Some(m@),
                None => None,
            },
        ),
{
    match mime_type {
        Some(m) => {
            let m = m.as_str();
            if has_prefix(m, "image/") {
                "image".to_string()
            } else if has_prefix(m, "application/pdf") || has_prefix(m, "application/msword")
                || has_prefix(m, "application/vnd.openxmlformats-officedocument") || has_prefix(
                m,
                "text/",
            ) {
                "document".to_string()
            } else if has_prefix(m, "application/zip") || has_prefix(m, "application/x-rar")
                || has_prefix(m, "application/x-7z") {
                "archive".to_string()
            } else {
                "other".to_string()
            }
        },
        None => "other".to_string(),
    }
}

/// A body is sent as HTML when it holds an `<html>` or `<HTML>` tag.
pub open spec fn html_body(body: Seq<char>) -> bool {
    occurs_in("<html>"@, body) || occurs_in("<HTML>"@, body)
}

/// Whether `body` should go out as HTML with a plain-text alternative.
pub fn is_html(body: &str) -> (r: bool)
    ensures
        r == html_body(body@),
{
    contains_text(body, "<html>") || contains_text(body, "<HTML>")
}

/// What removing every match of the regular expression `<[^>]*>` leaves of
/// a text, reading from the left: a `<` that has a `>` somewhere after it
/// opens a tag, and everything up to and including the next `>` goes; any
/// other character stays. `in_tag` says whether a tag is open.
pub open spec fn stripped_from(s: Seq<char>, in_tag: bool) -> Seq<char>
    decreases s.len(),
{
    if s.len() == 0 {
        s
    } else if in_tag {
        stripped_from(s.drop_first(), s[0] != '>')
    } else if s[0] == '<' && s.drop_first().contains('>') {
        stripped_from(s.drop_first(), true)
    } else {
        seq![s[0]] + stripped_from(s.drop_first(), false)
    }
}

pub open spec fn tags_stripped(html: Seq<char>) -> Seq<char> {
    stripped_from(html, false)
}

/// Relies on `regex::Regex::replace_all` with the pattern `<[^>]*>` and an
/// empty replacement: matches are found leftmost first and do not overlap,
/// and each runs from a `<` to the first `>` after it.
#[verifier::external_body]
fn strip_tags(html: &str) -> (r: String)
    ensures
        r@ == tags_stripped(html@),
{
    match regex::Regex::new("<[^>]*>") {
        Ok(re) => re.replace_all(html, "").to_string(),
        Err(_) => html.to_string(),
    }
}

/// The plain-text alternative of an HTML body: the text with its tags
/// removed.
pub fn html_to_text(html: &str) -> (r: String)
    ensures
        r@ == tags_stripped(html@),
{
    strip_tags(html)
}

/// Unicode `White_Space`, the characters that `char::is_whitespace` accepts.
pub open spec fn is_white_space(c: char) -> bool {
    ('\u{9}' <= c && c <= '\u{d}') || c == ' ' || c == '\u{85}' || c == '\u{a0}' || c
        == '\u{1680}' || ('\u{2000}' <= c && c <= '\u{200a}') || c == '\u{2028}' || c == '\u{2029}'
        || c == '\u{202f}' || c == '\u{205f}' || c == '\u{3000}'
}

pub open spec fn trimmed_start(s: Seq<char>) -> Seq<char>
    decreases s.len(),
{
    if s.len() > 0 && is_white_space(s[0]) {
        trimmed_start(s.drop_first())
    } else {
        s
    }
}

pub open spec fn trimmed_end(s: Seq<char>) -> Seq<char>
    decreases s.len(),
{
    if s.len() > 0 && is_white_space(s.last()) {
        trimmed_end(s.drop_last())
    } else {
        s
    }
}

/// A text without its leading and trailing white space.
pub open spec fn trimmed(s: Seq<char>) -> Seq<char> {
    trimmed_end(trimmed_start(s))
}

/// Relies on `str::trim`: leading and trailing characters with the Unicode
/// `White_Space` property removed.
#[verifier::external_body]
pub(crate) fn trim_text(s: &str) -> (r: String)
    ensures
        r@ == trimmed(s@),
{
    s.trim().to_string()
}

/// Position of the first `c` in `s`.
pub open spec fn first_index_of(s: Seq<char>, c: char) -> Option<int> {
    if exists|i: int| 0 <= i < s.len() && s[i] == c {
        Some(choose|i: int| 0 <= i < s.len() && s[i] == c && forall|j: int| 0 <= j < i ==> s[j] != c)
    } else {
        None
    }
}

/// The first position of `c` in `s`, if any.
pub fn find_char(s: &str, c: char) -> (r: Option<usize>)
    ensures
        r is None <==> forall|j: int| 0 <= j < s@.len() ==> s@[j] != c,
        r matches Some(i) ==> i < s@.len() && s@[i as int] == c && forall|j: int|
            0 <= j < i ==> s@[j] != c,
{
    let n = s.unicode_len();
    let mut i: usize = 0;
    while i < n
        invariant
            n == s@.len(),
            i <= n,
            forall|j: int| 0 <= j < i ==> s@[j] != c,
        decreases n - i,
    {
        if s.get_char(i) == c {
            return Some(i);
        }
        i = i + 1;
    }
    None
}

#[derive(Clone, Copy, Debug, PartialEq, Eq, Structural)]
pub enum AddressError {
    /// Neither an `<...>` part nor an `@` (a validation error).
    NoAddress,
}

/// The address in a sender line: the text between the first `<` and the
/// first `>` when the `>` comes later, else the whole line trimmed when it
/// holds an `@`.
pub open spec fn address_of(sender: Seq<char>) -> Result<Seq<char>, AddressError> {
    let open_at = first_index_of(sender, '<');
    let close_at = first_index_of(sender, '>');
    if open_at is Some && close_at is Some && close_at->0 > open_at->0 {
        Ok(sender.subrange(open_at->0 + 1, close_at->0))
    } else if sender.contains('@') {
        Ok(trimmed(sender))
    } else {
        Err(AddressError::NoAddress)
    }
}

/// Extracts the address from a sender line such as `Name <a@b.c>`.
pub fn extract_email_address(sender: &str) -> (r: Result<String, AddressError>)
    ensures
        r matches Ok(a) ==> address_of(sender@) == Ok::<Seq<char>, AddressError>(a@),
        r matches Err(e) ==> address_of(sender@) == Err::<Seq<char>, AddressError>(e),
{
    let open_at = find_char(sender, '<');
    let close_at = find_char(sender, '>');
    if let (Some(start), Some(end)) = (open_at, close_at) {
        if end > start {
            return Ok(sender.substring_char(start + 1, end).to_string());
        }
    }
    match find_char(sender, '@') {
        Some(_) => Ok(trim_text(sender)),
        None => Err(AddressError::NoAddress),
    }
}

} // verus!
