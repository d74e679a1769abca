//! Per-recipient personalisation of a subject or body template.
//!
//! Rendering is done by the `tera` template engine; a template that does not
//! render is sent as it stands.

use vstd::prelude::*;
use vstd::string::StrSliceExecFns;
use crate::models::RecipientData;
use crate::recurrence::LATEST_INSTANT;

verus! {

/// The name/value pairs of a context, as text.
pub open spec fn pairs_view(v: Seq<(String, String)>) -> Seq<(Seq<char>, Seq<char>)> {
    v.map_values(|p: (String, String)| (p.0@, p.1@))
}

pub open spec fn name_start(c: char) -> bool {
    ('a' <= c && c <= 'z') || ('A' <= c && c <= 'Z') || c == '_'
}

pub open spec fn name_char(c: char) -> bool {
    name_start(c) || ('0' <= c && c <= '9')
}

/// One step of the reader of plain templates. States: 0 text, 1 after a
/// `{` in text, 2 inside `{{` before the name, 3 in the name, 4 after the
/// name, 5 after the first closing `}`. `None` rejects the template.
pub open spec fn template_step(st: u8, c: char) -> Option<u8> {
    if st == 0 {
        if c == '{' {
            Some(1u8)
        } else {
            Some(0u8)
        }
    } else if st == 1 {
        if c == '{' {
            Some(2u8)
        } else if c == '%' || c == '#' {
            None
        } else {
            Some(0u8)
        }
    } else if st == 2 {
        if c == ' ' {
            Some(2u8)
        } else if name_start(c) {
            Some(3u8)
        } else {
            None
        }
    } else if st == 3 {
        if name_char(c) {
            Some(3u8)
        } else if c == ' ' {
            Some(4u8)
        } else if c == '}' {
            Some(5u8)
        } else {
            None
        }
    } else if st == 4 {
        if c == ' ' {
            Some(4u8)
        } else if c == '}' {
            Some(5u8)
        } else {
            None
        }
    } else if st == 5 {
        if c == '}' {
            Some(0u8)
        } else {
            None
        }
    } else {
        None
    }
}

pub open spec fn scan_template(s: Seq<char>, st: u8) -> bool
    decreases s.len(),
{
    if s.len() == 0 {
        st == 0 || st == 1
    } else {
        match template_step(st, s[0]) {
            Some(n) => scan_template(s.drop_first(), n),
            None => false,
        }
    }
}

/// A plain template is text with placeholders `{{ name }}` (a name of ASCII
/// letters, digits and `_`, not starting with a digit, with optional spaces
/// around it) and nothing else of tera's syntax: no `{%` tags, no `{#`
/// comments, no expressions or filters. Rendering one only looks names up.
pub open spec fn plain_template(s: Seq<char>) -> bool {
    scan_template(s, 0)
}

fn next_state(st: u8, c: char) -> (r: Option<u8>)
    ensures
        r == template_step(st, c),
{
    let start = ('a' <= c && c <= 'z') || ('A' <= c && c <= 'Z') || c == '_';
    let inner = start || ('0' <= c && c <= '9');
    if st == 0 {
        if c == '{' {
            Some(1)
        } else {
            Some(0)
        }
    } else if st == 1 {
        if c == '{' {
            Some(2)
        } else if c == '%' || c == '#' {
            None
        } else {
            Some(0)
        }
    } else if st == 2 {
        if c == ' ' {
            Some(2)
        } else if start {
            Some(3)
        } else {
            None
        }
    } else if st == 3 {
        if inner {
            Some(3)
        } else if c == ' ' {
            Some(4)
        } else if c == '}' {
            Some(5)
        } else {
            None
        }
    } else if st == 4 {
        if c == ' ' {
            Some(4)
        } else if c == '}' {
            Some(5)
        } else {
            None
        }
    } else if st == 5 {
        if c == '}' {
            Some(0)
        } else {
            None
        }
    } else {
        None
    }
}

/// Whether `template` is a plain template.
pub fn is_plain_template(template: &str) -> (r: bool)
    ensures
        r == plain_template(template@),
{
    let n = template.unicode_len();
    let mut st: u8 = 0;
    let mut i: usize = 0;
    proof {
        assert(template@.subrange(0, n as int) == template@);
    }
    while i < n
        invariant
            n == template@.len(),
            i <= n,
            plain_template(template@) == scan_template(template@.subrange(i as int, n as int), st),
        decreases n - i,
    {
        let ghost rest = template@.subrange(i as int, n as int);
        proof {
            assert(rest[0] == template@[i as int]);
            assert(rest.drop_first() =~= template@.subrange(i + 1, n as int));
        }
        match next_state(st, template.get_char(i)) {
            Some(next) => {
                st = next;
            },
            None => {
                return false;
            },
        }
        i = i + 1;
    }
    proof {
        assert(template@.subrange(n as int, n as int).len() == 0);
    }
    st == 0 || st == 1
}

/// Relies on `tera::Context::insert` and `tera::Tera::one_off` without
/// autoescaping. Only plain templates are handed over: tera's tags and
/// expressions include code that panics on some inputs (a `for` loop over a
/// string takes graphemes where it counted characters). Of the text nothing
/// is promised in general, but a template without `{` is a single text node,
/// which tera writes out unchanged.
#[verifier::external_body]
fn render_template(template: &str, vars: &Vec<(String, String)>) -> (r: Option<String>)
    requires
        plain_template(template@),
    ensures
        !template@.contains('{') ==> r is Some && r->Some_0@ == template@,
{
    let mut context = tera::Context::new();
    for (name, value) in vars {
        context.insert(name.as_str(), value);
    }
    tera::Tera::one_off(template, &context, false).ok()
}

/// The calendar date of an instant, as `YYYY-MM-DD`.
pub uninterp spec fn iso_date_of(t: int) -> Seq<char>;

/// Relies on `chrono::DateTime::<Utc>::from_timestamp` and `format("%Y-%m-%d")`:
/// the text depends on the instant alone, and `from_timestamp` fails only
/// outside chrono's range, which holds every instant from the epoch to
/// `LATEST_INSTANT`.
#[verifier::external_body]
fn date_text(t: i64) -> (r: Option<String>)
    ensures
        r matches Some(s) ==> s@ == iso_date_of(t as int),
        0 <= t <= LATEST_INSTANT ==> r is Some,
{
    match chrono::DateTime::<chrono::Utc>::from_timestamp(t, 0) {
        Some(d) => Some(d.format("%Y-%m-%d").to_string()),
        None => None,
    }
}

/// Picks the rendered text, or falls back to the raw template.
pub fn render_or_raw(rendered_text: Option<String>, template: &str) -> (r: String)
    ensures
        r@ == (match rendered_text {
            Some(s) => s@,
            None => template@,
        }),
{
    match rendered_text {
        Some(s) => s,
        None => template.to_string(),
    }
}

/// Renders a plain template with `vars`. Any other template, and one that
/// fails to render, is returned unchanged (see `render_or_raw`), so
/// rendering never stops a send; text without `{` is left as it is.
pub fn personalize(template: &str, vars: &Vec<(String, String)>) -> (r: String)
    ensures
        !plain_template(template@) ==> r@ == template@,
        !template@.contains('{') ==> r@ == template@,
{
    if !is_plain_template(template) {
        return template.to_string();
    }
    render_or_raw(render_template(template, vars), template)
}

/// The recipient's own values, then the built-ins `email` and `date`.
pub open spec fn context_pairs(recipient: RecipientData, date: Seq<char>) -> Seq<(Seq<char>, Seq<char>)> {
    pairs_view(recipient.variables@) + seq![("email"@, recipient.email@), ("date"@, date)]
}

fn copy_pairs(v: &Vec<(String, String)>) -> (r: Vec<(String, String)>)
    ensures
        r@ == v@,
{
    let mut out: Vec<(String, String)> = Vec::new();
    let mut i: usize = 0;
    while i < v.len()
        invariant
            i <= v@.len(),
            out@ == v@.subrange(0, i as int),
        decreases v@.len() - i,
    {
        let p = (v[i].0.clone(), v[i].1.clone());
        out.push(p);
        proof {
            assert(v@.subrange(0, i + 1) == v@.subrange(0, i as int).push(v@[i as int]));
        }
        i = i + 1;
    }
    proof {
        assert(v@.subrange(0, v@.len() as int) == v@);
    }
    out
}

/// The personalisation context of one recipient: its variables, then
/// `email` (its address) and `date` (the given day), which take precedence.
pub fn personalization_context(recipient: &RecipientData, date: &str) -> (r: Vec<(String, String)>)
    ensures
        pairs_view(r@) == context_pairs(*recipient, date@),
{
    let mut out = copy_pairs(&recipient.variables);
    let ghost base = out@;
    out.push(("email".to_string(), recipient.email.clone()));
    out.push(("date".to_string(), date.to_string()));
    proof {
        assert(out@ == base + seq![out@[base.len() as int], out@[base.len() + 1int]]);
        assert(pairs_view(out@) =~= context_pairs(*recipient, date@));
    }
    out
}

/// The personalisation context of one recipient on the day of instant `now`.
pub fn personalization_context_at(recipient: &RecipientData, now: i64) -> (r: Option<Vec<(String, String)>>)
    ensures
        r matches Some(v) ==> pairs_view(v@) == context_pairs(*recipient, iso_date_of(now as int)),
        0 <= now <= LATEST_INSTANT ==> r is Some,
{
    match date_text(now) {
        Some(d) => Some(personalization_context(recipient, d.as_str())),
        None => None,
    }
}

} // verus!
