use vstd::prelude::*;
use vstd::string::*;

verus! {

/// One header of an HTTP message. The name is compared without regard to
/// ASCII case; the value holds one character per byte of the wire value
/// (U+0000 to U+00FF), so every value round-trips.
#[derive(Debug)]
pub struct HeaderField {
    pub name: String,
    pub value: String,
}

pub open spec fn is_upper(c: char) -> bool {
    'A' <= c && c <= 'Z'
}

/// Two characters equal up to ASCII case.
pub open spec fn char_eq_ignore_case(a: char, b: char) -> bool {
    a == b || (is_upper(a) && b as u32 == a as u32 + 32) || (is_upper(b) && a as u32 == b as u32 + 32)
}

/// Two header names equal up to ASCII case.
pub open spec fn name_eq(a: Seq<char>, b: Seq<char>) -> bool {
    a.len() == b.len() && forall|i: int| 0 <= i < a.len() ==> char_eq_ignore_case(#[trigger] a[i], b[i])
}

/// `s` starts with `p`, up to ASCII case.
pub open spec fn has_prefix_ignore_case(s: Seq<char>, p: Seq<char>) -> bool {
    p.len() <= s.len() && name_eq(s.subrange(0, p.len() as int), p)
}

/// A value that is readable as text: visible ASCII or tab.
pub open spec fn is_visible_text(v: Seq<char>) -> bool {
    forall|i: int| 0 <= i < v.len() ==> is_visible_char(#[trigger] v[i])
}

pub open spec fn is_visible_char(c: char) -> bool {
    c == '\t' || (' ' <= c && c <= '~')
}

/// The value of the first header at or after index `i` whose name is `name`.
pub open spec fn lookup_from(h: Seq<HeaderField>, name: Seq<char>, i: int) -> Option<Seq<char>>
    decreases h.len() - i,
{
    if i < 0 || i >= h.len() {
        None
    } else if name_eq(h[i].name@, name) {
        Some(h[i].value@)
    } else {
        lookup_from(h, name, i + 1)
    }
}

/// The value of the first header named `name`.
pub open spec fn lookup(h: Seq<HeaderField>, name: Seq<char>) -> Option<Seq<char>> {
    lookup_from(h, name, 0)
}

/// The first header named `name`, as text: `None` where it is missing or
/// its value is not visible text.
pub open spec fn header_text(h: Seq<HeaderField>, name: Seq<char>) -> Option<Seq<char>> {
    match lookup(h, name) {
        Some(v) => if is_visible_text(v) { Some(v) } else { None },
        None => None,
    }
}

fn chars_eq_ignore_case(a: char, b: char) -> (r: bool)
    ensures
        r == char_eq_ignore_case(a, b),
{
    a == b || ('A' <= a && a <= 'Z' && b as u32 == a as u32 + 32) || ('A' <= b && b <= 'Z' && a as u32 == b as u32 + 32)
}

/// Whether the first `n` characters of `a` and `b` are equal up to ASCII case.
fn prefix_eq_ignore_case(a: &str, b: &str, n: usize) -> (r: bool)
    requires
        n <= a@.len(),
        n <= b@.len(),
    ensures
        r == (forall|i: int| 0 <= i < n ==> char_eq_ignore_case(#[trigger] a@[i], b@[i])),
{
    let mut i: usize = 0;
    while i < n
        invariant
            i <= n,
            n <= a@.len(),
            n <= b@.len(),
            forall|j: int| 0 <= j < i ==> char_eq_ignore_case(#[trigger] a@[j], b@[j]),
        decreases n - i,
    {
        if !chars_eq_ignore_case(a.get_char(i), b.get_char(i)) {
            return false;
        }
        i = i + 1;
    }
    true
}

pub fn names_equal(a: &str, b: &str) -> (r: bool)
    ensures
        r == name_eq(a@, b@),
{
    let n = a.unicode_len();
    if n != b.unicode_len() {
        return false;
    }
    prefix_eq_ignore_case(a, b, n)
}

pub fn starts_with_ignore_case(s: &str, p: &str) -> (r: bool)
    ensures
        r == has_prefix_ignore_case(s@, p@),
{
    let n = p.unicode_len();
    if n > s.unicode_len() {
        return false;
    }
    let r = prefix_eq_ignore_case(s, p, n);
    assert(r == name_eq(s@.subrange(0, n as int), p@)) by {
        assert forall|i: int| 0 <= i < n implies s@.subrange(0, n as int)[i] == s@[i] by {}
    }
    r
}

pub fn visible_text(v: &str) -> (r: bool)
    ensures
        r == is_visible_text(v@),
{
    let n = v.unicode_len();
    let mut i: usize = 0;
    while i < n
        invariant
            i <= n,
            n == v@.len(),
            forall|j: int| 0 <= j < i ==> is_visible_char(#[trigger] v@[j]),
        decreases n - i,
    {
        let c = v.get_char(i);
        if !(c == '\t' || (' ' <= c && c <= '~')) {
            return false;
        }
        i = i + 1;
    }
    true
}

/// The first header named `name`, as in `lookup`.
pub fn find_header<'a>(h: &'a Vec<HeaderField>, name: &str) -> (r: Option<&'a String>)
    ensures
        opt_ref_view(r) == lookup(h@, name@),
{
    let mut i: usize = 0;
    while i < h.len()
        invariant
            i <= h@.len(),
            lookup(h@, name@) == lookup_from(h@, name@, i as int),
        decreases h@.len() - i,
    {
        if names_equal(h[i].name.as_str(), name) {
            return Some(&h[i].value);
        }
        i = i + 1;
    }
    None
}

pub open spec fn opt_ref_view(o: Option<&String>) -> Option<Seq<char>> {
    match o {
        Some(s) => Some(s@),
        None => None,
    }
}

/// The first header named `name` as text, as in `header_text`.
pub fn header_value(h: &Vec<HeaderField>, name: &str) -> (r: Option<String>)
    ensures
        crate::url_parts::opt_view(r) == header_text(h@, name@),
{
    match find_header(h, name) {
        Some(v) => if visible_text(v.as_str()) {
            Some(v.clone())
        } else {
            None
        },
        None => None,
    }
}

} // verus!
