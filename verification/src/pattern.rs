//! Fixed text and runs of characters at a position, and the address of the
//! media that a page around it names.

use crate::text::chars_of;
use vstd::prelude::*;

verus! {

/// Whether `s` reads `literal` from position `i` on.
pub open spec fn has_at(s: Seq<char>, i: int, literal: Seq<char>) -> bool {
    0 <= i && i + literal.len() <= s.len() && s.subrange(i, i + literal.len()) == literal
}

/// Whether `c` is an ASCII letter, an ASCII digit or an underscore.
pub open spec fn is_word_char(c: char) -> bool {
    ('a' <= c && c <= 'z') || ('A' <= c && c <= 'Z') || ('0' <= c && c <= '9') || c == '_'
}

/// The first position at or after `i` whose character `allowed` refuses, or
/// the length of `s`.
pub open spec fn run_end(s: Seq<char>, i: int, allowed: spec_fn(char) -> bool) -> int
    decreases s.len() - i,
{
    if 0 <= i < s.len() && allowed(s[i]) {
        run_end(s, i + 1, allowed)
    } else {
        i
    }
}

/// The characters of the name of a host: word characters.
pub open spec fn host_char() -> spec_fn(char) -> bool {
    |c: char| is_word_char(c)
}

/// The characters of a segment of a path: word characters and the dash.
pub open spec fn segment_char() -> spec_fn(char) -> bool {
    |c: char| is_word_char(c) || c == '-'
}

/// The characters of the name of a file: all but the dot.
pub open spec fn name_char() -> spec_fn(char) -> bool {
    |c: char| c != '.'
}

/// Where the address of an animation that starts at position `i` of `page`
/// ends, if one starts there. Such an address reads `https://`, the name of
/// a host, `.tenor.com/`, a segment, a slash, the name of a file and
/// `.gif`; host, segment and name are not empty.
pub open spec fn gif_link_end(page: Seq<char>, i: int) -> Option<int> {
    let host = i + "https://"@.len();
    let host_end = run_end(page, host, host_char());
    let segment = host_end + ".tenor.com/"@.len();
    let segment_end = run_end(page, segment, segment_char());
    let name = segment_end + 1;
    let name_end = run_end(page, name, name_char());
    if has_at(page, i, "https://"@) && host < host_end && has_at(page, host_end, ".tenor.com/"@)
        && segment < segment_end && has_at(page, segment_end, "/"@) && name < name_end && has_at(
        page,
        name_end,
        ".gif"@,
    ) {
        Some(name_end + ".gif"@.len())
    } else {
        None
    }
}

/// The first address of an animation in `page` at or after position `i`.
pub open spec fn find_gif_from(page: Seq<char>, i: int) -> Option<Seq<char>>
    decreases page.len() - i,
{
    if 0 <= i < page.len() {
        match gif_link_end(page, i) {
            Some(end) => Some(page.subrange(i, end)),
            None => find_gif_from(page, i + 1),
        }
    } else {
        None
    }
}

/// The first address of an animation in `page`.
pub open spec fn find_gif(page: Seq<char>) -> Option<Seq<char>> {
    find_gif_from(page, 0)
}

/// Whether `c` is an ASCII letter, an ASCII digit or an underscore.
pub fn is_word_character(c: char) -> (b: bool)
    ensures
        b == is_word_char(c),
{
    ('a' <= c && c <= 'z') || ('A' <= c && c <= 'Z') || ('0' <= c && c <= '9') || c == '_'
}

/// Whether `v` reads `literal` from position `i` on.
pub fn matches_at(v: &Vec<char>, i: usize, literal: &str) -> (b: bool)
    requires
        i <= v.len(),
    ensures
        b == has_at(v@, i as int, literal@),
{
    let wanted: Vec<char> = chars_of(literal);
    if wanted.len() > v.len() - i {
        return false;
    }
    let mut k: usize = 0;
    while k < wanted.len()
        invariant
            k <= wanted.len(),
            i + wanted.len() <= v.len(),
            wanted@ == literal@,
            v@.subrange(i as int, i + k) == wanted@.subrange(0, k as int),
        decreases wanted.len() - k,
    {
        if v[i + k] != wanted[k] {
            return false;
        }
        k += 1;
    }
    assert(wanted@.subrange(0, wanted.len() as int) =~= wanted@);
    true
}

/// Whether `text` begins with `prefix`.
pub fn starts_with(text: &str, prefix: &str) -> (b: bool)
    ensures
        b == prefix@.is_prefix_of(text@),
{
    let chars: Vec<char> = chars_of(text);
    let b: bool = matches_at(&chars, 0, prefix);
    b
}

/// Moves `i` past the characters of a host name that start there.
fn host_end_in(v: &Vec<char>, i: usize) -> (r: usize)
    requires
        i <= v.len(),
    ensures
        r == run_end(v@, i as int, host_char()),
        i <= r <= v.len(),
{
    let mut r: usize = i;
    while r < v.len() && is_word_character(v[r])
        invariant
            i <= r <= v.len(),
            run_end(v@, i as int, host_char()) == run_end(v@, r as int, host_char()),
        decreases v.len() - r,
    {
        r += 1;
    }
    r
}

/// Moves `i` past the characters of a path segment that start there.
fn segment_end_in(v: &Vec<char>, i: usize) -> (r: usize)
    requires
        i <= v.len(),
    ensures
        r == run_end(v@, i as int, segment_char()),
        i <= r <= v.len(),
{
    let mut r: usize = i;
    while r < v.len() && (is_word_character(v[r]) || v[r] == '-')
        invariant
            i <= r <= v.len(),
            run_end(v@, i as int, segment_char()) == run_end(v@, r as int, segment_char()),
        decreases v.len() - r,
    {
        r += 1;
    }
    r
}

/// Moves `i` past the characters of a file name that start there.
fn name_end_in(v: &Vec<char>, i: usize) -> (r: usize)
    requires
        i <= v.len(),
    ensures
        r == run_end(v@, i as int, name_char()),
        i <= r <= v.len(),
{
    let mut r: usize = i;
    while r < v.len() && v[r] != '.'
        invariant
            i <= r <= v.len(),
            run_end(v@, i as int, name_char()) == run_end(v@, r as int, name_char()),
        decreases v.len() - r,
    {
        r += 1;
    }
    r
}

/// Where the address of an animation that starts at position `i` ends, if
/// one starts there.
pub fn gif_link_end_in(page: &Vec<char>, i: usize) -> (end: Option<usize>)
    requires
        i <= page.len(),
    ensures
        match end {
            Some(end) => gif_link_end(page@, i as int) == Some(end as int) && i < end
                <= page.len(),
            None => gif_link_end(page@, i as int).is_none(),
        },
{
    if !matches_at(page, i, "https://") {
        return None;
    }
    let host: usize = i + "https://".unicode_len();
    let host_end: usize = host_end_in(page, host);
    if host_end == host || !matches_at(page, host_end, ".tenor.com/") {
        return None;
    }
    let segment: usize = host_end + ".tenor.com/".unicode_len();
    let segment_end: usize = segment_end_in(page, segment);
    if segment_end == segment || !matches_at(page, segment_end, "/") {
        return None;
    }
    proof {
        reveal_strlit("/");
    }
    let name: usize = segment_end + 1;
    let name_end: usize = name_end_in(page, name);
    if name_end == name || !matches_at(page, name_end, ".gif") {
        return None;
    }
    Some(name_end + ".gif".unicode_len())
}

/// The first address of an animation in `page`.
pub fn find_gif_in(page: &Vec<char>) -> (found: Option<(usize, usize)>)
    ensures
        match found {
            Some((from, to)) => from <= to <= page.len() && find_gif(page@) == Some(
                page@.subrange(from as int, to as int),
            ),
            None => find_gif(page@).is_none(),
        },
{
    let mut i: usize = 0;
    while i < page.len()
        invariant
            i <= page.len(),
            find_gif(page@) == find_gif_from(page@, i as int),
        decreases page.len() - i,
    {
        match gif_link_end_in(page, i) {
            Some(end) => {
                return Some((i, end));
            },
            None => {},
        }
        i += 1;
    }
    None
}

} // verus!
