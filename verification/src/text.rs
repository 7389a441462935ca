//! Characters, whitespace-delimited words and conversions between strings
//! and character vectors.

use vstd::prelude::*;

verus! {

/// `String::push` appends one character.
pub assume_specification[ std::string::String::push ](s: &mut std::string::String, c: char)
    ensures
        final(s)@ == old(s)@.push(c),
;

/// The five ASCII whitespace characters: space, tab, line feed, form feed
/// and carriage return.
pub open spec fn is_space(c: char) -> bool {
    c == ' ' || c == '\t' || c == '\n' || c == '\x0C' || c == '\r'
}

/// The first position at or after `i` that holds no whitespace, or the
/// length of `s` when only whitespace is left.
pub open spec fn skip_spaces(s: Seq<char>, i: int) -> int
    decreases s.len() - i,
{
    if 0 <= i < s.len() && is_space(s[i]) {
        skip_spaces(s, i + 1)
    } else {
        i
    }
}

/// The first position at or after `i` that holds whitespace, or the length
/// of `s` when the word runs to the end.
pub open spec fn word_end(s: Seq<char>, i: int) -> int
    decreases s.len() - i,
{
    if 0 <= i < s.len() && !is_space(s[i]) {
        word_end(s, i + 1)
    } else {
        i
    }
}

/// The whitespace-delimited words of `s` from position `i` on, in order.
pub open spec fn words_from(s: Seq<char>, i: int) -> Seq<Seq<char>>
    decreases s.len() - i,
    via words_from_decreases
{
    let start = skip_spaces(s, i);
    if 0 <= i && start < s.len() {
        seq![s.subrange(start, word_end(s, start))] + words_from(s, word_end(s, start))
    } else {
        Seq::empty()
    }
}

#[via_fn]
proof fn words_from_decreases(s: Seq<char>, i: int) {
    let start = skip_spaces(s, i);
    if 0 <= i && start < s.len() {
        lemma_skip_spaces(s, i);
        lemma_word_end(s, start);
    }
}

/// The whitespace-delimited words of `s`.
pub open spec fn words(s: Seq<char>) -> Seq<Seq<char>> {
    words_from(s, 0)
}

/// `skip_spaces` moves forward over whitespace only and stops at a
/// character that is none, or at the end.
pub proof fn lemma_skip_spaces(s: Seq<char>, i: int)
    requires
        0 <= i <= s.len(),
    ensures
        i <= skip_spaces(s, i) <= s.len(),
        forall|j: int| i <= j < skip_spaces(s, i) ==> is_space(#[trigger] s[j]),
        skip_spaces(s, i) < s.len() ==> !is_space(s[skip_spaces(s, i)]),
    decreases s.len() - i,
{
    if i < s.len() && is_space(s[i]) {
        lemma_skip_spaces(s, i + 1);
    }
}

/// `word_end` moves forward over characters that are no whitespace and
/// stops at whitespace, or at the end. A word that starts on such a
/// character is not empty.
pub proof fn lemma_word_end(s: Seq<char>, i: int)
    requires
        0 <= i <= s.len(),
    ensures
        i <= word_end(s, i) <= s.len(),
        forall|j: int| i <= j < word_end(s, i) ==> !is_space(#[trigger] s[j]),
        word_end(s, i) < s.len() ==> is_space(s[word_end(s, i)]),
        i < s.len() && !is_space(s[i]) ==> i < word_end(s, i),
    decreases s.len() - i,
{
    if i < s.len() && !is_space(s[i]) {
        lemma_word_end(s, i + 1);
    }
}

/// Whether `c` is ASCII whitespace.
pub fn is_space_char(c: char) -> (b: bool)
    ensures
        b == is_space(c),
{
    c == ' ' || c == '\t' || c == '\n' || c == '\x0C' || c == '\r'
}

/// The characters of `s`, one element each.
pub fn chars_of(s: &str) -> (v: Vec<char>)
    ensures
        v@ == s@,
{
    broadcast use vstd::string::group_string_axioms;

    let mut v: Vec<char> = Vec::new();
    for c in it: s.chars()
        invariant
            it.seq() == s@,
            v@ == s@.take(it.index() as int),
    {
        v.push(c);
    }
    v
}

/// The string made of the characters `v[from..to]`.
pub fn string_from(v: &Vec<char>, from: usize, to: usize) -> (s: String)
    requires
        from <= to <= v.len(),
    ensures
        s@ == v@.subrange(from as int, to as int),
{
    let mut s: String = String::new();
    let mut i: usize = from;
    while i < to
        invariant
            from <= i <= to <= v.len(),
            s@ == v@.subrange(from as int, i as int),
        decreases to - i,
    {
        s.push(v[i]);
        i += 1;
    }
    s
}

/// Moves `i` past the whitespace that starts there.
pub fn skip_spaces_in(v: &Vec<char>, i: usize) -> (r: usize)
    requires
        i <= v.len(),
    ensures
        r == skip_spaces(v@, i as int),
        i <= r <= v.len(),
{
    let mut r: usize = i;
    while r < v.len() && is_space_char(v[r])
        invariant
            i <= r <= v.len(),
            skip_spaces(v@, i as int) == skip_spaces(v@, r as int),
        decreases v.len() - r,
    {
        r += 1;
    }
    r
}

/// Moves `i` to the end of the word that starts there.
pub fn word_end_in(v: &Vec<char>, i: usize) -> (r: usize)
    requires
        i <= v.len(),
    ensures
        r == word_end(v@, i as int),
        i <= r <= v.len(),
{
    let mut r: usize = i;
    while r < v.len() && !is_space_char(v[r])
        invariant
            i <= r <= v.len(),
            word_end(v@, i as int) == word_end(v@, r as int),
        decreases v.len() - r,
    {
        r += 1;
    }
    r
}

/// Where the last word of `s` at or after position `i` ends, or `i` where
/// no word is left.
pub open spec fn words_end(s: Seq<char>, i: int) -> int
    decreases s.len() - i,
    via words_end_decreases
{
    let start = skip_spaces(s, i);
    if 0 <= i && start < s.len() {
        words_end(s, word_end(s, start))
    } else {
        i
    }
}

#[via_fn]
proof fn words_end_decreases(s: Seq<char>, i: int) {
    let start = skip_spaces(s, i);
    if 0 <= i && start < s.len() {
        lemma_skip_spaces(s, i);
        lemma_word_end(s, start);
    }
}

/// The words of `v`, one string each.
pub fn split_words(v: &Vec<char>) -> (found: Vec<String>)
    ensures
        found.deep_view() == words(v@),
{
    let mut found: Vec<String> = Vec::new();
    let mut pos: usize = 0;
    loop
        invariant
            pos <= v.len(),
            found.deep_view() + words_from(v@, pos as int) == words(v@),
        ensures
            found.deep_view() == words(v@),
        decreases v.len() - pos,
    {
        let start: usize = skip_spaces_in(v, pos);
        if start >= v.len() {
            break ;
        }
        let end: usize = word_end_in(v, start);
        proof {
            lemma_skip_spaces(v@, pos as int);
            lemma_word_end(v@, start as int);
        }
        let word: String = string_from(v, start, end);
        found.push(word);
        pos = end;
    }
    found
}

} // verus!
