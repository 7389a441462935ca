//! From an emoji to the address of the descriptor that names its image.

use crate::pattern::{has_at, matches_at};
use crate::text::chars_of;
use vstd::prelude::*;

verus! {

/// The code points of the emoji that a glyph shows, as the emoji table
/// writes them: in hexadecimal, separated by spaces. Nothing for text that
/// the table does not hold.
pub uninterp spec fn emoji_codepoint(glyph: Seq<char>) -> Option<Seq<char>>;

/// `emoji::lookup_by_glyph::lookup` finds `glyph` in the table that the
/// `emoji` crate is built with, and the entry's field `codepoint` is copied
/// out. The table is fixed, so the same glyph always gives the same answer;
/// nothing more is claimed of it.
#[verifier::external_body]
pub(crate) fn lookup_codepoint(glyph: &str) -> (codepoint: Option<String>)
    ensures
        codepoint.deep_view() == emoji_codepoint(glyph@),
{
    match ::emoji::lookup_by_glyph::lookup(glyph) {
        Some(found) => Some(found.codepoint.to_owned()),
        None => None,
    }
}

/// A text in lower case, as Unicode defines it.
pub uninterp spec fn lowercase(text: Seq<char>) -> Seq<char>;

/// `str::to_lowercase` gives the lower case of a text. The result depends
/// on the text alone; nothing more is claimed of it.
#[verifier::external_body]
pub(crate) fn to_lowercase(text: &str) -> (lower: String)
    ensures
        lower@ == lowercase(text@),
{
    text.to_lowercase()
}

/// `text` with a dash in place of every space.
pub open spec fn dashed(text: Seq<char>) -> Seq<char> {
    text.map_values(
        |c: char|
            if c == ' ' {
                '-'
            } else {
                c
            },
    )
}

/// `text` from position `i` on without the occurrences of `pattern`, found
/// from left to right, none overlapping another.
pub open spec fn without_from(text: Seq<char>, pattern: Seq<char>, i: int) -> Seq<char>
    decreases text.len() - i,
{
    if 0 <= i < text.len() {
        if pattern.len() > 0 && has_at(text, i, pattern) {
            without_from(text, pattern, i + pattern.len())
        } else {
            seq![text[i]] + without_from(text, pattern, i + 1)
        }
    } else {
        Seq::empty()
    }
}

/// The name under which the descriptor of an emoji is filed, from its code
/// points in lower case: dashes for spaces, and no variation selector.
pub open spec fn descriptor_name(lowered: Seq<char>) -> Seq<char> {
    without_from(dashed(lowered), "-fe0f"@, 0)
}

/// The address of the descriptor of an emoji, from its code points in lower
/// case.
pub open spec fn descriptor_url(lowered: Seq<char>) -> Seq<char> {
    "https://bignutty.gitlab.io/emojipedia-data/data/"@ + descriptor_name(lowered) + ".json"@
}

/// The address of the descriptor of an emoji, from its code points in lower
/// case.
pub fn emoji_descriptor_url(lowered: &str) -> (url: String)
    ensures
        url@ == descriptor_url(lowered@),
{
    let mut chars: Vec<char> = chars_of(lowered);
    let mut k: usize = 0;
    while k < chars.len()
        invariant
            k <= chars.len(),
            chars.len() == lowered@.len(),
            forall|j: int| 0 <= j < k ==> chars@[j] == dashed(lowered@)[j],
            forall|j: int| k <= j < chars.len() ==> chars@[j] == lowered@[j],
        decreases chars.len() - k,
    {
        if chars[k] == ' ' {
            chars.set(k, '-');
        }
        k += 1;
    }
    assert(chars@ =~= dashed(lowered@));
    let mut url: String = "https://bignutty.gitlab.io/emojipedia-data/data/".to_owned();
    let ghost prefix = url@;
    let mut i: usize = 0;
    while i < chars.len()
        invariant
            i <= chars.len(),
            url@ + without_from(chars@, "-fe0f"@, i as int) == prefix + without_from(
                chars@,
                "-fe0f"@,
                0,
            ),
        decreases chars.len() - i,
    {
        if matches_at(&chars, i, "-fe0f") {
            proof {
                reveal_strlit("-fe0f");
            }
            i += "-fe0f".unicode_len();
        } else {
            url.push(chars[i]);
            i += 1;
        }
    }
    url.append(".json");
    url
}

} // verus!
