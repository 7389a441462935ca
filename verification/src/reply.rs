//! What is sent back for a command: the text of the reply.

use crate::text::{chars_of, string_from};
use vstd::prelude::*;

verus! {

/// The most characters that a message can hold.
pub const MESSAGE_CHARACTER_LIMIT: usize = 2000;

/// Whether `c` is whitespace, as Unicode defines it.
pub open spec fn is_whitespace(c: char) -> bool {
    ('\u{9}' <= c && c <= '\u{D}') || c == ' ' || c == '\u{85}' || c == '\u{A0}' || c
        == '\u{1680}' || ('\u{2000}' <= c && c <= '\u{200A}') || c == '\u{2028}' || c
        == '\u{2029}' || c == '\u{202F}' || c == '\u{205F}' || c == '\u{3000}'
}

/// Whether `text` holds nothing but whitespace.
pub open spec fn is_blank(text: Seq<char>) -> bool {
    forall|i: int| 0 <= i < text.len() ==> is_whitespace(#[trigger] text[i])
}

/// `text` cut to the most characters that a message can hold.
pub open spec fn fitted(text: Seq<char>) -> Seq<char> {
    if text.len() > MESSAGE_CHARACTER_LIMIT {
        text.take(MESSAGE_CHARACTER_LIMIT as int)
    } else {
        text
    }
}

/// The text to send for a new message, if any is to be set: a fixed notice
/// where there is neither an attachment nor text that shows, else the text
/// cut to fit.
pub open spec fn message_content_spec(content: Option<Seq<char>>, has_attachment: bool) -> Option<
    Seq<char>,
> {
    if !has_attachment && (content.is_none() || is_blank(content.unwrap())) {
        Some("[Empty Response]"@)
    } else {
        match content {
            Some(text) => Some(fitted(text)),
            None => None,
        }
    }
}

/// The text to set when a message is edited: as for a new message, and the
/// empty text where an attachment comes without any.
pub open spec fn edit_content_spec(content: Option<Seq<char>>, has_attachment: bool) -> Seq<char> {
    match message_content_spec(content, has_attachment) {
        Some(text) => text,
        None => Seq::empty(),
    }
}

/// A file to send with a reply.
#[derive(Clone, Debug, PartialEq, Eq)]
pub struct ReplyAttachment {
    pub name: String,
    pub data: Vec<u8>,
}

/// A reply in the making.
#[derive(Clone, Debug, PartialEq, Eq)]
pub struct MessageBuilder {
    pub content: Option<String>,
    pub attachment: Option<ReplyAttachment>,
}

/// Whether `c` is whitespace.
pub fn is_whitespace_char(c: char) -> (b: bool)
    ensures
        b == is_whitespace(c),
{
    ('\u{9}' <= c && c <= '\u{D}') || c == ' ' || c == '\u{85}' || c == '\u{A0}' || c
        == '\u{1680}' || ('\u{2000}' <= c && c <= '\u{200A}') || c == '\u{2028}' || c
        == '\u{2029}' || c == '\u{202F}' || c == '\u{205F}' || c == '\u{3000}'
}

/// Whether `text` holds nothing but whitespace.
pub fn is_blank_text(text: &str) -> (b: bool)
    ensures
        b == is_blank(text@),
{
    let chars: Vec<char> = chars_of(text);
    let mut i: usize = 0;
    while i < chars.len()
        invariant
            i <= chars.len(),
            chars@ == text@,
            forall|j: int| 0 <= j < i ==> is_whitespace(#[trigger] chars@[j]),
        decreases chars.len() - i,
    {
        if !is_whitespace_char(chars[i]) {
            return false;
        }
        i += 1;
    }
    true
}

/// Trims a `String` in place such that it fits in a message.
pub fn trim_content_fits(content: &mut String)
    ensures
        final(content)@ == fitted(old(content)@),
{
    let chars: Vec<char> = chars_of(content.as_str());
    if chars.len() > MESSAGE_CHARACTER_LIMIT {
        *content = string_from(&chars, 0, MESSAGE_CHARACTER_LIMIT);
    }
}

/// The text to send for a new message, if any is to be set.
pub fn message_content(builder: &MessageBuilder) -> (content: Option<String>)
    ensures
        content.deep_view() == message_content_spec(
            builder.content.deep_view(),
            builder.attachment.is_some(),
        ),
{
    let shows: bool = match &builder.content {
        Some(text) => !is_blank_text(text.as_str()),
        None => false,
    };
    if builder.attachment.is_none() && !shows {
        Some("[Empty Response]".to_owned())
    } else {
        match &builder.content {
            Some(text) => {
                let mut text: String = text.clone();
                trim_content_fits(&mut text);
                Some(text)
            },
            None => None,
        }
    }
}

/// The text to set when a message is edited.
pub fn edit_content(builder: &MessageBuilder) -> (content: String)
    ensures
        content@ == edit_content_spec(builder.content.deep_view(), builder.attachment.is_some()),
{
    match message_content(builder) {
        Some(text) => text,
        None => String::new(),
    }
}

} // verus!
