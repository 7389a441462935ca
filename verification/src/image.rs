//! The address of an image, and what each of the places in which one is
//! looked for yields from the values that it is given.
//!
//! The module `sources` reads those values from a parse, `chain` tries the
//! places in their order, and `resolve` makes an argument of the outcome.

use crate::arguments::parsed_view;
use crate::error::{TagParseError, TagParseErrorView};
use crate::glyph::{
    descriptor_url, emoji_codepoint, emoji_descriptor_url, lookup_codepoint, lowercase,
    to_lowercase,
};
use crate::lookup::{Lookup, LookupView, Lookups};
use crate::message::{first, Attachment, Embed, MessageSticker, StickerFormatType};
use crate::number::{all_digits, decimal, digits_to_u64, digits_value, push_decimal};
use crate::pattern::starts_with;
use crate::text::chars_of;
use vstd::prelude::*;

verus! {

/// The address of an image.
#[derive(Clone, Debug, PartialEq, Eq)]
pub struct ImageUrl(pub String);

impl DeepView for ImageUrl {
    type V = Seq<char>;

    open spec fn deep_view(&self) -> Seq<char> {
        self.0@
    }
}

/// What a place yields: an address, or the reason why it has none.
pub type Found = Result<Seq<char>, TagParseErrorView>;

/// The address at which a sticker in PNG format is served.
pub open spec fn sticker_url(id: u64) -> Seq<char> {
    "https://cdn.discordapp.com/stickers/"@ + decimal(id as nat) + ".png"@
}

/// What an attachment yields: its address.
pub open spec fn attachment_spec(attachment: Option<Attachment>) -> Found {
    match attachment {
        Some(attachment) => Ok(attachment.url@),
        None => Err(TagParseErrorView::NoAttachment),
    }
}

/// What a sticker yields: its address if it is stored as PNG. Another
/// format is a failure of high severity.
pub open spec fn sticker_spec(sticker: Option<MessageSticker>) -> Found {
    match sticker {
        Some(sticker) => if sticker.format_type == StickerFormatType::Png {
            Ok(sticker_url(sticker.id))
        } else {
            Err(TagParseErrorView::UnsupportedSticker(sticker.format_type))
        },
        None => Err(TagParseErrorView::NoSticker),
    }
}

/// Whether an address is that of a page around an animation.
pub open spec fn is_view_page(url: Seq<char>) -> bool {
    "https://tenor.com/view/"@.is_prefix_of(url)
}

/// What an embed yields: its own address if that is a page around an
/// animation, else the address of its image, of its thumbnail or of its
/// video, whichever comes first.
pub open spec fn embed_spec(embed: Option<Embed>) -> Found {
    match embed {
        Some(embed) => if embed.url.is_some() && is_view_page(embed.url.unwrap()@) {
            Ok(embed.url.unwrap()@)
        } else if embed.image.is_some() {
            Ok(embed.image.unwrap()@)
        } else if embed.thumbnail.is_some() {
            Ok(embed.thumbnail.unwrap()@)
        } else if embed.video.is_some() {
            Ok(embed.video.unwrap()@)
        } else {
            Err(TagParseErrorView::NoEmbed)
        },
        None => Err(TagParseErrorView::NoEmbed),
    }
}

/// What the answers hold for a question whose answer is text. An open
/// question is a failure that carries the question; a failed answer is a
/// failure that carries its message.
pub open spec fn text_answer_spec(lookups: Lookups, question: LookupView) -> Found {
    match lookups.text.answer(question) {
        Some(Ok(text)) => Ok(text),
        Some(Err(message)) => Err(TagParseErrorView::Transport(message)),
        None => Err(TagParseErrorView::LookupRequired(question)),
    }
}

/// The answer to a question whose answer is text.
pub fn text_answer(lookups: &Lookups, question: Lookup) -> (r: Result<String, TagParseError>)
    ensures
        (match r {
            Ok(text) => Ok(text@),
            Err(e) => Err(e@),
        }) == text_answer_spec(*lookups, question@),
{
    match lookups.text.get(&question) {
        Some(Ok(text)) => Ok(text.clone()),
        Some(Err(message)) => Err(TagParseError::Transport(message.clone())),
        None => Err(TagParseError::LookupRequired(question)),
    }
}

/// What an emoji yields, from its code points in lower case: the answer to
/// the question for the image that its descriptor names.
pub open spec fn emoji_lowered_spec(lookups: Lookups, lowered: Seq<char>) -> Found {
    text_answer_spec(lookups, LookupView::EmojiImage(descriptor_url(lowered)))
}

/// What the entry of the emoji table for a text yields. A text without an
/// entry is no emoji.
pub open spec fn emoji_codepoint_spec(lookups: Lookups, codepoint: Option<Seq<char>>) -> Found {
    match codepoint {
        Some(codepoint) => emoji_lowered_spec(lookups, lowercase(codepoint)),
        None => Err(TagParseErrorView::NoEmoji),
    }
}

/// What a text yields as an emoji.
pub open spec fn emoji_spec(lookups: Lookups, word: Seq<char>) -> Found {
    emoji_codepoint_spec(lookups, emoji_codepoint(word))
}

/// The id that a mention of a user names: `<@`, an optional `!`, the id in
/// digits, and `>`.
pub open spec fn mention_id(word: Seq<char>) -> Option<u64> {
    if word.len() >= 4 && word[0] == '<' && word[1] == '@' && word.last() == '>' {
        let from: int = if word[2] == '!' {
            3
        } else {
            2
        };
        let digits = word.subrange(from, word.len() - 1);
        if digits.len() > 0 && all_digits(digits) && digits_value(digits) <= u64::MAX {
            Some(digits_value(digits) as u64)
        } else {
            None
        }
    } else {
        None
    }
}

/// What a word yields as a mention: the answer to the question for the
/// avatar of the user. The id zero names nobody.
pub open spec fn mention_spec(lookups: Lookups, word: Seq<char>) -> Found {
    match mention_id(word) {
        Some(id) => if id == 0 {
            Err(TagParseErrorView::NoMention)
        } else {
            text_answer_spec(lookups, LookupView::UserAvatar(id))
        },
        None => Err(TagParseErrorView::NoMention),
    }
}

/// Whether a word is an address: `http://` or `https://` and at least one
/// more character.
pub open spec fn is_url(word: Seq<char>) -> bool {
    ("http://"@.is_prefix_of(word) && word.len() > "http://"@.len()) || ("https://"@.is_prefix_of(
        word,
    ) && word.len() > "https://"@.len())
}

/// What a word yields as an address: itself.
pub open spec fn url_spec(word: Seq<char>) -> Found {
    if is_url(word) {
        Ok(word)
    } else {
        Err(TagParseErrorView::NoUrl)
    }
}

/// The id that a mention of a user names.
pub fn id_from_mention(word: &str) -> (id: Option<u64>)
    ensures
        id == mention_id(word@),
{
    let chars: Vec<char> = chars_of(word);
    let n: usize = chars.len();
    if n < 4 || chars[0] != '<' || chars[1] != '@' || chars[n - 1] != '>' {
        return None;
    }
    let from: usize = if chars[2] == '!' {
        3
    } else {
        2
    };
    if from == n - 1 {
        return None;
    }
    digits_to_u64(&chars, from, n - 1)
}

/// Whether a word is an address.
pub fn is_url_word(word: &str) -> (b: bool)
    ensures
        b == is_url(word@),
{
    let n: usize = word.unicode_len();
    (starts_with(word, "http://") && n > "http://".unicode_len()) || (starts_with(word, "https://")
        && n > "https://".unicode_len())
}

impl ImageUrl {
    /// The address as text.
    pub fn to_string(&self) -> (text: String)
        ensures
            text@ == self.0@,
    {
        self.0.clone()
    }

    /// The address of an attachment.
    pub fn attachment(attachment: Option<&Attachment>) -> (r: Result<ImageUrl, TagParseError>)
        ensures
            parsed_view(r) == attachment_spec(
                match attachment {
                    Some(a) => Some(*a),
                    None => None,
                },
            ),
    {
        match attachment {
            Some(attachment) => Ok(ImageUrl(attachment.url.clone())),
            None => Err(TagParseError::NoAttachment),
        }
    }

    /// The address of a sticker.
    pub fn sticker(sticker: Option<&MessageSticker>) -> (r: Result<ImageUrl, TagParseError>)
        ensures
            parsed_view(r) == sticker_spec(
                match sticker {
                    Some(s) => Some(*s),
                    None => None,
                },
            ),
    {
        match sticker {
            Some(sticker) => match sticker.format_type {
                StickerFormatType::Png => {
                    let mut url: String = "https://cdn.discordapp.com/stickers/".to_owned();
                    push_decimal(&mut url, sticker.id);
                    url.append(".png");
                    Ok(ImageUrl(url))
                },
                format_type => Err(TagParseError::UnsupportedSticker(format_type)),
            },
            None => Err(TagParseError::NoSticker),
        }
    }

    /// The address of the media of an embed.
    pub fn embed(embed: Option<&Embed>) -> (r: Result<ImageUrl, TagParseError>)
        ensures
            parsed_view(r) == embed_spec(
                match embed {
                    Some(e) => Some(*e),
                    None => None,
                },
            ),
    {
        let embed: &Embed = match embed {
            Some(embed) => embed,
            None => {
                return Err(TagParseError::NoEmbed);
            },
        };
        if let Some(url) = &embed.url {
            if starts_with(url.as_str(), "https://tenor.com/view/") {
                return Ok(ImageUrl(url.clone()));
            }
        }
        if let Some(image) = &embed.image {
            return Ok(ImageUrl(image.clone()));
        }
        if let Some(thumbnail) = &embed.thumbnail {
            return Ok(ImageUrl(thumbnail.clone()));
        }
        if let Some(video) = &embed.video {
            Ok(ImageUrl(video.clone()))
        } else {
            Err(TagParseError::NoEmbed)
        }
    }

    /// The address of the image of an emoji, from its code points in lower
    /// case.
    pub fn emoji_from_lowered(lookups: &Lookups, lowered: &str) -> (r: Result<
        ImageUrl,
        TagParseError,
    >)
        ensures
            parsed_view(r) == emoji_lowered_spec(*lookups, lowered@),
    {
        let emoji_url: String = emoji_descriptor_url(lowered);
        Ok(ImageUrl(text_answer(lookups, Lookup::EmojiImage(emoji_url))?))
    }

    /// The address of the image of an emoji, from what the emoji table
    /// holds for it.
    pub fn emoji_from_codepoint(lookups: &Lookups, codepoint: Option<String>) -> (r: Result<
        ImageUrl,
        TagParseError,
    >)
        ensures
            parsed_view(r) == emoji_codepoint_spec(*lookups, codepoint.deep_view()),
    {
        match codepoint {
            Some(codepoint) => {
                let lowered: String = to_lowercase(codepoint.as_str());
                ImageUrl::emoji_from_lowered(lookups, lowered.as_str())
            },
            None => Err(TagParseError::NoEmoji),
        }
    }

    /// The address of the image of the emoji that `word` shows.
    pub fn emoji(lookups: &Lookups, word: &str) -> (r: Result<ImageUrl, TagParseError>)
        ensures
            parsed_view(r) == emoji_spec(*lookups, word@),
    {
        ImageUrl::emoji_from_codepoint(lookups, lookup_codepoint(word))
    }

    /// The address of the avatar of the user that `word` mentions.
    pub fn mention(lookups: &Lookups, word: &str) -> (r: Result<ImageUrl, TagParseError>)
        ensures
            parsed_view(r) == mention_spec(*lookups, word@),
    {
        let user_id: u64 = match id_from_mention(word) {
            Some(user_id) => user_id,
            None => {
                return Err(TagParseError::NoMention);
            },
        };
        if user_id == 0 {
            return Err(TagParseError::NoMention);
        }
        Ok(ImageUrl(text_answer(lookups, Lookup::UserAvatar(user_id))?))
    }

    /// The word itself, if it is an address.
    pub fn url_argument(word: String) -> (r: Result<ImageUrl, TagParseError>)
        ensures
            parsed_view(r) == url_spec(word@),
    {
        if is_url_word(word.as_str()) {
            Ok(ImageUrl(word))
        } else {
            Err(TagParseError::NoUrl)
        }
    }
}

} // verus!
