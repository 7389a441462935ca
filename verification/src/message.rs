//! What the parsers read of a chat message.

use vstd::prelude::*;

verus! {

/// A file attached to a message.
#[derive(Clone, Debug, PartialEq, Eq)]
pub struct Attachment {
    pub id: u64,
    /// Where the file lies.
    pub url: String,
}

/// The formats in which a sticker is stored.
#[derive(Clone, Copy, Debug, PartialEq, Eq, Structural)]
pub enum StickerFormatType {
    Png,
    Apng,
    Lottie,
    Gif,
    Unknown,
}

/// A sticker sent with a message.
#[derive(Clone, Debug, PartialEq, Eq)]
pub struct MessageSticker {
    pub id: u64,
    pub format_type: StickerFormatType,
}

/// Rich content embedded in a message, with the addresses of its media.
#[derive(Clone, Debug, PartialEq, Eq)]
pub struct Embed {
    /// The address that the embed links to.
    pub url: Option<String>,
    /// The address of its image.
    pub image: Option<String>,
    /// The address of its thumbnail.
    pub thumbnail: Option<String>,
    /// The address of its video.
    pub video: Option<String>,
}

/// A message, as far as an image can be found in it.
#[derive(Clone, Debug, PartialEq, Eq)]
pub struct Message {
    pub attachments: Vec<Attachment>,
    pub sticker_items: Vec<MessageSticker>,
    pub embeds: Vec<Embed>,
    pub content: String,
}

/// The first element of `s`, if it has one.
pub open spec fn first_of<T>(s: Seq<T>) -> Option<T> {
    if s.len() > 0 {
        Some(s[0])
    } else {
        None
    }
}

/// The first element of `v`, if it has one.
pub fn first<T>(v: &Vec<T>) -> (r: Option<&T>)
    ensures
        r == (match first_of(v@) {
            Some(x) => Some(&x),
            None => None,
        }),
{
    if v.len() > 0 {
        Some(&v[0])
    } else {
        None
    }
}

} // verus!
