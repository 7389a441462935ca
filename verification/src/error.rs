//! Failures of argument parsing and their severity.

use crate::cursor::CommandOptionValue;
use crate::lookup::{Lookup, LookupView};
use crate::message::StickerFormatType;
use vstd::prelude::*;

verus! {

/// How a failure is treated by whoever tried the parse.
#[derive(Clone, Copy, Debug, PartialEq, Eq, Structural)]
pub enum ErrorSeverity {
    /// This source did not apply; another one may.
    Low,
    /// The input is wrong; the whole parse is given up.
    High,
}

/// The kinds of value that a structured option can carry.
#[derive(Clone, Copy, Debug, PartialEq, Eq, Structural)]
pub enum OptionKind {
    Attachment,
    Boolean,
    Channel,
    Focused,
    Integer,
    Mentionable,
    Number,
    Role,
    Text,
    SubCommand,
    SubCommandGroup,
    User,
}

/// Why a flag string was refused.
#[derive(Debug, PartialEq, Eq)]
pub enum FlagError {
    /// The named flag is not one that the command declares.
    Unrecognised(String),
    /// The named flag takes a value and none followed it.
    MissingValue(String),
    /// The named flag takes no value and one followed it.
    UnexpectedValue(String),
    /// The value given for the quality is no number.
    InvalidQuality,
}

/// A `FlagError` with its strings as sequences of characters.
pub enum FlagErrorView {
    Unrecognised(Seq<char>),
    MissingValue(Seq<char>),
    UnexpectedValue(Seq<char>),
    InvalidQuality,
}

impl View for FlagError {
    type V = FlagErrorView;

    open spec fn view(&self) -> FlagErrorView {
        match self {
            FlagError::Unrecognised(name) => FlagErrorView::Unrecognised(name@),
            FlagError::MissingValue(name) => FlagErrorView::MissingValue(name@),
            FlagError::UnexpectedValue(name) => FlagErrorView::UnexpectedValue(name@),
            FlagError::InvalidQuality => FlagErrorView::InvalidQuality,
        }
    }
}

impl Clone for FlagError {
    fn clone(&self) -> (copy: FlagError)
        ensures
            copy == *self,
    {
        match self {
            FlagError::Unrecognised(name) => FlagError::Unrecognised(name.clone()),
            FlagError::MissingValue(name) => FlagError::MissingValue(name.clone()),
            FlagError::UnexpectedValue(name) => FlagError::UnexpectedValue(name.clone()),
            FlagError::InvalidQuality => FlagError::InvalidQuality,
        }
    }
}

/// Why an argument could not be parsed.
#[derive(Debug, PartialEq, Eq)]
pub enum TagParseError {
    /// No input is left.
    ArgsExhausted,
    /// The word is no unsigned decimal number that fits 64 bits.
    InvalidNumber,
    /// The word is no duration.
    InvalidTime,
    /// A structured option carries another kind of value than the argument
    /// takes: the label of what was expected, then the value that was found.
    MismatchedCommandOptionType(&'static str, CommandOptionValue),
    /// The word is no mention of a user.
    NoMention,
    /// The word is no address.
    NoUrl,
    /// The message has no attachment.
    NoAttachment,
    /// The message replies to nothing, or to a message without an image.
    NoReply,
    /// The message has no embed, or one without an image.
    NoEmbed,
    /// The word is no emoji.
    NoEmoji,
    /// The message has no sticker.
    NoSticker,
    /// The sticker is stored in a format that cannot be used.
    UnsupportedSticker(StickerFormatType),
    /// No recent message of the channel has an image.
    NoImageInHistory,
    /// Every source was tried and none applied.
    NoImageFound,
    /// The address is a page around the media and no direct address of the
    /// media was found on it.
    MediaDownloadFail,
    /// The flags are malformed.
    FlagParseError(FlagError),
    /// The outside world failed to answer, with its message.
    Transport(String),
    /// A fact is needed that the caller has not supplied yet.
    LookupRequired(Lookup),
}

/// A `TagParseError` with its strings as sequences of characters.
pub enum TagParseErrorView {
    ArgsExhausted,
    InvalidNumber,
    InvalidTime,
    MismatchedCommandOptionType(Seq<char>, CommandOptionValue),
    NoMention,
    NoUrl,
    NoAttachment,
    NoReply,
    NoEmbed,
    NoEmoji,
    NoSticker,
    UnsupportedSticker(StickerFormatType),
    NoImageInHistory,
    NoImageFound,
    MediaDownloadFail,
    FlagParseError(FlagErrorView),
    Transport(Seq<char>),
    LookupRequired(LookupView),
}

impl TagParseErrorView {
    /// Absence of one source is low; everything else is high.
    pub open spec fn severity(self) -> ErrorSeverity {
        match self {
            TagParseErrorView::ArgsExhausted
            | TagParseErrorView::NoMention
            | TagParseErrorView::NoUrl
            | TagParseErrorView::NoAttachment
            | TagParseErrorView::NoReply
            | TagParseErrorView::NoEmbed
            | TagParseErrorView::NoEmoji
            | TagParseErrorView::NoSticker => ErrorSeverity::Low,
            _ => ErrorSeverity::High,
        }
    }

    pub open spec fn is_low(self) -> bool {
        self.severity() == ErrorSeverity::Low
    }

    pub open spec fn is_high(self) -> bool {
        self.severity() == ErrorSeverity::High
    }
}

/// Whether a parse has ended with a question for the caller.
pub open spec fn is_open<V>(r: Result<V, TagParseErrorView>) -> bool {
    r matches Err(TagParseErrorView::LookupRequired(_))
}

impl View for TagParseError {
    type V = TagParseErrorView;

    open spec fn view(&self) -> TagParseErrorView {
        match self {
            TagParseError::ArgsExhausted => TagParseErrorView::ArgsExhausted,
            TagParseError::InvalidNumber => TagParseErrorView::InvalidNumber,
            TagParseError::InvalidTime => TagParseErrorView::InvalidTime,
            TagParseError::MismatchedCommandOptionType(expected, actual) =>
                TagParseErrorView::MismatchedCommandOptionType(expected@, *actual),
            TagParseError::NoMention => TagParseErrorView::NoMention,
            TagParseError::NoUrl => TagParseErrorView::NoUrl,
            TagParseError::NoAttachment => TagParseErrorView::NoAttachment,
            TagParseError::NoReply => TagParseErrorView::NoReply,
            TagParseError::NoEmbed => TagParseErrorView::NoEmbed,
            TagParseError::NoEmoji => TagParseErrorView::NoEmoji,
            TagParseError::NoSticker => TagParseErrorView::NoSticker,
            TagParseError::UnsupportedSticker(format) => TagParseErrorView::UnsupportedSticker(
                *format,
            ),
            TagParseError::NoImageInHistory => TagParseErrorView::NoImageInHistory,
            TagParseError::NoImageFound => TagParseErrorView::NoImageFound,
            TagParseError::MediaDownloadFail => TagParseErrorView::MediaDownloadFail,
            TagParseError::FlagParseError(e) => TagParseErrorView::FlagParseError(e@),
            TagParseError::Transport(message) => TagParseErrorView::Transport(message@),
            TagParseError::LookupRequired(lookup) => TagParseErrorView::LookupRequired(lookup@),
        }
    }
}

impl Clone for TagParseError {
    fn clone(&self) -> (copy: TagParseError)
        ensures
            copy == *self,
    {
        match self {
            TagParseError::ArgsExhausted => TagParseError::ArgsExhausted,
            TagParseError::InvalidNumber => TagParseError::InvalidNumber,
            TagParseError::InvalidTime => TagParseError::InvalidTime,
            TagParseError::MismatchedCommandOptionType(expected, actual) =>
                TagParseError::MismatchedCommandOptionType(*expected, actual.clone()),
            TagParseError::NoMention => TagParseError::NoMention,
            TagParseError::NoUrl => TagParseError::NoUrl,
            TagParseError::NoAttachment => TagParseError::NoAttachment,
            TagParseError::NoReply => TagParseError::NoReply,
            TagParseError::NoEmbed => TagParseError::NoEmbed,
            TagParseError::NoEmoji => TagParseError::NoEmoji,
            TagParseError::NoSticker => TagParseError::NoSticker,
            TagParseError::UnsupportedSticker(format) => TagParseError::UnsupportedSticker(*format),
            TagParseError::NoImageInHistory => TagParseError::NoImageInHistory,
            TagParseError::NoImageFound => TagParseError::NoImageFound,
            TagParseError::MediaDownloadFail => TagParseError::MediaDownloadFail,
            TagParseError::FlagParseError(e) => TagParseError::FlagParseError(e.clone()),
            TagParseError::Transport(message) => TagParseError::Transport(message.clone()),
            TagParseError::LookupRequired(lookup) => TagParseError::LookupRequired(lookup.clone()),
        }
    }
}

impl TagParseError {
    /// The severity of this failure.
    pub fn get_severity(&self) -> (severity: ErrorSeverity)
        ensures
            severity == self@.severity(),
    {
        match self {
            TagParseError::ArgsExhausted
            | TagParseError::NoMention
            | TagParseError::NoUrl
            | TagParseError::NoAttachment
            | TagParseError::NoReply
            | TagParseError::NoEmbed
            | TagParseError::NoEmoji
            | TagParseError::NoSticker => ErrorSeverity::Low,
            _ => ErrorSeverity::High,
        }
    }
}

} // verus!
