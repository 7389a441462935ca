//! The places in which an image is looked for, each as a step that reads a
//! parse. A step may read a word or an option; the chain that runs the
//! steps undoes that where the step fails.

use crate::arguments::{next_text_option, next_text_spec, parsed_view};
use crate::context::{
    InteractionCommandParseCtxt, InteractionCommandView, RawMessageParseCtxt, RawMessageView,
};
use crate::cursor::{next_word_spec, CommandOptionValue};
use crate::error::{ErrorSeverity, TagParseError, TagParseErrorView};
use crate::image::{
    attachment_spec, embed_spec, emoji_spec, mention_spec, sticker_spec, url_spec, Found,
    ImageUrl,
};
use crate::lookup::{Lookup, LookupView, Lookups};
use crate::message::{first, first_of, Attachment, Message};
use vstd::prelude::*;

verus! {

/// The rule by which one place follows another: the first decides where it
/// has an address or fails with high severity; where it fails with low
/// severity the second decides.
pub open spec fn or_else(first: Found, second: Found) -> Found {
    match first {
        Ok(_) => first,
        Err(e) => if e.is_high() {
            first
        } else {
            second
        },
    }
}

/// What a step that reads the next word yields, and where it leaves the
/// text. With no word left the step fails and reads nothing.
pub open spec fn on_next_word(ctxt: RawMessageView, place: spec_fn(Seq<char>) -> Found) -> (
    Found,
    int,
) {
    match next_word_spec(ctxt.text, ctxt.position) {
        Some((word, end)) => (place(word), end),
        None => (Err(TagParseErrorView::ArgsExhausted), ctxt.position),
    }
}

/// What a step that reads the text of the next option yields, and where it
/// leaves the options.
pub open spec fn on_next_text(
    ctxt: InteractionCommandView,
    expected: Seq<char>,
    place: spec_fn(Seq<char>) -> Found,
) -> (Found, int) {
    match next_text_spec(ctxt, expected) {
        (Ok(text), position) => (place(text), position),
        (Err(e), position) => (Err(e), position),
    }
}

/// What the message that is replied to yields: its first attachment, else
/// its sticker, its embed or the emoji that is its whole content, by the
/// rule of `or_else`. No message, or none of these, is `NoReply`.
pub open spec fn reply_spec(lookups: Lookups, reply: Option<Message>) -> Found {
    match reply {
        Some(reply) => if reply.attachments@.len() > 0 {
            Ok(reply.attachments@[0].url@)
        } else {
            or_else(
                sticker_spec(first_of(reply.sticker_items@)),
                or_else(
                    embed_spec(first_of(reply.embeds@)),
                    or_else(
                        emoji_spec(lookups, reply.content@),
                        Err(TagParseErrorView::NoReply),
                    ),
                ),
            )
        },
        None => Err(TagParseErrorView::NoReply),
    }
}

/// The image of one message of a channel's history: that of its embed, else
/// of its sticker, else its attachment. A part that fails, for whatever
/// reason, yields to the next.
pub open spec fn message_image(message: Message) -> Option<Seq<char>> {
    match embed_spec(first_of(message.embeds@)) {
        Ok(url) => Some(url),
        Err(_) => match sticker_spec(first_of(message.sticker_items@)) {
            Ok(url) => Some(url),
            Err(_) => match attachment_spec(first_of(message.attachments@)) {
                Ok(url) => Some(url),
                Err(_) => None,
            },
        },
    }
}

/// The image of the first message at or after position `i` that has one.
pub open spec fn scan_from(messages: Seq<Message>, i: int) -> Found
    decreases messages.len() - i,
{
    if 0 <= i < messages.len() {
        match message_image(messages[i]) {
            Some(url) => Ok(url),
            None => scan_from(messages, i + 1),
        }
    } else {
        Err(TagParseErrorView::NoImageInHistory)
    }
}

/// What the history of a channel yields, once its messages are supplied.
pub open spec fn history_spec(lookups: Lookups, channel_id: u64) -> Found {
    match lookups.history.answer(LookupView::ChannelHistory(channel_id)) {
        Some(Ok(messages)) => scan_from(messages, 0),
        Some(Err(message)) => Err(TagParseErrorView::Transport(message)),
        None => Err(TagParseErrorView::LookupRequired(LookupView::ChannelHistory(channel_id))),
    }
}

/// The scan fails only where no message has an image, and else yields the
/// image of the first message that has one: a message without an image
/// never ends the scan.
pub proof fn lemma_scan_finds_first(messages: Seq<Message>, i: int)
    requires
        0 <= i <= messages.len(),
    ensures
        scan_from(messages, i).is_err() <==> (forall|j: int|
            i <= j < messages.len() ==> message_image(#[trigger] messages[j]).is_none()),
        scan_from(messages, i).is_err() ==> scan_from(messages, i) == Err::<
            Seq<char>,
            TagParseErrorView,
        >(TagParseErrorView::NoImageInHistory),
        scan_from(messages, i) matches Ok(url) ==> exists|k: int|
            i <= k < messages.len() && message_image(#[trigger] messages[k]) == Some(url) && (
            forall|j: int| i <= j < k ==> message_image(#[trigger] messages[j]).is_none()),
    decreases messages.len() - i,
{
    if i < messages.len() && message_image(messages[i]).is_none() {
        lemma_scan_finds_first(messages, i + 1);
    }
}

impl ImageUrl {
    /// The avatar of the user that the next word mentions.
    pub fn from_mention_raw_message(ctxt: &mut RawMessageParseCtxt) -> (r: Result<
        ImageUrl,
        TagParseError,
    >)
        ensures
            parsed_view(r) == on_next_word(
                old(ctxt)@,
                |word: Seq<char>| mention_spec(old(ctxt)@.lookups, word),
            ).0,
            final(ctxt)@ == old(ctxt)@.at(
                on_next_word(
                    old(ctxt)@,
                    |word: Seq<char>| mention_spec(old(ctxt)@.lookups, word),
                ).1,
            ),
    {
        let word: String = ctxt.next_word()?;
        ImageUrl::mention(ctxt.lookups(), word.as_str())
    }

    /// The avatar of the user that the next option mentions.
    pub fn from_mention_command_option(ctxt: &mut InteractionCommandParseCtxt) -> (r: Result<
        ImageUrl,
        TagParseError,
    >)
        ensures
            parsed_view(r) == on_next_text(
                old(ctxt)@,
                "String (mention aregument)"@,
                |word: Seq<char>| mention_spec(old(ctxt)@.lookups, word),
            ).0,
            final(ctxt)@ == old(ctxt)@.at(
                on_next_text(
                    old(ctxt)@,
                    "String (mention aregument)"@,
                    |word: Seq<char>| mention_spec(old(ctxt)@.lookups, word),
                ).1,
            ),
    {
        let word: String = next_text_option(ctxt, "String (mention aregument)")?;
        ImageUrl::mention(ctxt.lookups(), word.as_str())
    }

    /// The next word, if it is an address.
    pub fn from_url_argument_raw_message(ctxt: &mut RawMessageParseCtxt) -> (r: Result<
        ImageUrl,
        TagParseError,
    >)
        ensures
            parsed_view(r) == on_next_word(old(ctxt)@, |word: Seq<char>| url_spec(word)).0,
            final(ctxt)@ == old(ctxt)@.at(
                on_next_word(old(ctxt)@, |word: Seq<char>| url_spec(word)).1,
            ),
    {
        let word: String = ctxt.next_word()?;
        ImageUrl::url_argument(word)
    }

    /// The text of the next option, if it is an address.
    pub fn from_url_argument_command_option(ctxt: &mut InteractionCommandParseCtxt) -> (r: Result<
        ImageUrl,
        TagParseError,
    >)
        ensures
            parsed_view(r) == on_next_text(
                old(ctxt)@,
                "String (url argument)"@,
                |word: Seq<char>| url_spec(word),
            ).0,
            final(ctxt)@ == old(ctxt)@.at(
                on_next_text(
                    old(ctxt)@,
                    "String (url argument)"@,
                    |word: Seq<char>| url_spec(word),
                ).1,
            ),
    {
        let word: String = next_text_option(ctxt, "String (url argument)")?;
        ImageUrl::url_argument(word)
    }

    /// The first attachment of the message that invoked the command.
    pub fn from_attachment_raw_message(ctxt: &mut RawMessageParseCtxt) -> (r: Result<
        ImageUrl,
        TagParseError,
    >)
        ensures
            parsed_view(r) == attachment_spec(first_of(old(ctxt)@.message.attachments@)),
            final(ctxt)@ == old(ctxt)@,
    {
        ImageUrl::attachment(first(&ctxt.message().attachments))
    }

    /// The image of the message that is replied to.
    pub fn from_reply(ctxt: &mut RawMessageParseCtxt) -> (r: Result<ImageUrl, TagParseError>)
        ensures
            parsed_view(r) == reply_spec(old(ctxt)@.lookups, old(ctxt)@.reply),
            final(ctxt)@ == old(ctxt)@,
    {
        let reply: &Message = match ctxt.reply() {
            Some(reply) => reply,
            None => {
                return Err(TagParseError::NoReply);
            },
        };
        if let Some(attachment) = first(&reply.attachments) {
            return Ok(ImageUrl(attachment.url.clone()));
        }
        match ImageUrl::sticker(first(&reply.sticker_items)) {
            Ok(v) => {
                return Ok(v);
            },
            Err(err) => {
                if err.get_severity() == ErrorSeverity::High {
                    return Err(err);
                }
            },
        }
        match ImageUrl::embed(first(&reply.embeds)) {
            Ok(v) => {
                return Ok(v);
            },
            Err(err) => {
                if err.get_severity() == ErrorSeverity::High {
                    return Err(err);
                }
            },
        }
        match ImageUrl::emoji(ctxt.lookups(), reply.content.as_str()) {
            Ok(v) => {
                return Ok(v);
            },
            Err(err) => {
                if err.get_severity() == ErrorSeverity::High {
                    return Err(err);
                }
            },
        }
        Err(TagParseError::NoReply)
    }

    /// The image of the emoji that is the next word.
    pub fn from_emoji_raw_message(ctxt: &mut RawMessageParseCtxt) -> (r: Result<
        ImageUrl,
        TagParseError,
    >)
        ensures
            parsed_view(r) == on_next_word(
                old(ctxt)@,
                |word: Seq<char>| emoji_spec(old(ctxt)@.lookups, word),
            ).0,
            final(ctxt)@ == old(ctxt)@.at(
                on_next_word(
                    old(ctxt)@,
                    |word: Seq<char>| emoji_spec(old(ctxt)@.lookups, word),
                ).1,
            ),
    {
        let word: String = ctxt.next_word()?;
        ImageUrl::emoji(ctxt.lookups(), word.as_str())
    }

    /// The sticker of the message that invoked the command.
    pub fn from_sticker(ctxt: &mut RawMessageParseCtxt) -> (r: Result<ImageUrl, TagParseError>)
        ensures
            parsed_view(r) == sticker_spec(first_of(old(ctxt)@.message.sticker_items@)),
            final(ctxt)@ == old(ctxt)@,
    {
        ImageUrl::sticker(first(&ctxt.message().sticker_items))
    }

    /// The image of the first of `messages` that has one.
    pub fn scan_history(messages: &Vec<Message>) -> (r: Result<ImageUrl, TagParseError>)
        ensures
            parsed_view(r) == scan_from(messages@, 0),
            r.is_err() <==> (forall|j: int|
                0 <= j < messages.len() ==> message_image(#[trigger] messages@[j]).is_none()),
    {
        proof {
            lemma_scan_finds_first(messages@, 0);
        }
        let mut i: usize = 0;
        while i < messages.len()
            invariant
                i <= messages.len(),
                scan_from(messages@, 0) == scan_from(messages@, i as int),
            decreases messages.len() - i,
        {
            let message: &Message = &messages[i];
            if let Ok(v) = ImageUrl::embed(first(&message.embeds)) {
                return Ok(v);
            }
            if let Ok(v) = ImageUrl::sticker(first(&message.sticker_items)) {
                return Ok(v);
            }
            if let Ok(v) = ImageUrl::attachment(first(&message.attachments)) {
                return Ok(v);
            }
            i += 1;
        }
        Err(TagParseError::NoImageInHistory)
    }

    /// The image of the most recent message of the channel that has one.
    pub fn from_channel_history(lookups: &Lookups, channel_id: u64) -> (r: Result<
        ImageUrl,
        TagParseError,
    >)
        ensures
            parsed_view(r) == history_spec(*lookups, channel_id),
    {
        let question = Lookup::ChannelHistory(channel_id);
        match lookups.history.get(&question) {
            Some(Ok(messages)) => ImageUrl::scan_history(messages),
            Some(Err(message)) => Err(TagParseError::Transport(message.clone())),
            None => Err(TagParseError::LookupRequired(question)),
        }
    }
}

/// The first of `attachments` at or after position `i` that has the id
/// `id`.
pub open spec fn resolved_from(attachments: Seq<Attachment>, id: u64, i: int) -> Option<Attachment>
    decreases attachments.len() - i,
{
    if 0 <= i < attachments.len() {
        if attachments[i].id == id {
            Some(attachments[i])
        } else {
            resolved_from(attachments, id, i + 1)
        }
    } else {
        None
    }
}

/// What the next option yields as an attachment: the address of the
/// attachment of the invocation that it names.
pub open spec fn attachment_option_spec(ctxt: InteractionCommandView) -> (Found, int) {
    match ctxt.next() {
        Some(option) => (
            match option.value {
                CommandOptionValue::Attachment(id) => attachment_spec(
                    resolved_from(ctxt.attachments, id, 0),
                ),
                other => Err(
                    TagParseErrorView::MismatchedCommandOptionType("Attachment"@, other),
                ),
            },
            ctxt.position + 1,
        ),
        None => (Err(TagParseErrorView::ArgsExhausted), ctxt.position),
    }
}

/// The first of `attachments` that has the id `id`.
pub fn resolved_attachment(attachments: &Vec<Attachment>, id: u64) -> (r: Option<&Attachment>)
    ensures
        r == (match resolved_from(attachments@, id, 0) {
            Some(a) => Some(&a),
            None => None,
        }),
{
    let mut i: usize = 0;
    while i < attachments.len()
        invariant
            i <= attachments.len(),
            resolved_from(attachments@, id, 0) == resolved_from(attachments@, id, i as int),
        decreases attachments.len() - i,
    {
        if attachments[i].id == id {
            return Some(&attachments[i]);
        }
        i += 1;
    }
    None
}

impl ImageUrl {
    /// The attachment of the invocation that the next option names.
    pub fn from_attachment_interaction_command(ctxt: &mut InteractionCommandParseCtxt) -> (r:
        Result<ImageUrl, TagParseError>)
        ensures
            parsed_view(r) == attachment_option_spec(old(ctxt)@).0,
            final(ctxt)@ == old(ctxt)@.at(attachment_option_spec(old(ctxt)@).1),
    {
        let word = ctxt.next_option()?;
        match word.value {
            CommandOptionValue::Attachment(id) => ImageUrl::attachment(
                resolved_attachment(ctxt.attachments(), id),
            ),
            other => Err(TagParseError::MismatchedCommandOptionType("Attachment", other)),
        }
    }

    /// The image of the emoji that is the text of the next option, found as
    /// for a word of free text.
    pub fn from_emoji_command_option(ctxt: &mut InteractionCommandParseCtxt) -> (r: Result<
        ImageUrl,
        TagParseError,
    >)
        ensures
            parsed_view(r) == on_next_text(
                old(ctxt)@,
                "String (emoji argument)"@,
                |text: Seq<char>| emoji_spec(old(ctxt)@.lookups, text),
            ).0,
            final(ctxt)@ == old(ctxt)@.at(
                on_next_text(
                    old(ctxt)@,
                    "String (emoji argument)"@,
                    |text: Seq<char>| emoji_spec(old(ctxt)@.lookups, text),
                ).1,
            ),
    {
        let option: String = next_text_option(ctxt, "String (emoji argument)")?;
        ImageUrl::emoji(ctxt.lookups(), option.as_str())
    }
}

} // verus!
