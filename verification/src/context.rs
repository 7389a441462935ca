//! The two inputs of a parse with what surrounds them: the message that
//! invoked the command, the channel, and the answers that the caller has
//! supplied so far.

use crate::cursor::{
    next_word_spec, rest_spec, Checkpoint, CommandDataOption, OptionCursor, TokenCursor,
};
use crate::error::{TagParseError, TagParseErrorView};
use crate::lookup::{answer_view, Lookup, LookupView, Lookups};
use crate::message::{Attachment, Message};
use vstd::prelude::*;

verus! {

/// A parse of free text, as the parsers see it.
pub struct RawMessageView {
    /// The text after the command name.
    pub text: Seq<char>,
    /// How far the text has been read.
    pub position: int,
    /// The message that invoked the command.
    pub message: Message,
    /// The message that it replies to.
    pub reply: Option<Message>,
    /// The channel in which it was sent.
    pub channel_id: u64,
    /// The answers supplied so far.
    pub lookups: Lookups,
}

impl RawMessageView {
    /// The same parse, read up to `position`.
    pub open spec fn at(self, position: int) -> RawMessageView {
        RawMessageView { position, ..self }
    }
}

/// The text after a command name with the message around it.
pub struct RawMessageParseCtxt {
    cursor: TokenCursor,
    message: Message,
    reply: Option<Message>,
    channel_id: u64,
    lookups: Lookups,
}

impl View for RawMessageParseCtxt {
    type V = RawMessageView;

    closed spec fn view(&self) -> RawMessageView {
        RawMessageView {
            text: self.cursor@.text,
            position: self.cursor@.position,
            message: self.message,
            reply: self.reply,
            channel_id: self.channel_id,
            lookups: self.lookups,
        }
    }
}

impl RawMessageParseCtxt {
    /// A parse of `args` at its start, with nothing looked up yet.
    pub fn new(args: &str, message: Message, reply: Option<Message>, channel_id: u64) -> (ctxt:
        RawMessageParseCtxt)
        ensures
            ctxt@.text == args@,
            ctxt@.position == 0,
            ctxt@.message == message,
            ctxt@.reply == reply,
            ctxt@.channel_id == channel_id,
            forall|question: LookupView| ctxt@.lookups.text.answer(question).is_none(),
            forall|question: LookupView| ctxt@.lookups.history.answer(question).is_none(),
            forall|question: LookupView| ctxt@.lookups.content.answer(question).is_none(),
    {
        RawMessageParseCtxt {
            cursor: TokenCursor::new(args),
            message,
            reply,
            channel_id,
            lookups: Lookups::new(),
        }
    }

    /// How far the text has been read; never beyond its end.
    pub fn position(&self) -> (position: usize)
        ensures
            position == self@.position,
            position <= self@.text.len(),
    {
        self.cursor.position()
    }

    /// The message that invoked the command.
    pub fn message(&self) -> (message: &Message)
        ensures
            *message == self@.message,
    {
        &self.message
    }

    /// The message that it replies to.
    pub fn reply(&self) -> (reply: &Option<Message>)
        ensures
            *reply == self@.reply,
    {
        &self.reply
    }

    /// The channel in which the command was sent.
    pub fn channel_id(&self) -> (channel_id: u64)
        ensures
            channel_id == self@.channel_id,
    {
        self.channel_id
    }

    /// The answers supplied so far.
    pub fn lookups(&self) -> (lookups: &Lookups)
        ensures
            *lookups == self@.lookups,
    {
        &self.lookups
    }

    /// Supplies the answer to a question whose answer is text.
    pub fn answer_text(&mut self, question: Lookup, answer: Result<String, String>)
        ensures
            final(self)@ == (RawMessageView { lookups: final(self)@.lookups, ..old(self)@ }),
            final(self)@.lookups.history == old(self)@.lookups.history,
            final(self)@.lookups.content == old(self)@.lookups.content,
            forall|q: LookupView| #[trigger]
                final(self)@.lookups.text.answer(q) == (if old(self)@.lookups.text.answer(q).is_some() {
                    old(self)@.lookups.text.answer(q)
                } else if question@ == q {
                    Some(answer_view(answer))
                } else {
                    None
                }),
            final(self)@.lookups.extends(&old(self)@.lookups),
    {
        self.lookups.text.record(question, answer);
    }

    /// Supplies the recent messages of a channel.
    pub fn answer_history(&mut self, question: Lookup, answer: Result<Vec<Message>, String>)
        ensures
            final(self)@ == (RawMessageView { lookups: final(self)@.lookups, ..old(self)@ }),
            final(self)@.lookups.text == old(self)@.lookups.text,
            final(self)@.lookups.content == old(self)@.lookups.content,
            forall|q: LookupView| #[trigger]
                final(self)@.lookups.history.answer(q) == (if old(self)@.lookups.history.answer(q).is_some() {
                    old(self)@.lookups.history.answer(q)
                } else if question@ == q {
                    Some(answer_view(answer))
                } else {
                    None
                }),
            final(self)@.lookups.extends(&old(self)@.lookups),
    {
        self.lookups.history.record(question, answer);
    }

    /// Supplies the bytes of a file.
    pub fn answer_content(&mut self, question: Lookup, answer: Result<Vec<u8>, String>)
        ensures
            final(self)@ == (RawMessageView { lookups: final(self)@.lookups, ..old(self)@ }),
            final(self)@.lookups.text == old(self)@.lookups.text,
            final(self)@.lookups.history == old(self)@.lookups.history,
            forall|q: LookupView| #[trigger]
                final(self)@.lookups.content.answer(q) == (if old(self)@.lookups.content.answer(q).is_some() {
                    old(self)@.lookups.content.answer(q)
                } else if question@ == q {
                    Some(answer_view(answer))
                } else {
                    None
                }),
            final(self)@.lookups.extends(&old(self)@.lookups),
    {
        self.lookups.content.record(question, answer);
    }

    /// Goes back to the start of the text.
    pub fn restart(&mut self)
        ensures
            final(self)@ == old(self)@.at(0),
    {
        self.cursor.restart();
    }

    /// Records the position, to go back to it.
    pub fn checkpoint(&self) -> (checkpoint: Checkpoint)
        ensures
            checkpoint.position() == self@.position,
            0 <= checkpoint.position() <= self@.text.len(),
    {
        self.cursor.checkpoint()
    }

    /// Whether a recorded position lies within the text, so that the parse
    /// can go back to it.
    pub fn covers(&self, checkpoint: Checkpoint) -> (b: bool)
        ensures
            b == (checkpoint.position() <= self@.text.len()),
    {
        self.cursor.covers(checkpoint)
    }

    /// Goes back to a recorded position.
    pub fn rewind(&mut self, checkpoint: Checkpoint)
        requires
            checkpoint.position() <= old(self)@.text.len(),
        ensures
            final(self)@ == old(self)@.at(checkpoint.position()),
    {
        self.cursor.rewind(checkpoint);
    }

    /// Reads the next word. Where only whitespace is left, nothing is read
    /// and the failure is `ArgsExhausted`.
    pub fn next_word(&mut self) -> (r: Result<String, TagParseError>)
        ensures
            final(self)@ == old(self)@.at(final(self)@.position),
            match r {
                Ok(word) => next_word_spec(old(self)@.text, old(self)@.position) == Some(
                    (word@, final(self)@.position),
                ),
                Err(e) => next_word_spec(old(self)@.text, old(self)@.position).is_none() && e@
                    == TagParseErrorView::ArgsExhausted && final(self)@ == old(self)@,
            },
            old(self)@.position <= final(self)@.position <= old(self)@.text.len(),
    {
        self.cursor.next_word()
    }

    /// Reads all that is left, without the whitespace around it. Where only
    /// whitespace is left, nothing is read and the failure is
    /// `ArgsExhausted`.
    pub fn rest(&mut self) -> (r: Result<String, TagParseError>)
        ensures
            match r {
                Ok(rest) => rest_spec(old(self)@.text, old(self)@.position) == Some(rest@)
                    && final(self)@ == old(self)@.at(old(self)@.text.len() as int),
                Err(e) => rest_spec(old(self)@.text, old(self)@.position).is_none() && e@
                    == TagParseErrorView::ArgsExhausted && final(self)@ == old(self)@,
            },
    {
        self.cursor.rest()
    }

    /// All the text that has not been read, as it stands. Nothing is read.
    pub fn rest_all(&self) -> (rest: String)
        ensures
            rest@ == self@.text.skip(self@.position),
    {
        self.cursor.rest_all()
    }
}

/// A parse of structured options, as the parsers see it.
pub struct InteractionCommandView {
    /// The options, in the order in which the command declares them.
    pub options: Seq<CommandDataOption>,
    /// How many options have been read.
    pub position: int,
    /// The attachments that came with the invocation.
    pub attachments: Seq<Attachment>,
    /// The channel in which the command was sent.
    pub channel_id: u64,
    /// The answers supplied so far.
    pub lookups: Lookups,
}

impl InteractionCommandView {
    /// The same parse, read up to `position`.
    pub open spec fn at(self, position: int) -> InteractionCommandView {
        InteractionCommandView { position, ..self }
    }

    /// The option that is read next, if one is left.
    pub open spec fn next(self) -> Option<CommandDataOption> {
        if 0 <= self.position < self.options.len() {
            Some(self.options[self.position])
        } else {
            None
        }
    }
}

/// The options of a structured invocation with what surrounds them.
pub struct InteractionCommandParseCtxt {
    cursor: OptionCursor,
    attachments: Vec<Attachment>,
    channel_id: u64,
    lookups: Lookups,
}

impl View for InteractionCommandParseCtxt {
    type V = InteractionCommandView;

    closed spec fn view(&self) -> InteractionCommandView {
        InteractionCommandView {
            options: self.cursor@.options,
            position: self.cursor@.position,
            attachments: self.attachments@,
            channel_id: self.channel_id,
            lookups: self.lookups,
        }
    }
}

impl InteractionCommandParseCtxt {
    /// A parse of `options` at its start, with nothing looked up yet.
    pub fn new(
        options: Vec<CommandDataOption>,
        attachments: Vec<Attachment>,
        channel_id: u64,
    ) -> (ctxt: InteractionCommandParseCtxt)
        ensures
            ctxt@.options == options@,
            ctxt@.position == 0,
            ctxt@.attachments == attachments@,
            ctxt@.channel_id == channel_id,
            forall|question: LookupView| ctxt@.lookups.text.answer(question).is_none(),
            forall|question: LookupView| ctxt@.lookups.history.answer(question).is_none(),
            forall|question: LookupView| ctxt@.lookups.content.answer(question).is_none(),
    {
        InteractionCommandParseCtxt {
            cursor: OptionCursor::new(options),
            attachments,
            channel_id,
            lookups: Lookups::new(),
        }
    }

    /// How many options have been read; never more than there are.
    pub fn position(&self) -> (position: usize)
        ensures
            position == self@.position,
            position <= self@.options.len(),
    {
        self.cursor.position()
    }

    /// The attachments that came with the invocation.
    pub fn attachments(&self) -> (attachments: &Vec<Attachment>)
        ensures
            attachments@ == self@.attachments,
    {
        &self.attachments
    }

    /// The channel in which the command was sent.
    pub fn channel_id(&self) -> (channel_id: u64)
        ensures
            channel_id == self@.channel_id,
    {
        self.channel_id
    }

    /// The answers supplied so far.
    pub fn lookups(&self) -> (lookups: &Lookups)
        ensures
            *lookups == self@.lookups,
    {
        &self.lookups
    }

    /// Supplies the answer to a question whose answer is text.
    pub fn answer_text(&mut self, question: Lookup, answer: Result<String, String>)
        ensures
            final(self)@ == (InteractionCommandView {
                lookups: final(self)@.lookups,
                ..old(self)@
            }),
            final(self)@.lookups.history == old(self)@.lookups.history,
            final(self)@.lookups.content == old(self)@.lookups.content,
            forall|q: LookupView| #[trigger]
                final(self)@.lookups.text.answer(q) == (if old(self)@.lookups.text.answer(q).is_some() {
                    old(self)@.lookups.text.answer(q)
                } else if question@ == q {
                    Some(answer_view(answer))
                } else {
                    None
                }),
            final(self)@.lookups.extends(&old(self)@.lookups),
    {
        self.lookups.text.record(question, answer);
    }

    /// Supplies the recent messages of a channel.
    pub fn answer_history(&mut self, question: Lookup, answer: Result<Vec<Message>, String>)
        ensures
            final(self)@ == (InteractionCommandView {
                lookups: final(self)@.lookups,
                ..old(self)@
            }),
            final(self)@.lookups.text == old(self)@.lookups.text,
            final(self)@.lookups.content == old(self)@.lookups.content,
            forall|q: LookupView| #[trigger]
                final(self)@.lookups.history.answer(q) == (if old(self)@.lookups.history.answer(q).is_some() {
                    old(self)@.lookups.history.answer(q)
                } else if question@ == q {
                    Some(answer_view(answer))
                } else {
                    None
                }),
            final(self)@.lookups.extends(&old(self)@.lookups),
    {
        self.lookups.history.record(question, answer);
    }

    /// Supplies the bytes of a file.
    pub fn answer_content(&mut self, question: Lookup, answer: Result<Vec<u8>, String>)
        ensures
            final(self)@ == (InteractionCommandView {
                lookups: final(self)@.lookups,
                ..old(self)@
            }),
            final(self)@.lookups.text == old(self)@.lookups.text,
            final(self)@.lookups.history == old(self)@.lookups.history,
            forall|q: LookupView| #[trigger]
                final(self)@.lookups.content.answer(q) == (if old(self)@.lookups.content.answer(q).is_some() {
                    old(self)@.lookups.content.answer(q)
                } else if question@ == q {
                    Some(answer_view(answer))
                } else {
                    None
                }),
            final(self)@.lookups.extends(&old(self)@.lookups),
    {
        self.lookups.content.record(question, answer);
    }

    /// Goes back to the first option.
    pub fn restart(&mut self)
        ensures
            final(self)@ == old(self)@.at(0),
    {
        self.cursor.restart();
    }

    /// Records the position, to go back to it.
    pub fn checkpoint(&self) -> (checkpoint: Checkpoint)
        ensures
            checkpoint.position() == self@.position,
            0 <= checkpoint.position() <= self@.options.len(),
    {
        self.cursor.checkpoint()
    }

    /// Whether a recorded position lies within the options, so that the
    /// parse can go back to it.
    pub fn covers(&self, checkpoint: Checkpoint) -> (b: bool)
        ensures
            b == (checkpoint.position() <= self@.options.len()),
    {
        self.cursor.covers(checkpoint)
    }

    /// Goes back to a recorded position.
    pub fn rewind(&mut self, checkpoint: Checkpoint)
        requires
            checkpoint.position() <= old(self)@.options.len(),
        ensures
            final(self)@ == old(self)@.at(checkpoint.position()),
    {
        self.cursor.rewind(checkpoint);
    }

    /// Reads the next option. Where none is left, nothing is read and the
    /// failure is `ArgsExhausted`.
    pub fn next_option(&mut self) -> (r: Result<CommandDataOption, TagParseError>)
        ensures
            match r {
                Ok(option) => old(self)@.next() == Some(option) && final(self)@ == old(self)@.at(
                    old(self)@.position + 1,
                ),
                Err(e) => old(self)@.next().is_none() && e@ == TagParseErrorView::ArgsExhausted
                    && final(self)@ == old(self)@,
            },
    {
        self.cursor.next_option()
    }
}

} // verus!
