//! Cursors over the two inputs of a parse: the text after a command name,
//! read word by word, and the options of a structured invocation, read one
//! by one.
//!
//! A cursor is a position into input that never changes, so a parser that
//! failed can be undone exactly: record the position before it runs and go
//! back to it.

use crate::error::{OptionKind, TagParseError, TagParseErrorView};
use crate::text::{
    chars_of, is_space, is_space_char, lemma_skip_spaces, skip_spaces, skip_spaces_in, string_from,
    word_end, word_end_in,
};
use vstd::prelude::*;

verus! {

/// A position that a cursor was at, to go back to.
#[derive(Clone, Copy, Debug, PartialEq, Eq)]
pub struct Checkpoint {
    position: usize,
}

impl Checkpoint {
    /// The recorded position.
    pub closed spec fn position(self) -> int {
        self.position as int
    }
}

/// Where the text before position `n` ends once the whitespace at its end
/// is taken off.
pub open spec fn content_end(s: Seq<char>, n: int) -> int
    decreases n,
{
    if 0 < n <= s.len() && is_space(s[n - 1]) {
        content_end(s, n - 1)
    } else {
        n
    }
}

/// The next word of `text` after `position` and where it ends, if a word is
/// left.
pub open spec fn next_word_spec(text: Seq<char>, position: int) -> Option<(Seq<char>, int)> {
    let start = skip_spaces(text, position);
    if 0 <= position && start < text.len() {
        Some((text.subrange(start, word_end(text, start)), word_end(text, start)))
    } else {
        None
    }
}

/// What is left of `text` after `position`, without the whitespace around
/// it, if anything but whitespace is left.
pub open spec fn rest_spec(text: Seq<char>, position: int) -> Option<Seq<char>> {
    let start = skip_spaces(text, position);
    if 0 <= position && start < text.len() {
        Some(text.subrange(start, content_end(text, text.len() as int)))
    } else {
        None
    }
}

/// The content of `s` before `n` ends after its last character that is no
/// whitespace.
pub proof fn lemma_content_end(s: Seq<char>, n: int, start: int)
    requires
        0 <= start < n <= s.len(),
        !is_space(s[start]),
    ensures
        start < content_end(s, n) <= n,
    decreases n,
{
    if is_space(s[n - 1]) {
        lemma_content_end(s, n - 1, start);
    }
}

/// A token cursor, as the parsers see it.
pub struct TokenCursorView {
    /// The text after the command name.
    pub text: Seq<char>,
    /// How far the text has been read.
    pub position: int,
}

/// The text after a command name and how far it has been read.
pub struct TokenCursor {
    chars: Vec<char>,
    pos: usize,
}

impl View for TokenCursor {
    type V = TokenCursorView;

    closed spec fn view(&self) -> TokenCursorView {
        TokenCursorView { text: self.chars@, position: self.pos as int }
    }
}

impl TokenCursor {
    #[verifier::type_invariant]
    spec fn within_text(self) -> bool {
        self.pos <= self.chars.len()
    }

    /// A cursor at the start of `text`.
    pub fn new(text: &str) -> (cursor: TokenCursor)
        ensures
            cursor@.text == text@,
            cursor@.position == 0,
    {
        TokenCursor { chars: chars_of(text), pos: 0 }
    }

    /// How far the text has been read; never beyond its end.
    pub fn position(&self) -> (position: usize)
        ensures
            position == self@.position,
            position <= self@.text.len(),
    {
        proof {
            use_type_invariant(self);
        }
        self.pos
    }

    /// Goes back to the start of the text.
    pub fn restart(&mut self)
        ensures
            final(self)@.text == old(self)@.text,
            final(self)@.position == 0,
    {
        self.pos = 0;
    }

    /// Records the position, to go back to it.
    pub fn checkpoint(&self) -> (checkpoint: Checkpoint)
        ensures
            checkpoint.position() == self@.position,
            0 <= checkpoint.position() <= self@.text.len(),
    {
        proof {
            use_type_invariant(self);
        }
        Checkpoint { position: self.pos }
    }

    /// Whether a recorded position lies within the text, so that the cursor
    /// can go back to it.
    pub fn covers(&self, checkpoint: Checkpoint) -> (b: bool)
        ensures
            b == (checkpoint.position() <= self@.text.len()),
    {
        checkpoint.position <= self.chars.len()
    }

    /// Goes back to a recorded position.
    pub fn rewind(&mut self, checkpoint: Checkpoint)
        requires
            checkpoint.position() <= old(self)@.text.len(),
        ensures
            final(self)@.text == old(self)@.text,
            final(self)@.position == checkpoint.position(),
    {
        self.pos = checkpoint.position;
    }

    /// Reads the next word. Where only whitespace is left, nothing is read
    /// and the failure is `ArgsExhausted`.
    pub fn next_word(&mut self) -> (r: Result<String, TagParseError>)
        ensures
            final(self)@.text == old(self)@.text,
            match r {
                Ok(word) => next_word_spec(old(self)@.text, old(self)@.position) == Some(
                    (word@, final(self)@.position),
                ),
                Err(e) => next_word_spec(old(self)@.text, old(self)@.position).is_none() && e@
                    == TagParseErrorView::ArgsExhausted && final(self)@.position == old(
                    self,
                )@.position,
            },
            old(self)@.position <= final(self)@.position <= old(self)@.text.len(),
    {
        proof {
            use_type_invariant(&*self);
        }
        let start: usize = skip_spaces_in(&self.chars, self.pos);
        if start >= self.chars.len() {
            return Err(TagParseError::ArgsExhausted);
        }
        let end: usize = word_end_in(&self.chars, start);
        let word: String = string_from(&self.chars, start, end);
        self.pos = end;
        Ok(word)
    }

    /// Reads all that is left, without the whitespace around it. Where only
    /// whitespace is left, nothing is read and the failure is
    /// `ArgsExhausted`.
    pub fn rest(&mut self) -> (r: Result<String, TagParseError>)
        ensures
            final(self)@.text == old(self)@.text,
            match r {
                Ok(rest) => rest_spec(old(self)@.text, old(self)@.position) == Some(rest@)
                    && final(self)@.position == old(self)@.text.len() && old(self)@.position
                    <= old(self)@.text.len(),
                Err(e) => rest_spec(old(self)@.text, old(self)@.position).is_none() && e@
                    == TagParseErrorView::ArgsExhausted && final(self)@.position == old(
                    self,
                )@.position,
            },
    {
        proof {
            use_type_invariant(&*self);
        }
        let start: usize = skip_spaces_in(&self.chars, self.pos);
        if start >= self.chars.len() {
            return Err(TagParseError::ArgsExhausted);
        }
        proof {
            lemma_skip_spaces(self.chars@, self.pos as int);
            lemma_content_end(self.chars@, self.chars.len() as int, start as int);
        }
        let mut end: usize = self.chars.len();
        while end > 0 && is_space_char(self.chars[end - 1])
            invariant
                end <= self.chars.len(),
                content_end(self.chars@, self.chars.len() as int) == content_end(
                    self.chars@,
                    end as int,
                ),
            decreases end,
        {
            end -= 1;
        }
        let rest: String = string_from(&self.chars, start, end);
        self.pos = self.chars.len();
        Ok(rest)
    }

    /// All the text that has not been read, as it stands. Nothing is read.
    pub fn rest_all(&self) -> (rest: String)
        ensures
            rest@ == self@.text.skip(self@.position),
    {
        proof {
            use_type_invariant(self);
        }
        let rest: String = string_from(&self.chars, self.pos, self.chars.len());
        rest
    }
}

/// The value that a structured option carries.
#[derive(Debug, PartialEq, Eq)]
pub enum CommandOptionValue {
    /// The id of an attachment.
    Attachment(u64),
    Boolean(bool),
    /// The id of a channel.
    Channel(u64),
    /// What the user has typed so far into an option that is being
    /// completed.
    Focused(String),
    Integer(i64),
    /// The id of a user or a role.
    Mentionable(u64),
    /// The bits of a 64-bit floating-point number.
    Number(u64),
    /// The id of a role.
    Role(u64),
    Text(String),
    SubCommand,
    SubCommandGroup,
    /// The id of a user.
    User(u64),
}

impl CommandOptionValue {
    /// The kind of this value.
    pub open spec fn kind_spec(&self) -> OptionKind {
        match self {
            CommandOptionValue::Attachment(_) => OptionKind::Attachment,
            CommandOptionValue::Boolean(_) => OptionKind::Boolean,
            CommandOptionValue::Channel(_) => OptionKind::Channel,
            CommandOptionValue::Focused(_) => OptionKind::Focused,
            CommandOptionValue::Integer(_) => OptionKind::Integer,
            CommandOptionValue::Mentionable(_) => OptionKind::Mentionable,
            CommandOptionValue::Number(_) => OptionKind::Number,
            CommandOptionValue::Role(_) => OptionKind::Role,
            CommandOptionValue::Text(_) => OptionKind::Text,
            CommandOptionValue::SubCommand => OptionKind::SubCommand,
            CommandOptionValue::SubCommandGroup => OptionKind::SubCommandGroup,
            CommandOptionValue::User(_) => OptionKind::User,
        }
    }

    /// The kind of this value.
    #[verifier::when_used_as_spec(kind_spec)]
    pub fn kind(&self) -> (kind: OptionKind)
        ensures
            kind == self.kind_spec(),
    {
        match self {
            CommandOptionValue::Attachment(_) => OptionKind::Attachment,
            CommandOptionValue::Boolean(_) => OptionKind::Boolean,
            CommandOptionValue::Channel(_) => OptionKind::Channel,
            CommandOptionValue::Focused(_) => OptionKind::Focused,
            CommandOptionValue::Integer(_) => OptionKind::Integer,
            CommandOptionValue::Mentionable(_) => OptionKind::Mentionable,
            CommandOptionValue::Number(_) => OptionKind::Number,
            CommandOptionValue::Role(_) => OptionKind::Role,
            CommandOptionValue::Text(_) => OptionKind::Text,
            CommandOptionValue::SubCommand => OptionKind::SubCommand,
            CommandOptionValue::SubCommandGroup => OptionKind::SubCommandGroup,
            CommandOptionValue::User(_) => OptionKind::User,
        }
    }
}

impl Clone for CommandOptionValue {
    fn clone(&self) -> (copy: CommandOptionValue)
        ensures
            copy == *self,
    {
        match self {
            CommandOptionValue::Attachment(id) => CommandOptionValue::Attachment(*id),
            CommandOptionValue::Boolean(b) => CommandOptionValue::Boolean(*b),
            CommandOptionValue::Channel(id) => CommandOptionValue::Channel(*id),
            CommandOptionValue::Focused(typed) => CommandOptionValue::Focused(typed.clone()),
            CommandOptionValue::Integer(n) => CommandOptionValue::Integer(*n),
            CommandOptionValue::Mentionable(id) => CommandOptionValue::Mentionable(*id),
            CommandOptionValue::Number(bits) => CommandOptionValue::Number(*bits),
            CommandOptionValue::Role(id) => CommandOptionValue::Role(*id),
            CommandOptionValue::Text(text) => CommandOptionValue::Text(text.clone()),
            CommandOptionValue::SubCommand => CommandOptionValue::SubCommand,
            CommandOptionValue::SubCommandGroup => CommandOptionValue::SubCommandGroup,
            CommandOptionValue::User(id) => CommandOptionValue::User(*id),
        }
    }
}

/// One option of a structured invocation.
#[derive(Clone, Debug, PartialEq, Eq)]
pub struct CommandDataOption {
    pub name: String,
    pub value: CommandOptionValue,
}

/// An option cursor, as the parsers see it.
pub struct OptionCursorView {
    /// The options, in the order in which the command declares them.
    pub options: Seq<CommandDataOption>,
    /// How many options have been read.
    pub position: int,
}

impl OptionCursorView {
    /// The option that is read next, if one is left.
    pub open spec fn next(self) -> Option<CommandDataOption> {
        if 0 <= self.position < self.options.len() {
            Some(self.options[self.position])
        } else {
            None
        }
    }
}

/// The options of a structured invocation and how many have been read.
pub struct OptionCursor {
    options: Vec<CommandDataOption>,
    pos: usize,
}

impl View for OptionCursor {
    type V = OptionCursorView;

    closed spec fn view(&self) -> OptionCursorView {
        OptionCursorView { options: self.options@, position: self.pos as int }
    }
}

impl OptionCursor {
    #[verifier::type_invariant]
    spec fn within_options(self) -> bool {
        self.pos <= self.options.len()
    }

    /// A cursor before the first of `options`.
    pub fn new(options: Vec<CommandDataOption>) -> (cursor: OptionCursor)
        ensures
            cursor@.options == options@,
            cursor@.position == 0,
    {
        OptionCursor { options, pos: 0 }
    }

    /// How many options have been read; never more than there are.
    pub fn position(&self) -> (position: usize)
        ensures
            position == self@.position,
            position <= self@.options.len(),
    {
        proof {
            use_type_invariant(self);
        }
        self.pos
    }

    /// Goes back to the first option.
    pub fn restart(&mut self)
        ensures
            final(self)@.options == old(self)@.options,
            final(self)@.position == 0,
    {
        self.pos = 0;
    }

    /// Records the position, to go back to it.
    pub fn checkpoint(&self) -> (checkpoint: Checkpoint)
        ensures
            checkpoint.position() == self@.position,
            0 <= checkpoint.position() <= self@.options.len(),
    {
        proof {
            use_type_invariant(self);
        }
        Checkpoint { position: self.pos }
    }

    /// Whether a recorded position lies within the options, so that the
    /// cursor can go back to it.
    pub fn covers(&self, checkpoint: Checkpoint) -> (b: bool)
        ensures
            b == (checkpoint.position() <= self@.options.len()),
    {
        checkpoint.position <= self.options.len()
    }

    /// Goes back to a recorded position.
    pub fn rewind(&mut self, checkpoint: Checkpoint)
        requires
            checkpoint.position() <= old(self)@.options.len(),
        ensures
            final(self)@.options == old(self)@.options,
            final(self)@.position == checkpoint.position(),
    {
        self.pos = checkpoint.position;
    }

    /// Reads the next option. Where none is left, nothing is read and the
    /// failure is `ArgsExhausted`.
    pub fn next_option(&mut self) -> (r: Result<CommandDataOption, TagParseError>)
        ensures
            final(self)@.options == old(self)@.options,
            match r {
                Ok(option) => old(self)@.next() == Some(option) && final(self)@.position == old(
                    self,
                )@.position + 1,
                Err(e) => old(self)@.next().is_none() && e@ == TagParseErrorView::ArgsExhausted
                    && final(self)@.position == old(self)@.position,
            },
    {
        proof {
            use_type_invariant(&*self);
        }
        if self.pos >= self.options.len() {
            return Err(TagParseError::ArgsExhausted);
        }
        let option = CommandDataOption {
            name: self.options[self.pos].name.clone(),
            value: self.options[self.pos].value.clone(),
        };
        self.pos = self.pos + 1;
        Ok(option)
    }
}

} // verus!
