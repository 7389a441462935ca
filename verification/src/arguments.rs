//! The types that a command can take as arguments.
//!
//! Every argument type is parsed from free text and from structured options,
//! and describes the option that stands for it in a structured invocation.

use crate::context::{
    InteractionCommandParseCtxt, InteractionCommandView, RawMessageParseCtxt, RawMessageView,
};
use crate::cursor::{next_word_spec, rest_spec, CommandOptionValue};
use crate::duration::{parse_to_millis, parse_to_millis_spec};
use crate::error::{ErrorSeverity, OptionKind, TagParseError, TagParseErrorView};
use crate::number::{parse_u64, parse_u64_spec};
use crate::text::{
    chars_of, lemma_skip_spaces, lemma_word_end, skip_spaces, split_words, words, words_end,
    words_from,
};
use vstd::prelude::*;

verus! {

/// The option that stands for an argument in a structured invocation.
#[derive(Clone, Debug, PartialEq, Eq)]
pub struct CommandOption {
    pub name: String,
    pub description: String,
    /// The kind of value that the option carries.
    pub kind: OptionKind,
    /// Whether the option must be given.
    pub required: bool,
}

/// A `CommandOption` with its strings as sequences of characters.
pub struct CommandOptionView {
    pub name: Seq<char>,
    pub description: Seq<char>,
    pub kind: OptionKind,
    pub required: bool,
}

impl View for CommandOption {
    type V = CommandOptionView;

    open spec fn view(&self) -> CommandOptionView {
        CommandOptionView {
            name: self.name@,
            description: self.description@,
            kind: self.kind,
            required: self.required,
        }
    }
}

/// A parsed value, or the failure, with strings as sequences of characters.
pub open spec fn parsed_view<T: DeepView>(r: Result<T, TagParseError>) -> Result<
    T::V,
    TagParseErrorView,
> {
    match r {
        Ok(value) => Ok(value.deep_view()),
        Err(e) => Err(e@),
    }
}

/// A type that a command can take as an argument.
pub trait ParseArgument: Sized + DeepView {
    /// What parsing from free text yields, and the position at which it
    /// leaves the text.
    spec fn raw_message_spec(ctxt: RawMessageView) -> (
        Result<<Self as DeepView>::V, TagParseErrorView>,
        int,
    );

    /// What parsing from structured options yields, and the position at
    /// which it leaves the options.
    spec fn command_option_spec(ctxt: InteractionCommandView) -> (
        Result<<Self as DeepView>::V, TagParseErrorView>,
        int,
    );

    /// The option that stands for an argument of this type under `name`.
    spec fn option_spec(name: Seq<char>) -> CommandOptionView;

    /// Parses `Self` from the text of a message. Only the position of
    /// `ctxt` changes.
    fn parse_raw_message(ctxt: &mut RawMessageParseCtxt) -> (r: Result<Self, TagParseError>)
        ensures
            parsed_view(r) == Self::raw_message_spec(old(ctxt)@).0,
            final(ctxt)@ == old(ctxt)@.at(Self::raw_message_spec(old(ctxt)@).1),
    ;

    /// Parses `Self` from the options of a structured invocation. Only the
    /// position of `ctxt` changes.
    fn parse_command_option(ctxt: &mut InteractionCommandParseCtxt) -> (r: Result<
        Self,
        TagParseError,
    >)
        ensures
            parsed_view(r) == Self::command_option_spec(old(ctxt)@).0,
            final(ctxt)@ == old(ctxt)@.at(Self::command_option_spec(old(ctxt)@).1),
    ;

    /// Describes the option that stands for an argument of this type.
    fn as_command_option(name: &str) -> (option: CommandOption)
        ensures
            option@ == Self::option_spec(name@),
    ;
}

/// The option `name` with the given description and kind.
pub fn build_option(name: &str, description: &str, kind: OptionKind, required: bool) -> (option:
    CommandOption)
    ensures
        option@ == (CommandOptionView {
            name: name@,
            description: description@,
            kind,
            required,
        }),
{
    CommandOption { name: name.to_owned(), description: description.to_owned(), kind, required }
}

/// Reads the next option and takes its text. Another kind of value is a
/// failure that names what was `expected`.
pub fn next_text_option(ctxt: &mut InteractionCommandParseCtxt, expected: &'static str) -> (r:
    Result<String, TagParseError>)
    ensures
        parsed_view(r) == next_text_spec(old(ctxt)@, expected@).0,
        final(ctxt)@ == old(ctxt)@.at(next_text_spec(old(ctxt)@, expected@).1),
{
    match ctxt.next_option() {
        Ok(option) => {
            match option.value {
                CommandOptionValue::Text(text) => Ok(text),
                other => Err(TagParseError::MismatchedCommandOptionType(expected, other)),
            }
        },
        Err(e) => Err(e),
    }
}

/// The text of the next option, and the position after it.
pub open spec fn next_text_spec(ctxt: InteractionCommandView, expected: Seq<char>) -> (
    Result<Seq<char>, TagParseErrorView>,
    int,
) {
    match ctxt.next() {
        Some(option) => (
            match option.value {
                CommandOptionValue::Text(text) => Ok(text@),
                other => Err(
                    TagParseErrorView::MismatchedCommandOptionType(expected, other),
                ),
            },
            ctxt.position + 1,
        ),
        None => (Err(TagParseErrorView::ArgsExhausted), ctxt.position),
    }
}

impl ParseArgument for u64 {
    open spec fn raw_message_spec(ctxt: RawMessageView) -> (Result<u64, TagParseErrorView>, int) {
        match next_word_spec(ctxt.text, ctxt.position) {
            Some((word, end)) => (
                match parse_u64_spec(word) {
                    Some(n) => Ok(n),
                    None => Err(TagParseErrorView::InvalidNumber),
                },
                end,
            ),
            None => (Err(TagParseErrorView::ArgsExhausted), ctxt.position),
        }
    }

    open spec fn command_option_spec(ctxt: InteractionCommandView) -> (
        Result<u64, TagParseErrorView>,
        int,
    ) {
        match ctxt.next() {
            Some(option) => (
                match option.value {
                    CommandOptionValue::Integer(n) => Ok(n as u64),
                    other => Err(
                        TagParseErrorView::MismatchedCommandOptionType("u64"@, other),
                    ),
                },
                ctxt.position + 1,
            ),
            None => (Err(TagParseErrorView::ArgsExhausted), ctxt.position),
        }
    }

    open spec fn option_spec(name: Seq<char>) -> CommandOptionView {
        CommandOptionView {
            name,
            description: "integer option"@,
            kind: OptionKind::Integer,
            required: true,
        }
    }

    fn parse_raw_message(ctxt: &mut RawMessageParseCtxt) -> (r: Result<u64, TagParseError>) {
        let word: String = ctxt.next_word()?;
        let digits: Vec<char> = chars_of(word.as_str());
        match parse_u64(&digits) {
            Some(n) => Ok(n),
            None => Err(TagParseError::InvalidNumber),
        }
    }

    fn parse_command_option(ctxt: &mut InteractionCommandParseCtxt) -> (r: Result<
        u64,
        TagParseError,
    >) {
        let next: CommandOptionValue = ctxt.next_option()?.value;
        match next {
            CommandOptionValue::Integer(option) => Ok(option as u64),
            other => Err(TagParseError::MismatchedCommandOptionType("u64", other)),
        }
    }

    fn as_command_option(name: &str) -> (option: CommandOption) {
        build_option(name, "integer option", OptionKind::Integer, true)
    }
}

/// A single word argument.
#[derive(Clone, Debug, PartialEq, Eq)]
pub struct Word(pub String);

impl DeepView for Word {
    type V = Seq<char>;

    open spec fn deep_view(&self) -> Seq<char> {
        self.0@
    }
}

impl ParseArgument for Word {
    open spec fn raw_message_spec(ctxt: RawMessageView) -> (
        Result<Seq<char>, TagParseErrorView>,
        int,
    ) {
        match next_word_spec(ctxt.text, ctxt.position) {
            Some((word, end)) => (Ok(word), end),
            None => (Err(TagParseErrorView::ArgsExhausted), ctxt.position),
        }
    }

    open spec fn command_option_spec(ctxt: InteractionCommandView) -> (
        Result<Seq<char>, TagParseErrorView>,
        int,
    ) {
        next_text_spec(ctxt, "String"@)
    }

    open spec fn option_spec(name: Seq<char>) -> CommandOptionView {
        CommandOptionView {
            name,
            description: "word input"@,
            kind: OptionKind::Text,
            required: true,
        }
    }

    fn parse_raw_message(ctxt: &mut RawMessageParseCtxt) -> (r: Result<Word, TagParseError>) {
        Ok(Word(ctxt.next_word()?))
    }

    fn parse_command_option(ctxt: &mut InteractionCommandParseCtxt) -> (r: Result<
        Word,
        TagParseError,
    >) {
        Ok(Word(next_text_option(ctxt, "String")?))
    }

    fn as_command_option(name: &str) -> (option: CommandOption) {
        build_option(name, "word input", OptionKind::Text, true)
    }
}

/// The rest of a message as an argument. This should be the last argument
/// if used.
#[derive(Clone, Debug, PartialEq, Eq)]
pub struct Rest(pub String);

impl DeepView for Rest {
    type V = Seq<char>;

    open spec fn deep_view(&self) -> Seq<char> {
        self.0@
    }
}

impl ParseArgument for Rest {
    open spec fn raw_message_spec(ctxt: RawMessageView) -> (
        Result<Seq<char>, TagParseErrorView>,
        int,
    ) {
        match rest_spec(ctxt.text, ctxt.position) {
            Some(rest) => (Ok(rest), ctxt.text.len() as int),
            None => (Err(TagParseErrorView::ArgsExhausted), ctxt.position),
        }
    }

    open spec fn command_option_spec(ctxt: InteractionCommandView) -> (
        Result<Seq<char>, TagParseErrorView>,
        int,
    ) {
        next_text_spec(ctxt, "String (Rest)"@)
    }

    open spec fn option_spec(name: Seq<char>) -> CommandOptionView {
        CommandOptionView {
            name,
            description: "text input"@,
            kind: OptionKind::Text,
            required: true,
        }
    }

    fn parse_raw_message(ctxt: &mut RawMessageParseCtxt) -> (r: Result<Rest, TagParseError>) {
        Ok(Rest(ctxt.rest()?))
    }

    fn parse_command_option(ctxt: &mut InteractionCommandParseCtxt) -> (r: Result<
        Rest,
        TagParseError,
    >) {
        Ok(Rest(next_text_option(ctxt, "String (Rest)")?))
    }

    fn as_command_option(name: &str) -> (option: CommandOption) {
        build_option(name, "text input", OptionKind::Text, true)
    }
}

/// A time argument such as `1h20m30s`.
#[derive(Clone, Copy, Debug, PartialEq, Eq)]
pub struct Time {
    pub millis: u64,
}

impl DeepView for Time {
    type V = Time;

    open spec fn deep_view(&self) -> Time {
        *self
    }
}

/// What a word denotes as a time.
pub open spec fn time_of(word: Seq<char>) -> Result<Time, TagParseErrorView> {
    match parse_to_millis_spec(word) {
        Some(millis) => Ok(Time { millis }),
        None => Err(TagParseErrorView::InvalidTime),
    }
}

impl ParseArgument for Time {
    open spec fn raw_message_spec(ctxt: RawMessageView) -> (Result<Time, TagParseErrorView>, int) {
        match next_word_spec(ctxt.text, ctxt.position) {
            Some((word, end)) => (time_of(word), end),
            None => (Err(TagParseErrorView::ArgsExhausted), ctxt.position),
        }
    }

    open spec fn command_option_spec(ctxt: InteractionCommandView) -> (
        Result<Time, TagParseErrorView>,
        int,
    ) {
        match next_text_spec(ctxt, "String (time)"@) {
            (Ok(text), position) => (time_of(text), position),
            (Err(e), position) => (Err(e), position),
        }
    }

    open spec fn option_spec(name: Seq<char>) -> CommandOptionView {
        CommandOptionView {
            name,
            description: "time input"@,
            kind: OptionKind::Text,
            required: true,
        }
    }

    fn parse_raw_message(ctxt: &mut RawMessageParseCtxt) -> (r: Result<Time, TagParseError>) {
        let word: String = ctxt.next_word()?;
        let chars: Vec<char> = chars_of(word.as_str());
        match parse_to_millis(&chars) {
            Some(millis) => Ok(Time { millis }),
            None => Err(TagParseError::InvalidTime),
        }
    }

    fn parse_command_option(ctxt: &mut InteractionCommandParseCtxt) -> (r: Result<
        Time,
        TagParseError,
    >) {
        let text: String = next_text_option(ctxt, "String (time)")?;
        let chars: Vec<char> = chars_of(text.as_str());
        match parse_to_millis(&chars) {
            Some(millis) => Ok(Time { millis }),
            None => Err(TagParseError::InvalidTime),
        }
    }

    fn as_command_option(name: &str) -> (option: CommandOption) {
        build_option(name, "time input", OptionKind::Text, true)
    }
}

impl<T: ParseArgument> ParseArgument for Option<T> {
    open spec fn raw_message_spec(ctxt: RawMessageView) -> (
        Result<Option<T::V>, TagParseErrorView>,
        int,
    ) {
        match T::raw_message_spec(ctxt) {
            (Ok(value), position) => (Ok(Some(value)), position),
            (Err(e), position) => if e.is_high() {
                (Err(e), position)
            } else {
                (Ok(None), ctxt.position)
            },
        }
    }

    open spec fn command_option_spec(ctxt: InteractionCommandView) -> (
        Result<Option<T::V>, TagParseErrorView>,
        int,
    ) {
        match T::command_option_spec(ctxt) {
            (Ok(value), position) => (Ok(Some(value)), position),
            (Err(e), position) => if e.is_high() {
                (Err(e), position)
            } else {
                (Ok(None), ctxt.position)
            },
        }
    }

    open spec fn option_spec(name: Seq<char>) -> CommandOptionView {
        CommandOptionView { required: false, ..T::option_spec(name) }
    }

    /// Tries `T`. A failure of low severity is undone: the text is left as
    /// it was found, and the argument is absent.
    fn parse_raw_message(ctxt: &mut RawMessageParseCtxt) -> (r: Result<Option<T>, TagParseError>)
        ensures
            r matches Ok(None) ==> final(ctxt)@ == old(ctxt)@,
    {
        let checkpoint = ctxt.checkpoint();
        match T::parse_raw_message(ctxt) {
            Ok(v) => Ok(Some(v)),
            Err(err) => {
                if err.get_severity() == ErrorSeverity::High {
                    Err(err)
                } else {
                    ctxt.rewind(checkpoint);
                    Ok(None)
                }
            },
        }
    }

    /// Tries `T`. A failure of low severity is undone: the options are left
    /// as they were found, and the argument is absent.
    fn parse_command_option(ctxt: &mut InteractionCommandParseCtxt) -> (r: Result<
        Option<T>,
        TagParseError,
    >)
        ensures
            r matches Ok(None) ==> final(ctxt)@ == old(ctxt)@,
    {
        let checkpoint = ctxt.checkpoint();
        match T::parse_command_option(ctxt) {
            Ok(v) => Ok(Some(v)),
            Err(err) => {
                if err.get_severity() == ErrorSeverity::High {
                    Err(err)
                } else {
                    ctxt.rewind(checkpoint);
                    Ok(None)
                }
            },
        }
    }

    fn as_command_option(name: &str) -> (option: CommandOption) {
        let mut option = T::as_command_option(name);
        option.required = false;
        option
    }
}

impl ParseArgument for Vec<Word> {
    open spec fn raw_message_spec(ctxt: RawMessageView) -> (
        Result<Seq<Seq<char>>, TagParseErrorView>,
        int,
    ) {
        (Ok(words_from(ctxt.text, ctxt.position)), words_end(ctxt.text, ctxt.position))
    }

    open spec fn command_option_spec(ctxt: InteractionCommandView) -> (
        Result<Seq<Seq<char>>, TagParseErrorView>,
        int,
    ) {
        match next_text_spec(ctxt, "String"@) {
            (Ok(text), position) => (Ok(words(text)), position),
            (Err(e), position) => (Err(e), position),
        }
    }

    open spec fn option_spec(name: Seq<char>) -> CommandOptionView {
        CommandOptionView {
            name,
            description: "text input"@,
            kind: OptionKind::Text,
            required: true,
        }
    }

    /// Reads words until none is left.
    fn parse_raw_message(ctxt: &mut RawMessageParseCtxt) -> (r: Result<Vec<Word>, TagParseError>) {
        let mut items: Vec<Word> = Vec::new();
        let ghost start = ctxt@;
        let _: usize = ctxt.position();
        loop
            invariant
                ctxt@ == start.at(ctxt@.position),
                0 <= start.position <= ctxt@.position <= start.text.len(),
                items.deep_view() + words_from(start.text, ctxt@.position) == words_from(
                    start.text,
                    start.position,
                ),
                words_end(start.text, ctxt@.position) == words_end(start.text, start.position),
            ensures
                ctxt@ == start.at(words_end(start.text, start.position)),
                items.deep_view() == words_from(start.text, start.position),
            decreases start.text.len() - ctxt@.position,
        {
            let ghost before = ctxt@;
            proof {
                lemma_skip_spaces(start.text, before.position);
                if skip_spaces(start.text, before.position) < start.text.len() {
                    lemma_word_end(start.text, skip_spaces(start.text, before.position));
                }
            }
            match <Option<Word>>::parse_raw_message(ctxt) {
                Ok(Some(value)) => {
                    items.push(value);
                },
                Ok(None) => {
                    break ;
                },
                Err(e) => {
                    return Err(e);
                },
            }
        }
        Ok(items)
    }

    /// Reads one option and splits its text into words.
    fn parse_command_option(ctxt: &mut InteractionCommandParseCtxt) -> (r: Result<
        Vec<Word>,
        TagParseError,
    >) {
        let text: Word = Word::parse_command_option(ctxt)?;
        let chars: Vec<char> = chars_of(text.0.as_str());
        let split: Vec<String> = split_words(&chars);
        let mut items: Vec<Word> = Vec::new();
        let mut i: usize = 0;
        while i < split.len()
            invariant
                i <= split.len(),
                items.deep_view() == split.deep_view().take(i as int),
            decreases split.len() - i,
        {
            let word: String = split[i].clone();
            items.push(Word(word));
            assert(split.deep_view().take(i + 1) =~= split.deep_view().take(i as int).push(
                split[i as int]@,
            ));
            i += 1;
        }
        assert(split.deep_view().take(split.len() as int) =~= split.deep_view());
        Ok(items)
    }

    fn as_command_option(name: &str) -> (option: CommandOption) {
        build_option(name, "text input", OptionKind::Text, true)
    }
}

/// An optional argument that is absent has read nothing: whenever parsing
/// `Option<T>` from text yields no value, the text is left at the position
/// at which it was found.
pub proof fn lemma_absent_reads_nothing<T: ParseArgument>(ctxt: RawMessageView)
    ensures
        Option::<T>::raw_message_spec(ctxt).0 == Ok::<Option<T::V>, TagParseErrorView>(None)
            ==> Option::<T>::raw_message_spec(ctxt).1 == ctxt.position,
{
}

/// The same for structured options: whenever parsing `Option<T>` yields no
/// value, no option has been read.
pub proof fn lemma_absent_reads_no_option<T: ParseArgument>(ctxt: InteractionCommandView)
    ensures
        Option::<T>::command_option_spec(ctxt).0 == Ok::<Option<T::V>, TagParseErrorView>(None)
            ==> Option::<T>::command_option_spec(ctxt).1 == ctxt.position,
{
}

/// An optional argument is described as not required, and is absent where
/// its option is missing: if `T` fails with low severity on options of
/// which none is left, `Option<T>` yields no value and reads nothing.
pub proof fn lemma_optional_matches_missing<T: ParseArgument>(
    ctxt: InteractionCommandView,
    name: Seq<char>,
)
    requires
        ctxt.next().is_none(),
        T::command_option_spec(ctxt).0 matches Err(e) && e.is_low(),
    ensures
        !Option::<T>::option_spec(name).required,
        Option::<T>::command_option_spec(ctxt) == (
            Ok::<Option<T::V>, TagParseErrorView>(None),
            ctxt.position,
        ),
{
}

/// Numbers, words, the rest of a message, times and lists of words are
/// described as required, and fail where their option is missing: with
/// `ArgsExhausted`, which is of low severity, and without reading anything.
pub proof fn lemma_required_matches_missing(ctxt: InteractionCommandView, name: Seq<char>)
    requires
        ctxt.next().is_none(),
    ensures
        TagParseErrorView::ArgsExhausted.is_low(),
        <u64 as ParseArgument>::option_spec(name).required,
        <u64 as ParseArgument>::command_option_spec(ctxt) == (
            Err::<u64, TagParseErrorView>(TagParseErrorView::ArgsExhausted),
            ctxt.position,
        ),
        <Word as ParseArgument>::option_spec(name).required,
        <Word as ParseArgument>::command_option_spec(ctxt) == (
            Err::<Seq<char>, TagParseErrorView>(TagParseErrorView::ArgsExhausted),
            ctxt.position,
        ),
        <Rest as ParseArgument>::option_spec(name).required,
        <Rest as ParseArgument>::command_option_spec(ctxt) == (
            Err::<Seq<char>, TagParseErrorView>(TagParseErrorView::ArgsExhausted),
            ctxt.position,
        ),
        <Time as ParseArgument>::option_spec(name).required,
        <Time as ParseArgument>::command_option_spec(ctxt) == (
            Err::<Time, TagParseErrorView>(TagParseErrorView::ArgsExhausted),
            ctxt.position,
        ),
        <Vec<Word> as ParseArgument>::option_spec(name).required,
        <Vec<Word> as ParseArgument>::command_option_spec(ctxt) == (
            Err::<Seq<Seq<char>>, TagParseErrorView>(TagParseErrorView::ArgsExhausted),
            ctxt.position,
        ),
{
}

} // verus!
