//! The flag mini-language: `--name` and `--name value` after a command.

use crate::arguments::{build_option, CommandOption, CommandOptionView, ParseArgument};
use crate::context::{
    InteractionCommandParseCtxt, InteractionCommandView, RawMessageParseCtxt, RawMessageView,
};
use crate::cursor::CommandOptionValue;
use crate::error::{FlagError, FlagErrorView, OptionKind, TagParseError, TagParseErrorView};
use crate::number::{parse_u64, parse_u64_spec};
use crate::text::{
    chars_of, lemma_skip_spaces, lemma_word_end, skip_spaces_in, string_from, word_end_in, words,
    words_from,
};
use vstd::hash_map::StringHashMap;
use vstd::prelude::*;

verus! {

/// Whether a flag is followed by a value.
#[derive(Clone, Copy, Debug, PartialEq, Eq, Structural)]
pub enum FlagType {
    WithValue,
    NoValue,
}

/// The flags that a command declares, each with its arity.
pub struct ValidFlags {
    flags: StringHashMap<FlagType>,
}

impl View for ValidFlags {
    type V = Map<Seq<char>, FlagType>;

    closed spec fn view(&self) -> Map<Seq<char>, FlagType> {
        self.flags@
    }
}

impl ValidFlags {
    /// Declares nothing.
    pub fn new() -> (valid: ValidFlags)
        ensures
            valid@ == Map::<Seq<char>, FlagType>::empty(),
    {
        ValidFlags { flags: StringHashMap::new() }
    }

    /// Declares the flag `name`; a later declaration of a name replaces an
    /// earlier one.
    pub fn insert(&mut self, name: &str, flag_type: FlagType)
        ensures
            final(self)@ == old(self)@.insert(name@, flag_type),
    {
        self.flags.insert(name.to_owned(), flag_type);
    }

    /// The arity of the flag `name`, if it is declared.
    pub fn get(&self, name: &str) -> (flag_type: Option<FlagType>)
        ensures
            flag_type == (if self@.contains_key(name@) {
                Some(self@[name@])
            } else {
                None
            }),
    {
        match self.flags.get(name) {
            Some(flag_type) => Some(*flag_type),
            None => None,
        }
    }
}

/// The flags found in an input: each name with its value, or with no value
/// where the flag takes none. A flag that was not given has no entry.
pub struct FlagSet {
    values: StringHashMap<Option<String>>,
}

impl View for FlagSet {
    type V = Map<Seq<char>, Option<Seq<char>>>;

    closed spec fn view(&self) -> Map<Seq<char>, Option<Seq<char>>> {
        Map::new(
            |name: Seq<char>| self.values@.contains_key(name),
            |name: Seq<char>| self.values@[name].deep_view(),
        )
    }
}

impl FlagSet {
    /// No flag.
    pub fn new() -> (set: FlagSet)
        ensures
            set@ == Map::<Seq<char>, Option<Seq<char>>>::empty(),
    {
        let set = FlagSet { values: StringHashMap::new() };
        set
    }

    /// Records the flag `name` with `value`, in place of what was recorded
    /// for that name before.
    pub fn insert(&mut self, name: String, value: Option<String>)
        ensures
            final(self)@ == old(self)@.insert(name@, value.deep_view()),
    {
        self.values.insert(name, value);
    }

    /// What was recorded for the flag `name`: nothing where the flag was not
    /// given, else its value or the absence of one.
    pub fn get(&self, name: &str) -> (value: Option<&Option<String>>)
        ensures
            value.is_some() == self@.contains_key(name@),
            value matches Some(v) ==> v.deep_view() == self@[name@],
    {
        self.values.get(name)
    }

    /// Whether the flag `name` was given.
    pub fn contains(&self, name: &str) -> (given: bool)
        ensures
            given == self@.contains_key(name@),
    {
        self.values.contains_key(name)
    }

    /// How many flags were given.
    pub fn len(&self) -> (n: usize)
        ensures
            n == self@.len(),
    {
        broadcast use vstd::hash_map::group_hash_map_axioms;

        assert(self@.dom() =~= self.values@.dom());
        self.values.len()
    }
}

/// Whether a word names a flag: two dashes and at least one more character.
pub open spec fn is_flag_word(word: Seq<char>) -> bool {
    word.len() > 2 && word[0] == '-' && word[1] == '-'
}

/// The arity rule. The flag `name` is recorded with the value that followed
/// it, if one did. It must be declared; a flag that takes a value must have
/// one, and a flag that takes none must have none.
pub open spec fn settle(
    name: Seq<char>,
    value: Option<Seq<char>>,
    found: Map<Seq<char>, Option<Seq<char>>>,
    valid: Map<Seq<char>, FlagType>,
) -> Result<Map<Seq<char>, Option<Seq<char>>>, FlagErrorView> {
    if !valid.contains_key(name) {
        Err(FlagErrorView::Unrecognised(name))
    } else {
        match (valid[name], value) {
            (FlagType::WithValue, Some(v)) => Ok(found.insert(name, Some(v))),
            (FlagType::WithValue, None) => Err(FlagErrorView::MissingValue(name)),
            (FlagType::NoValue, None) => Ok(found.insert(name, None)),
            (FlagType::NoValue, Some(_)) => Err(FlagErrorView::UnexpectedValue(name)),
        }
    }
}

/// The state of the decoder between two words: the flag that waits for its
/// value or for the next flag, and what has been recorded.
pub struct DecoderState {
    pub pending: Option<Seq<char>>,
    pub found: Map<Seq<char>, Option<Seq<char>>>,
}

/// What one word does to the decoder. A flag word settles the pending flag
/// without a value and becomes pending itself. Another word is the value of
/// the pending flag, or is passed over where none is pending.
pub open spec fn decode_word(
    state: DecoderState,
    word: Seq<char>,
    valid: Map<Seq<char>, FlagType>,
) -> Result<DecoderState, FlagErrorView> {
    if is_flag_word(word) {
        match state.pending {
            None => Ok(DecoderState { pending: Some(word.skip(2)), found: state.found }),
            Some(name) => match settle(name, None, state.found, valid) {
                Ok(found) => Ok(DecoderState { pending: Some(word.skip(2)), found }),
                Err(e) => Err(e),
            },
        }
    } else {
        match state.pending {
            None => Ok(state),
            Some(name) => match settle(name, Some(word), state.found, valid) {
                Ok(found) => Ok(DecoderState { pending: None, found }),
                Err(e) => Err(e),
            },
        }
    }
}

/// What the end of the input does: the pending flag is settled without a
/// value.
pub open spec fn decode_end(state: DecoderState, valid: Map<Seq<char>, FlagType>) -> Result<
    Map<Seq<char>, Option<Seq<char>>>,
    FlagErrorView,
> {
    match state.pending {
        None => Ok(state.found),
        Some(name) => settle(name, None, state.found, valid),
    }
}

/// The decoder run over `words` from `state`, left to right, until the
/// first failure.
pub open spec fn decode_words(
    words: Seq<Seq<char>>,
    state: DecoderState,
    valid: Map<Seq<char>, FlagType>,
) -> Result<Map<Seq<char>, Option<Seq<char>>>, FlagErrorView>
    decreases words.len(),
{
    if words.len() == 0 {
        decode_end(state, valid)
    } else {
        match decode_word(state, words[0], valid) {
            Ok(next) => decode_words(words.drop_first(), next, valid),
            Err(e) => Err(e),
        }
    }
}

/// What an input decodes to against the flags that are declared.
pub open spec fn decode_flags(input: Seq<char>, valid: Map<Seq<char>, FlagType>) -> Result<
    Map<Seq<char>, Option<Seq<char>>>,
    FlagErrorView,
> {
    decode_words(words(input), DecoderState { pending: None, found: Map::empty() }, valid)
}

/// Whether every recorded flag is declared and has a value exactly where
/// its declaration asks for one.
pub open spec fn obeys(
    found: Map<Seq<char>, Option<Seq<char>>>,
    valid: Map<Seq<char>, FlagType>,
) -> bool {
    forall|name: Seq<char>| #[trigger]
        found.contains_key(name) ==> valid.contains_key(name) && (found[name].is_some() <==> valid[name]
            == FlagType::WithValue)
}

/// The decoder records only declared flags, each with a value exactly where
/// its declaration asks for one.
pub proof fn lemma_decoded_obeys(
    words: Seq<Seq<char>>,
    state: DecoderState,
    valid: Map<Seq<char>, FlagType>,
)
    requires
        obeys(state.found, valid),
    ensures
        decode_words(words, state, valid) matches Ok(found) ==> obeys(found, valid),
    decreases words.len(),
{
    if words.len() > 0 {
        match decode_word(state, words[0], valid) {
            Ok(next) => {
                lemma_decoded_obeys(words.drop_first(), next, valid);
            },
            Err(_) => {},
        }
    }
}

/// A decoded result, or the failure, with strings as sequences of
/// characters.
pub open spec fn decoded_view(r: Result<FlagSet, FlagError>) -> Result<
    Map<Seq<char>, Option<Seq<char>>>,
    FlagErrorView,
> {
    match r {
        Ok(set) => Ok(set@),
        Err(e) => Err(e@),
    }
}

/// Records the flag `name` with the value that followed it, if the arity
/// rule allows it.
fn settle_flag(name: String, value: Option<String>, found: &mut FlagSet, valid: &ValidFlags) -> (r:
    Result<(), FlagError>)
    ensures
        match r {
            Ok(()) => settle(name@, value.deep_view(), old(found)@, valid@) == Ok::<
                Map<Seq<char>, Option<Seq<char>>>,
                FlagErrorView,
            >(final(found)@),
            Err(e) => settle(name@, value.deep_view(), old(found)@, valid@) == Err::<
                Map<Seq<char>, Option<Seq<char>>>,
                FlagErrorView,
            >(e@),
        },
{
    match valid.get(name.as_str()) {
        None => Err(FlagError::Unrecognised(name)),
        Some(FlagType::WithValue) => {
            if value.is_some() {
                found.insert(name, value);
                Ok(())
            } else {
                Err(FlagError::MissingValue(name))
            }
        },
        Some(FlagType::NoValue) => {
            if value.is_none() {
                found.insert(name, value);
                Ok(())
            } else {
                Err(FlagError::UnexpectedValue(name))
            }
        },
    }
}

/// Decodes the flags in `input` against the flags that `valid_flags`
/// declares.
///
/// The input is read word by word. A word of two dashes and a name starts a
/// flag; the word after it is its value if the flag takes one. A flag that
/// is not declared, a missing value and a value for a flag that takes none
/// are failures. Words outside any flag are passed over.
pub fn flags_from_str(input: &str, valid_flags: ValidFlags) -> (r: Result<FlagSet, FlagError>)
    ensures
        decoded_view(r) == decode_flags(input@, valid_flags@),
        r matches Ok(set) ==> obeys(set@, valid_flags@),
{
    let chars: Vec<char> = chars_of(input);
    let mut found: FlagSet = FlagSet::new();
    let mut pending: Option<String> = None;
    let mut pos: usize = 0;
    proof {
        lemma_decoded_obeys(
            words(input@),
            DecoderState { pending: None, found: Map::empty() },
            valid_flags@,
        );
    }
    loop
        invariant
            chars@ == input@,
            pos <= chars.len(),
            decode_flags(input@, valid_flags@) == decode_words(
                words_from(chars@, pos as int),
                DecoderState { pending: pending.deep_view(), found: found@ },
                valid_flags@,
            ),
        ensures
            decode_flags(input@, valid_flags@) == decode_end(
                DecoderState { pending: pending.deep_view(), found: found@ },
                valid_flags@,
            ),
        decreases chars.len() - pos,
    {
        let start: usize = skip_spaces_in(&chars, pos);
        if start >= chars.len() {
            break ;
        }
        let end: usize = word_end_in(&chars, start);
        let ghost word = chars@.subrange(start as int, end as int);
        proof {
            lemma_skip_spaces(chars@, pos as int);
            lemma_word_end(chars@, start as int);
            let rest = words_from(chars@, end as int);
            assert((seq![word] + rest).drop_first() =~= rest);
        }
        if end - start > 2 && chars[start] == '-' && chars[start + 1] == '-' {
            let name: String = string_from(&chars, start + 2, end);
            assert(name@ =~= word.skip(2));
            match pending {
                None => {},
                Some(previous) => {
                    match settle_flag(previous, None, &mut found, &valid_flags) {
                        Ok(()) => {},
                        Err(e) => {
                            return Err(e);
                        },
                    }
                },
            }
            pending = Some(name);
        } else {
            match pending {
                None => {},
                Some(previous) => {
                    let value: String = string_from(&chars, start, end);
                    match settle_flag(previous, Some(value), &mut found, &valid_flags) {
                        Ok(()) => {},
                        Err(e) => {
                            return Err(e);
                        },
                    }
                },
            }
            pending = None;
        }
        pos = end;
    }
    match pending {
        None => Ok(found),
        Some(name) => {
            match settle_flag(name, None, &mut found, &valid_flags) {
                Ok(()) => Ok(found),
                Err(e) => Err(e),
            }
        },
    }
}

/// Two runs of the decoder on the same input against the same declarations
/// end alike: in the same flags, or in the same failure.
pub proof fn lemma_flags_from_str_deterministic(
    input: &str,
    valid_flags: ValidFlags,
    first: Result<FlagSet, FlagError>,
    second: Result<FlagSet, FlagError>,
)
    requires
        call_ensures(flags_from_str, (input, valid_flags), first),
        call_ensures(flags_from_str, (input, valid_flags), second),
    ensures
        decoded_view(first) == decoded_view(second),
{
}

/// A set of flags that is decoded from text.
pub trait FlagDecode: Sized {
    /// What an input decodes to.
    spec fn decoded(input: Seq<char>) -> Result<Self, FlagErrorView>;

    /// Decodes `input`.
    fn from_str(input: &str) -> (r: Result<Self, FlagError>)
        ensures
            match r {
                Ok(flags) => Self::decoded(input@) == Ok::<Self, FlagErrorView>(flags),
                Err(e) => Self::decoded(input@) == Err::<Self, FlagErrorView>(e@),
            },
    ;
}

/// The flags of the command that runs Rust code.
#[derive(Clone, Copy, Debug, PartialEq, Eq)]
pub struct RustFlags {
    pub miri: bool,
    pub assembly: bool,
    pub clippy: bool,
    pub bench: bool,
    pub release: bool,
}

impl RustFlags {
    /// The flags that the command declares: five, none with a value.
    pub open spec fn valid_flags() -> Map<Seq<char>, FlagType> {
        Map::<Seq<char>, FlagType>::empty().insert("miri"@, FlagType::NoValue).insert(
            "release"@,
            FlagType::NoValue,
        ).insert("asm"@, FlagType::NoValue).insert("clippy"@, FlagType::NoValue).insert(
            "bench"@,
            FlagType::NoValue,
        )
    }
}

impl Default for RustFlags {
    fn default() -> (flags: RustFlags)
        ensures
            flags == (RustFlags {
                miri: false,
                assembly: false,
                clippy: false,
                bench: false,
                release: false,
            }),
    {
        RustFlags { miri: false, assembly: false, clippy: false, bench: false, release: false }
    }
}

impl FlagDecode for RustFlags {
    open spec fn decoded(input: Seq<char>) -> Result<RustFlags, FlagErrorView> {
        match decode_flags(input, RustFlags::valid_flags()) {
            Ok(found) => Ok(
                RustFlags {
                    miri: found.contains_key("miri"@),
                    assembly: found.contains_key("asm"@),
                    clippy: found.contains_key("clippy"@),
                    bench: found.contains_key("bench"@),
                    release: found.contains_key("release"@),
                },
            ),
            Err(e) => Err(e),
        }
    }

    fn from_str(input: &str) -> (r: Result<RustFlags, FlagError>) {
        let mut valid_flags: ValidFlags = ValidFlags::new();
        valid_flags.insert("miri", FlagType::NoValue);
        valid_flags.insert("release", FlagType::NoValue);
        valid_flags.insert("asm", FlagType::NoValue);
        valid_flags.insert("clippy", FlagType::NoValue);
        valid_flags.insert("bench", FlagType::NoValue);
        match flags_from_str(input, valid_flags) {
            Ok(raw_decode) => Ok(
                RustFlags {
                    miri: raw_decode.contains("miri"),
                    assembly: raw_decode.contains("asm"),
                    clippy: raw_decode.contains("clippy"),
                    bench: raw_decode.contains("bench"),
                    release: raw_decode.contains("release"),
                },
            ),
            Err(e) => Err(e),
        }
    }
}

/// The flags of the commands that run code in other languages.
#[derive(Clone, Copy, Debug, PartialEq, Eq)]
pub struct LangFlags {
    pub verbose: bool,
}

impl LangFlags {
    /// The flags that the command declares: one, without a value.
    pub open spec fn valid_flags() -> Map<Seq<char>, FlagType> {
        Map::<Seq<char>, FlagType>::empty().insert("verbose"@, FlagType::NoValue)
    }
}

impl Default for LangFlags {
    fn default() -> (flags: LangFlags)
        ensures
            flags == (LangFlags { verbose: false }),
    {
        LangFlags { verbose: false }
    }
}

impl FlagDecode for LangFlags {
    open spec fn decoded(input: Seq<char>) -> Result<LangFlags, FlagErrorView> {
        match decode_flags(input, LangFlags::valid_flags()) {
            Ok(found) => Ok(LangFlags { verbose: found.contains_key("verbose"@) }),
            Err(e) => Err(e),
        }
    }

    fn from_str(input: &str) -> (r: Result<LangFlags, FlagError>) {
        let mut valid_flags: ValidFlags = ValidFlags::new();
        valid_flags.insert("verbose", FlagType::NoValue);
        match flags_from_str(input, valid_flags) {
            Ok(raw_decode) => Ok(LangFlags { verbose: raw_decode.contains("verbose") }),
            Err(e) => Err(e),
        }
    }
}

/// The flags of the command that downloads media.
#[derive(Clone, Copy, Debug, PartialEq, Eq)]
pub struct DownloadFlags {
    pub audio: bool,
    pub quality: u64,
}

/// The quality that is asked for where the flag is not given.
pub const DEFAULT_QUALITY: u64 = 720;

impl DownloadFlags {
    /// The flags that the command declares: the quality with a value, and
    /// audio without one.
    pub open spec fn valid_flags() -> Map<Seq<char>, FlagType> {
        Map::<Seq<char>, FlagType>::empty().insert("quality"@, FlagType::WithValue).insert(
            "audio"@,
            FlagType::NoValue,
        )
    }

    /// The quality that the decoded flags ask for, or nothing where the
    /// value given is no number.
    pub open spec fn quality_of(found: Map<Seq<char>, Option<Seq<char>>>) -> Option<u64> {
        if found.contains_key("quality"@) && found["quality"@].is_some() {
            parse_u64_spec(found["quality"@].unwrap())
        } else {
            Some(DEFAULT_QUALITY)
        }
    }
}

impl Default for DownloadFlags {
    fn default() -> (flags: DownloadFlags)
        ensures
            flags == (DownloadFlags { audio: false, quality: 0 }),
    {
        DownloadFlags { audio: false, quality: 0 }
    }
}

impl FlagDecode for DownloadFlags {
    open spec fn decoded(input: Seq<char>) -> Result<DownloadFlags, FlagErrorView> {
        match decode_flags(input, DownloadFlags::valid_flags()) {
            Ok(found) => match DownloadFlags::quality_of(found) {
                Some(quality) => Ok(DownloadFlags { audio: found.contains_key("audio"@), quality }),
                None => Err(FlagErrorView::InvalidQuality),
            },
            Err(e) => Err(e),
        }
    }

    fn from_str(input: &str) -> (r: Result<DownloadFlags, FlagError>) {
        let mut valid_flags: ValidFlags = ValidFlags::new();
        valid_flags.insert("quality", FlagType::WithValue);
        valid_flags.insert("audio", FlagType::NoValue);
        match flags_from_str(input, valid_flags) {
            Ok(raw_decode) => {
                let quality: Option<u64> = match raw_decode.get("quality") {
                    Some(Some(value)) => {
                        let digits: Vec<char> = chars_of(value.as_str());
                        parse_u64(&digits)
                    },
                    _ => Some(DEFAULT_QUALITY),
                };
                match quality {
                    Some(quality) => Ok(
                        DownloadFlags { audio: raw_decode.contains("audio"), quality },
                    ),
                    None => Err(FlagError::InvalidQuality),
                }
            },
            Err(e) => Err(e),
        }
    }
}

/// What decoding the unread text as flags yields. The text stays unread.
pub open spec fn flags_raw_message_spec<F: FlagDecode>(ctxt: RawMessageView) -> (
    Result<F, TagParseErrorView>,
    int,
) {
    (
        match F::decoded(ctxt.text.skip(ctxt.position)) {
            Ok(flags) => Ok(flags),
            Err(e) => Err(TagParseErrorView::FlagParseError(e)),
        },
        ctxt.position,
    )
}

/// What decoding the next option as flags yields. Where no option is left,
/// the flags are `absent`.
pub open spec fn flags_command_option_spec<F: FlagDecode>(
    ctxt: InteractionCommandView,
    absent: F,
) -> (Result<F, TagParseErrorView>, int) {
    match ctxt.next() {
        Some(option) => (
            match option.value {
                CommandOptionValue::Text(text) => match F::decoded(text@) {
                    Ok(flags) => Ok(flags),
                    Err(e) => Err(TagParseErrorView::FlagParseError(e)),
                },
                other => Err(
                    TagParseErrorView::MismatchedCommandOptionType("String (Flags)"@, other),
                ),
            },
            ctxt.position + 1,
        ),
        None => (Ok(absent), ctxt.position),
    }
}

/// The option that stands for a set of flags: text that need not be given.
pub open spec fn flags_option_spec(name: Seq<char>) -> CommandOptionView {
    CommandOptionView {
        name,
        description: "flags input"@,
        kind: OptionKind::Text,
        required: false,
    }
}

/// Reads the next option, if one is left, and takes its text.
fn next_flags_option(ctxt: &mut InteractionCommandParseCtxt) -> (r: Result<
    Option<String>,
    TagParseError,
>)
    ensures
        match old(ctxt)@.next() {
            Some(option) => final(ctxt)@ == old(ctxt)@.at(old(ctxt)@.position + 1) && (
            match option.value {
                CommandOptionValue::Text(text) => r == Ok::<Option<String>, TagParseError>(
                    Some(text),
                ),
                other => r matches Err(e) && e@
                    == TagParseErrorView::MismatchedCommandOptionType("String (Flags)"@, other),
            }),
            None => final(ctxt)@ == old(ctxt)@ && r == Ok::<Option<String>, TagParseError>(None),
        },
{
    match ctxt.next_option() {
        Ok(option) => {
            match option.value {
                CommandOptionValue::Text(text) => Ok(Some(text)),
                other => Err(TagParseError::MismatchedCommandOptionType("String (Flags)", other)),
            }
        },
        Err(_) => Ok(None),
    }
}

impl DeepView for RustFlags {
    type V = RustFlags;

    open spec fn deep_view(&self) -> RustFlags {
        *self
    }
}

impl ParseArgument for RustFlags {
    open spec fn raw_message_spec(ctxt: RawMessageView) -> (
        Result<RustFlags, TagParseErrorView>,
        int,
    ) {
        flags_raw_message_spec::<RustFlags>(ctxt)
    }

    open spec fn command_option_spec(ctxt: InteractionCommandView) -> (
        Result<RustFlags, TagParseErrorView>,
        int,
    ) {
        flags_command_option_spec::<RustFlags>(
            ctxt,
            RustFlags { miri: false, assembly: false, clippy: false, bench: false, release: false },
        )
    }

    open spec fn option_spec(name: Seq<char>) -> CommandOptionView {
        flags_option_spec(name)
    }

    fn parse_raw_message(ctxt: &mut RawMessageParseCtxt) -> (r: Result<RustFlags, TagParseError>) {
        let args: String = ctxt.rest_all();
        match <RustFlags as FlagDecode>::from_str(args.as_str()) {
            Ok(parsed) => Ok(parsed),
            Err(e) => Err(TagParseError::FlagParseError(e)),
        }
    }

    fn parse_command_option(ctxt: &mut InteractionCommandParseCtxt) -> (r: Result<
        RustFlags,
        TagParseError,
    >) {
        match next_flags_option(ctxt)? {
            Some(text) => match <RustFlags as FlagDecode>::from_str(text.as_str()) {
                Ok(parsed) => Ok(parsed),
                Err(e) => Err(TagParseError::FlagParseError(e)),
            },
            None => Ok(RustFlags::default()),
        }
    }

    fn as_command_option(name: &str) -> (option: CommandOption) {
        build_option(name, "flags input", OptionKind::Text, false)
    }
}

impl DeepView for LangFlags {
    type V = LangFlags;

    open spec fn deep_view(&self) -> LangFlags {
        *self
    }
}

impl ParseArgument for LangFlags {
    open spec fn raw_message_spec(ctxt: RawMessageView) -> (
        Result<LangFlags, TagParseErrorView>,
        int,
    ) {
        flags_raw_message_spec::<LangFlags>(ctxt)
    }

    open spec fn command_option_spec(ctxt: InteractionCommandView) -> (
        Result<LangFlags, TagParseErrorView>,
        int,
    ) {
        flags_command_option_spec::<LangFlags>(ctxt, LangFlags { verbose: false })
    }

    open spec fn option_spec(name: Seq<char>) -> CommandOptionView {
        flags_option_spec(name)
    }

    fn parse_raw_message(ctxt: &mut RawMessageParseCtxt) -> (r: Result<LangFlags, TagParseError>) {
        let args: String = ctxt.rest_all();
        match <LangFlags as FlagDecode>::from_str(args.as_str()) {
            Ok(parsed) => Ok(parsed),
            Err(e) => Err(TagParseError::FlagParseError(e)),
        }
    }

    fn parse_command_option(ctxt: &mut InteractionCommandParseCtxt) -> (r: Result<
        LangFlags,
        TagParseError,
    >) {
        match next_flags_option(ctxt)? {
            Some(text) => match <LangFlags as FlagDecode>::from_str(text.as_str()) {
                Ok(parsed) => Ok(parsed),
                Err(e) => Err(TagParseError::FlagParseError(e)),
            },
            None => Ok(LangFlags::default()),
        }
    }

    fn as_command_option(name: &str) -> (option: CommandOption) {
        build_option(name, "flags input", OptionKind::Text, false)
    }
}

impl DeepView for DownloadFlags {
    type V = DownloadFlags;

    open spec fn deep_view(&self) -> DownloadFlags {
        *self
    }
}

impl ParseArgument for DownloadFlags {
    open spec fn raw_message_spec(ctxt: RawMessageView) -> (
        Result<DownloadFlags, TagParseErrorView>,
        int,
    ) {
        flags_raw_message_spec::<DownloadFlags>(ctxt)
    }

    open spec fn command_option_spec(ctxt: InteractionCommandView) -> (
        Result<DownloadFlags, TagParseErrorView>,
        int,
    ) {
        flags_command_option_spec::<DownloadFlags>(ctxt, DownloadFlags { audio: false, quality: 0 })
    }

    open spec fn option_spec(name: Seq<char>) -> CommandOptionView {
        flags_option_spec(name)
    }

    fn parse_raw_message(ctxt: &mut RawMessageParseCtxt) -> (r: Result<
        DownloadFlags,
        TagParseError,
    >) {
        let args: String = ctxt.rest_all();
        match <DownloadFlags as FlagDecode>::from_str(args.as_str()) {
            Ok(parsed) => Ok(parsed),
            Err(e) => Err(TagParseError::FlagParseError(e)),
        }
    }

    fn parse_command_option(ctxt: &mut InteractionCommandParseCtxt) -> (r: Result<
        DownloadFlags,
        TagParseError,
    >) {
        match next_flags_option(ctxt)? {
            Some(text) => match <DownloadFlags as FlagDecode>::from_str(text.as_str()) {
                Ok(parsed) => Ok(parsed),
                Err(e) => Err(TagParseError::FlagParseError(e)),
            },
            None => Ok(DownloadFlags::default()),
        }
    }

    fn as_command_option(name: &str) -> (option: CommandOption) {
        build_option(name, "flags input", OptionKind::Text, false)
    }
}

/// Flags are described as not required, and are at their defaults where
/// their option is missing: nothing is read, and nothing fails.
pub proof fn lemma_flags_match_missing(ctxt: InteractionCommandView, name: Seq<char>)
    requires
        ctxt.next().is_none(),
    ensures
        !<RustFlags as ParseArgument>::option_spec(name).required,
        <RustFlags as ParseArgument>::command_option_spec(ctxt) == (
            Ok::<RustFlags, TagParseErrorView>(
                RustFlags {
                    miri: false,
                    assembly: false,
                    clippy: false,
                    bench: false,
                    release: false,
                },
            ),
            ctxt.position,
        ),
        !<LangFlags as ParseArgument>::option_spec(name).required,
        <LangFlags as ParseArgument>::command_option_spec(ctxt) == (
            Ok::<LangFlags, TagParseErrorView>(LangFlags { verbose: false }),
            ctxt.position,
        ),
        !<DownloadFlags as ParseArgument>::option_spec(name).required,
        <DownloadFlags as ParseArgument>::command_option_spec(ctxt) == (
            Ok::<DownloadFlags, TagParseErrorView>(DownloadFlags { audio: false, quality: 0 }),
            ctxt.position,
        ),
{
}

} // verus!
