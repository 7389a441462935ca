use assyst_core::arguments::{
    build_option, next_text_option, CommandOption, ParseArgument, Rest, Time, Word,
};
use assyst_core::context::{InteractionCommandParseCtxt, RawMessageParseCtxt};
use assyst_core::cursor::{CommandDataOption, CommandOptionValue};
use assyst_core::error::{ErrorSeverity, FlagError, OptionKind, TagParseError};
use assyst_core::flags::{DownloadFlags, LangFlags, RustFlags};
use assyst_core::message::Message;

fn raw(args: &str) -> RawMessageParseCtxt {
    let message =
        Message { attachments: vec![], sticker_items: vec![], embeds: vec![], content: String::new() };
    RawMessageParseCtxt::new(args, message, None, 1)
}

fn options(values: Vec<CommandOptionValue>) -> InteractionCommandParseCtxt {
    let options = values
        .into_iter()
        .map(|value| CommandDataOption { name: "option".to_owned(), value })
        .collect();
    InteractionCommandParseCtxt::new(options, vec![], 1)
}

fn text(s: &str) -> CommandOptionValue {
    CommandOptionValue::Text(s.to_owned())
}

#[test]
fn duration_parses_to_milliseconds() {
    let mut ctxt = raw("1h20m30s");
    assert_eq!(Time::parse_raw_message(&mut ctxt), Ok(Time { millis: 4_830_000 }));
    assert_eq!(ctxt.position(), 8);
}

#[test]
fn time_units() {
    for (word, millis) in [
        ("1s", 1_000),
        ("1m", 60_000),
        ("1h", 3_600_000),
        ("1d", 86_400_000),
        ("0s", 0),
        ("90s", 90_000),
        ("2d3h4m5s", 2 * 86_400_000 + 3 * 3_600_000 + 4 * 60_000 + 5_000),
        ("30s1h", 3_630_000),
        ("007m", 420_000),
    ] {
        let mut ctxt = raw(word);
        assert_eq!(Time::parse_raw_message(&mut ctxt), Ok(Time { millis }), "{word}");
    }
}

#[test]
fn malformed_time_is_refused() {
    for word in ["h", "10", "10x", "1h20", "-1h", "1.5h", "1H", "s1", "1hh"] {
        let mut ctxt = raw(word);
        assert_eq!(Time::parse_raw_message(&mut ctxt), Err(TagParseError::InvalidTime), "{word}");
        assert_eq!(ctxt.position(), word.len());
    }
}

#[test]
fn time_that_does_not_fit_is_refused() {
    let mut ctxt = raw("213503982335d");
    assert_eq!(Time::parse_raw_message(&mut ctxt), Err(TagParseError::InvalidTime));
    let mut ctxt = raw("213503982334d");
    assert_eq!(
        Time::parse_raw_message(&mut ctxt),
        Ok(Time { millis: 213_503_982_334 * 86_400_000 })
    );
    let mut ctxt = raw("18446744073709551616s");
    assert_eq!(Time::parse_raw_message(&mut ctxt), Err(TagParseError::InvalidTime));
    let mut ctxt = raw("18446744073709551s");
    assert_eq!(
        Time::parse_raw_message(&mut ctxt),
        Ok(Time { millis: 18_446_744_073_709_551_000 })
    );
    let mut ctxt = raw("18446744073709552s");
    assert_eq!(Time::parse_raw_message(&mut ctxt), Err(TagParseError::InvalidTime));
    let mut ctxt = raw("18446744073709551s1s");
    assert_eq!(Time::parse_raw_message(&mut ctxt), Err(TagParseError::InvalidTime));
}

#[test]
fn time_without_input() {
    let mut ctxt = raw("   ");
    assert_eq!(Time::parse_raw_message(&mut ctxt), Err(TagParseError::ArgsExhausted));
    assert_eq!(ctxt.position(), 0);
}

#[test]
fn time_from_option() {
    let mut ctxt = options(vec![text("1h20m30s"), text("soon"), CommandOptionValue::Integer(5)]);
    assert_eq!(Time::parse_command_option(&mut ctxt), Ok(Time { millis: 4_830_000 }));
    assert_eq!(Time::parse_command_option(&mut ctxt), Err(TagParseError::InvalidTime));
    assert_eq!(
        Time::parse_command_option(&mut ctxt),
        Err(TagParseError::MismatchedCommandOptionType("String (time)", CommandOptionValue::Integer(5)))
    );
    assert_eq!(ctxt.position(), 3);
    assert_eq!(Time::parse_command_option(&mut ctxt), Err(TagParseError::ArgsExhausted));
}

#[test]
fn number_from_text() {
    for (word, n) in [
        ("0", 0u64),
        ("42", 42),
        ("+7", 7),
        ("007", 7),
        ("18446744073709551615", u64::MAX),
    ] {
        let mut ctxt = raw(word);
        assert_eq!(u64::parse_raw_message(&mut ctxt), Ok(n), "{word}");
        assert_eq!(ctxt.position(), word.len());
    }
}

#[test]
fn malformed_number_is_refused() {
    for word in ["abc", "-1", "+", "1_000", "12a", "1.0", "18446744073709551616", "++1", "٣"] {
        let mut ctxt = raw(word);
        assert_eq!(u64::parse_raw_message(&mut ctxt), Err(TagParseError::InvalidNumber), "{word}");
    }
    let mut ctxt = raw("");
    assert_eq!(u64::parse_raw_message(&mut ctxt), Err(TagParseError::ArgsExhausted));
}

#[test]
fn number_from_option() {
    let mut ctxt = options(vec![
        CommandOptionValue::Integer(17),
        CommandOptionValue::Integer(-1),
        text("17"),
    ]);
    assert_eq!(u64::parse_command_option(&mut ctxt), Ok(17));
    assert_eq!(u64::parse_command_option(&mut ctxt), Ok(u64::MAX));
    assert_eq!(u64::parse_command_option(&mut ctxt), Err(TagParseError::MismatchedCommandOptionType("u64", text("17"))));
    assert_eq!(u64::parse_command_option(&mut ctxt), Err(TagParseError::ArgsExhausted));
}

#[test]
fn word_and_rest_from_text() {
    let mut ctxt = raw("  first second   third ");
    assert_eq!(Word::parse_raw_message(&mut ctxt), Ok(Word("first".to_owned())));
    assert_eq!(Rest::parse_raw_message(&mut ctxt), Ok(Rest("second   third".to_owned())));
    assert_eq!(Word::parse_raw_message(&mut ctxt), Err(TagParseError::ArgsExhausted));
    assert_eq!(Rest::parse_raw_message(&mut ctxt), Err(TagParseError::ArgsExhausted));
}

#[test]
fn word_and_rest_from_option() {
    let mut ctxt = options(vec![
        text("two words"),
        text(" kept as it is "),
        CommandOptionValue::Boolean(true),
        CommandOptionValue::User(4),
    ]);
    assert_eq!(Word::parse_command_option(&mut ctxt), Ok(Word("two words".to_owned())));
    assert_eq!(Rest::parse_command_option(&mut ctxt), Ok(Rest(" kept as it is ".to_owned())));
    assert_eq!(
        Word::parse_command_option(&mut ctxt),
        Err(TagParseError::MismatchedCommandOptionType("String", CommandOptionValue::Boolean(true)))
    );
    assert_eq!(
        Rest::parse_command_option(&mut ctxt),
        Err(TagParseError::MismatchedCommandOptionType("String (Rest)", CommandOptionValue::User(4)))
    );
}

#[test]
fn absent_optional_leaves_the_cursor_where_it_was() {
    let mut ctxt = raw("word   ");
    assert_eq!(Word::parse_raw_message(&mut ctxt), Ok(Word("word".to_owned())));
    let before = ctxt.position();
    assert_eq!(<Option<Word>>::parse_raw_message(&mut ctxt), Ok(None));
    assert_eq!(ctxt.position(), before);
    assert_eq!(<Option<u64>>::parse_raw_message(&mut ctxt), Ok(None));
    assert_eq!(<Option<Time>>::parse_raw_message(&mut ctxt), Ok(None));
    assert_eq!(<Option<Rest>>::parse_raw_message(&mut ctxt), Ok(None));
    assert_eq!(ctxt.position(), before);
    assert_eq!(ctxt.rest_all(), "   ");
}

#[test]
fn present_optional_reads_its_value() {
    let mut ctxt = raw("12 rest");
    assert_eq!(<Option<u64>>::parse_raw_message(&mut ctxt), Ok(Some(12)));
    assert_eq!(ctxt.position(), 2);
    assert_eq!(<Option<Word>>::parse_raw_message(&mut ctxt), Ok(Some(Word("rest".to_owned()))));
}

#[test]
fn optional_hands_on_failures_of_high_severity() {
    let mut ctxt = raw("twelve");
    assert_eq!(<Option<u64>>::parse_raw_message(&mut ctxt), Err(TagParseError::InvalidNumber));
    let mut ctxt = raw("later");
    assert_eq!(<Option<Time>>::parse_raw_message(&mut ctxt), Err(TagParseError::InvalidTime));
    let mut ctxt = options(vec![text("x")]);
    assert_eq!(
        <Option<u64>>::parse_command_option(&mut ctxt),
        Err(TagParseError::MismatchedCommandOptionType("u64", text("x")))
    );
}

#[test]
fn optional_from_options() {
    let mut ctxt = options(vec![CommandOptionValue::Integer(3)]);
    assert_eq!(<Option<u64>>::parse_command_option(&mut ctxt), Ok(Some(3)));
    assert_eq!(<Option<u64>>::parse_command_option(&mut ctxt), Ok(None));
    assert_eq!(<Option<Word>>::parse_command_option(&mut ctxt), Ok(None));
    assert_eq!(ctxt.position(), 1);
}

#[test]
fn nested_optional() {
    let mut ctxt = raw("");
    assert_eq!(<Option<Option<Word>>>::parse_raw_message(&mut ctxt), Ok(Some(None)));
    assert_eq!(ctxt.position(), 0);
}

#[test]
fn words_until_none_is_left() {
    let mut ctxt = raw(" a  bb ccc  ");
    assert_eq!(
        <Vec<Word>>::parse_raw_message(&mut ctxt),
        Ok(vec![Word("a".to_owned()), Word("bb".to_owned()), Word("ccc".to_owned())])
    );
    assert_eq!(ctxt.position(), 10);
    assert_eq!(<Vec<Word>>::parse_raw_message(&mut ctxt), Ok(vec![]));
    assert_eq!(ctxt.position(), 10);
    let mut ctxt = raw("");
    assert_eq!(<Vec<Word>>::parse_raw_message(&mut ctxt), Ok(vec![]));
}

#[test]
fn words_from_one_option() {
    let mut ctxt = options(vec![text(" a  bb\tccc "), text(""), CommandOptionValue::Role(1)]);
    assert_eq!(
        <Vec<Word>>::parse_command_option(&mut ctxt),
        Ok(vec![Word("a".to_owned()), Word("bb".to_owned()), Word("ccc".to_owned())])
    );
    assert_eq!(<Vec<Word>>::parse_command_option(&mut ctxt), Ok(vec![]));
    assert_eq!(
        <Vec<Word>>::parse_command_option(&mut ctxt),
        Err(TagParseError::MismatchedCommandOptionType("String", CommandOptionValue::Role(1)))
    );
    assert_eq!(<Vec<Word>>::parse_command_option(&mut ctxt), Err(TagParseError::ArgsExhausted));
}

#[test]
fn flags_from_text_read_nothing() {
    let mut ctxt = raw("code --miri --release");
    assert_eq!(Word::parse_raw_message(&mut ctxt), Ok(Word("code".to_owned())));
    assert_eq!(
        RustFlags::parse_raw_message(&mut ctxt),
        Ok(RustFlags { miri: true, assembly: false, clippy: false, bench: false, release: true })
    );
    assert_eq!(ctxt.position(), 4);
    assert_eq!(Rest::parse_raw_message(&mut ctxt), Ok(Rest("--miri --release".to_owned())));
    let mut ctxt = raw("--verbose");
    assert_eq!(LangFlags::parse_raw_message(&mut ctxt), Ok(LangFlags { verbose: true }));
    let mut ctxt = raw("--quality 1080");
    assert_eq!(
        DownloadFlags::parse_raw_message(&mut ctxt),
        Ok(DownloadFlags { audio: false, quality: 1080 })
    );
}

#[test]
fn malformed_flags_fail_with_high_severity() {
    let mut ctxt = raw("--audio 480");
    let r = DownloadFlags::parse_raw_message(&mut ctxt);
    assert_eq!(
        r,
        Err(TagParseError::FlagParseError(FlagError::UnexpectedValue("audio".to_owned())))
    );
    assert_eq!(r.unwrap_err().get_severity(), ErrorSeverity::High);
    let mut ctxt = raw("--audio 480");
    assert_eq!(
        <Option<DownloadFlags>>::parse_raw_message(&mut ctxt),
        Err(TagParseError::FlagParseError(FlagError::UnexpectedValue("audio".to_owned())))
    );
}

#[test]
fn flags_from_options() {
    let mut ctxt = options(vec![text("--audio"), CommandOptionValue::Integer(1), text("--x")]);
    assert_eq!(
        DownloadFlags::parse_command_option(&mut ctxt),
        Ok(DownloadFlags { audio: true, quality: 720 })
    );
    assert_eq!(
        RustFlags::parse_command_option(&mut ctxt),
        Err(TagParseError::MismatchedCommandOptionType("String (Flags)", CommandOptionValue::Integer(1)))
    );
    assert_eq!(
        LangFlags::parse_command_option(&mut ctxt),
        Err(TagParseError::FlagParseError(FlagError::Unrecognised("x".to_owned())))
    );
    assert_eq!(ctxt.position(), 3);
    assert_eq!(DownloadFlags::parse_command_option(&mut ctxt), Ok(DownloadFlags::default()));
    assert_eq!(RustFlags::parse_command_option(&mut ctxt), Ok(RustFlags::default()));
    assert_eq!(LangFlags::parse_command_option(&mut ctxt), Ok(LangFlags::default()));
    assert_eq!(ctxt.position(), 3);
}

#[test]
fn next_text_option_takes_text_only() {
    let mut ctxt = options(vec![text("a"), CommandOptionValue::Number(0)]);
    assert_eq!(next_text_option(&mut ctxt, "label"), Ok("a".to_owned()));
    assert_eq!(
        next_text_option(&mut ctxt, "label"),
        Err(TagParseError::MismatchedCommandOptionType("label", CommandOptionValue::Number(0)))
    );
    assert_eq!(next_text_option(&mut ctxt, "label"), Err(TagParseError::ArgsExhausted));
}

fn described(description: &str, kind: OptionKind, required: bool) -> CommandOption {
    CommandOption {
        name: "arg".to_owned(),
        description: description.to_owned(),
        kind,
        required,
    }
}

#[test]
fn bare_types_are_described_as_required() {
    assert_eq!(u64::as_command_option("arg"), described("integer option", OptionKind::Integer, true));
    assert_eq!(Word::as_command_option("arg"), described("word input", OptionKind::Text, true));
    assert_eq!(Rest::as_command_option("arg"), described("text input", OptionKind::Text, true));
    assert_eq!(Time::as_command_option("arg"), described("time input", OptionKind::Text, true));
    assert_eq!(
        <Vec<Word>>::as_command_option("arg"),
        described("text input", OptionKind::Text, true)
    );
}

#[test]
fn optional_types_are_described_as_not_required() {
    assert_eq!(
        <Option<u64>>::as_command_option("arg"),
        described("integer option", OptionKind::Integer, false)
    );
    assert_eq!(
        <Option<Word>>::as_command_option("arg"),
        described("word input", OptionKind::Text, false)
    );
    assert_eq!(
        <Option<Option<Time>>>::as_command_option("arg"),
        described("time input", OptionKind::Text, false)
    );
}

#[test]
fn flags_are_described_as_not_required() {
    let expected = described("flags input", OptionKind::Text, false);
    assert_eq!(RustFlags::as_command_option("arg"), expected);
    assert_eq!(LangFlags::as_command_option("arg"), expected);
    assert_eq!(DownloadFlags::as_command_option("arg"), expected);
}

#[test]
fn required_matches_failure_on_a_missing_option() {
    let mut ctxt = options(vec![]);
    assert!(u64::as_command_option("n").required);
    let e = u64::parse_command_option(&mut ctxt).unwrap_err();
    assert_eq!(e, TagParseError::ArgsExhausted);
    assert_eq!(e.get_severity(), ErrorSeverity::Low);
    assert!(!<Option<u64>>::as_command_option("n").required);
    assert_eq!(<Option<u64>>::parse_command_option(&mut ctxt), Ok(None));
    assert_eq!(ctxt.position(), 0);
}

#[test]
fn build_option_keeps_its_parts() {
    assert_eq!(
        build_option("n", "d", OptionKind::Attachment, false),
        CommandOption {
            name: "n".to_owned(),
            description: "d".to_owned(),
            kind: OptionKind::Attachment,
            required: false,
        }
    );
}

#[test]
fn severities() {
    let low = [
        TagParseError::ArgsExhausted,
        TagParseError::NoMention,
        TagParseError::NoUrl,
        TagParseError::NoAttachment,
        TagParseError::NoReply,
        TagParseError::NoEmbed,
        TagParseError::NoEmoji,
        TagParseError::NoSticker,
    ];
    for e in low {
        assert_eq!(e.get_severity(), ErrorSeverity::Low, "{e:?}");
        assert_eq!(e.clone(), e);
    }
    let high = [
        TagParseError::InvalidNumber,
        TagParseError::InvalidTime,
        TagParseError::MismatchedCommandOptionType("u64", text("x")),
        TagParseError::UnsupportedSticker(assyst_core::message::StickerFormatType::Lottie),
        TagParseError::NoImageInHistory,
        TagParseError::NoImageFound,
        TagParseError::MediaDownloadFail,
        TagParseError::FlagParseError(FlagError::InvalidQuality),
        TagParseError::Transport("down".to_owned()),
        TagParseError::LookupRequired(assyst_core::lookup::Lookup::UserAvatar(1)),
    ];
    for e in high {
        assert_eq!(e.get_severity(), ErrorSeverity::High, "{e:?}");
        assert_eq!(e.clone(), e);
    }
}
