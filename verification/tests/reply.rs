use assyst_core::reply::{
    edit_content, is_blank_text, is_whitespace_char, message_content, trim_content_fits,
    MessageBuilder, ReplyAttachment, MESSAGE_CHARACTER_LIMIT,
};

fn builder(content: Option<&str>, attachment: bool) -> MessageBuilder {
    MessageBuilder {
        content: content.map(|c| c.to_owned()),
        attachment: if attachment {
            Some(ReplyAttachment { name: "file.png".to_owned(), data: vec![1, 2] })
        } else {
            None
        },
    }
}

#[test]
fn short_content_is_left_alone() {
    let mut content = "hello".to_owned();
    trim_content_fits(&mut content);
    assert_eq!(content, "hello");
    let mut content = String::new();
    trim_content_fits(&mut content);
    assert_eq!(content, "");
    let mut content = "x".repeat(2000);
    trim_content_fits(&mut content);
    assert_eq!(content, "x".repeat(2000));
}

#[test]
fn long_content_is_cut_to_two_thousand_characters() {
    assert_eq!(MESSAGE_CHARACTER_LIMIT, 2000);
    let mut content = "x".repeat(1999) + "yz";
    trim_content_fits(&mut content);
    assert_eq!(content, "x".repeat(1999) + "y");
    let mut content = "é".repeat(2500);
    trim_content_fits(&mut content);
    assert_eq!(content.chars().count(), 2000);
    assert_eq!(content.len(), 4000);
    assert_eq!(content, "é".repeat(2000));
}

#[test]
fn unicode_whitespace() {
    for c in " \t\n\x0b\x0c\r\u{85}\u{a0}\u{1680}\u{2000}\u{2005}\u{200a}\u{2028}\u{2029}\u{202f}\u{205f}\u{3000}"
        .chars()
    {
        assert!(is_whitespace_char(c), "{c:?}");
    }
    for c in "a0_\u{8}\u{e}\u{200b}\u{1f}\u{feff}\u{180e}".chars() {
        assert!(!is_whitespace_char(c), "{c:?}");
    }
    for code in 0..0x3100u32 {
        if let Some(c) = char::from_u32(code) {
            assert_eq!(is_whitespace_char(c), c.is_whitespace(), "{code:x}");
        }
    }
}

#[test]
fn blank_text() {
    for text in ["", " ", "\n\t \u{3000}", "a", " a ", "\u{200b}"] {
        assert_eq!(is_blank_text(text), text.trim().is_empty(), "{text:?}");
    }
}

#[test]
fn content_of_a_new_message() {
    assert_eq!(message_content(&builder(None, false)), Some("[Empty Response]".to_owned()));
    assert_eq!(message_content(&builder(Some(""), false)), Some("[Empty Response]".to_owned()));
    assert_eq!(message_content(&builder(Some(" \n"), false)), Some("[Empty Response]".to_owned()));
    assert_eq!(message_content(&builder(Some("hi"), false)), Some("hi".to_owned()));
    assert_eq!(message_content(&builder(Some(" hi "), true)), Some(" hi ".to_owned()));
    assert_eq!(message_content(&builder(None, true)), None);
    assert_eq!(message_content(&builder(Some("  "), true)), Some("  ".to_owned()));
    let long = "a".repeat(2345);
    assert_eq!(message_content(&builder(Some(&long), false)), Some("a".repeat(2000)));
    assert_eq!(message_content(&builder(Some(&long), true)), Some("a".repeat(2000)));
}

#[test]
fn content_of_an_edit() {
    assert_eq!(edit_content(&builder(None, false)), "[Empty Response]");
    assert_eq!(edit_content(&builder(Some("\t"), false)), "[Empty Response]");
    assert_eq!(edit_content(&builder(Some("hi"), false)), "hi");
    assert_eq!(edit_content(&builder(None, true)), "");
    assert_eq!(edit_content(&builder(Some("hi"), true)), "hi");
    assert_eq!(edit_content(&builder(Some(&"b".repeat(2001)), true)), "b".repeat(2000));
}
