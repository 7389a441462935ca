use assyst_core::error::FlagError;
use assyst_core::flags::{
    flags_from_str, DownloadFlags, FlagDecode, FlagSet, FlagType, LangFlags, RustFlags,
    ValidFlags, DEFAULT_QUALITY,
};

fn download_flags() -> ValidFlags {
    let mut valid = ValidFlags::new();
    valid.insert("quality", FlagType::WithValue);
    valid.insert("audio", FlagType::NoValue);
    valid
}

fn value_of(set: &FlagSet, name: &str) -> Option<Option<String>> {
    set.get(name).cloned()
}

#[test]
fn quality_with_value_and_audio_without() {
    let set = flags_from_str("--quality 480 --audio", download_flags()).unwrap();
    assert_eq!(value_of(&set, "quality"), Some(Some("480".to_owned())));
    assert_eq!(value_of(&set, "audio"), Some(None));
    assert_eq!(set.len(), 2);
    assert!(set.contains("quality"));
    assert!(set.contains("audio"));
    assert!(!set.contains("verbose"));
}

#[test]
fn value_for_a_flag_that_takes_none_is_refused() {
    let r = flags_from_str("--audio 480", download_flags());
    assert_eq!(r.err(), Some(FlagError::UnexpectedValue("audio".to_owned())));
}

#[test]
fn flag_without_value_then_flag_with_value() {
    let set = flags_from_str("--audio --quality 480", download_flags()).unwrap();
    assert_eq!(value_of(&set, "audio"), Some(None));
    assert_eq!(value_of(&set, "quality"), Some(Some("480".to_owned())));
    assert_eq!(set.len(), 2);
}

#[test]
fn missing_value_before_the_next_flag() {
    let r = flags_from_str("--quality --audio", download_flags());
    assert_eq!(r.err(), Some(FlagError::MissingValue("quality".to_owned())));
}

#[test]
fn missing_value_at_the_end() {
    let r = flags_from_str("--audio --quality", download_flags());
    assert_eq!(r.err(), Some(FlagError::MissingValue("quality".to_owned())));
}

#[test]
fn flag_without_value_at_the_end() {
    let set = flags_from_str("   --audio  ", download_flags()).unwrap();
    assert_eq!(value_of(&set, "audio"), Some(None));
    assert_eq!(set.len(), 1);
}

#[test]
fn unrecognised_flag_is_refused() {
    let r = flags_from_str("--speed 3", download_flags());
    assert_eq!(r.err(), Some(FlagError::Unrecognised("speed".to_owned())));
    let r = flags_from_str("--audio --speed", download_flags());
    assert_eq!(r.err(), Some(FlagError::Unrecognised("speed".to_owned())));
}

#[test]
fn first_failure_is_reported() {
    let r = flags_from_str("--speed --quality", download_flags());
    assert_eq!(r.err(), Some(FlagError::Unrecognised("speed".to_owned())));
}

#[test]
fn words_outside_flags_are_passed_over() {
    let set = flags_from_str("one two --audio", download_flags()).unwrap();
    assert_eq!(set.len(), 1);
    assert!(set.contains("audio"));
    let set = flags_from_str("--quality 480 extra words", download_flags()).unwrap();
    assert_eq!(value_of(&set, "quality"), Some(Some("480".to_owned())));
    assert_eq!(set.len(), 1);
}

#[test]
fn two_dashes_alone_are_no_flag() {
    let set = flags_from_str("-- --audio", download_flags()).unwrap();
    assert_eq!(set.len(), 1);
    let r = flags_from_str("--quality --", download_flags()).unwrap();
    assert_eq!(value_of(&r, "quality"), Some(Some("--".to_owned())));
}

#[test]
fn empty_input_has_no_flags() {
    assert_eq!(flags_from_str("", download_flags()).unwrap().len(), 0);
    assert_eq!(flags_from_str(" \t\n", download_flags()).unwrap().len(), 0);
}

#[test]
fn later_value_replaces_earlier() {
    let set = flags_from_str("--quality 480 --quality 1080", download_flags()).unwrap();
    assert_eq!(value_of(&set, "quality"), Some(Some("1080".to_owned())));
    assert_eq!(set.len(), 1);
}

#[test]
fn decoder_is_deterministic() {
    for input in ["--quality 480 --audio", "--audio 480", "--nope", "", "--quality"] {
        let first = flags_from_str(input, download_flags());
        let second = flags_from_str(input, download_flags());
        match (first, second) {
            (Ok(a), Ok(b)) => {
                assert_eq!(a.len(), b.len());
                for name in ["quality", "audio"] {
                    assert_eq!(value_of(&a, name), value_of(&b, name));
                }
            },
            (Err(a), Err(b)) => assert_eq!(a, b),
            _ => panic!("two runs on {input:?} ended differently"),
        }
    }
}

#[test]
fn valid_flags_lookup() {
    let valid = download_flags();
    assert_eq!(valid.get("quality"), Some(FlagType::WithValue));
    assert_eq!(valid.get("audio"), Some(FlagType::NoValue));
    assert_eq!(valid.get("other"), None);
}

#[test]
fn flag_set_insert_and_get() {
    let mut set = FlagSet::new();
    assert_eq!(set.len(), 0);
    set.insert("a".to_owned(), None);
    set.insert("b".to_owned(), Some("1".to_owned()));
    set.insert("a".to_owned(), Some("2".to_owned()));
    assert_eq!(set.len(), 2);
    assert_eq!(value_of(&set, "a"), Some(Some("2".to_owned())));
    assert_eq!(value_of(&set, "c"), None);
}

#[test]
fn rust_flags_decode() {
    let flags = RustFlags::from_str("--miri --release").unwrap();
    assert_eq!(
        flags,
        RustFlags { miri: true, assembly: false, clippy: false, bench: false, release: true }
    );
    let flags = RustFlags::from_str("--asm --clippy --bench").unwrap();
    assert_eq!(
        flags,
        RustFlags { miri: false, assembly: true, clippy: true, bench: true, release: false }
    );
    assert_eq!(RustFlags::from_str("").unwrap(), RustFlags::default());
    assert_eq!(
        RustFlags::from_str("--miri now").err(),
        Some(FlagError::UnexpectedValue("miri".to_owned()))
    );
    assert_eq!(
        RustFlags::from_str("--verbose").err(),
        Some(FlagError::Unrecognised("verbose".to_owned()))
    );
}

#[test]
fn lang_flags_decode() {
    assert_eq!(LangFlags::from_str("--verbose").unwrap(), LangFlags { verbose: true });
    assert_eq!(LangFlags::from_str("print 1").unwrap(), LangFlags { verbose: false });
    assert_eq!(LangFlags::default(), LangFlags { verbose: false });
}

#[test]
fn download_flags_decode() {
    assert_eq!(
        DownloadFlags::from_str("--quality 480 --audio").unwrap(),
        DownloadFlags { audio: true, quality: 480 }
    );
    assert_eq!(
        DownloadFlags::from_str("").unwrap(),
        DownloadFlags { audio: false, quality: 720 }
    );
    assert_eq!(DEFAULT_QUALITY, 720);
    assert_eq!(
        DownloadFlags::from_str("--quality high").err(),
        Some(FlagError::InvalidQuality)
    );
    assert_eq!(
        DownloadFlags::from_str("--quality 99999999999999999999").err(),
        Some(FlagError::InvalidQuality)
    );
    assert_eq!(DownloadFlags::default(), DownloadFlags { audio: false, quality: 0 });
}
