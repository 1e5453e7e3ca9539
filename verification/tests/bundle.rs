use unnamed::bundle::{is_ignored_line, parse_bundle_id_list, parse_bundle_ids};
use unnamed::{BundleID, BundleIDParseError};

#[test]
fn reverse_dns_identifier_is_accepted() {
    let id = BundleID::try_from("com.apple.Safari").unwrap();
    assert_eq!(id.as_ref(), "com.apple.Safari");
    assert_eq!(id.to_string(), "com.apple.Safari");
}

#[test]
fn letters_digits_hyphens_and_periods_are_accepted() {
    for text in ["", "a", "Z9", "org.mozilla-firefox.2", "---", "..."] {
        let id = BundleID::try_from(text).unwrap();
        assert_eq!(id.as_ref(), text);
    }
}

#[test]
fn first_invalid_character_is_reported() {
    let error = BundleID::try_from("com.apple Safari!").unwrap_err();
    assert_eq!(error, BundleIDParseError::InvalidCharacter { index: 9, c: ' ' });
}

#[test]
fn invalid_first_character_has_index_zero() {
    let error = BundleID::try_from("#comment").unwrap_err();
    assert_eq!(error, BundleIDParseError::InvalidCharacter { index: 0, c: '#' });
}

#[test]
fn characters_outside_ascii_are_rejected() {
    let error = BundleID::try_from("com.caf\u{e9}.app").unwrap_err();
    assert_eq!(error, BundleIDParseError::InvalidCharacter { index: 7, c: '\u{e9}' });
    let error = BundleID::try_from("a_b").unwrap_err();
    assert_eq!(error, BundleIDParseError::InvalidCharacter { index: 1, c: '_' });
}

#[test]
fn parse_error_reads_as_a_sentence() {
    let error = BundleIDParseError::InvalidCharacter { index: 12, c: '!' };
    assert_eq!(error.message(), "Invalid character '!' at index 12 in bundle ID");
    assert_eq!(error.message(), format!("Invalid character '{}' at index {} in bundle ID", '!', 12));
}

#[test]
fn identifier_of_a_running_application_is_taken_as_it_is() {
    let id = BundleID::of_running("com.example.My App");
    assert_eq!(id.as_ref(), "com.example.My App");
}

#[test]
fn comments_and_blank_lines_are_passed_over() {
    for line in ["", " ", "\t \u{a0}", "#", "# a comment", "#com.apple.Safari", "\u{2003}"] {
        assert!(is_ignored_line(line), "{line:?}");
    }
    for line in ["com.apple.Safari", " #", "a", " com.apple.Safari", "\u{200b}"] {
        assert!(!is_ignored_line(line), "{line:?}");
    }
    let ids = parse_bundle_id_list(
        "# browsers\ncom.apple.Safari\n\n   \norg.mozilla.firefox\r\n# mail\ncom.apple.mail",
    )
    .unwrap();
    let texts: Vec<&str> = ids.iter().map(|id| id.as_ref()).collect();
    assert_eq!(texts, vec!["com.apple.Safari", "org.mozilla.firefox", "com.apple.mail"]);
}

#[test]
fn an_empty_list_names_no_bundle() {
    assert_eq!(parse_bundle_id_list(""), Ok(vec![]));
    assert_eq!(parse_bundle_id_list("\n\n# nothing\n"), Ok(vec![]));
}

#[test]
fn the_first_bad_line_fails_the_list() {
    assert_eq!(
        parse_bundle_id_list("com.apple.Safari\n com.apple.mail\ncom.bad!\n"),
        Err(BundleIDParseError::InvalidCharacter { index: 0, c: ' ' })
    );
    assert_eq!(
        parse_bundle_id_list("# fine\ncom.apple.Safari # browser\n"),
        Err(BundleIDParseError::InvalidCharacter { index: 16, c: ' ' })
    );
    assert_eq!(
        parse_bundle_ids(&vec!["com.apple.Safari", "#!", "a_b", "c d"]),
        Err(BundleIDParseError::InvalidCharacter { index: 1, c: '_' })
    );
}

#[test]
fn a_lone_carriage_return_stays_in_its_line() {
    assert_eq!(
        parse_bundle_id_list("com.apple.Safari\rcom.apple.mail"),
        Err(BundleIDParseError::InvalidCharacter { index: 16, c: '\r' })
    );
}
