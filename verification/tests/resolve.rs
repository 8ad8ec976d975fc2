use passfmt::{Notice, Options, parse_options_from_args, resolve_options};

fn args(tokens: &[&str]) -> Vec<String> {
    tokens.iter().map(|t| t.to_string()).collect()
}

#[test]
fn resolve_empty_is_default() {
    let options = parse_options_from_args(Vec::new());
    assert_eq!(options, Options::default());
    assert_eq!(options.output_length, 12);
    assert_eq!(options.format, "llluuunnns");
    assert!(!options.randomise_output);
    assert!(!options.using_custom_format);
    assert!(!options.using_custom_length);
    assert!(options.default_values);
}

#[test]
fn invalid_format_falls_back_to_default() {
    let (options, notices) = resolve_options(args(&["-f", "abc"]));
    assert_eq!(options, Options::default());
    assert_eq!(notices, vec![Notice::FormatTooShort]);
}

#[test]
fn failed_format_discards_earlier_flags() {
    let (options, notices) = resolve_options(args(&["-r", "-f", "abc"]));
    assert_eq!(options, Options::default());
    assert!(!options.randomise_output);
    assert_eq!(notices, vec![Notice::FormatTooShort]);
}

#[test]
fn format_too_long_falls_back_to_default() {
    let long = "l".repeat(256);
    let (options, notices) = resolve_options(args(&["-f", &long]));
    assert_eq!(options, Options::default());
    assert_eq!(notices, vec![Notice::FormatTooLong]);
}

#[test]
fn format_without_class_char_falls_back_to_default() {
    let (options, notices) = resolve_options(args(&["-f", "kkkkkkkkk"]));
    assert_eq!(options, Options::default());
    assert_eq!(notices, vec![Notice::FormatMissingClassChar]);
}

#[test]
fn short_length_clamps_to_minimum() {
    let (options, notices) = resolve_options(args(&["5"]));
    assert_eq!(options.output_length, 6);
    assert_eq!(options.format, "lluuns");
    assert!(options.using_custom_length);
    assert!(!options.using_custom_format);
    assert_eq!(notices, vec![Notice::LengthRaisedToMinimum]);
}

#[test]
fn long_length_clamps_to_maximum() {
    let (options, notices) = resolve_options(args(&["300"]));
    assert_eq!(options.output_length, 255);
    assert_eq!(options.format.len(), 255);
    assert!(options.using_custom_length);
    assert_eq!(notices, vec![Notice::LengthLoweredToMaximum]);
}

#[test]
fn custom_format_wins_over_length() {
    let (options, notices) = resolve_options(args(&["-f", "nnnnnn", "10"]));
    assert!(options.using_custom_format);
    assert!(!options.using_custom_length);
    assert_eq!(options.output_length, 6);
    assert_eq!(options.format, "nnnnnn");
    assert_eq!(notices, vec![Notice::FormatOverridesLength]);
}

#[test]
fn custom_format_sets_output_length() {
    let options = parse_options_from_args(args(&["-f", "lllluuuu"]));
    assert!(options.using_custom_format);
    assert_eq!(options.output_length, 8);
    assert_eq!(options.format, "lllluuuu");
}

#[test]
fn format_is_sanitized_before_validation() {
    let options = parse_options_from_args(args(&["-f", "lll\u{7}uu\u{1f}u"]));
    assert!(options.using_custom_format);
    assert_eq!(options.format, "llluuu");
    assert_eq!(options.output_length, 6);
}

#[test]
fn unrecognized_tokens_are_ignored() {
    let (options, notices) = resolve_options(args(&["foo", "--x", "12x", "-5"]));
    assert_eq!(options, Options::default());
    assert!(notices.is_empty());
}

#[test]
fn numeral_over_usize_max_is_ignored() {
    let (options, notices) = resolve_options(args(&["99999999999999999999999999"]));
    assert_eq!(options, Options::default());
    assert!(notices.is_empty());
}

#[test]
fn plus_prefixed_length_is_accepted() {
    let options = parse_options_from_args(args(&["+7"]));
    assert!(options.using_custom_length);
    assert_eq!(options.output_length, 7);
    assert_eq!(options.format, "llluuns");
}

#[test]
fn exact_length_synthesizes_template() {
    let options = parse_options_from_args(args(&["12"]));
    assert_eq!(options.output_length, 12);
    assert_eq!(options.format, "llllluuunnss");
    assert!(options.using_custom_length);
    assert!(!options.default_values);
}

#[test]
fn shuffle_keeps_symbol_multiset() {
    let options = parse_options_from_args(args(&["-r", "-f", "llluuunnns"]));
    assert!(options.randomise_output);
    assert_eq!(options.output_length, 10);
    assert_eq!(options.format.len(), 10);
    let mut shuffled: Vec<char> = options.format.chars().collect();
    shuffled.sort();
    let mut expected: Vec<char> = "llluuunnns".chars().collect();
    expected.sort();
    assert_eq!(shuffled, expected);
}

#[test]
fn flag_tokens_are_matched_even_while_a_format_is_awaited() {
    let (options, notices) = resolve_options(args(&["-f", "-r", "llluuu"]));
    assert!(options.randomise_output);
    assert!(options.using_custom_format);
    assert_eq!(options.output_length, 6);
    assert!(notices.is_empty());
    let mut shuffled: Vec<char> = options.format.chars().collect();
    shuffled.sort();
    assert_eq!(shuffled, vec!['l', 'l', 'l', 'u', 'u', 'u']);
}

#[test]
fn trailing_format_flag_changes_nothing() {
    let (options, notices) = resolve_options(args(&["-f"]));
    assert_eq!(options, Options::default());
    assert!(notices.is_empty());
}

#[test]
fn notice_messages_match_diagnostics() {
    assert_eq!(
        Notice::FormatTooShort.message(),
        "The custom format was too short. Reverting to default."
    );
    assert_eq!(
        Notice::FormatTooLong.message(),
        "The custom format was too long (max 255). Reverting to default."
    );
    assert_eq!(
        Notice::FormatMissingClassChar.message(),
        "The custom format was missing at least one format character (l, u, n, s). Reverting to default."
    );
    assert_eq!(Notice::LengthRaisedToMinimum.message(), "Length too small, changing to 6.");
    assert_eq!(Notice::LengthLoweredToMaximum.message(), "Length too long, changing to 255.");
    assert_eq!(
        Notice::FormatOverridesLength.message(),
        "A custom format takes priority over a custom length, so your custom length will be ignored."
    );
}
