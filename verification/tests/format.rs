use passfmt::{generate_format_from_custom_length, validate_format};

#[test]
fn generates_format_from_custom_length() {
    let pw = generate_format_from_custom_length(12);
    assert_eq!(12, pw.len());
}

#[test]
fn rejects_invalid_format() {
    let too_short = String::from("l");
    let too_long = String::from("l").repeat(256);
    let no_format_char = String::from("kkkkkkkkk");

    assert_eq!(
        validate_format(&too_short),
        Err("The custom format was too short. Reverting to default.")
    );
    assert_eq!(
        validate_format(&too_long),
        Err("The custom format was too long (max 255). Reverting to default.")
    );
    assert_eq!(
        validate_format(&no_format_char),
        Err(
            "The custom format was missing at least one format character (l, u, n, s). Reverting to default."
        )
    );
}

#[test]
fn accepts_valid_format() {
    assert_eq!(validate_format("llluuunnns"), Ok(true));
    assert_eq!(validate_format("ab-cd-n"), Ok(true));
}

#[test]
fn validate_format_is_idempotent() {
    let inputs = ["l", "kkkkkkkkk", "llluuunnns", "", "abc"];
    for input in inputs {
        assert_eq!(validate_format(input), validate_format(input));
    }
}

#[test]
fn synthesized_template_layout() {
    assert_eq!(generate_format_from_custom_length(6), "lluuns");
    assert_eq!(generate_format_from_custom_length(7), "llluuns");
    assert_eq!(generate_format_from_custom_length(8), "llluuuns");
    assert_eq!(generate_format_from_custom_length(9), "llluunnss");
    assert_eq!(generate_format_from_custom_length(12), "llllluuunnss");
    assert_eq!(generate_format_from_custom_length(255).len(), 255);
}
