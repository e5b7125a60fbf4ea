use weather_station::text::{is_whitespace, same_text, trim, wants_another};

#[test]
fn white_space_is_what_std_calls_white_space() {
    let mut u: u32 = 0;
    while u <= 0x10ffff {
        if let Some(c) = char::from_u32(u) {
            assert_eq!(is_whitespace(c), c.is_whitespace());
        }
        u += 1;
    }
}

#[test]
fn no_other_character_lowers_to_a_letter_of_yes() {
    let mut u: u32 = 0;
    while u <= 0x10ffff {
        if let Some(c) = char::from_u32(u) {
            let lower: String = c.to_lowercase().collect();
            let touches = lower.contains('y') || lower.contains('e') || lower.contains('s');
            let plain = matches!(c, 'y' | 'Y' | 'e' | 'E' | 's' | 'S');
            assert_eq!(touches, plain);
            if plain {
                assert_eq!(lower, c.to_ascii_lowercase().to_string());
            }
        }
        u += 1;
    }
}

fn samples() -> Vec<&'static str> {
    vec![
        "",
        " ",
        "\n",
        "yes",
        "YES",
        "Yes",
        "yEs",
        "yeS",
        "  yes  ",
        "\tYES\r\n",
        "yes\n",
        "\u{a0}yes\u{3000}",
        "\u{85}Yes\u{2028}",
        "\u{1680}\u{2000}\u{200a}yes\u{202f}\u{205f}",
        "no",
        "y",
        "ye",
        "yess",
        "yes!",
        "y es",
        "yes yes",
        "oui",
        "\u{ff}es",
        "ye\u{17f}",
        "\u{ff39}\u{ff25}\u{ff33}",
        "yes\u{200b}",
        "\u{200b}yes",
        "\u{feff}yes",
        "London",
        "  New York \n",
        " \u{3a3}\u{391}\u{3a3} ",
        "\u{130}stanbul",
        "  \u{1b}[0m  ",
    ]
}

#[test]
fn trim_is_what_std_trims() {
    for s in samples() {
        assert_eq!(trim(s), s.trim());
    }
}

#[test]
fn trim_examples() {
    assert_eq!(trim("  London \n"), "London");
    assert_eq!(trim("London"), "London");
    assert_eq!(trim("New  York"), "New  York");
    assert_eq!(trim(" \t\r\n"), "");
    assert_eq!(trim(""), "");
    assert_eq!(trim(" a"), "a");
    assert_eq!(trim("a "), "a");
}

#[test]
fn answer_is_judged_as_trimmed_lower_case() {
    for s in samples() {
        assert_eq!(wants_another(s), s.trim().to_lowercase() == "yes");
    }
}

#[test]
fn yes_in_any_case_continues() {
    for s in ["yes", "YES", "Yes", "yEs", "yeS", "YEs", "yES", "YeS", "  yes", "yes  ", "\tYeS\n"] {
        assert!(wants_another(s));
    }
}

#[test]
fn anything_else_stops() {
    for s in ["", " ", "no", "n", "y", "yes please", "yes.", "ja", "nope", "yess", "ye s"] {
        assert!(!wants_another(s));
    }
}

#[test]
fn same_text_compares_characters() {
    assert!(same_text("", ""));
    assert!(same_text("rain", "rain"));
    assert!(!same_text("rain", "Rain"));
    assert!(!same_text("rain", "rain "));
    assert!(!same_text("rain", "rai"));
    assert!(same_text("f\u{f6}g", "f\u{f6}g"));
    assert!(!same_text("f\u{f6}g", "fog"));
}
