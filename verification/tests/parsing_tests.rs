use control_centre::commands::validate_percentage;
use control_centre::decimal::{format_unsigned, parse_bounded, ParseFailure};
use control_centre::error::ControlCentreError;
use control_centre::parse::{
    parse_active_ssid, parse_bluetooth_powered, parse_brightness, parse_level,
    parse_max_brightness, parse_muted, parse_night_light, parse_volume, parse_wifi_enabled,
    read_brightness, read_volume, volume_from_capture, volume_or_default,
};
use control_centre::text::{
    contains, is_whitespace_char, nth_field, same_text, starts_with, to_chars, trim,
    trim_end_matches,
};

#[test]
fn test_validate_percentage() {
    assert!(validate_percentage(0).is_ok());
    assert!(validate_percentage(50).is_ok());
    assert!(validate_percentage(100).is_ok());
    assert!(validate_percentage(101).is_err());
}

#[test]
fn test_volume_parsing() {
    let test_output = "Volume: front-left: 65536 / 100% / 0.00 dB";
    let volume = read_volume(test_output).unwrap().unwrap_or(0);
    assert_eq!(volume, 100);
}

#[test]
fn test_brightness_parsing() {
    let test_output = "intel_backlight,backlight,1000,39%,2550";
    let brightness = read_brightness(test_output).unwrap_or(0);
    assert_eq!(brightness, 39);
}

#[test]
fn test_volume_regex() {
    let test_cases = vec![
        ("Volume: front-left: 65536 / 100% / 0.00 dB", Some(100)),
        ("Volume: front-left: 32768 /  50% / -12.00 dB", Some(50)),
        ("No percentage here", None),
    ];

    for (input, expected) in test_cases {
        let result = read_volume(input).unwrap();
        assert_eq!(result, expected, "Failed for input: {}", input);
    }
}

#[test]
fn test_brightness_csv_parsing() {
    let test_cases = vec![
        ("intel_backlight,backlight,1000,39%,2550", Some(39)),
        ("amdgpu_bl0,backlight,255,100%,255", Some(100)),
        ("invalid", None),
    ];

    for (input, expected) in test_cases {
        let result = read_brightness(input);
        assert_eq!(result, expected, "Failed for input: {}", input);
    }
}

#[test]
fn validate_percentage_returns_the_value_or_says_why_not() {
    assert_eq!(validate_percentage(0), Ok(0));
    assert_eq!(validate_percentage(100), Ok(100));
    assert_eq!(
        validate_percentage(101),
        Err(ControlCentreError::InvalidArgument(
            "Percentage must be 0-100, got 101".to_string()
        ))
    );
    assert_eq!(
        validate_percentage(255),
        Err(ControlCentreError::InvalidArgument(
            "Percentage must be 0-100, got 255".to_string()
        ))
    );
}

#[test]
fn volume_falls_back_to_its_default() {
    assert_eq!(
        parse_volume("Volume: front-left: 65536 / 100% / 0.00 dB").unwrap(),
        100
    );
    assert_eq!(
        parse_volume("Volume: front-left: 32768 /  50% / -12.00 dB").unwrap(),
        50
    );
    assert_eq!(parse_volume("No percentage here").unwrap(), 50);
    assert_eq!(parse_volume("").unwrap(), 50);
    assert_eq!(parse_volume("level 7%").unwrap(), 7);
    // A number that no u8 holds is no volume.
    assert_eq!(parse_volume("boost 300%").unwrap(), 50);
    assert_eq!(read_volume("boost 300%").unwrap(), None);
}

#[test]
fn volume_pattern_takes_the_first_digits_before_a_percent_sign() {
    assert_eq!(read_volume("12 34% 56%").unwrap(), Some(34));
    assert_eq!(read_volume("a1%b2%").unwrap(), Some(1));
    assert_eq!(read_volume("%").unwrap(), None);
    assert_eq!(read_volume("10 %").unwrap(), None);
}

#[test]
fn volume_from_capture_reads_what_was_captured() {
    assert_eq!(volume_from_capture(Some("100")), Some(100));
    assert_eq!(volume_from_capture(Some("0")), Some(0));
    assert_eq!(volume_from_capture(Some("255")), Some(255));
    assert_eq!(volume_from_capture(Some("256")), None);
    assert_eq!(volume_from_capture(Some("")), None);
    assert_eq!(volume_from_capture(None), None);
}

#[test]
fn brightness_falls_back_to_its_default() {
    assert_eq!(parse_brightness("intel_backlight,backlight,1000,39%,2550"), 39);
    assert_eq!(parse_brightness("amdgpu_bl0,backlight,255,100%,255"), 100);
    assert_eq!(parse_brightness("invalid"), 50);
    assert_eq!(parse_brightness(""), 50);
    assert_eq!(parse_brightness("a,b,c"), 50);
    assert_eq!(parse_brightness("a,b,c,"), 50);
    assert_eq!(parse_brightness("a,b,c,x%"), 50);
    assert_eq!(parse_brightness("a,b,c,7"), 7);
    assert_eq!(parse_brightness("a,b,c,7%%%"), 7);
    assert_eq!(parse_brightness("a,b,c, 7%"), 50);
    assert_eq!(parse_brightness("a,b,c,999%"), 50);
}

#[test]
fn max_brightness_is_a_trimmed_number() {
    assert_eq!(parse_max_brightness("2550"), Ok(2550));
    assert_eq!(parse_max_brightness("  255\n"), Ok(255));
    assert_eq!(parse_max_brightness("4294967295"), Ok(4294967295));
    assert_eq!(parse_max_brightness("4294967296"), Err(ParseFailure::Overflow));
    assert_eq!(parse_max_brightness(""), Err(ParseFailure::Empty));
    assert_eq!(parse_max_brightness("   "), Err(ParseFailure::Empty));
    assert_eq!(parse_max_brightness("12a"), Err(ParseFailure::InvalidDigit));
    assert_eq!(parse_max_brightness("-1"), Err(ParseFailure::InvalidDigit));
}

#[test]
fn mute_is_a_yes_in_any_case() {
    assert!(parse_muted("Mute: yes"));
    assert!(parse_muted("Mute: YES"));
    assert!(parse_muted("Mute: Yes"));
    assert!(!parse_muted("Mute: no"));
    assert!(!parse_muted(""));
}

#[test]
fn wifi_is_enabled_by_that_word_alone() {
    assert!(parse_wifi_enabled("enabled"));
    assert!(parse_wifi_enabled("Enabled\n"));
    assert!(parse_wifi_enabled("  ENABLED  "));
    assert!(!parse_wifi_enabled("disabled"));
    assert!(!parse_wifi_enabled("wifi enabled"));
    assert!(!parse_wifi_enabled(""));
}

#[test]
fn bluetooth_is_powered_by_that_line() {
    assert!(parse_bluetooth_powered(
        "Controller 00:11:22:33:44:55\n\tPowered: yes\n\tDiscoverable: no"
    ));
    assert!(!parse_bluetooth_powered(
        "Controller 00:11:22:33:44:55\n\tPowered: no\n\tDiscoverable: yes"
    ));
    assert!(!parse_bluetooth_powered("powered: yes"));
    assert!(!parse_bluetooth_powered(""));
}

#[test]
fn night_light_is_true_alone() {
    assert!(parse_night_light("true"));
    assert!(parse_night_light(" true\n"));
    assert!(!parse_night_light("false"));
    assert!(!parse_night_light("True"));
    assert!(!parse_night_light("true false"));
    assert!(!parse_night_light(""));
}

#[test]
fn active_ssid_is_on_the_first_line_marked_yes() {
    assert_eq!(
        parse_active_ssid("no:Neighbour\nyes:Home\nno:Cafe"),
        Some("Home".to_string())
    );
    assert_eq!(
        parse_active_ssid("yes:First\nyes:Second"),
        Some("First".to_string())
    );
    assert_eq!(parse_active_ssid("yes:"), Some("".to_string()));
    assert_eq!(parse_active_ssid("no:Neighbour\nno:Cafe"), None);
    assert_eq!(parse_active_ssid(""), None);
    // The mark counts only at the start of a line.
    assert_eq!(parse_active_ssid("no:yes:Odd"), None);
    assert_eq!(parse_active_ssid("no:a\r\nyes:Home\r\nno:b"), Some("Home".to_string()));
    assert_eq!(parse_active_ssid("yes:Home\r"), Some("Home\r".to_string()));
    assert_eq!(parse_active_ssid("yes:My Net:5G\n"), Some("My Net:5G".to_string()));
}

#[test]
fn active_ssid_agrees_with_lines_of_std() {
    let inputs = vec![
        "no:a\nyes:b\n",
        "yes:\r\n",
        "\n\nyes:x",
        "yes",
        "yes:\n",
        "no\r\nyes:q\r\n\r\n",
        "yes:a\rb\nyes:c",
    ];
    for input in inputs {
        let mut expected = None;
        for line in input.lines() {
            if line.starts_with("yes:") {
                expected = line.strip_prefix("yes:").map(|s| s.to_string());
                break;
            }
        }
        assert_eq!(parse_active_ssid(input), expected, "Failed for input: {:?}", input);
    }
}

#[test]
fn levels_are_numbers_up_to_255() {
    assert_eq!(parse_level("0"), Some(0));
    assert_eq!(parse_level("39"), Some(39));
    assert_eq!(parse_level("+39"), Some(39));
    assert_eq!(parse_level("007"), Some(7));
    assert_eq!(parse_level("255"), Some(255));
    assert_eq!(parse_level("256"), None);
    assert_eq!(parse_level("-1"), None);
    assert_eq!(parse_level("+"), None);
    assert_eq!(parse_level(""), None);
    assert_eq!(parse_level("3 9"), None);
    assert_eq!(parse_level("٣"), None);
}

#[test]
fn parse_bounded_agrees_with_std() {
    let inputs = vec![
        "", "+", "-", "0", "+0", "-0", "1", "99", "255", "256", "0255", "00000000000000000000001",
        "4294967295", "4294967296", "99999999999999999999", "12x", "x12", "1 2", " 12", "12 ",
        "++1", "+-1", "1+", "999x", "25x6", "१२", "1_000",
    ];
    for input in inputs {
        let as_u8 = parse_bounded(input, 255).ok();
        assert_eq!(as_u8, input.parse::<u8>().ok().map(u32::from), "u8 of {:?}", input);
        let as_u32 = parse_bounded(input, u32::MAX).ok();
        assert_eq!(as_u32, input.parse::<u32>().ok(), "u32 of {:?}", input);
    }
}

#[test]
fn parse_bounded_says_why_it_failed() {
    assert_eq!(parse_bounded("", 255), Err(ParseFailure::Empty));
    assert_eq!(parse_bounded("+", 255), Err(ParseFailure::InvalidDigit));
    assert_eq!(parse_bounded("-5", 255), Err(ParseFailure::InvalidDigit));
    assert_eq!(parse_bounded("12a", 255), Err(ParseFailure::InvalidDigit));
    assert_eq!(parse_bounded("256", 255), Err(ParseFailure::Overflow));
    // The digits are read first: the number is too large before the letter is met.
    assert_eq!(parse_bounded("999x", 255), Err(ParseFailure::Overflow));
    assert_eq!(parse_bounded("25x6", 255), Err(ParseFailure::InvalidDigit));
    assert_eq!(parse_bounded("7", 7), Ok(7));
    assert_eq!(parse_bounded("8", 7), Err(ParseFailure::Overflow));
    assert_eq!(parse_bounded("0", 0), Ok(0));
}

#[test]
fn parse_failures_have_words() {
    assert_eq!(ParseFailure::Empty.message(), "cannot parse integer from empty string");
    assert_eq!(ParseFailure::InvalidDigit.message(), "invalid digit found in string");
    assert_eq!(
        ParseFailure::Overflow.message(),
        "number too large to fit in target type"
    );
    assert_eq!(
        ParseFailure::Empty.message(),
        "".parse::<u32>().unwrap_err().to_string()
    );
    assert_eq!(
        ParseFailure::InvalidDigit.message(),
        "x".parse::<u32>().unwrap_err().to_string()
    );
    assert_eq!(
        ParseFailure::Overflow.message(),
        "4294967296".parse::<u32>().unwrap_err().to_string()
    );
}

#[test]
fn numbers_are_written_in_decimal() {
    assert_eq!(format_unsigned(0), "0");
    assert_eq!(format_unsigned(7), "7");
    assert_eq!(format_unsigned(10), "10");
    assert_eq!(format_unsigned(101), "101");
    assert_eq!(format_unsigned(u64::MAX), "18446744073709551615");
}

#[test]
fn written_numbers_are_read_back() {
    let values: Vec<u32> = vec![0, 1, 9, 10, 99, 100, 255, 256, 65535, 4294967295];
    for value in values {
        let text = format_unsigned(value as u64);
        assert_eq!(parse_bounded(&text, u32::MAX), Ok(value));
    }
}

#[test]
fn trim_removes_surrounding_whitespace() {
    assert_eq!(trim("  enabled \n"), "enabled");
    assert_eq!(trim("   "), "");
    assert_eq!(trim(""), "");
    assert_eq!(trim("a b"), "a b");
    assert_eq!(trim("\t\r\n x \u{a0}\u{2003}"), "x");
    let inputs = vec![" a ", "\u{3000}b\u{85}", "c", " \u{feff} ", "\u{200b}d"];
    for input in inputs {
        assert_eq!(trim(input), input.trim());
    }
}

#[test]
fn trim_end_matches_removes_every_trailing_mark() {
    assert_eq!(trim_end_matches("39%", '%'), "39");
    assert_eq!(trim_end_matches("39%%", '%'), "39");
    assert_eq!(trim_end_matches("%39", '%'), "%39");
    assert_eq!(trim_end_matches("%%", '%'), "");
    assert_eq!(trim_end_matches("", '%'), "");
}

#[test]
fn nth_field_cuts_at_every_separator() {
    assert_eq!(nth_field("a,b,c", ',', 0), Some("a"));
    assert_eq!(nth_field("a,b,c", ',', 2), Some("c"));
    assert_eq!(nth_field("a,b,c", ',', 3), None);
    assert_eq!(nth_field("a,,c", ',', 1), Some(""));
    assert_eq!(nth_field("", ',', 0), Some(""));
    assert_eq!(nth_field("", ',', 1), None);
    assert_eq!(nth_field("a,", ',', 1), Some(""));
    let inputs = vec!["x,y,,z,", ",", "no separators", ",,a"];
    for input in inputs {
        for n in 0..6 {
            assert_eq!(nth_field(input, ',', n), input.split(',').nth(n));
        }
    }
}

#[test]
fn contains_finds_a_word() {
    assert!(contains("Mute: yes", "yes"));
    assert!(!contains("Mute: no", "yes"));
    assert!(contains("anything", ""));
    assert!(contains("", ""));
    assert!(!contains("ye", "yes"));
    assert!(contains("yyes", "yes"));
    assert!(contains("xyes", "yes"));
    assert!(!contains("y e s", "yes"));
}

#[test]
fn starts_with_looks_at_the_beginning() {
    assert!(starts_with("yes:Home", "yes:"));
    assert!(!starts_with("no:yes:", "yes:"));
    assert!(!starts_with("yes", "yes:"));
    assert!(starts_with("abc", ""));
}

#[test]
fn same_text_compares_character_by_character() {
    assert!(same_text("toggle", "toggle"));
    assert!(!same_text("toggle", "toggle "));
    assert!(!same_text("toggle", "Toggle"));
    assert!(same_text("", ""));
}

#[test]
fn to_chars_keeps_every_character() {
    assert_eq!(to_chars("aé€"), vec!['a', 'é', '€']);
    assert_eq!(to_chars(""), Vec::<char>::new());
}

#[test]
fn volume_or_default_never_fails() {
    assert_eq!(volume_or_default("Volume: front-left: 65536 / 100% / 0.00 dB"), 100);
    assert_eq!(volume_or_default("Volume: front-left: 32768 /  50% / -12.00 dB"), 50);
    assert_eq!(volume_or_default("level 7%"), 7);
    assert_eq!(volume_or_default("No percentage here"), 50);
    assert_eq!(volume_or_default("boost 300%"), 50);
    assert_eq!(volume_or_default(""), 50);
}

#[test]
fn whitespace_is_what_std_takes_for_it() {
    let mut count = 0;
    for code in 0..=0x10ffffu32 {
        if let Some(c) = char::from_u32(code) {
            assert_eq!(is_whitespace_char(c), c.is_whitespace(), "U+{:04X}", code);
            if is_whitespace_char(c) {
                count += 1;
            }
        }
    }
    assert_eq!(count, 25);
}

#[test]
fn whitespace_by_example() {
    for c in [' ', '\t', '\n', '\r', '\u{b}', '\u{c}', '\u{85}', '\u{a0}', '\u{1680}',
        '\u{2000}', '\u{200a}', '\u{2028}', '\u{2029}', '\u{202f}', '\u{205f}', '\u{3000}']
    {
        assert!(is_whitespace_char(c), "{:?}", c);
    }
    for c in ['a', '0', '%', '\u{8}', '\u{e}', '\u{1f}', '\u{180e}', '\u{200b}', '\u{feff}',
        '\u{fffd}']
    {
        assert!(!is_whitespace_char(c), "{:?}", c);
    }
}
