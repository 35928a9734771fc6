use battery_daemon::number::is_json_number;

#[test]
fn json_numbers_are_recognized() {
    let numbers = [
        "0", "-0", "7", "10", "75.0", "100.0", "0.5", "-0.0", "-12.25", "74.83871", "1e-7",
        "1E5", "1e+5", "1e5", "1.5e20", "3.4028235e38", "0e0", "0.0e-0", "1234567890",
        "0.000001",
    ];
    for text in numbers {
        assert!(is_json_number(text), "{}", text);
    }
}

#[test]
fn other_texts_are_not_json_numbers() {
    let others = [
        "", "-", "+1", "01", "00", "-01", "1.", ".5", "-.5", "1e", "1e+", "1e-", "e5", "1.e5",
        "1.5.2", "1e5.5", "1e5e5", "--1", "1-", "null", "NaN", "inf", "true", " 1", "1 ",
        "1 0", "0x10", "1,5", "1_000", "\"1\"", "1f", "\u{661}", "1\u{661}", "7\n",
    ];
    for text in others {
        assert!(!is_json_number(text), "{:?}", text);
    }
}

#[test]
fn json_numbers_are_what_the_parser_takes_for_numbers() {
    let texts = [
        "0", "-0", "75.0", "1e-7", "1E5", "1e+5", "0.5", "-12.25", "", "-", "+1", "01", "1.",
        ".5", "1e", "1e+", "e5", "1.e5", "1.5.2", "--1", "null", "true", "0x10", "1,5", "1f",
    ];
    for text in texts {
        let parsed = serde_json::from_str::<serde_json::Value>(text);
        let number = match parsed {
            Ok(value) => value.is_number(),
            Err(_) => false,
        };
        assert_eq!(is_json_number(text), number, "{:?}", text);
    }
}

#[test]
fn rendered_percentages_are_json_numbers() {
    for hundredths in 0..=10000u32 {
        let percentage = hundredths as f32 / 100.0;
        let text = serde_json::to_string(&percentage).unwrap();
        assert!(is_json_number(&text), "{}", text);
    }
    for percentage in [f32::MAX, f32::MIN, f32::MIN_POSITIVE, f32::EPSILON, -0.0, 1.0e-45, 1.0e20] {
        let text = serde_json::to_string(&percentage).unwrap();
        assert!(is_json_number(&text), "{}", text);
    }
}
