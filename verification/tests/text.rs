use congratulator::calendar::Date;
use congratulator::text::{
    chars_of, is_whitespace, parse_i32, push_decimal, push_four_digits, push_two_digits,
    replace_char, same_text, trim, IntErrorKind,
};

fn expected_kind(kind: &std::num::IntErrorKind) -> IntErrorKind {
    match kind {
        std::num::IntErrorKind::Empty => IntErrorKind::Empty,
        std::num::IntErrorKind::InvalidDigit => IntErrorKind::InvalidDigit,
        std::num::IntErrorKind::PosOverflow => IntErrorKind::PosOverflow,
        std::num::IntErrorKind::NegOverflow => IntErrorKind::NegOverflow,
        other => panic!("unexpected kind {:?}", other),
    }
}

#[test]
fn chars_of_lists_the_characters() {
    assert_eq!(chars_of(""), Vec::<char>::new());
    assert_eq!(chars_of("a%"), vec!['a', '%']);
    assert_eq!(chars_of("Март"), vec!['М', 'а', 'р', 'т']);
}

#[test]
fn same_text_compares_characters() {
    assert!(same_text("", ""));
    assert!(same_text("DATE", "DATE"));
    assert!(!same_text("DATE", "DATES"));
    assert!(!same_text("DATE", "DATA"));
    assert!(!same_text("Март 24", "Март 25"));
}

#[test]
fn whitespace_is_the_unicode_property() {
    for code in 0..=0x10FFFFu32 {
        if let Some(c) = char::from_u32(code) {
            assert_eq!(is_whitespace(c), c.is_whitespace(), "U+{:04X}", code);
        }
    }
}

#[test]
fn trim_agrees_with_the_standard_library() {
    let samples = [
        "",
        " ",
        "  \t\n",
        "Иван",
        "  Иван  ",
        "\u{a0}Anna Maria\u{3000}",
        " a b ",
        "x ",
        " x",
        "\u{2003}\u{2028}name\u{85}",
        "\u{200b}zero width\u{200b}",
    ];
    for sample in samples {
        assert_eq!(trim(sample), sample.trim(), "{:?}", sample);
    }
    assert_eq!(trim("  Anna Maria \n"), "Anna Maria");
}

#[test]
fn parse_i32_reads_decimal_numbers() {
    assert_eq!(parse_i32("0"), Ok(0));
    assert_eq!(parse_i32("60"), Ok(60));
    assert_eq!(parse_i32("+60"), Ok(60));
    assert_eq!(parse_i32("-60"), Ok(-60));
    assert_eq!(parse_i32("-0"), Ok(0));
    assert_eq!(parse_i32("0000000000060"), Ok(60));
    assert_eq!(parse_i32("2147483647"), Ok(2147483647));
    assert_eq!(parse_i32("-2147483648"), Ok(-2147483648));
}

#[test]
fn parse_i32_tells_its_faults_apart() {
    assert_eq!(parse_i32(""), Err(IntErrorKind::Empty));
    assert_eq!(parse_i32("+"), Err(IntErrorKind::InvalidDigit));
    assert_eq!(parse_i32("-"), Err(IntErrorKind::InvalidDigit));
    assert_eq!(parse_i32("+-1"), Err(IntErrorKind::InvalidDigit));
    assert_eq!(parse_i32("1 "), Err(IntErrorKind::InvalidDigit));
    assert_eq!(parse_i32("٣"), Err(IntErrorKind::InvalidDigit));
    assert_eq!(parse_i32("2147483648"), Err(IntErrorKind::PosOverflow));
    assert_eq!(parse_i32("-2147483649"), Err(IntErrorKind::NegOverflow));
    assert_eq!(parse_i32("99999999999x"), Err(IntErrorKind::PosOverflow));
    assert_eq!(parse_i32("9999x99999999"), Err(IntErrorKind::InvalidDigit));
}

#[test]
fn parse_i32_agrees_with_the_standard_library() {
    let samples = [
        "", "+", "-", "0", "-0", "+0", "7", "42", "-42", "+42", "0042", "4 2", " 42", "42 ", "4x2",
        "x", "--1", "+-1", "-+1", "1e3", "1.0", "2147483647", "2147483648", "2147483646",
        "-2147483648", "-2147483649", "-2147483647", "21474836470", "99999999999999999999",
        "-99999999999999999999", "00000000000000000000001", "1234567", "12345678", "123456789",
        "9999999999x", "99x99999999", "-9999999999x", "٤٢", "４２", "1_000",
    ];
    for sample in samples {
        let expected = sample.parse::<i32>().map_err(|e| expected_kind(e.kind()));
        assert_eq!(parse_i32(sample), expected, "{:?}", sample);
    }
}

#[test]
fn numbers_are_written_in_decimal() {
    for n in [0u32, 1, 9, 10, 11, 99, 100, 101, 999, 1000, 2024, 65535, 4294967295] {
        let mut plain = String::from("n=");
        push_decimal(&mut plain, n);
        assert_eq!(plain, format!("n={}", n));
        let mut two = String::new();
        push_two_digits(&mut two, n);
        assert_eq!(two, format!("{:02}", n));
        let mut four = String::new();
        push_four_digits(&mut four, n);
        assert_eq!(four, format!("{:04}", n));
    }
    let mut text = String::new();
    push_two_digits(&mut text, 7);
    assert_eq!(text, "07");
}

#[test]
fn replace_char_replaces_every_occurrence() {
    assert_eq!(replace_char("01.03.2024", '.', "\\."), "01\\.03\\.2024");
    assert_eq!(replace_char("", '.', "\\."), "");
    assert_eq!(replace_char("...", '.', ""), "");
    assert_eq!(replace_char("a-b", '-', "\\-"), "a\\-b");
    for sample in ["no dots", ".", "a.b.c.", "день.месяц 😩."] {
        assert_eq!(replace_char(sample, '.', "\\."), sample.replace('.', "\\."));
    }
}

#[test]
fn date_is_written_as_chrono_writes_it() {
    let samples = [
        (2024, 3, 1),
        (1999, 12, 31),
        (5, 1, 9),
        (0, 6, 15),
        (9999, 10, 10),
        (10000, 1, 1),
        (123456, 7, 4),
        (-1, 2, 3),
        (-12345, 11, 30),
    ];
    for (year, month, day) in samples {
        let date = Date::new(year, month, day).unwrap();
        let expected = chrono::NaiveDate::from_ymd_opt(year, month, day)
            .unwrap()
            .format("%d.%m.%Y")
            .to_string();
        assert_eq!(date.to_dmy(), expected);
    }
    assert_eq!(Date { year: 2024, month: 3, day: 1 }.to_dmy(), "01.03.2024");
}

#[test]
fn date_is_made_only_of_numbers_in_range() {
    assert_eq!(Date::new(2024, 3, 1), Some(Date { year: 2024, month: 3, day: 1 }));
    assert_eq!(Date::new(2024, 12, 31), Some(Date { year: 2024, month: 12, day: 31 }));
    assert_eq!(Date::new(2024, 0, 1), None);
    assert_eq!(Date::new(2024, 13, 1), None);
    assert_eq!(Date::new(2024, 3, 0), None);
    assert_eq!(Date::new(2024, 3, 32), None);
    assert_eq!(Date::default(), Date { year: 1970, month: 1, day: 1 });
    assert!(Date::default().is_in_range());
    assert!(!Date { year: 1, month: 0, day: 1 }.is_in_range());
}
