use rec_cli::session::{parse_pid, pid_record};
use rec_cli::text::{
    append_decimal, append_digits, chars_of, find_mark, is_whitespace, parse_i32, trim_bounds,
    trim_text,
};

#[test]
fn white_space_is_what_std_calls_white_space() {
    let mut code: u32 = 0;
    while code <= 0x3100 {
        if let Some(c) = char::from_u32(code) {
            assert_eq!(is_whitespace(c), c.is_whitespace());
        }
        code += 1;
    }
    assert!(!is_whitespace('\u{feff}'));
    assert!(!is_whitespace('\u{10ffff}'));
}

#[test]
fn chars_come_out_in_order() {
    assert_eq!(chars_of("a,b"), vec!['a', ',', 'b']);
    assert_eq!(chars_of(""), Vec::<char>::new());
    assert_eq!(chars_of("é\u{3000}z"), vec!['é', '\u{3000}', 'z']);
}

#[test]
fn trimming_agrees_with_std() {
    let texts = [
        "",
        " ",
        "a",
        " a",
        "a ",
        "  a b  ",
        "\t\n\r x \u{a0}\u{2003}",
        "\u{3000}",
        "x\u{85}",
        "\u{1680}mid dle\u{205f}",
    ];
    for text in texts.iter() {
        assert_eq!(trim_text(text), text.trim());
    }
}

#[test]
fn trim_bounds_stay_inside_the_range() {
    let chars = chars_of("xx  ab  yy");
    assert_eq!(trim_bounds(&chars, 2, 8), (4, 6));
    assert_eq!(trim_bounds(&chars, 0, 10), (0, 10));
    assert_eq!(trim_bounds(&chars, 2, 4), (4, 4));
    assert_eq!(trim_bounds(&chars, 3, 3), (3, 3));
}

#[test]
fn find_mark_finds_the_first() {
    let chars = chars_of("ab,cd,ef");
    assert_eq!(find_mark(&chars, 0, 8, ','), 2);
    assert_eq!(find_mark(&chars, 3, 8, ','), 5);
    assert_eq!(find_mark(&chars, 6, 8, ','), 8);
    assert_eq!(find_mark(&chars, 0, 2, ','), 2);
    assert_eq!(find_mark(&chars, 2, 2, ','), 2);
}

#[test]
fn numbers_are_read_as_std_reads_them() {
    let texts = [
        "0",
        "7",
        "007",
        "+7",
        "-7",
        "-0",
        "+0",
        "2147483647",
        "2147483648",
        "-2147483648",
        "-2147483649",
        "+2147483647",
        "00000000000000000000001",
        "99999999999999999999999",
        "",
        "+",
        "-",
        "+-1",
        "--1",
        "1-",
        "12a",
        "a12",
        " 12",
        "12 ",
        "1_000",
        "1.5",
        "٣",
        "１２",
    ];
    for text in texts.iter() {
        let chars = chars_of(text);
        assert_eq!(parse_i32(&chars, 0, chars.len()), text.parse::<i32>().ok());
    }
}

#[test]
fn numbers_are_read_from_a_part_of_the_text() {
    let chars = chars_of("w=-120;");
    assert_eq!(parse_i32(&chars, 2, 6), Some(-120));
    assert_eq!(parse_i32(&chars, 3, 6), Some(120));
    assert_eq!(parse_i32(&chars, 2, 7), None);
    assert_eq!(parse_i32(&chars, 4, 4), None);
}

#[test]
fn process_ids_are_read_as_the_trimmed_number() {
    let records = [
        "4242",
        "4242\n",
        "  17  ",
        "\u{3000}42\u{2003}",
        "",
        "\n",
        "pid",
        "12 34",
        "-5",
        "0",
        "2147483647",
        "2147483648",
        "-2147483648",
    ];
    for record in records.iter() {
        assert_eq!(parse_pid(record), record.trim().parse::<i32>().ok());
    }
    assert_eq!(parse_pid("4242\n"), Some(4242));
    assert_eq!(parse_pid("not a number"), None);
}

#[test]
fn numbers_are_written_as_std_writes_them() {
    let values =
        [0, 1, 9, 10, 11, 99, 100, 101, 12345, 1000000, i32::MAX, -1, -9, -10, -4242, i32::MIN];
    for &value in values.iter() {
        let mut out = String::from("n=");
        append_decimal(&mut out, value);
        assert_eq!(out, format!("n={}", value));
        assert_eq!(pid_record(value), value.to_string());
    }
}

#[test]
fn digits_are_appended_without_leading_zeros() {
    let mut out = String::new();
    append_digits(&mut out, 0);
    append_digits(&mut out, 4294967295);
    append_digits(&mut out, 1080);
    assert_eq!(out, "042949672951080");
}

#[test]
fn a_written_process_id_is_read_back() {
    let values = [1, 2, 4242, 32768, 4194304, i32::MAX, 0, -1, i32::MIN];
    for &value in values.iter() {
        assert_eq!(parse_pid(&pid_record(value)), Some(value));
    }
}
