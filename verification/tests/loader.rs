use fib_stark::loader::{
    parse_line, parse_number, parse_trace, parse_trace_text, split_bytes, strip_end, strip_start,
    Strip,
};

fn bytes(s: &str) -> Vec<u8> {
    s.as_bytes().to_vec()
}

#[test]
fn numbers() {
    assert_eq!(parse_number(&bytes("0")), Some(0));
    assert_eq!(parse_number(&bytes("  42\t")), Some(42));
    assert_eq!(parse_number(&bytes("+7")), Some(7));
    assert_eq!(parse_number(&bytes("007")), Some(7));
    assert_eq!(parse_number(&bytes("18446744073709551615")), Some(u64::MAX));
    assert_eq!(parse_number(&bytes("18446744073709551616")), None);
    assert_eq!(parse_number(&bytes("99999999999999999999999")), None);
    assert_eq!(parse_number(&bytes("")), None);
    assert_eq!(parse_number(&bytes("   ")), None);
    assert_eq!(parse_number(&bytes("+")), None);
    assert_eq!(parse_number(&bytes("-1")), None);
    assert_eq!(parse_number(&bytes("1 2")), None);
    assert_eq!(parse_number(&bytes("12a")), None);
    assert_eq!(parse_number(&bytes("++1")), None);
}

#[test]
fn numbers_agree_with_the_standard_parser() {
    for text in [
        "5",
        " 5 ",
        "+5",
        "05",
        "",
        "+",
        "5+",
        "1_000",
        "18446744073709551615",
        "18446744073709551616",
        "\t9\r",
        "\u{a0}5\u{2003}",
        "\u{3000}7",
        "8\u{85}",
        "\u{1680}\u{2028}9\u{205f}\u{202f}",
        "\u{200b}5",
        "5\u{e9}",
    ] {
        let expected: Option<u64> = text.trim().parse::<u64>().ok();
        assert_eq!(parse_number(&bytes(text)), expected, "{:?}", text);
    }
}

#[test]
fn stripping() {
    assert_eq!(strip_start(&bytes("[[1,2]"), Strip::Byte(b'[')), bytes("1,2]"));
    assert_eq!(strip_end(&bytes("1,2]]"), Strip::Byte(b']')), bytes("1,2"));
    assert_eq!(strip_start(&bytes(" \t x "), Strip::Whitespace), bytes("x "));
    assert_eq!(strip_end(&bytes(" x \r\n"), Strip::Whitespace), bytes(" x"));
    assert_eq!(strip_end(&bytes("]]]"), Strip::Byte(b']')), bytes(""));
    assert_eq!(strip_start(&bytes(""), Strip::Whitespace), bytes(""));
    assert_eq!(Strip::Whitespace.leading_len(&bytes(" x"), 0), 1);
    assert_eq!(Strip::Whitespace.leading_len(&bytes("x\u{b}"), 1), 1);
    assert_eq!(Strip::Whitespace.leading_len(&bytes("a"), 0), 0);
    assert_eq!(Strip::Whitespace.leading_len(&bytes("\u{a0}x"), 0), 2);
    assert_eq!(Strip::Whitespace.leading_len(&bytes("\u{2009}x"), 0), 3);
    assert_eq!(Strip::Whitespace.trailing_len(&bytes("x\u{3000}"), 4), 3);
    assert_eq!(Strip::Whitespace.trailing_len(&bytes("x\u{3000}"), 1), 0);
    assert_eq!(Strip::Byte(b']').trailing_len(&bytes("x]"), 2), 1);
    // whitespace of more than one byte goes as a whole
    assert_eq!(strip_start(&bytes("\u{a0}\u{2003} 1 "), Strip::Whitespace), bytes("1 "));
    assert_eq!(strip_end(&bytes(" 1\u{2029}\u{85}"), Strip::Whitespace), bytes(" 1"));
    // a zero-width space is no whitespace
    assert_eq!(strip_start(&bytes("\u{200b}1"), Strip::Whitespace), bytes("\u{200b}1"));
}

#[test]
fn splitting() {
    assert_eq!(split_bytes(b"a,b,,c", b','), vec![bytes("a"), bytes("b"), bytes(""), bytes("c")]);
    assert_eq!(split_bytes(b"", b','), vec![bytes("")]);
    assert_eq!(split_bytes(b",", b','), vec![bytes(""), bytes("")]);
    assert_eq!(split_bytes(b"abc", b','), vec![bytes("abc")]);
}

#[test]
fn lines() {
    assert_eq!(parse_line(&bytes("[1,2,3]")), Some(vec![1, 2, 3]));
    assert_eq!(parse_line(&bytes("[ 1 , 2 ,3 ]")), Some(vec![1, 2, 3]));
    assert_eq!(parse_line(&bytes("1,2")), Some(vec![1, 2]));
    assert_eq!(parse_line(&bytes("[[7]]")), Some(vec![7]));
    assert_eq!(parse_line(&bytes("[1,,3]")), None);
    assert_eq!(parse_line(&bytes("[1,x]")), None);
    assert_eq!(parse_line(&bytes("")), None);
    // brackets are taken off before whitespace is
    assert_eq!(parse_line(&bytes(" [1,2]")), None);
    assert_eq!(parse_line(&bytes("[1,2] ")), None);
}

#[test]
fn text_to_rows() {
    let text = "[1,2,3]\n\n[4, 5, 6]\r\n[7,8]\nnonsense\n[9,10,11]";
    let trace = parse_trace_text(text.as_bytes(), 3);
    assert_eq!(trace.width(), 3);
    assert_eq!(trace.rows, vec![vec![1, 2, 3], vec![4, 5, 6], vec![9, 10, 11]]);
    let empty = parse_trace_text(b"", 3);
    assert_eq!(empty.height(), 0);
    // a carriage return at the very end is no line ending
    let bare = parse_trace_text(b"[1,2]\r", 2);
    assert_eq!(bare.height(), 0);
    let ended = parse_trace_text(b"[1,2]\r\n", 2);
    assert_eq!(ended.rows, vec![vec![1, 2]]);
}

#[test]
fn test_parse_trace() {
    let mut text = String::new();
    for i in 0..6u64 {
        let mut cells: Vec<String> = vec![format!("{}", i)];
        for c in 1..73u64 {
            cells.push(format!("{}", 100 * c + i));
        }
        text.push_str(&format!("[{}]\n", cells.join(",")));
    }
    let trace = parse_trace(&text);
    assert_eq!(trace.width(), 73);
    // six rows that count up: all are kept and padded to eight
    assert_eq!(trace.height(), 8);
    assert_eq!(trace.rows[5][0], 5);
    assert_eq!(trace.rows[5][72], 7205);
    assert_eq!(trace.rows[7][0], 7);
    assert_eq!(trace.rows[7][72], 7205);

    // a trailing row that breaks the count is dropped: five rows are kept
    let broken = text.replace("[5,", "[9,");
    let trace = parse_trace(&broken);
    assert_eq!(trace.height(), 8);
    assert_eq!(trace.rows[4][0], 4);
    assert_eq!(trace.rows[5][0], 5);
    assert_eq!(trace.rows[5][72], 7204);
    assert_eq!(trace.rows[7][72], 7204);
}

fn counting_text(rows: u64) -> String {
    let mut text = String::new();
    for i in 0..rows {
        let mut cells: Vec<String> = vec![format!("{}", i)];
        for c in 1..73u64 {
            cells.push(format!("{}", c));
        }
        text.push_str(&format!("[{}]\n", cells.join(",")));
    }
    text
}

#[test]
fn rows_that_count_up_are_all_kept() {
    assert_eq!(parse_trace(&counting_text(2)).height(), 2);
    assert_eq!(parse_trace(&counting_text(1)).height(), 1);
    assert_eq!(parse_trace(&counting_text(0)).height(), 0);
    let trace = parse_trace(&counting_text(121));
    assert_eq!(trace.height(), 128);
    assert_eq!(trace.rows[120][0], 120);
    assert_eq!(trace.rows[127][0], 127);
    assert_eq!(trace.rows[127][1..], trace.rows[120][1..]);
}

#[test]
fn unicode_whitespace_around_numbers() {
    let trace = parse_trace_text("[1,\u{a0}2\u{2003},\u{3000}3]\n".as_bytes(), 3);
    assert_eq!(trace.rows, vec![vec![1, 2, 3]]);
}
