use diary_mutation::sanitize::process_output;
use diary_mutation::text::{
    char_is_whitespace, char_len, char_range, chars_of, str_chars_after, str_eq, str_first_chars,
    str_is_blank, str_starts_with, trim_bounds,
};

#[test]
fn sanitize_keeps_what_follows_the_separator() {
    assert_eq!(process_output("noise === answer".to_string()), "answer");
}

#[test]
fn sanitize_trims_plain_text() {
    assert_eq!(process_output("plain text".to_string()), "plain text");
    assert_eq!(process_output("  plain text \n".to_string()), "plain text");
}

#[test]
fn sanitize_cuts_at_the_last_separator() {
    assert_eq!(process_output("a === b === c".to_string()), "c");
    assert_eq!(process_output("=== first\n================ \nsecond".to_string()), "second");
}

#[test]
fn sanitize_counts_overlapping_separators() {
    assert_eq!(process_output("a====b".to_string()), "b");
    assert_eq!(process_output("a =====".to_string()), "");
    assert_eq!(process_output("===".to_string()), "");
}

#[test]
fn sanitize_leaves_shorter_runs_alone() {
    assert_eq!(process_output("a == b".to_string()), "a == b");
    assert_eq!(process_output("= = =".to_string()), "= = =");
    assert_eq!(process_output("".to_string()), "");
    assert_eq!(process_output("  \t ".to_string()), "");
}

#[test]
fn sanitize_counts_characters_not_bytes() {
    assert_eq!(process_output("まえがき === こたえ　".to_string()), "こたえ");
    assert_eq!(process_output("\u{3000}日記\u{2003}".to_string()), "日記");
}

#[test]
fn sanitize_agrees_with_a_plain_reading() {
    let inputs = [
        "x === y",
        " === ",
        "no marker here ",
        "==== =",
        "a===b===",
        "\n\n===\n answer \n",
        "= == === ==== tail",
    ];
    for input in inputs {
        let expected = match input.rfind("===") {
            Some(pos) => input[(pos + 3)..].trim().to_string(),
            None => input.trim().to_string(),
        };
        assert_eq!(process_output(input.to_string()), expected);
    }
}

#[test]
fn sanitize_twice_changes_nothing_more() {
    let inputs = ["x === y", "  a  ", "==== b", "c ==="];
    for input in inputs {
        let once = process_output(input.to_string());
        assert_eq!(process_output(once.clone()), once);
    }
}

#[test]
fn whitespace_is_what_unicode_says() {
    let mut c = 0u32;
    while c <= 0x10FFFF {
        if let Some(ch) = char::from_u32(c) {
            assert_eq!(char_is_whitespace(ch), ch.is_whitespace());
        }
        c += 1;
    }
}

#[test]
fn trim_bounds_frame_the_kept_part() {
    let v = chars_of("ab  cd  ");
    assert_eq!(trim_bounds(&v, 0), (0, 6));
    assert_eq!(trim_bounds(&v, 2), (4, 6));
    assert_eq!(trim_bounds(&v, 6), (8, 8));
    assert_eq!(trim_bounds(&v, 8), (8, 8));
}

#[test]
fn blank_texts() {
    assert!(str_is_blank(""));
    assert!(str_is_blank(" \n\t\u{3000}"));
    assert!(!str_is_blank(" a "));
    assert!(!str_is_blank("．"));
}

#[test]
fn prefixes() {
    assert!(str_starts_with("Hello world", "Hello"));
    assert!(str_starts_with("Hello", "Hello"));
    assert!(str_starts_with("Hello", ""));
    assert!(!str_starts_with("Hello", "Hello world"));
    assert!(!str_starts_with("Hello", "hello"));
    assert!(str_starts_with("日記を書く", "日記"));
    assert!(!str_starts_with("日記を書く", "日誌"));
}

#[test]
fn text_equality() {
    assert!(str_eq("content", "content"));
    assert!(!str_eq("content", "contents"));
    assert!(!str_eq("content", "contenT"));
    assert!(str_eq("", ""));
}

#[test]
fn lengths_and_ranges_count_characters() {
    assert_eq!(char_len("日記 ok"), 5);
    assert_eq!(char_len(""), 0);
    assert_eq!(char_range("日記を書く", 1, 3), "記を");
    assert_eq!(char_range("abc", 3, 3), "");
    assert_eq!(str_first_chars("日記を書く", 2), "日記");
    assert_eq!(str_first_chars("日記", 9), "日記");
    assert_eq!(str_first_chars("日記", 0), "");
    assert_eq!(str_chars_after("日記を書く", 2), "を書く");
    assert_eq!(str_chars_after("日記", 2), "");
    assert_eq!(str_chars_after("日記", 9), "");
    assert_eq!(chars_of("aé日"), vec!['a', 'é', '日']);
}
