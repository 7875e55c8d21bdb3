use linefilter::highlight::{highlight_lines, highlight_word_in_string};

#[test]
fn test_highlight_word_found() {
    let input = "this is a stream of data";
    let expected = format!("this is a {} of data", "\x1B[37;101mstream\x1B[0m");
    let result = highlight_word_in_string(input, "stream");
    assert_eq!(result, expected);
}

#[test]
fn test_highlight_word_not_found() {
    let input = "no match here";
    let result = highlight_word_in_string(input, "stream");
    assert_eq!(result, "no match here");
}

#[test]
fn empty_term_leaves_line_unchanged() {
    let result = highlight_word_in_string("this is a stream of data", "");
    assert_eq!(result, "this is a stream of data");
}

#[test]
fn empty_line_with_term_is_unchanged() {
    let result = highlight_word_in_string("", "stream");
    assert_eq!(result, "");
}

#[test]
fn only_first_occurrence_is_highlighted() {
    let result = highlight_word_in_string("one stream, two stream", "stream");
    assert_eq!(result, "one \x1B[37;101mstream\x1B[0m, two stream");
}

#[test]
fn term_equal_to_line_is_wrapped_whole() {
    let result = highlight_word_in_string("stream", "stream");
    assert_eq!(result, "\x1B[37;101mstream\x1B[0m");
}

#[test]
fn term_at_start_and_end_of_line() {
    assert_eq!(
        highlight_word_in_string("stream of data", "stream"),
        "\x1B[37;101mstream\x1B[0m of data"
    );
    assert_eq!(
        highlight_word_in_string("a data stream", "stream"),
        "a data \x1B[37;101mstream\x1B[0m"
    );
}

#[test]
fn term_longer_than_line_is_no_match() {
    let result = highlight_word_in_string("str", "stream");
    assert_eq!(result, "str");
}

#[test]
fn single_character_term() {
    assert_eq!(
        highlight_word_in_string("abc", "b"),
        format!("a{}c", "\x1B[37;101mb\x1B[0m")
    );
}

#[test]
fn lines_keep_their_order_and_count() {
    let lines = vec![
        "line1".to_string(),
        "line2".to_string(),
        "stream".to_string(),
        "q".to_string(),
    ];
    let out = highlight_lines(&lines, "stream");
    let expected = vec![
        "line1".to_string(),
        "line2".to_string(),
        "\x1B[37;101mstream\x1B[0m".to_string(),
        "q".to_string(),
    ];
    assert_eq!(out, expected);
}

#[test]
fn lines_unchanged_under_empty_term() {
    let lines = vec!["line1".to_string(), "line2".to_string(), "q".to_string()];
    let out = highlight_lines(&lines, "");
    assert_eq!(out, lines);
}
