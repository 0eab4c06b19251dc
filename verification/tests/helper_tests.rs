use bauxite::helper::{gen_whitespace, max_line_length, normalize_lines};
use bauxite::message::Message;
use bauxite::text::{from_chars, to_chars};

#[test]
fn test_nomralize_lines() {
    let message = "Lorem ipsum dolor sit amet, consectetur adipiscing elit, sed do eiusmod tempor incididunt ut labore et dolore magna aliqua.";
    let expected = "Lorem ipsum dolor sit amet, consectetur adipiscing elit, sed do eiusmod tem\npor incididunt ut labore et dolore magna aliqua.\n";

    let normalized = normalize_lines(&String::from(message), 80, 3);
    assert_eq!(expected, normalized);
}

#[test]
fn a_long_line_is_cut_at_width_less_padding_less_two() {
    let message = "x".repeat(124);
    let normalized = normalize_lines(&message, 80, 3);
    let lines: Vec<&str> = normalized.lines().collect();
    assert_eq!(lines.len(), 2);
    assert_eq!(lines[0].len(), 75);
    assert_eq!(lines[1].len(), 49);
    assert_eq!(normalized, format!("{}\n{}\n", "x".repeat(75), "x".repeat(49)));
}

#[test]
fn a_line_is_cut_as_often_as_it_takes() {
    let normalized = normalize_lines(&String::from("abcdefghijklmnopqrstuvwxyz"), 10, 2);
    assert_eq!(normalized, "abcdef\nghijkl\nmnopqr\nstuvwxyz\n");
}

#[test]
fn a_line_of_exactly_max_width_is_kept() {
    let normalized = normalize_lines(&String::from("abcdefghij"), 10, 2);
    assert_eq!(normalized, "abcdefghij\n");
    let normalized = normalize_lines(&String::from("abcdefghijk"), 10, 2);
    assert_eq!(normalized, "abcdef\nghijk\n");
}

#[test]
fn the_cut_is_never_before_the_first_character() {
    assert_eq!(normalize_lines(&String::from("abcd"), 3, 5), "a\nbcd\n");
    assert_eq!(normalize_lines(&String::from("abcd"), 2, 0), "a\nb\ncd\n");
    assert_eq!(normalize_lines(&String::from("abc"), 0, 0), "a\nb\nc\n\n");
}

#[test]
fn every_line_ends_in_a_newline() {
    assert_eq!(normalize_lines(&String::from(""), 80, 4), "");
    assert_eq!(normalize_lines(&String::from("a"), 80, 4), "a\n");
    assert_eq!(normalize_lines(&String::from("a\n"), 80, 4), "a\n");
    assert_eq!(normalize_lines(&String::from("a\n\nb"), 80, 4), "a\n\nb\n");
    assert_eq!(normalize_lines(&String::from("\n"), 80, 4), "\n");
    assert_eq!(normalize_lines(&String::from("\n\n"), 80, 4), "\n\n");
}

#[test]
fn tabs_become_single_spaces() {
    assert_eq!(normalize_lines(&String::from("\ta\tb\n\t"), 80, 4), " a b\n \n");
}

#[test]
fn normalizing_twice_changes_nothing() {
    let message = "Lorem ipsum dolor sit amet,\tconsectetur adipiscing elit, sed do eiusmod tempor incididunt ut labore\n\nshort\n";
    for (width, padding) in [(80usize, 4usize), (20, 4), (10, 2), (7, 9), (1, 0)] {
        let once = normalize_lines(&String::from(message), width, padding);
        let twice = normalize_lines(&once, width, padding);
        assert_eq!(once, twice);
        assert!(once.lines().all(|line| line.chars().count() <= width));
    }
}

#[test]
fn text_that_fits_only_loses_its_tabs() {
    let text = "one\ttwo\nthree\n\nfour\n";
    assert_eq!(normalize_lines(&String::from(text), 7, 0), "one two\nthree\n\nfour\n");
    assert_eq!(normalize_lines(&String::from("ab\ncd\n"), 2, 0), "ab\ncd\n");
}

#[test]
fn widths_count_characters() {
    let normalized = normalize_lines(&String::from("äöüäöüäöü"), 6, 2);
    assert_eq!(normalized, "äö\nüä\nöüäöü\n");
    assert_eq!(max_line_length(&String::from("äöü\nab")), 3);
}

#[test]
fn max_line_length_is_that_of_the_longest_line() {
    assert_eq!(max_line_length(&String::from("")), 0);
    assert_eq!(max_line_length(&String::from("\n\n")), 0);
    assert_eq!(max_line_length(&String::from("abc")), 3);
    assert_eq!(max_line_length(&String::from("a\nabcd\nab\n")), 4);
    assert_eq!(max_line_length(&String::from("abcd\na")), 4);
    assert_eq!(max_line_length(&String::from("a\nab\nabcde")), 5);
}

#[test]
fn message_measures_its_longest_line() {
    assert_eq!(Message::new("a\nabcd\nab").max_line_length(), 4);
    assert_eq!(Message::new("").max_line_length(), 0);
    assert_eq!(Message::new("two\nlines").to_string(), "two\nlines");
}

#[test]
fn gen_whitespace_gives_that_many_spaces() {
    assert_eq!(gen_whitespace(0), "");
    assert_eq!(gen_whitespace(1), " ");
    assert_eq!(gen_whitespace(5), "     ");
}

#[test]
fn chars_and_strings_convert_both_ways() {
    let text = "a│b\tc\n";
    let chars = to_chars(text);
    assert_eq!(chars, vec!['a', '│', 'b', '\t', 'c', '\n']);
    assert_eq!(from_chars(&chars), text);
    assert_eq!(to_chars(""), Vec::<char>::new());
}
