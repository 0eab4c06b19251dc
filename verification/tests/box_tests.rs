use bauxite::escape::strip_escapes;
use bauxite::formatting::Formatting;
use bauxite::{Alignment, AnsiColorCode, BoxBuilder, ConfigError, LineType};

#[test]
fn test_basic_box() {
    let expected = "┌────────────┐\n\
                    │            │\n\
                    │  whatever  │\n\
                    │  whatever  │\n\
                    │            │\n\
                    └────────────┘";
    let boxed_content = BoxBuilder::new(String::from("whatever\nwhatever"));
    assert_eq!(expected, boxed_content.to_string().unwrap());
}

#[test]
fn test_left_align() {
    let expected = "┌──────────────────────────────────────────────────────────────────────┐\n\
                    │                                                                      │\n\
                    │  Lorem ipsum dolor sit amet,                                         │\n\
                    │  consectetur adipiscing elit,                                        │\n\
                    │  sed do eiusmod tempor incididunt ut labore et dolore magna aliqua.  │\n\
                    │                                                                      │\n\
                    └──────────────────────────────────────────────────────────────────────┘";
    let message = "Lorem ipsum dolor sit amet,\nconsectetur adipiscing elit,\nsed do eiusmod tempor incididunt ut labore et dolore magna aliqua.";
    let boxed_content = BoxBuilder::new(String::from(message)).alignment(Alignment::Left);
    assert_eq!(expected, boxed_content.to_string().unwrap());
}

#[test]
fn test_right_align() {
    let expected = "┌──────────────────────────────────────────────────────────────────────┐\n\
                    │                                                                      │\n\
                    │                                         Lorem ipsum dolor sit amet,  │\n\
                    │                                        consectetur adipiscing elit,  │\n\
                    │  sed do eiusmod tempor incididunt ut labore et dolore magna aliqua.  │\n\
                    │                                                                      │\n\
                    └──────────────────────────────────────────────────────────────────────┘";
    let message = "Lorem ipsum dolor sit amet,\nconsectetur adipiscing elit,\nsed do eiusmod tempor incididunt ut labore et dolore magna aliqua.";
    let boxed_content = BoxBuilder::new(String::from(message)).alignment(Alignment::Right);
    assert_eq!(expected, boxed_content.to_string().unwrap());
}

#[test]
fn test_fmt() {
    let expected = "┌──────────────────────────────────────────────────────────────────────┐\n\
                    │                                                                      │\n\
                    │  Lorem ipsum dolor sit amet,                                         │\n\
                    │  consectetur adipiscing elit,                                        │\n\
                    │  sed do eiusmod tempor incididunt ut labore et dolore magna aliqua.  │\n\
                    │                                                                      │\n\
                    └──────────────────────────────────────────────────────────────────────┘";
    let message = "Lorem ipsum dolor sit amet,\nconsectetur adipiscing elit,\nsed do eiusmod tempor incididunt ut labore et dolore magna aliqua.";
    let boxed_content = BoxBuilder::new(String::from(message)).alignment(Alignment::Left);
    assert_eq!(expected, format!("{}", boxed_content.to_string().unwrap()));
}

#[test]
fn empty_box() {
    let expected = "┌────┐\n\
                    │    │\n\
                    │    │\n\
                    └────┘";
    let message = "";
    let boxed_content = BoxBuilder::new(String::from(message));
    assert_eq!(expected, boxed_content.to_string().unwrap());
}

#[test]
fn line_wrapping() {
    let expected =
        "┌──────────────────────────────────────────────────────────────────────────────┐\n\
         │                                                                              │\n\
         │  Lorem ipsum dolor sit amet, consectetur adipiscing elit, sed do eiusmod te  │\n\
         │  mpor incididunt ut labore et dolore magna aliqua.                           │\n\
         │                                                                              │\n\
         └──────────────────────────────────────────────────────────────────────────────┘";
    let message = "Lorem ipsum dolor sit amet, consectetur adipiscing elit, sed do eiusmod tempor incididunt ut labore et dolore magna aliqua.";
    let boxed_content = BoxBuilder::new(String::from(message));
    assert_eq!(expected, boxed_content.to_string().unwrap());
}

#[test]
fn handle_tab_character() {
    let expected = "┌──────┐\n\
                    │      │\n\
                    │      │\n\
                    │      │\n\
                    └──────┘";
    let message = "\t\t";
    let boxed_content = BoxBuilder::new(String::from(message));
    assert_eq!(expected, boxed_content.to_string().unwrap());
}

#[test]
fn test_from() {
    let expected = "┌──────────────────────────────────────────────────────────────────────┐\n\
                    │                                                                      │\n\
                    │  Lorem ipsum dolor sit amet,                                         │\n\
                    │  consectetur adipiscing elit,                                        │\n\
                    │  sed do eiusmod tempor incididunt ut labore et dolore magna aliqua.  │\n\
                    │                                                                      │\n\
                    └──────────────────────────────────────────────────────────────────────┘";
    let message = "Lorem ipsum dolor sit amet,\nconsectetur adipiscing elit,\nsed do eiusmod tempor incididunt ut labore et dolore magna aliqua.";
    let boxed_content = BoxBuilder::from(message).alignment(Alignment::Left);
    assert_eq!(expected, format!("{}", boxed_content.to_string().unwrap()));
}

#[test]
fn default_formatting() {
    let format = Formatting::new();
    assert_eq!(format.padding, 2);
    assert!(matches!(format.alignment, Alignment::Left));
    assert_eq!(format.max_width, 80);
    assert_eq!(format.padding_left, None);
    assert_eq!(format.padding_right, None);
    assert_eq!(format.padding_top, None);
    assert_eq!(format.padding_bottom, None);
    assert_eq!(format.border_style, LineType::Basic);
    assert_eq!(format.left_padding(), 2);
    assert_eq!(format.right_padding(), 2);
    assert_eq!(format.top_padding(), 1);
    assert_eq!(format.bottom_padding(), 1);
    assert_eq!(format.validate(), Ok(()));
}

#[test]
fn per_side_padding_overrides_the_uniform_one() {
    let mut format = Formatting::new();
    format.padding = 5;
    format.padding_left = Some(1);
    format.padding_bottom = Some(0);
    assert_eq!(format.left_padding(), 1);
    assert_eq!(format.right_padding(), 5);
    assert_eq!(format.top_padding(), 2);
    assert_eq!(format.bottom_padding(), 0);
}

#[test]
fn uniform_padding_applies_to_all_sides() {
    let expected = "┌──────────┐\n\
                    │          │\n\
                    │          │\n\
                    │    hi    │\n\
                    │          │\n\
                    │          │\n\
                    └──────────┘";
    let boxed = BoxBuilder::from("hi").padding(4);
    assert_eq!(expected, boxed.to_string().unwrap());
}

#[test]
fn odd_padding_is_halved_downwards_at_top_and_bottom() {
    let expected = "┌────────┐\n\
                    │        │\n\
                    │   hi   │\n\
                    │        │\n\
                    └────────┘";
    let boxed = BoxBuilder::from("hi").padding(3);
    assert_eq!(expected, boxed.to_string().unwrap());
    let flat = BoxBuilder::from("hi").padding(1);
    assert_eq!("┌────┐\n│ hi │\n└────┘", flat.to_string().unwrap());
    let tight = BoxBuilder::from("hi").padding(0);
    assert_eq!("┌──┐\n│hi│\n└──┘", tight.to_string().unwrap());
}

#[test]
fn each_side_can_have_its_own_padding() {
    let expected = "┌──────┐\n\
                    │      │\n\
                    │      │\n\
                    │ a    │\n\
                    │ bcd  │\n\
                    └──────┘";
    let boxed = BoxBuilder::from("a\nbcd")
        .padding_left(1)
        .padding_right(2)
        .padding_top(2)
        .padding_bottom(0);
    assert_eq!(expected, boxed.to_string().unwrap());
}

#[test]
fn right_alignment_keeps_the_right_padding() {
    let expected = "┌───────┐\n\
                    │     a │\n\
                    │  bcde │\n\
                    │   fg  │\n\
                    └───────┘";
    let boxed = BoxBuilder::from("a\nbcde\nfg ")
        .alignment(Alignment::Right)
        .padding_left(2)
        .padding_right(1)
        .padding_top(0)
        .padding_bottom(0);
    assert_eq!(expected, boxed.to_string().unwrap());
}

#[test]
fn left_alignment_keeps_the_left_padding() {
    let boxed = BoxBuilder::from("a\nbcde\nfg")
        .alignment(Alignment::Left)
        .padding_left(3)
        .padding_right(1)
        .padding_top(0)
        .padding_bottom(0)
        .to_string()
        .unwrap();
    let rows: Vec<&str> = boxed.lines().collect();
    assert_eq!(rows[1], "│   a    │");
    assert_eq!(rows[2], "│   bcde │");
    assert_eq!(rows[3], "│   fg   │");
}

#[test]
fn every_row_has_the_same_width() {
    let message = "Lorem ipsum dolor sit amet, consectetur adipiscing elit, sed do eiusmod tempor incididunt ut labore et dolore magna aliqua.\n\nshort\twith tab\nä";
    for align in [Alignment::Left, Alignment::Right] {
        for width in [80usize, 30, 12] {
            let boxed = BoxBuilder::from(message)
                .alignment(align)
                .max_width(width)
                .padding_left(3)
                .padding_right(4)
                .to_string()
                .unwrap();
            let normalized = bauxite::helper::normalize_lines(&String::from(message), width, 7);
            let content_width = bauxite::helper::max_line_length(&normalized);
            let rows: Vec<&str> = boxed.lines().collect();
            assert_eq!(rows.len(), normalized.lines().count() + 2 + 2);
            for row in rows {
                assert_eq!(row.chars().count(), content_width + 7 + 2);
            }
        }
    }
}

#[test]
fn each_border_style_is_drawn_with_its_glyphs() {
    let dotted = BoxBuilder::from("ab").padding(1).line_type(LineType::Dotted);
    assert_eq!("┌╌╌╌╌┐\n╎ ab ╎\n└╌╌╌╌┘", dotted.to_string().unwrap());
    let bold = BoxBuilder::from("ab").padding(1).line_type(LineType::Bold);
    assert_eq!("┏━━━━┓\n┃ ab ┃\n┗━━━━┛", bold.to_string().unwrap());
    let double = BoxBuilder::from("ab").padding(1).line_type(LineType::Double);
    assert_eq!("╔════╗\n║ ab ║\n╚════╝", double.to_string().unwrap());
    let basic = BoxBuilder::from("ab").padding(1).line_type(LineType::Basic);
    assert_eq!("┌────┐\n│ ab │\n└────┘", basic.to_string().unwrap());
}

#[test]
fn a_colored_border_wraps_each_glyph_and_no_content() {
    let boxed = BoxBuilder::from("a").padding(0).color_8(9).to_string().unwrap();
    let g = |glyph: &str| format!("\x1B[38;5;9m{}\x1B[0m", glyph);
    let expected = format!(
        "{}{}{}\n{}a{}\n{}{}{}",
        g("┌"),
        g("─"),
        g("┐"),
        g("│"),
        g("│"),
        g("└"),
        g("─"),
        g("┘")
    );
    assert_eq!(expected, boxed);
}

#[test]
fn stripping_the_colors_gives_the_plain_box() {
    let message = "Lorem ipsum dolor sit amet,\nconsectetur\tadipiscing elit";
    let plain = BoxBuilder::from(message).max_width(20).to_string().unwrap();
    let indexed = BoxBuilder::from(message).max_width(20).color_8(200);
    let rgb = BoxBuilder::from(message).max_width(20).color_rgb(1, 20, 255);
    let named = BoxBuilder::from(message).max_width(20).color(AnsiColorCode::BrightCyan);
    assert_eq!(plain, strip_escapes(&indexed.to_string().unwrap()));
    assert_eq!(plain, strip_escapes(&rgb.to_string().unwrap()));
    assert_eq!(plain, strip_escapes(&named.to_string().unwrap()));
    assert_eq!(plain, strip_escapes(&plain));
    assert_ne!(plain, named.to_string().unwrap());
    for row in strip_escapes(&rgb.to_string().unwrap()).lines() {
        assert_eq!(row.chars().count(), 20);
    }
}

#[test]
fn of_several_colors_the_named_one_wins() {
    let all = BoxBuilder::from("a").color(AnsiColorCode::Red).color_rgb(1, 2, 3).color_8(9);
    let named = BoxBuilder::from("a").color(AnsiColorCode::Red);
    assert_eq!(all.to_string().unwrap(), named.to_string().unwrap());
    let two = BoxBuilder::from("a").color_8(9).color_rgb(1, 2, 3);
    let rgb = BoxBuilder::from("a").color_rgb(1, 2, 3);
    assert_eq!(two.to_string().unwrap(), rgb.to_string().unwrap());
}

#[test]
fn a_width_that_leaves_no_column_is_rejected() {
    assert_eq!(
        BoxBuilder::from("abc").max_width(6).to_string(),
        Err(ConfigError::WidthTooSmall)
    );
    assert_eq!(
        BoxBuilder::from("").max_width(0).to_string(),
        Err(ConfigError::WidthTooSmall)
    );
    assert_eq!(
        BoxBuilder::from("abc").padding(40).to_string(),
        Err(ConfigError::WidthTooSmall)
    );
    assert_eq!(
        BoxBuilder::from("abc").padding_left(usize::MAX).to_string(),
        Err(ConfigError::WidthTooSmall)
    );
    assert_eq!(
        BoxBuilder::from("abcdefgh").max_width(7).to_string().unwrap(),
        "┌───────────┐\n│           │\n│  a        │\n│  bcdefgh  │\n│           │\n└───────────┘"
    );
}

#[test]
fn a_width_beyond_any_length_is_rejected() {
    assert_eq!(
        BoxBuilder::from("abc").max_width(usize::MAX).to_string(),
        Err(ConfigError::WidthTooLarge)
    );
    assert_eq!(
        BoxBuilder::from("abc").max_width(usize::MAX - 5).to_string(),
        Err(ConfigError::WidthTooLarge)
    );
    assert!(BoxBuilder::from("abc").max_width(usize::MAX - 6).to_string().is_ok());
}

#[test]
fn errors_say_what_is_wrong() {
    assert_eq!(
        ConfigError::WidthTooSmall.message(),
        "max_width must exceed the left and right padding by more than 2"
    );
    assert_eq!(
        ConfigError::WidthTooLarge.message(),
        "max_width, the left and right padding and 2 must add up to a valid length"
    );
    let mut format = Formatting::new();
    format.max_width = 3;
    format.padding = 0;
    assert_eq!(format.validate(), Ok(()));
    format.max_width = 2;
    assert_eq!(format.validate(), Err(ConfigError::WidthTooSmall));
}

#[test]
fn a_line_of_max_width_is_not_wrapped() {
    let line = "x".repeat(80);
    let boxed = BoxBuilder::new(line.clone()).to_string().unwrap();
    let rows: Vec<&str> = boxed.lines().collect();
    assert_eq!(rows.len(), 5);
    assert_eq!(rows[2], format!("│  {}  │", line));
    let longer = "x".repeat(81);
    let boxed = BoxBuilder::new(longer).to_string().unwrap();
    let rows: Vec<&str> = boxed.lines().collect();
    assert_eq!(rows.len(), 6);
    assert_eq!(rows[2], format!("│  {}  │", "x".repeat(74)));
    assert_eq!(rows[3], format!("│  {}{}  │", "x".repeat(7), " ".repeat(67)));
}

#[test]
fn escape_sequences_run_to_the_next_m() {
    assert_eq!(strip_escapes(&String::from("")), "");
    assert_eq!(strip_escapes(&String::from("plain m")), "plain m");
    assert_eq!(strip_escapes(&String::from("\x1B[31mred\x1B[0m")), "red");
    assert_eq!(strip_escapes(&String::from("a\x1B[38;2;1;2;3mb\x1B[0mc")), "abc");
    assert_eq!(strip_escapes(&String::from("a\x1Bmb")), "ab");
    assert_eq!(strip_escapes(&String::from("a\x1B[1")), "a");
    assert_eq!(strip_escapes(&String::from("\x1B\x1Bmm")), "m");
}

#[test]
fn whitespace_is_content_like_any_other() {
    let boxed = BoxBuilder::from("   \n ").padding(1).to_string().unwrap();
    assert_eq!(boxed, "┌─────┐\n│     │\n│     │\n└─────┘");
    let blank_line = BoxBuilder::from("\n").padding(1).to_string().unwrap();
    assert_eq!(blank_line, "┌──┐\n│  │\n└──┘");
}

#[test]
fn the_rows_of_a_right_aligned_box_end_alike() {
    let boxed = BoxBuilder::from("longest line\nshort\nmid line")
        .alignment(Alignment::Right)
        .padding(2)
        .to_string()
        .unwrap();
    let rows: Vec<&str> = boxed.lines().collect();
    assert_eq!(rows[2], "│  longest line  │");
    assert_eq!(rows[3], "│         short  │");
    assert_eq!(rows[4], "│      mid line  │");
}
