use bauxite::color::{color_code as prefix_8, color_text, LineColor, RESET_CODE};
use bauxite::lines::color::{
    color_8, color_code, color_rgb, paint_text, AnsiColorCode, ColorSpec, RgbColor,
};
use bauxite::lines::line_type::LineType;
use bauxite::lines::{resolve_line_type, Lines, HORIZONTAL, TOP_LEFT, VERTICAL};

#[test]
fn test_color_8() {
    let mut color = LineColor::new();
    let color_code = 9;
    color.color8 = Some(color_code);

    let message = "Arbitrary Text";

    let wrapped_message = color.wrap_color(String::from(message));
    let expected_message = format!("\x1B[38;5;{}m{}{}", color_code, message, RESET_CODE);
    assert_eq!(wrapped_message, expected_message);
}

#[test]
fn test_color_code() {
    let mut color = LineColor::new();
    let color_code = AnsiColorCode::BrightBlack;
    color.ansi = Some(color_code);
    let message = "Arbitrary text";
    let wrapped_message = color.wrap_color(String::from(message));
    let expected_message = format!("\x1B[{}m{}{}", "90", message, RESET_CODE);
    assert_eq!(wrapped_message, expected_message);
}

#[test]
fn test_color_rgb() {
    let mut color = LineColor::new();
    let rgb = RgbColor {
        red: 100,
        green: 101,
        blue: 102,
    };
    color.rgb = Some(rgb);

    let message = "Arbitrary text";
    let wrapped_message = color.wrap_color(String::from(message));
    let expected_message = format!(
        "\x1B[38;2;{};{};{}m{}{}",
        100, 101, 102, message, RESET_CODE
    );
    assert_eq!(wrapped_message, expected_message);
}

#[test]
fn reset_code_is_sgr_zero() {
    assert_eq!(RESET_CODE, "\x1B[0m");
}

#[test]
fn no_color_leaves_text_unchanged() {
    let color = LineColor::new();
    assert_eq!(color.resolve(), ColorSpec::Plain);
    assert_eq!(color.wrap_color(String::from("plain")), "plain");
    assert_eq!(paint_text(String::from("plain"), ColorSpec::Plain), "plain");
}

#[test]
fn every_index_is_written_in_decimal() {
    for n in 0..=255u8 {
        let expected = format!("\x1B[38;5;{}mx\x1B[0m", n);
        assert_eq!(color_8(String::from("x"), n), expected);
    }
}

#[test]
fn index_edges_have_no_leading_zeros() {
    assert_eq!(color_8(String::from("x"), 0), "\x1B[38;5;0mx\x1B[0m");
    assert_eq!(color_8(String::from("x"), 9), "\x1B[38;5;9mx\x1B[0m");
    assert_eq!(color_8(String::from("x"), 10), "\x1B[38;5;10mx\x1B[0m");
    assert_eq!(color_8(String::from("x"), 99), "\x1B[38;5;99mx\x1B[0m");
    assert_eq!(color_8(String::from("x"), 100), "\x1B[38;5;100mx\x1B[0m");
    assert_eq!(color_8(String::from("x"), 205), "\x1B[38;5;205mx\x1B[0m");
    assert_eq!(color_8(String::from("x"), 255), "\x1B[38;5;255mx\x1B[0m");
}

#[test]
fn rgb_components_are_separated_by_semicolons() {
    assert_eq!(
        color_rgb(String::from("x"), 0, 7, 255),
        "\x1B[38;2;0;7;255mx\x1B[0m"
    );
    assert_eq!(
        color_rgb(String::from(""), 255, 255, 255),
        "\x1B[38;2;255;255;255m\x1B[0m"
    );
}

#[test]
fn named_colors_have_their_codes() {
    let table = [
        (AnsiColorCode::Black, "30"),
        (AnsiColorCode::Red, "31"),
        (AnsiColorCode::Green, "32"),
        (AnsiColorCode::Yellow, "33"),
        (AnsiColorCode::Blue, "34"),
        (AnsiColorCode::Magenta, "35"),
        (AnsiColorCode::Cyan, "36"),
        (AnsiColorCode::White, "37"),
        (AnsiColorCode::BrightBlack, "90"),
        (AnsiColorCode::BrightRed, "91"),
        (AnsiColorCode::BrightGreen, "92"),
        (AnsiColorCode::BrightYellow, "93"),
        (AnsiColorCode::BrightBlue, "94"),
        (AnsiColorCode::BrightMagenta, "95"),
        (AnsiColorCode::BrightCyan, "96"),
        (AnsiColorCode::BrightWhite, "97"),
    ];
    for (code, digits) in table.iter() {
        let expected = format!("\x1B[{}mtext\x1B[0m", digits);
        assert_eq!(color_code(String::from("text"), code), expected);
        assert_eq!(format!("{}", code.number()), *digits);
    }
}

#[test]
fn named_wins_over_rgb_and_rgb_over_indexed() {
    let mut color = LineColor::new();
    color.color8 = Some(9);
    color.rgb = Some(RgbColor { red: 1, green: 2, blue: 3 });
    assert_eq!(color.resolve(), ColorSpec::Rgb(1, 2, 3));
    assert_eq!(color.wrap_color(String::from("x")), "\x1B[38;2;1;2;3mx\x1B[0m");
    color.ansi = Some(AnsiColorCode::Red);
    assert_eq!(color.resolve(), ColorSpec::Named(AnsiColorCode::Red));
    assert_eq!(color.wrap_color(String::from("x")), "\x1B[31mx\x1B[0m");
}

#[test]
fn color_text_wraps_and_color_code_is_its_prefix() {
    assert_eq!(prefix_8(9), "\x1B[38;5;9m");
    assert_eq!(prefix_8(255), "\x1B[38;5;255m");
    assert_eq!(color_text(&String::from("abc"), 42), "\x1B[38;5;42mabc\x1B[0m");
}

#[test]
fn default_lines_are_the_basic_style() {
    let lines = Lines::new();
    assert_eq!(lines.horizontal, HORIZONTAL);
    assert_eq!(lines.vertical, VERTICAL);
    assert_eq!(lines.top_left, TOP_LEFT);
    assert_eq!(lines.top_left, "┌");
    assert_eq!(lines.top_right, "┐");
    assert_eq!(lines.bottom_left, "└");
    assert_eq!(lines.bottom_right, "┘");
    assert_eq!(lines.horizontal, "─");
    assert_eq!(lines.vertical, "│");
}

#[test]
fn each_style_has_its_glyphs() {
    let glyphs = |style: LineType| {
        let l = resolve_line_type(style);
        format!(
            "{}{}{}{}{}{}",
            l.top_left, l.horizontal, l.top_right, l.vertical, l.bottom_left, l.bottom_right
        )
    };
    assert_eq!(glyphs(LineType::Basic), "┌─┐│└┘");
    assert_eq!(glyphs(LineType::Dotted), "┌╌┐╎└┘");
    assert_eq!(glyphs(LineType::Bold), "┏━┓┃┗┛");
    assert_eq!(glyphs(LineType::Double), "╔═╗║╚╝");
}

#[test]
fn colored_lines_wrap_each_glyph() {
    let mut color = LineColor::new();
    color.color8 = Some(9);
    let lines = Lines::new().colored(&color);
    assert_eq!(lines.horizontal, "\x1B[38;5;9m─\x1B[0m");
    assert_eq!(lines.vertical, "\x1B[38;5;9m│\x1B[0m");
    assert_eq!(lines.top_right, "\x1B[38;5;9m┐\x1B[0m");
    assert_eq!(lines.top_left, "\x1B[38;5;9m┌\x1B[0m");
    assert_eq!(lines.bottom_left, "\x1B[38;5;9m└\x1B[0m");
    assert_eq!(lines.bottom_right, "\x1B[38;5;9m┘\x1B[0m");

    let mut white = LineColor::new();
    white.rgb = Some(RgbColor { red: 255, green: 255, blue: 255 });
    let lines = Lines::new().colored(&white);
    assert_eq!(lines.horizontal, "\x1B[38;2;255;255;255m─\x1B[0m");

    let plain = Lines::new().colored(&LineColor::new());
    assert_eq!(plain.horizontal, "─");
}
