use typer::engine::App;
use typer::glyph::{accepts, glyph, LINE_END_GLYPH, OPAQUE_GLYPH, SPACE_GLYPH};
use typer::paint::{Attribute, Color, Paint};
use typer::render::{format_accuracy, format_clock, format_rate, rate, MAX_COUNT, RATE_CAP};
use typer::source::MemorySource;
use typer::text::{digit_char, pad_number};

fn chars(text: &str) -> Vec<char> {
    text.chars().collect()
}

fn text(of: &str) -> Paint {
    Paint::Text(chars(of))
}

fn session(line: &str, width: usize, total: usize) -> App<MemorySource> {
    match App::new(width, total, MemorySource::new(line.as_bytes().to_vec())) {
        Ok(app) => app,
        Err(e) => panic!("no session: {:?}", e),
    }
}

#[test]
fn glyphs_show_spaces_line_breaks_and_foreign_bytes() {
    assert_eq!(glyph(b' '), '␣');
    assert_eq!(glyph(b'\n'), '·');
    assert_eq!(glyph(b'a'), 'a');
    assert_eq!(glyph(b'~'), '~');
    assert_eq!(glyph(0x7f), '\u{7f}');
    assert_eq!(glyph(0x80), '·');
    assert_eq!(glyph(0xff), '·');
    assert_eq!(glyph(0), '\0');
    assert_eq!((SPACE_GLYPH, OPAQUE_GLYPH, LINE_END_GLYPH), ('␣', '·', '§'));
}

#[test]
fn keystrokes_are_judged_by_the_expected_byte() {
    assert!(accepts(b'a', 'a'));
    assert!(!accepts(b'a', 'A'));
    assert!(!accepts(b' ', 'a'));
    assert!(accepts(b' ', ' '));
    assert!(accepts(b'\n', 'a'));
    assert!(accepts(0xe9, 'a'));
    assert!(accepts(0xe9, 'é'));
    assert!(!accepts(b'e', 'é'));
}

#[test]
fn numbers_are_padded_on_the_left() {
    assert_eq!(pad_number(7, 3, ' '), chars("  7"));
    assert_eq!(pad_number(0, 2, '0'), chars("00"));
    assert_eq!(pad_number(0, 0, ' '), chars("0"));
    assert_eq!(pad_number(42, 2, '0'), chars("42"));
    assert_eq!(pad_number(12345, 3, ' '), chars("12345"));
    assert_eq!(pad_number(9999, 4, ' '), chars("9999"));
    assert_eq!(
        pad_number(u128::MAX, 1, ' '),
        chars("340282366920938463463374607431768211455")
    );
    assert_eq!(digit_char(0), '0');
    assert_eq!(digit_char(9), '9');
}

#[test]
fn accuracy_has_two_decimals_and_seven_characters() {
    assert_eq!(format_accuracy(0, 0), chars(" 00.00%"));
    assert_eq!(format_accuracy(1, 0), chars("100.00%"));
    assert_eq!(format_accuracy(0, 5), chars("  0.00%"));
    assert_eq!(format_accuracy(1, 1), chars(" 50.00%"));
    assert_eq!(format_accuracy(1, 2), chars(" 33.33%"));
    assert_eq!(format_accuracy(2, 1), chars(" 66.67%"));
    assert_eq!(format_accuracy(1, 19999), chars("  0.01%"));
    assert_eq!(format_accuracy(1, 20000), chars("  0.00%"));
    assert_eq!(format_accuracy(199, 1), chars(" 99.50%"));
    assert_eq!(format_accuracy(usize::MAX, usize::MAX), chars(" 50.00%"));
}

#[test]
fn rates_are_per_minute_rounded_and_capped() {
    let second: u128 = 1_000_000_000;
    assert_eq!(rate(0, 0), 9999);
    assert_eq!(rate(5, 0), 9999);
    assert_eq!(rate(0, 1), 0);
    assert_eq!(rate(0, 500_000), 0);
    assert_eq!(rate(1, 500_000), 9999);
    assert_eq!(rate(10, 60 * second), 10);
    assert_eq!(rate(10, 30 * second), 20);
    assert_eq!(rate(1, 1), 9999);
    assert_eq!(rate(1, 120 * second), 1);
    assert_eq!(rate(1, 120 * second + 1), 0);
    assert_eq!(rate(1, 40 * second), 2);
    assert_eq!(rate(9999, 60 * second), 9999);
    assert_eq!(rate(9998, 60 * second), 9998);
    assert_eq!(rate(10_000, 60 * second), 9999);
    assert_eq!(rate(3, u128::MAX), 0);
    assert_eq!(rate(MAX_COUNT, 1), 9999);
    assert_eq!(RATE_CAP, 9999);
    assert_eq!(format_rate(10, 60 * second, 'c'), chars("  10(cpm)"));
    assert_eq!(format_rate(0, 0, 'w'), chars("9999(wpm)"));
    assert_eq!(format_rate(0, second / 2, 'w'), chars("   0(wpm)"));
}

#[test]
fn clock_shows_hours_of_the_day_minutes_and_seconds() {
    let second: u128 = 1_000_000_000;
    assert_eq!(format_clock(0), chars("00:00:00"));
    assert_eq!(format_clock(second - 1), chars("00:00:00"));
    assert_eq!(format_clock(60 * second - 1), chars("00:00:59"));
    assert_eq!(format_clock(61 * second), chars("00:01:01"));
    assert_eq!(format_clock(3_661 * second), chars("01:01:01"));
    assert_eq!(format_clock(86_399 * second), chars("23:59:59"));
    assert_eq!(format_clock(86_400 * second), chars("00:00:00"));
}

#[test]
fn narrow_terminal_paints_nothing() {
    let app = session("abc", 80, 1024);
    assert_eq!(app.frame(80, 1000), vec![]);
    assert_eq!(app.frame(81, 1000), vec![]);
    assert_eq!(app.frame(0, 1000), vec![]);
    assert!(!app.frame(82, 1000).is_empty());
    assert!(!app.frame(u16::MAX, 1000).is_empty());
    assert_eq!(app.draw(80), vec![]);
    assert!(!app.draw(82).is_empty());
}

#[test]
fn frame_paints_line_filler_and_status() {
    let mut app = session("a b", 5, 100);
    app.eat('a');
    app.eat('x');
    let expected = vec![
        Paint::SavePosition,
        Paint::ClearBelow,
        Paint::Foreground(Color::Green),
        Paint::Glyph('['),
        Paint::ResetColor,
        Paint::Foreground(Color::White),
        Paint::Glyph('a'),
        Paint::ResetColor,
        Paint::Foreground(Color::Red),
        Paint::Glyph('␣'),
        Paint::ResetColor,
        Paint::Attribute(Attribute::Underlined),
        Paint::Attribute(Attribute::Bold),
        Paint::Glyph('b'),
        Paint::ResetColor,
        Paint::ResetColor,
        Paint::Glyph('§'),
        Paint::Glyph(' '),
        Paint::Foreground(Color::Green),
        Paint::Glyph(']'),
        Paint::ResetColor,
        text("      "),
        Paint::Foreground(Color::Green),
        text("✓: "),
        Paint::Foreground(Color::White),
        text(" 50.00%"),
        text(" "),
        Paint::Foreground(Color::Cyan),
        text("⚑: "),
        Paint::Foreground(Color::White),
        text("   2(cpm)"),
        text("/"),
        text("   1(wpm)"),
        text(" "),
        text("00:01:01"),
        Paint::RestorePosition,
        Paint::Flush,
    ];
    assert_eq!(app.frame(7, 61_000_000_000), expected);
    assert_eq!(app.frame(7, 61_000_000_000), expected);
    assert_eq!(app.frame(200, 61_000_000_000), expected);
}

#[test]
fn frame_of_a_fresh_full_width_line_dims_what_is_not_typed() {
    let app = session("é\n", 3, 100);
    let frame = app.frame(5, 0);
    let expected_line = vec![
        Paint::Attribute(Attribute::Underlined),
        Paint::Attribute(Attribute::Bold),
        Paint::Glyph('·'),
        Paint::ResetColor,
        Paint::Foreground(Color::White),
        Paint::Attribute(Attribute::Dim),
        Paint::Glyph('·'),
        Paint::ResetColor,
        Paint::Foreground(Color::White),
        Paint::Attribute(Attribute::Dim),
        Paint::Glyph('·'),
        Paint::ResetColor,
        Paint::Foreground(Color::Green),
        Paint::Glyph(']'),
    ];
    assert_eq!(frame[5..19], expected_line[..]);
    assert_eq!(frame[24], text(" 00.00%"));
    assert_eq!(frame[29], text("9999(cpm)"));
    assert_eq!(frame[31], text("9999(wpm)"));
    assert_eq!(frame[33], text("00:00:00"));
    assert_eq!(frame.len(), 36);
}

#[test]
fn frame_of_a_full_line_has_no_cursor_and_no_filler() {
    let mut app = session("ab", 2, 100);
    app.eat('a');
    app.eat('b');
    let frame = app.frame(4, 1_000_000_000);
    assert_eq!(
        frame[5..13],
        [
            Paint::Foreground(Color::White),
            Paint::Glyph('a'),
            Paint::ResetColor,
            Paint::Foreground(Color::White),
            Paint::Glyph('b'),
            Paint::ResetColor,
            Paint::Foreground(Color::Green),
            Paint::Glyph(']'),
        ]
    );
    assert_eq!(frame[18], text("100.00%"));
    assert_eq!(frame[23], text(" 120(cpm)"));
    assert_eq!(frame[25], text("   0(wpm)"));
}

#[test]
fn draw_paints_the_same_line_as_frame() {
    let mut app = session("ab c", 6, 100);
    app.eat('a');
    let drawn = app.draw(8);
    let frame = app.frame(8, 0);
    assert_eq!(drawn.len(), frame.len());
    assert_eq!(drawn[..35], frame[..35]);
    assert_eq!(drawn[36], frame[36]);
    assert_eq!(drawn[drawn.len() - 2..], [Paint::RestorePosition, Paint::Flush]);
}
