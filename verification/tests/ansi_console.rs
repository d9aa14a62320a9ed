use ray_tracer::base::color::Color;
use ray_tracer::base::fixed::FX_ONE;
use ray_tracer::canvas::canvas::Canvas;
use ray_tracer::canvas::console_composite_canvas::ConsoleCompositeCanvas;
use ray_tracer::util::ansi::{
    background_color, code_clear, code_hide_cursor, code_show_cursor, code_top_left,
    foreground_color, i64_to_decimal, make_command_using_part, move_cursor, part_end, part_reset,
    part_start, u64_to_decimal,
};

const S: i64 = FX_ONE;

#[test]
fn decimal_rendering() {
    assert_eq!(u64_to_decimal(0), "0");
    assert_eq!(u64_to_decimal(7), "7");
    assert_eq!(u64_to_decimal(12345), "12345");
    assert_eq!(u64_to_decimal(255), "255");
    assert_eq!(i64_to_decimal(-7), "-7");
    assert_eq!(i64_to_decimal(-120), "-120");
    assert_eq!(i64_to_decimal(42), "42");
}

#[test]
fn move_cursor_is_one_indexed() {
    assert_eq!(move_cursor(0, 0), "\x1b[1;1H");
    assert_eq!(move_cursor(9, 4), "\x1b[5;10H");
}

#[test]
fn truecolor_commands() {
    assert_eq!(background_color(40, 177, 249), "\x1b[48;2;40;177;249m");
    assert_eq!(foreground_color(1, 2, 3), "\x1b[38;2;1;2;3m");
}

#[test]
fn command_from_part() {
    assert_eq!(make_command_using_part(part_reset()), "\x1b[0m");
    assert_eq!(make_command_using_part("47"), "\x1b[47m");
}

#[test]
fn ansi_fragments() {
    assert_eq!(part_start(), "\x1b[");
    assert_eq!(part_end(), "m");
    assert_eq!(code_clear(), "\x1b[2J\x1b[H");
    assert_eq!(code_top_left(), "\x1b[H");
    assert_eq!(code_hide_cursor(), "\x1b[?25l");
    assert_eq!(code_show_cursor(), "\x1b[?25h");
}

#[test]
fn composite_canvas_starts_blank() {
    let canvas = ConsoleCompositeCanvas::new(3, 2, Color::new(S, S, S));
    assert_eq!(canvas.get_width(), 3);
    assert_eq!(canvas.get_height(), 2);
    for y in 0..2 {
        for x in 0..3 {
            assert_eq!(canvas.chars.get_value(x, y), ' ');
            assert_eq!(canvas.colors.get_value(x, y), Color::new_black());
        }
    }
}

#[test]
fn composite_canvas_set_text_fills_row() {
    let mut canvas = ConsoleCompositeCanvas::new(4, 2, Color::new(S, S, S));
    canvas.set_text(1, 0, "abc");
    assert_eq!(canvas.chars.get_value(0, 0), ' ');
    assert_eq!(canvas.chars.get_value(1, 0), 'a');
    assert_eq!(canvas.chars.get_value(2, 0), 'b');
    assert_eq!(canvas.chars.get_value(3, 0), 'c');
    // text past the right edge is dropped
    canvas.set_text(2, 1, "xyz");
    assert_eq!(canvas.chars.get_value(2, 1), 'x');
    assert_eq!(canvas.chars.get_value(3, 1), 'y');
    assert_eq!(canvas.chars.get_value(0, 1), ' ');
}

#[test]
fn composite_canvas_clear_chars() {
    let mut canvas = ConsoleCompositeCanvas::new(3, 2, Color::new(S, S, S));
    canvas.set_text(0, 0, "ab");
    canvas.clear_chars('#');
    for y in 0..2 {
        for x in 0..3 {
            assert_eq!(canvas.chars.get_value(x, y), '#');
        }
    }
}
