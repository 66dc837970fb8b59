use crossterm::cursor::MoveTo;
use crossterm::style::Color as CtColor;
use crossterm::style::ResetColor;
use crossterm::style::SetForegroundColor;

use leptos_tui::BufDrawSurface;
use leptos_tui::Color;
use leptos_tui::Size;
use leptos_tui::XY;

#[test]
fn can_write() {
    let data = "hello";
    let expected_data = format!("{}hello", MoveTo(0, 0));

    let mut surface = BufDrawSurface::new((5, 1).into());

    surface.write((0, 0).into(), data);

    let buf = surface.take_buffer();

    assert_eq!(buf, expected_data);
}

#[test]
fn write_out_of_bounds_clips() {
    let data = "hello";
    let expected_data = format!("{}he", MoveTo(0, 0));

    let mut surface = BufDrawSurface::new((2, 1).into());

    surface.write((0, 0).into(), data);

    let buf = surface.take_buffer();

    assert_eq!(buf, expected_data);
}

#[test]
fn only_first_line_writes() {
    let data = "hello\nthere";
    let expected_data = format!("{}hello", MoveTo(0, 0));

    let mut surface = BufDrawSurface::new((5, 2).into());

    surface.write((0, 0).into(), data);

    let buf = surface.take_buffer();

    assert_eq!(buf, expected_data);
}

#[test]
fn write_outside_row_is_dropped() {
    let mut surface = BufDrawSurface::new((5, 1).into());

    surface.write((0, 1).into(), "hello");

    assert_eq!(surface.take_buffer(), String::new());
}

#[test]
fn write_foreground_color_wraps_text() {
    let expected_data = format!(
        "{}{}hi{}",
        MoveTo(0, 0),
        SetForegroundColor(CtColor::Green),
        ResetColor
    );

    let mut surface = BufDrawSurface::new((5, 1).into());

    surface.write_styled((0, 0).into(), "hi", Some(Color::Green), None, None);

    assert_eq!(surface.take_buffer(), expected_data);
}

#[test]
fn shrink_offsets_and_restores() {
    let mut surface = BufDrawSurface::new((10, 4).into());

    let saved = surface.shrink(XY { x: 2, y: 1 }, Size { width: 3, height: 2 });

    assert_eq!(surface.size(), Size { width: 3, height: 2 });

    surface.write((0, 0).into(), "abcdef");

    surface.restore(saved);

    assert_eq!(surface.size(), Size { width: 10, height: 4 });

    // The write was offset to the sub-region's origin and clipped to its width.
    assert_eq!(surface.take_buffer(), format!("{}abc", MoveTo(2, 1)));
}

#[test]
fn shrink_centered_uses_floor_offsets() {
    let mut surface = BufDrawSurface::new((7, 1).into());

    let saved = surface.shrink_centered(Size { width: 5, height: 1 });

    surface.write((0, 0).into(), "hello");

    surface.restore(saved);

    // Surface (7, 1) and child (5, 1) center at offset (1, 0).
    assert_eq!(surface.take_buffer(), format!("{}hello", MoveTo(1, 0)));
}
