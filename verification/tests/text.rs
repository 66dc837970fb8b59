use crossterm::cursor::MoveTo;

use leptos_tui::BufDrawSurface;
use leptos_tui::IntoView;
use leptos_tui::Limits;
use leptos_tui::Size;
use leptos_tui::Text;
use leptos_tui::ViewNode;
use leptos_tui::get_text_size;

fn get_widget_output(view: ViewNode, max_size: (u16, u16), min_size: (u16, u16)) -> (Size, String) {
    let mut view = view;

    let mut surface = BufDrawSurface::new(max_size.into());

    let size = view.layout(Limits {
        min_width: min_size.0,
        max_width: max_size.0,
        min_height: min_size.1,
        max_height: max_size.1,
    });

    assert!(view.draw_ready(surface.size()));

    view.draw(&mut surface);

    (size, surface.take_buffer())
}

#[test]
fn text_fits_on_one_line() {
    let size = get_text_size(
        Limits {
            min_width: 0,
            min_height: 0,
            max_width: 10,
            max_height: 10,
        },
        "Hello",
    );

    assert_eq!(
        size,
        Size {
            width: 10,
            height: 1
        }
    );
}

#[test]
fn text_fits_on_two_lines() {
    let size = get_text_size(
        Limits {
            min_width: 0,
            min_height: 0,
            max_width: 10,
            max_height: 10,
        },
        "Hello there",
    );

    assert_eq!(
        size,
        Size {
            width: 10,
            height: 2
        }
    );
}

#[test]
fn too_much_text_fits_on_one_line_within_limits() {
    let size = get_text_size(
        Limits {
            min_width: 0,
            min_height: 0,
            max_width: 10,
            max_height: 1,
        },
        "Hello there",
    );

    assert_eq!(
        size,
        Size {
            width: 10,
            height: 1,
        }
    );
}

#[test]
fn text_with_new_lines_gets_right_size() {
    let size = get_text_size(
        Limits {
            min_width: 0,
            min_height: 0,
            max_width: 100,
            max_height: 10,
        },
        "Hello there!\nHow are you?",
    );

    assert_eq!(
        size,
        Size {
            width: 100,
            height: 2,
        }
    );
}

#[test]
fn text_with_new_lines_gets_right_size_and_splits_on_whitespace() {
    let size = get_text_size(
        Limits {
            min_width: 0,
            min_height: 0,
            max_width: 10,
            max_height: 10,
        },
        "Hello there!\nHow are you?",
    );

    assert_eq!(
        size,
        Size {
            width: 10,
            height: 4,
        }
    );
}

#[test]
fn text_renders() {
    let (size, output) = get_widget_output(Text::new("hello").into_view(), (5, 1), (0, 0));

    assert_eq!(size, (5, 1).into());

    assert_eq!(output, format!("{}hello", MoveTo(0, 0)));
}

#[test]
fn aligns_left() {
    let (size, output) = get_widget_output(Text::new("hello   ").into_view(), (8, 1), (0, 0));

    assert_eq!(size, (5, 1).into());

    assert_eq!(output, format!("{}hello", MoveTo(0, 0)));
}

#[test]
fn clipps() {
    let (size, output) = get_widget_output(Text::new("hello   ").into_view(), (1, 1), (0, 0));

    assert_eq!(size, (1, 1).into());

    assert_eq!(output, format!("{}h", MoveTo(0, 0)));
}

#[test]
fn renders_multiple_lines() {
    let (size, output) = get_widget_output(Text::new("hello\nthere").into_view(), (5, 2), (0, 0));

    assert_eq!(size, (5, 2).into());

    assert_eq!(
        output,
        format!("{}hello{}there", MoveTo(0, 0), MoveTo(0, 1))
    );
}

#[test]
fn empty_text_takes_minimum_height() {
    // Wrapping empty text still yields one (empty) line.
    let size = get_text_size(
        Limits {
            min_width: 0,
            min_height: 0,
            max_width: 10,
            max_height: 10,
        },
        "",
    );

    assert_eq!(
        size,
        Size {
            width: 10,
            height: 1,
        }
    );
}

#[test]
fn text_layout_stays_within_limits() {
    let mut view = Text::new("Hello there").into_view();

    let limits = Limits {
        min_width: 0,
        min_height: 0,
        max_width: 10,
        max_height: 10,
    };

    let size = view.layout(limits);

    assert!(limits.is_size_within_limits(size));
}
