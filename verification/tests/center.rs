use crossterm::cursor::MoveTo;

use leptos_tui::BufDrawSurface;
use leptos_tui::Button;
use leptos_tui::Center;
use leptos_tui::IntoView;
use leptos_tui::Limits;
use leptos_tui::Size;
use leptos_tui::Text;

#[test]
fn center_reports_parent_max_size() {
    let mut view = Center::new().child(Text::new("hi")).into_view();

    let limits = Limits {
        min_width: 0,
        max_width: 20,
        min_height: 0,
        max_height: 5,
    };

    let size = view.layout(limits);

    // The container consumes all available space no matter how small the
    // child chose to be.
    assert_eq!(
        size,
        Size {
            width: 20,
            height: 5,
        }
    );
}

#[test]
fn center_frees_child_from_parent_minimum() {
    // The parent pins an exact size; the child still gets `{min = 0,
    // max = parent max}` and may choose a smaller one, observable in where
    // the centered draw puts it.
    let mut view = Center::new().child(Text::new("hello")).into_view();

    let limits = Limits::strict(9, 3);

    let size = view.layout(limits);

    assert_eq!(size, Size { width: 9, height: 3 });

    let mut surface = BufDrawSurface::new(Size { width: 9, height: 3 });

    assert!(view.draw_ready(surface.size()));

    view.draw(&mut surface);

    // Child size (5, 1) centered in (9, 3): offset ((9 - 5) / 2, (3 - 1) / 2).
    assert_eq!(surface.take_buffer(), format!("{}hello", MoveTo(2, 1)));
}

#[test]
fn center_draws_child_centered_with_floor_division() {
    let mut view = Center::new().child(Button::new("ok")).into_view();

    let limits = Limits {
        min_width: 0,
        max_width: 7,
        min_height: 0,
        max_height: 2,
    };

    let size = view.layout(limits);

    assert_eq!(size, Size { width: 7, height: 2 });

    let mut surface = BufDrawSurface::new(Size { width: 7, height: 2 });

    assert!(view.draw_ready(surface.size()));

    view.draw(&mut surface);

    // Button label "<ok>" has size (4, 1): offset ((7 - 4) / 2, (2 - 1) / 2).
    assert_eq!(surface.take_buffer(), format!("{}<ok>", MoveTo(1, 0)));
}
