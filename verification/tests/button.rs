use crossterm::cursor::MoveTo;
use crossterm::style::Attribute as CtAttribute;
use crossterm::style::Color as CtColor;
use crossterm::style::ResetColor;
use crossterm::style::SetAttribute;
use crossterm::style::SetBackgroundColor;

use leptos_tui::BufDrawSurface;
use leptos_tui::Button;
use leptos_tui::IntoView;
use leptos_tui::Limits;
use leptos_tui::Size;
use leptos_tui::ViewNode;

fn get_widget_output(view: ViewNode, max_size: (u16, u16), min_size: (u16, u16)) -> (Size, String) {
    let mut view = view;

    let mut surface = BufDrawSurface::new(max_size.into());

    let size = view.layout(Limits {
        min_width: min_size.0,
        max_width: max_size.0,
        min_height: min_size.1,
        max_height: max_size.1,
    });

    assert!(view.draw_ready(surface.size()));

    view.draw(&mut surface);

    (size, surface.take_buffer())
}

#[test]
fn button_renders() {
    let (size, output) = get_widget_output(Button::new("hello").into_view(), (7, 1), (0, 0));

    assert_eq!(size, (7, 1).into());

    assert_eq!(output, format!("{}<hello>", MoveTo(0, 0)));
}

#[test]
fn focused_renders_background_color() {
    let (size, output) = get_widget_output(
        {
            let mut btn = Button::new("hello");

            btn.focused = true;

            btn.into_view()
        },
        (7, 1),
        (0, 0),
    );

    assert_eq!(size, (7, 1).into());

    assert_eq!(
        output,
        format!(
            "{}{}{}<hello>{}{}",
            MoveTo(0, 0),
            SetAttribute(CtAttribute::Bold),
            SetBackgroundColor(CtColor::Red),
            SetAttribute(CtAttribute::Reset),
            ResetColor,
        )
    );
}

#[test]
fn renders_no_characters() {
    let (size, output) = get_widget_output(Button::new("hello").into_view(), (0, 1), (0, 0));

    assert_eq!(size, (0, 1).into());

    assert_eq!(output, "");
}

#[test]
fn renders_single_character() {
    let (size, output) = get_widget_output(Button::new("hello").into_view(), (1, 1), (0, 0));

    assert_eq!(size, (1, 1).into());

    assert_eq!(output, format!("{}<", MoveTo(0, 0)));
}

#[test]
fn renders_two_character() {
    let (size, output) = get_widget_output(Button::new("hello").into_view(), (2, 1), (0, 0));

    assert_eq!(size, (2, 1).into());

    assert_eq!(output, format!("{}<>", MoveTo(0, 0)));
}

#[test]
fn renders_three_character() {
    let (size, output) = get_widget_output(Button::new("hello").into_view(), (3, 1), (0, 0));

    assert_eq!(size, (3, 1).into());

    assert_eq!(output, format!("{}<h>", MoveTo(0, 0)));
}

#[test]
fn renders_all_character() {
    let (size, output) = get_widget_output(Button::new("hello").into_view(), (7, 1), (0, 0));

    assert_eq!(size, (7, 1).into());

    assert_eq!(output, format!("{}<hello>", MoveTo(0, 0)));
}

#[test]
fn resizes_to_min_size() {
    let (size, output) = get_widget_output(Button::new("hello").into_view(), (10, 10), (9, 9));

    assert_eq!(size, (9, 9).into());

    assert_eq!(output, format!("{}<hello>", MoveTo(0, 0)));
}

#[test]
fn button_layout_stays_within_limits() {
    let mut view = Button::new("hello").into_view();

    let limits = Limits {
        min_width: 2,
        max_width: 4,
        min_height: 1,
        max_height: 3,
    };

    let size = view.layout(limits);

    assert!(limits.is_size_within_limits(size));
}
