use leptos_tui::Button;
use leptos_tui::Center;
use leptos_tui::CoreComponent;
use leptos_tui::DynChild;
use leptos_tui::IntoView;
use leptos_tui::Limits;
use leptos_tui::Size;
use leptos_tui::Text;
use leptos_tui::Unit;
use leptos_tui::ViewNode;
use leptos_tui::BufDrawSurface;
use leptos_tui::debug_assert_size_within_limits;

#[test]
fn unit_reports_the_minimum_size_and_draws_nothing() {
    let mut view = ().into_view();

    let limits = Limits {
        min_width: 2,
        max_width: 10,
        min_height: 1,
        max_height: 4,
    };

    let size = view.layout(limits);

    assert_eq!(size, Size { width: 2, height: 1 });

    debug_assert_size_within_limits(limits, size);

    let mut surface = BufDrawSurface::new((10, 4).into());

    assert!(view.draw_ready(surface.size()));

    view.draw(&mut surface);

    assert_eq!(surface.take_buffer(), String::new());
}

#[test]
fn names_follow_node_kinds() {
    assert_eq!(Unit.into_view().name(), "Unit");
    assert_eq!(Text::new("x").into_view().name(), "Text");
    assert_eq!(Button::new("x").into_view().name(), "Button");
    assert_eq!(Center::new().child(Unit).into_view().name(), "Center");
    assert_eq!(DynChild::new(ViewNode::default()).into_view().name(), "DynChild");
}

#[test]
fn default_view_is_the_empty_node() {
    let view = ViewNode::default();

    assert!(matches!(
        view,
        ViewNode::CoreComponent(CoreComponent::Unit(Unit))
    ));
}

#[test]
fn options_normalize_to_their_value_or_the_empty_node() {
    let some_view = Some(Text::new("x")).into_view();

    assert!(matches!(
        some_view,
        ViewNode::CoreComponent(CoreComponent::Text(_))
    ));

    let none_view = Option::<Text>::None.into_view();

    assert!(matches!(
        none_view,
        ViewNode::CoreComponent(CoreComponent::Unit(Unit))
    ));
}

#[test]
fn strings_normalize_to_text_nodes() {
    let from_str = "hi".into_view();
    let from_string = String::from("ho").into_view();

    match (from_str, from_string) {
        (
            ViewNode::CoreComponent(CoreComponent::Text(a)),
            ViewNode::CoreComponent(CoreComponent::Text(b)),
        ) => {
            assert_eq!(a.text, "hi");
            assert_eq!(b.text, "ho");
        }
        _ => panic!("strings normalize to text nodes"),
    }
}
