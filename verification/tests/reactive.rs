use std::sync::Arc;
use std::sync::Mutex;

use crossterm::cursor::MoveTo;

use leptos_reactive::SignalGet;
use leptos_reactive::SignalSet;
use leptos_reactive::create_effect;
use leptos_reactive::create_runtime;
use leptos_reactive::create_signal;
use leptos_reactive::run_scope;

use leptos_tui::BufDrawSurface;
use leptos_tui::CoreComponent;
use leptos_tui::DynChild;
use leptos_tui::IntoView;
use leptos_tui::Limits;
use leptos_tui::Text;
use leptos_tui::ViewNode;

fn render(view: &Arc<Mutex<ViewNode>>) -> String {
    let mut view = view.lock().unwrap();

    let mut surface = BufDrawSurface::new((10, 1).into());

    let limits = Limits {
        min_width: 0,
        max_width: 10,
        min_height: 0,
        max_height: 1,
    };

    let size = view.layout(limits);

    assert!(limits.is_size_within_limits(size));
    assert!(view.draw_ready(surface.size()));

    view.draw(&mut surface);

    surface.take_buffer()
}

#[test]
fn reactive_rebinding_swaps_the_child_in_place() {
    let runtime = create_runtime();

    run_scope(runtime, |cx| {
        let (generation, set_generation) = create_signal(cx, 0i32);

        let view: Arc<Mutex<ViewNode>> =
            Arc::new(Mutex::new(DynChild::new(ViewNode::default()).into_view()));

        let effect_view = view.clone();

        // The effect re-derives the rebinding node's child whenever the
        // signal changes, and replaces only that child.
        create_effect(cx, move |_| {
            let text = if generation.get() == 0 { "first" } else { "second" };

            let mut tree = effect_view.lock().unwrap();

            if let ViewNode::CoreComponent(CoreComponent::DynChild(node)) = &mut *tree {
                node.set_child(Text::new(text).into_view());
            } else {
                panic!("the tree root is the rebinding node");
            }
        });

        // The effect has run once at registration: the rendered content is
        // the first derivation's output.
        assert_eq!(render(&view), format!("{}first", MoveTo(0, 0)));

        // A dependency mutation triggers the effect; the next pass reflects
        // the new derivation's output.
        set_generation.set(1);

        assert_eq!(render(&view), format!("{}second", MoveTo(0, 0)));
    });
}
