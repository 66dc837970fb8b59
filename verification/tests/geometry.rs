use std::cmp::Ordering;

use leptos_tui::Limits;
use leptos_tui::Size;
use leptos_tui::XY;

#[test]
fn strict_limits_pin_an_exact_size() {
    let limits = Limits::strict(4, 2);

    assert_eq!(
        limits,
        Limits {
            min_width: 4,
            max_width: 4,
            min_height: 2,
            max_height: 2,
        }
    );

    assert!(limits.is_size_within_limits(Size { width: 4, height: 2 }));
    assert!(!limits.is_size_within_limits(Size { width: 3, height: 2 }));
}

#[test]
fn strict_limits_round_trip() {
    let size = Size {
        width: 37,
        height: 11,
    };

    let limits = size.into_strict_limits();

    assert_eq!(limits.max_size(), size);
    assert_eq!(limits.min_size(), size);
}

#[test]
fn within_limits_checks_each_axis_not_the_area() {
    let limits = Limits {
        min_width: 0,
        max_width: 4,
        min_height: 0,
        max_height: 4,
    };

    // Same area as a fitting 4x2 size, but too wide for the limits.
    let size = Size {
        width: 8,
        height: 1,
    };

    assert!(size.linear_length() <= limits.max_size().linear_length());
    assert!(!limits.is_size_within_limits(size));
}

#[test]
fn size_orders_by_area() {
    let a = Size {
        width: 2,
        height: 3,
    };
    let b = Size {
        width: 3,
        height: 2,
    };
    let c = Size {
        width: 4,
        height: 2,
    };

    assert_eq!(a.linear_length(), 6);
    assert_eq!(a.partial_cmp(&b), Some(Ordering::Equal));
    assert_eq!(a.partial_cmp(&c), Some(Ordering::Less));
    assert_eq!(c.partial_cmp(&a), Some(Ordering::Greater));
}

#[test]
fn tuple_conversions() {
    assert_eq!(Size::from((3, 4)), Size { width: 3, height: 4 });
    assert_eq!(XY::from((5, 6)), XY { x: 5, y: 6 });

    assert_eq!(Limits::from((7, 8)), Limits::strict(7, 8));

    assert_eq!(
        Limits::from((10, 1, 20, 2)),
        Limits {
            min_width: 1,
            max_width: 10,
            min_height: 2,
            max_height: 20,
        }
    );

    let max = Size {
        width: 9,
        height: 8,
    };
    let min = Size {
        width: 1,
        height: 2,
    };

    assert_eq!(
        Limits::from((max, min)),
        Limits {
            min_width: 1,
            max_width: 9,
            min_height: 2,
            max_height: 8,
        }
    );
}
