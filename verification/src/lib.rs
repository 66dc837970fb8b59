//! A retained-mode widget toolkit for character-grid display surfaces.
//!
//! Callers build a tree of composable view nodes; the toolkit computes each
//! node's on-screen size under width/height constraints (`Limits`), then
//! paints the tree into a rectangular character buffer (`BufDrawSurface`).
//! A reactive runtime can swap one subtree in place through a rebinding node
//! without touching the rest of the tree.

mod components;
mod geometry;
mod style;
mod surface;
mod wrapping;

pub use components::Alignment;
pub use components::Button;
pub use components::Center;
pub use components::CoreComponent;
pub use components::DynChild;
pub use components::IntoView;
pub use components::MissingChild;
pub use components::Text;
pub use components::Unit;
pub use components::ViewNode;
pub use components::WidgetNode;
pub use components::WithChild;
pub use components::debug_assert_size_within_limits;
pub use components::get_text_size;
pub use components::lemma_conforming_size_within;
pub use components::lemma_layout_enables_draw;
pub use surface::BufDrawSurface;
pub use surface::Region;

pub use style::Attribute;
pub use style::Color;
pub use geometry::Limits;
pub use geometry::Size;
pub use geometry::XY;
pub use geometry::lemma_strict_limits_round_trip;
