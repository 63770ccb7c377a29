//! What a frame shows, as a list of items for a display to render.

use vstd::prelude::*;
use crate::geometry::PixelPoint;
use crate::object::Creep;

verus! {

/// The images that the game shows.
#[derive(PartialEq, Eq, Structural, Debug, Clone, Copy)]
pub enum Sprite {
    Pudge,
    Creep(Creep),
    Hook,
    Cleaver,
}

/// How a text is placed at its point.
#[derive(PartialEq, Eq, Structural, Debug, Clone, Copy)]
pub enum TextAlign {
    /// The point is the text's top-left corner.
    TopLeft,
    /// The point is the right end of the text's baseline.
    BaselineRight,
}

/// One thing to draw.
#[derive(Debug)]
pub enum DrawItem {
    /// The full-screen title image, with its top-left corner at the point.
    Splash(PixelPoint),
    /// A sprite with its top-left corner at the point.
    Image(Sprite, PixelPoint),
    /// A line of text.
    Text(String, PixelPoint, TextAlign),
}

/// `item` is the image of `sprite` at `at`.
pub open spec fn is_image(item: DrawItem, sprite: Sprite, at: PixelPoint) -> bool {
    item matches DrawItem::Image(s, p) && s == sprite && p == at
}

/// `item` is the text `text` at `at`, placed as `align` says.
pub open spec fn is_text(item: DrawItem, text: Seq<char>, at: PixelPoint, align: TextAlign) -> bool {
    item matches DrawItem::Text(s, p, a) && s@ == text && p == at && a == align
}

} // verus!
