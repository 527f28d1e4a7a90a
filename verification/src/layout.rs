//! The layout cache: immutable drawing parameters derived once from the
//! target surface's bounding rectangle and the primary font's metrics.

use vstd::prelude::*;
use embedded_graphics::text::renderer::TextRenderer;

verus! {

/// Height in pixels of the primary label font.
pub const PRIMARY_FONT_HEIGHT: u32 = 18;

/// Vertical distance from the anchor to the neighbour-layer labels: two
/// thirds of the primary font height.
pub const LINE_OFFSET: i32 = 12;

/// The horizontal coordinate of the center of the box a string occupies
/// when rendered in the primary font, as the font's text renderer reports
/// it. A function of the characters alone.
pub uninterp spec fn text_center_x(s: Seq<char>) -> int;

/// Relies on embedded_graphics' `TextRenderer::measure_string` for a
/// `MonoTextStyle` over the 9x18 monospace font: the reported metrics are
/// computed from the characters and the font tables alone, so the center's
/// horizontal coordinate depends on the string alone.
#[verifier::external_body]
fn measure_center_x(s: &str) -> (r: i32)
    requires
        s@.len() <= 4096,
    ensures
        r as int == text_center_x(s@),
{
    let style = embedded_graphics::mono_font::MonoTextStyle::new(
        &embedded_graphics::mono_font::ascii::FONT_9X18,
        embedded_graphics::pixelcolor::BinaryColor::On,
    );
    style
        .measure_string(
            s,
            embedded_graphics::geometry::Point::zero(),
            embedded_graphics::text::Baseline::Alphabetic,
        )
        .bounding_box
        .center()
        .x
}

/// Immutable drawing parameters, derived once from the surface geometry.
/// All coordinates are in pixels from the surface's top-left corner.
#[derive(Clone, Copy, PartialEq, Eq, Structural, Debug)]
pub struct LayoutCache {
    /// Width of the target surface.
    pub width: u32,
    /// Height of the target surface.
    pub height: u32,
    /// Horizontal coordinate of the centered-text anchor, measured from the
    /// widest expected label so every layer name renders without per-frame
    /// re-measuring.
    pub anchor_x: i32,
    /// Vertical coordinate of the centered-text anchor.
    pub anchor_y: i32,
    /// Horizontal center of the surface; the modifier icons and battery
    /// gauge are placed relative to it.
    pub center_x: i32,
    /// Vertical center of the surface.
    pub center_y: i32,
}

impl LayoutCache {
    /// The geometric facts the renderer relies on: the surface bounds are
    /// moderate, and the centers and the anchor row are derived from them.
    pub open spec fn wf(&self) -> bool {
        &&& 8 <= self.width <= 4096
        &&& 8 <= self.height <= 4096
        &&& self.center_x == (self.width - 1) as int / 2
        &&& self.center_y == (self.height - 1) as int / 2
        &&& self.anchor_y == self.center_y
    }

    /// Derives the cache from the surface's bounding rectangle. Total and
    /// deterministic: no randomness, no I/O.
    pub fn new(width: u32, height: u32) -> (r: LayoutCache)
        requires
            8 <= width <= 4096,
            8 <= height <= 4096,
        ensures
            r.wf(),
            r.width == width,
            r.height == height,
            r.anchor_x as int == text_center_x("GAME 2"@),
    {
        proof {
            reveal_strlit("GAME 2");
        }
        let anchor_x = measure_center_x("GAME 2");
        let center_x = ((width - 1) / 2) as i32;
        let center_y = ((height - 1) / 2) as i32;
        LayoutCache { width, height, anchor_x, anchor_y: center_y, center_x, center_y }
    }
}

} // verus!
