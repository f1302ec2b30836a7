//! Which segments are drawn, and in which color.

use vstd::prelude::*;

verus! {

/// How far, in steps, a segment's Z may lie from the selected display layer
/// and still be drawn: a tenth of a unit.
pub const LAYER_TOLERANCE: i64 = 100;

/// The intent of a motion, which decides the color it is drawn in.
#[derive(Clone, Copy, Debug, PartialEq, Eq, Structural)]
pub enum ColorTag {
    /// A move without extrusion.
    Travel,
    /// A move that deposits material.
    Extrude,
    /// A move that pulls material back.
    Retract,
}

/// `z` lies on the display layer `display_z`, within the tolerance.
pub open spec fn on_layer(z: int, display_z: int) -> bool {
    -LAYER_TOLERANCE <= z - display_z <= LAYER_TOLERANCE
}

/// A move with an extrusion value retracts when the value is negative and
/// extrudes otherwise; one without is travel.
pub open spec fn color_of(e: Option<i64>) -> ColorTag {
    match e {
        Some(v) => if v < 0 {
            ColorTag::Retract
        } else {
            ColorTag::Extrude
        },
        None => ColorTag::Travel,
    }
}

/// Extruding and retracting moves are always meant to be drawn; travel moves
/// only when the caller asks for them.
pub open spec fn base_draw(e: Option<i64>, draw_travel: bool) -> bool {
    e.is_some() || draw_travel
}

/// A segment is visible when it is meant to be drawn and lies on the layer.
pub fn is_visible(z: i64, display_z: i64, base_draw_flag: bool) -> (r: bool)
    ensures
        r == (base_draw_flag && on_layer(z as int, display_z as int)),
{
    let d = z as i128 - display_z as i128;
    base_draw_flag && -(LAYER_TOLERANCE as i128) <= d && d <= LAYER_TOLERANCE as i128
}

/// The color of a move with extrusion value `e`, and whether it is meant to be
/// drawn before the layer is looked at.
pub fn classify(e: Option<i64>, draw_travel: bool) -> (r: (ColorTag, bool))
    ensures
        r.0 == color_of(e),
        r.1 == base_draw(e, draw_travel),
{
    match e {
        Some(v) => if v < 0 {
            (ColorTag::Retract, true)
        } else {
            (ColorTag::Extrude, true)
        },
        None => (ColorTag::Travel, draw_travel),
    }
}

} // verus!
