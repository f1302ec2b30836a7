//! Facts about the interpreter that span several commands or all inputs.

use vstd::prelude::*;

use crate::command::{CommandGroup, CommandRecord};
use crate::interpreter::{arc_offset, next_z, step, DrawSegment, MachineState, PositioningMode};
use crate::layer::{on_layer, ColorTag};

verus! {

pub open spec fn is_linear_move(c: CommandRecord) -> bool {
    c.group == CommandGroup::General && (c.major == 0 || c.major == 1)
}

pub open spec fn is_arc_move(c: CommandRecord) -> bool {
    c.group == CommandGroup::General && (c.major == 2 || c.major == 3)
}

/// In absolute mode a linear move that gives `x` and `y` lands exactly on them,
/// whatever the position before; without `z` it keeps its height.
pub proof fn lemma_absolute_move_lands_on_target(
    s: MachineState,
    c: CommandRecord,
    display_z: i64,
    draw_travel: bool,
)
    requires
        s.mode == PositioningMode::Absolute,
        is_linear_move(c),
        c.x.is_some(),
        c.y.is_some(),
    ensures
        ({
            let after = step(s, c, display_z, draw_travel).0;
            &&& after.position.x == c.x.unwrap()
            &&& after.position.y == c.y.unwrap()
            &&& c.z.is_none() ==> after.position.z == s.position.z
            &&& after.mode == s.mode
        }),
{
}

/// In relative mode a linear move adds its `x` and `y` to the position, axis by
/// axis, while the sum fits in `i64`; an axis it does not give stays where it
/// was, and so does the height when it gives no `z`.
pub proof fn lemma_relative_move_displaces(
    s: MachineState,
    c: CommandRecord,
    display_z: i64,
    draw_travel: bool,
)
    requires
        s.mode == PositioningMode::Relative,
        is_linear_move(c),
    ensures
        ({
            let p = step(s, c, display_z, draw_travel).0.position;
            &&& c.x.is_some() && i64::MIN <= s.position.x + c.x.unwrap() <= i64::MAX ==> p.x
                == s.position.x + c.x.unwrap()
            &&& c.y.is_some() && i64::MIN <= s.position.y + c.y.unwrap() <= i64::MAX ==> p.y
                == s.position.y + c.y.unwrap()
            &&& c.x.is_none() ==> p.x == s.position.x
            &&& c.y.is_none() ==> p.y == s.position.y
            &&& c.z.is_none() ==> p.z == s.position.z
        }),
{
}

/// An arc given by its radius alone whose end is its start has no circle: it
/// is dropped, and the state stays as it was.
pub proof fn lemma_zero_chord_radius_arc_is_dropped(
    s: MachineState,
    c: CommandRecord,
    display_z: i64,
    draw_travel: bool,
)
    requires
        is_arc_move(c),
        arc_offset(c).is_none(),
        c.r.is_some(),
        s.target(c) == s.plane(),
    ensures
        step(s, c, display_z, draw_travel) == (s, None::<DrawSegment>),
{
}

/// A move with a negative extrusion value is drawn in the retraction color, is
/// visible whenever it lies on the display layer, and does not depend on
/// whether travel moves are drawn.
pub proof fn lemma_retraction_is_drawn(
    s: MachineState,
    c: CommandRecord,
    display_z: i64,
    draw_travel: bool,
)
    requires
        is_linear_move(c) || is_arc_move(c),
        c.e.is_some(),
        c.e.unwrap() < 0,
    ensures
        step(s, c, display_z, true) == step(s, c, display_z, false),
        match step(s, c, display_z, draw_travel).1 {
            Some(seg) => seg.spec_color() == ColorTag::Retract && (on_layer(
                next_z(s, c) as int,
                display_z as int,
            ) ==> seg.spec_visible()),
            None => true,
        },
{
}

/// After `G90`, a linear move that gives `x` and `y` lands exactly on them,
/// whatever the mode and the position were before.
pub proof fn lemma_absolute_mode_governs_next_move(
    s: MachineState,
    mode_change: CommandRecord,
    c: CommandRecord,
    display_z: i64,
    draw_travel: bool,
)
    requires
        mode_change.group == CommandGroup::General,
        mode_change.major == 90,
        is_linear_move(c),
        c.x.is_some(),
        c.y.is_some(),
    ensures
        ({
            let mid = step(s, mode_change, display_z, draw_travel);
            let after = step(mid.0, c, display_z, draw_travel).0;
            &&& mid.1.is_none()
            &&& after.position.x == c.x.unwrap()
            &&& after.position.y == c.y.unwrap()
        }),
{
    let mid = step(s, mode_change, display_z, draw_travel).0;
    lemma_absolute_move_lands_on_target(mid, c, display_z, draw_travel);
}

} // verus!
