//! The motion interpreter: one pass over the command records, tracking the
//! machine position and positioning mode and emitting one draw segment per
//! motion command.

use vstd::prelude::*;

use crate::command::{CommandGroup, CommandRecord};
use crate::geometry::{arc_fit, resolve_arc, Point2};
use crate::layer::{base_draw, classify, color_of, is_visible, on_layer, ColorTag};

verus! {

/// Whether coordinate letters give a destination or a displacement.
#[derive(Clone, Copy, Debug, PartialEq, Eq, Structural)]
pub enum PositioningMode {
    Absolute,
    Relative,
}

/// A machine position, in steps.
#[derive(Clone, Copy, Debug, PartialEq, Eq, Structural)]
pub struct Point3 {
    pub x: i64,
    pub y: i64,
    pub z: i64,
}

/// What the interpreter carries from one command to the next.
#[derive(Clone, Copy, Debug, PartialEq, Eq, Structural)]
pub struct MachineState {
    pub position: Point3,
    pub mode: PositioningMode,
}

/// A drawing directive for one motion command.
#[derive(Clone, Copy, Debug, PartialEq, Eq, Structural)]
pub enum DrawSegment {
    /// A straight move.
    Line { from: Point2, to: Point2, visible: bool, color: ColorTag },
    /// A move along the circle of `center` and `radius`, from `start` to `end`;
    /// the angles of the two ends about the center are what a renderer strokes
    /// between.
    Arc {
        center: Point2,
        radius: i64,
        start: Point2,
        end: Point2,
        clockwise: bool,
        visible: bool,
        color: ColorTag,
    },
}

impl DrawSegment {
    pub open spec fn spec_visible(self) -> bool {
        match self {
            DrawSegment::Line { visible, .. } => visible,
            DrawSegment::Arc { visible, .. } => visible,
        }
    }

    pub open spec fn spec_color(self) -> ColorTag {
        match self {
            DrawSegment::Line { color, .. } => color,
            DrawSegment::Arc { color, .. } => color,
        }
    }

    /// Whether a renderer strokes this segment.
    pub fn visible(&self) -> (r: bool)
        ensures
            r == self.spec_visible(),
    {
        match self {
            DrawSegment::Line { visible, .. } => *visible,
            DrawSegment::Arc { visible, .. } => *visible,
        }
    }

    /// The color this segment is stroked in.
    pub fn color(&self) -> (r: ColorTag)
        ensures
            r == self.spec_color(),
    {
        match self {
            DrawSegment::Line { color, .. } => *color,
            DrawSegment::Arc { color, .. } => *color,
        }
    }
}

/// `v` held to the range of `i64`.
pub open spec fn clamp_steps(v: int) -> i64 {
    if v < i64::MIN {
        i64::MIN
    } else if v > i64::MAX {
        i64::MAX
    } else {
        v as i64
    }
}

/// A coordinate after a command that gives `v` for its axis: replaced in
/// absolute mode, displaced in relative mode (held to the range of `i64`),
/// unchanged when no value is given.
pub open spec fn resolve_axis(current: i64, v: Option<i64>, mode: PositioningMode) -> i64 {
    match v {
        None => current,
        Some(d) => match mode {
            PositioningMode::Absolute => d,
            PositioningMode::Relative => clamp_steps(current + d),
        },
    }
}

impl MachineState {
    /// At the start of every pass: at the origin, in absolute mode.
    pub open spec fn initial() -> MachineState {
        MachineState { position: Point3 { x: 0, y: 0, z: 0 }, mode: PositioningMode::Absolute }
    }

    /// The position projected on the drawing plane.
    pub open spec fn plane(self) -> Point2 {
        Point2 { x: self.position.x, y: self.position.y }
    }

    /// Where the `x` and `y` of command `c` lead in the current mode.
    pub open spec fn target(self, c: CommandRecord) -> Point2 {
        Point2 {
            x: resolve_axis(self.position.x, c.x, self.mode),
            y: resolve_axis(self.position.y, c.y, self.mode),
        }
    }

    /// This state moved to `p` in the plane and to `z`.
    pub open spec fn moved_to(self, p: Point2, z: i64) -> MachineState {
        MachineState { position: Point3 { x: p.x, y: p.y, z }, ..self }
    }
}

/// The offset vector of an arc command: there is one when both `i` and `j` are
/// given.
pub open spec fn arc_offset(c: CommandRecord) -> Option<(i64, i64)> {
    match (c.i, c.j) {
        (Some(i), Some(j)) => Some((i, j)),
        _ => None,
    }
}

/// The Z after command `c`: the value it gives, else the current one.
pub open spec fn next_z(s: MachineState, c: CommandRecord) -> i64 {
    match c.z {
        Some(z) => z,
        None => s.position.z,
    }
}

/// A linear move of `c` from state `s`.
pub open spec fn linear_step(s: MachineState, c: CommandRecord, display_z: i64, draw_travel: bool) -> (
    MachineState,
    Option<DrawSegment>,
) {
    let z = next_z(s, c);
    let to = s.target(c);
    (
        s.moved_to(to, z),
        Some(
            DrawSegment::Line {
                from: s.plane(),
                to,
                visible: base_draw(c.e, draw_travel) && on_layer(z as int, display_z as int),
                color: color_of(c.e),
            },
        ),
    )
}

/// A circular move of `c` from state `s`: dropped, with the state unchanged,
/// when `x` or `y` is missing or the circle cannot be resolved.
pub open spec fn arc_step(s: MachineState, c: CommandRecord, display_z: i64, draw_travel: bool) -> (
    MachineState,
    Option<DrawSegment>,
) {
    let z = next_z(s, c);
    let end = s.target(c);
    if c.x.is_none() || c.y.is_none() {
        (s, None)
    } else {
        match arc_fit(s.plane(), end, arc_offset(c), c.r) {
            None => (s, None),
            Some(fit) => (
                s.moved_to(end, z),
                Some(
                    DrawSegment::Arc {
                        center: fit.center,
                        radius: fit.radius,
                        start: s.plane(),
                        end,
                        clockwise: c.major == 2,
                        visible: base_draw(c.e, draw_travel) && on_layer(z as int, display_z as int),
                        color: color_of(c.e),
                    },
                ),
            ),
        }
    }
}

/// The effect of one command: linear moves (`G0`, `G1`) and arcs (`G2`
/// clockwise, `G3` counter-clockwise) move and may emit a segment, `G90` and
/// `G91` select absolute and relative mode, and any other command changes
/// nothing.
pub open spec fn step(s: MachineState, c: CommandRecord, display_z: i64, draw_travel: bool) -> (
    MachineState,
    Option<DrawSegment>,
) {
    if c.group != CommandGroup::General {
        (s, None)
    } else if c.major == 0 || c.major == 1 {
        linear_step(s, c, display_z, draw_travel)
    } else if c.major == 2 || c.major == 3 {
        arc_step(s, c, display_z, draw_travel)
    } else if c.major == 90 {
        (MachineState { mode: PositioningMode::Absolute, ..s }, None)
    } else if c.major == 91 {
        (MachineState { mode: PositioningMode::Relative, ..s }, None)
    } else {
        (s, None)
    }
}

/// The state and the segments after the commands `cmds`, in order, from `s`.
pub open spec fn run(s: MachineState, cmds: Seq<CommandRecord>, display_z: i64, draw_travel: bool) -> (
    MachineState,
    Seq<DrawSegment>,
)
    decreases cmds.len(),
{
    if cmds.len() == 0 {
        (s, Seq::empty())
    } else {
        let (before, segs) = run(s, cmds.drop_last(), display_z, draw_travel);
        let (after, out) = step(before, cmds.last(), display_z, draw_travel);
        match out {
            Some(seg) => (after, segs.push(seg)),
            None => (after, segs),
        }
    }
}

/// The segments of a full pass over `cmds`.
pub open spec fn interpretation(cmds: Seq<CommandRecord>, display_z: i64, draw_travel: bool) -> Seq<
    DrawSegment,
> {
    run(MachineState::initial(), cmds, display_z, draw_travel).1
}

/// A pass over `a + b` emits the segments of `a`, in order, then those that `b`
/// emits from where `a` left the machine.
pub proof fn lemma_run_append(
    s: MachineState,
    a: Seq<CommandRecord>,
    b: Seq<CommandRecord>,
    display_z: i64,
    draw_travel: bool,
)
    ensures
        ({
            let (mid, first) = run(s, a, display_z, draw_travel);
            let (end, second) = run(mid, b, display_z, draw_travel);
            run(s, a + b, display_z, draw_travel) == (end, first + second)
        }),
    decreases b.len(),
{
    if b.len() == 0 {
        assert(a + b == a);
        let first = run(s, a, display_z, draw_travel).1;
        assert(first + Seq::<DrawSegment>::empty() == first);
    } else {
        lemma_run_append(s, a, b.drop_last(), display_z, draw_travel);
        assert((a + b).drop_last() == a + b.drop_last());
        assert((a + b).last() == b.last());
        let (mid, first) = run(s, a, display_z, draw_travel);
        let (pre, second) = run(mid, b.drop_last(), display_z, draw_travel);
        let (after, out) = step(pre, b.last(), display_z, draw_travel);
        if let Some(seg) = out {
            assert((first + second).push(seg) == first + second.push(seg));
        }
    }
}

/// `current` displaced by `d`, held to the range of `i64`.
fn displace(current: i64, d: i64) -> (r: i64)
    ensures
        r == clamp_steps(current + d),
{
    let sum = current as i128 + d as i128;
    if sum < i64::MIN as i128 {
        i64::MIN
    } else if sum > i64::MAX as i128 {
        i64::MAX
    } else {
        sum as i64
    }
}

/// A coordinate after a command that gives `v` for its axis.
pub fn axis_after(current: i64, v: Option<i64>, mode: PositioningMode) -> (r: i64)
    ensures
        r == resolve_axis(current, v, mode),
{
    match v {
        None => current,
        Some(d) => match mode {
            PositioningMode::Absolute => d,
            PositioningMode::Relative => displace(current, d),
        },
    }
}

impl MachineState {
    /// The state a pass starts from.
    pub fn new() -> (s: MachineState)
        ensures
            s == MachineState::initial(),
    {
        MachineState { position: Point3 { x: 0, y: 0, z: 0 }, mode: PositioningMode::Absolute }
    }

    /// Applies command `c`, returning the segment it emits, if any.
    pub fn apply(&mut self, c: &CommandRecord, display_z: i64, draw_travel: bool) -> (r: Option<
        DrawSegment,
    >)
        ensures
            (*final(self), r) == step(*old(self), *c, display_z, draw_travel),
    {
        if c.group != CommandGroup::General {
            return None;
        }
        if c.major == 0 || c.major == 1 || c.major == 2 || c.major == 3 {
            let z = match c.z {
                Some(z) => z,
                None => self.position.z,
            };
            let (color, base) = classify(c.e, draw_travel);
            let visible = is_visible(z, display_z, base);
            let start = Point2 { x: self.position.x, y: self.position.y };
            let end = Point2 {
                x: axis_after(self.position.x, c.x, self.mode),
                y: axis_after(self.position.y, c.y, self.mode),
            };
            if c.major == 0 || c.major == 1 {
                self.position = Point3 { x: end.x, y: end.y, z };
                Some(DrawSegment::Line { from: start, to: end, visible, color })
            } else {
                if c.x.is_none() || c.y.is_none() {
                    return None;
                }
                let offset = match (c.i, c.j) {
                    (Some(i), Some(j)) => Some((i, j)),
                    _ => None,
                };
                match resolve_arc(start, end, offset, c.r) {
                    None => None,
                    Some(fit) => {
                        self.position = Point3 { x: end.x, y: end.y, z };
                        Some(
                            DrawSegment::Arc {
                                center: fit.center,
                                radius: fit.radius,
                                start,
                                end,
                                clockwise: c.major == 2,
                                visible,
                                color,
                            },
                        )
                    },
                }
            }
        } else if c.major == 90 {
            self.mode = PositioningMode::Absolute;
            None
        } else if c.major == 91 {
            self.mode = PositioningMode::Relative;
            None
        } else {
            None
        }
    }
}

/// Interprets `commands` in one pass from the origin in absolute mode, and
/// returns the segments of the motion commands in order.
pub fn interpret(commands: &Vec<CommandRecord>, display_z: i64, draw_travel: bool) -> (r: Vec<
    DrawSegment,
>)
    ensures
        r@ == interpretation(commands@, display_z, draw_travel),
{
    let mut state = MachineState::new();
    let mut out: Vec<DrawSegment> = Vec::new();
    let mut k: usize = 0;
    while k < commands.len()
        invariant
            k <= commands@.len(),
            (state, out@) == run(MachineState::initial(), commands@.take(k as int), display_z, draw_travel),
        decreases commands@.len() - k,
    {
        proof {
            assert(commands@.take(k as int + 1).drop_last() == commands@.take(k as int));
        }
        let c = &commands[k];
        match state.apply(c, display_z, draw_travel) {
            Some(seg) => out.push(seg),
            None => {},
        }
        k = k + 1;
    }
    assert(commands@.take(k as int) == commands@);
    out
}

} // verus!
