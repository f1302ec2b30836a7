//! Motion interpretation for a G-code toolpath viewer.
//!
//! Coordinates are fixed-point integers: one G-code unit is
//! [`command::STEPS_PER_UNIT`] steps. The interpreter walks command records,
//! tracks the machine position and positioning mode, resolves circular arcs and
//! emits one draw segment per motion command, tagged with its color and its
//! visibility on the selected Z layer.

pub mod command;
pub mod geometry;
pub mod interpreter;
pub mod layer;
pub mod lemmas;
