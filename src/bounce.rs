use vstd::prelude::*;

verus! {

/// What a body's velocity update does before gravity, and whether gravity
/// follows. Applied in this order: negate the components marked for
/// reflection, multiply both components by the body's elasticity
/// `damping_steps` times, then add the tick's gravity if it applies.
#[derive(Clone, Copy, Debug, PartialEq, Eq, Structural)]
pub struct Bounce {
    /// The horizontal component is negated (a side wall was touched).
    pub reflect_u: bool,
    /// The vertical component is negated (the floor was touched while falling).
    pub reflect_v: bool,
    /// How many times both components are scaled by elasticity: once per
    /// reflection.
    pub damping_steps: u8,
    /// Whether the downward acceleration is added this tick.
    pub gravity_applies: bool,
}

/// Decides a body's bounce from its contacts at the start of the velocity
/// update: `touches_wall` when its disk reaches past the left wall or onto
/// the right one, `touches_floor` when its centre is no higher than its
/// radius, and `falling` when its vertical velocity points down.
///
/// A wall contact reflects the horizontal component; a floor contact reflects
/// the vertical one, but only while the body falls. Each reflection damps the
/// whole velocity once. A body on the floor takes no gravity for the tick, so
/// that a resting body does not sink into the ground.
pub fn bounce_plan(touches_wall: bool, touches_floor: bool, falling: bool) -> (r: Bounce)
    ensures
        r.reflect_u == touches_wall,
        r.reflect_v == (touches_floor && falling),
        r.damping_steps == (if touches_wall { 1u8 } else { 0u8 }) + (if touches_floor
            && falling { 1u8 } else { 0u8 }),
        r.gravity_applies == !touches_floor,
{
    let mut damping_steps: u8 = 0;
    if touches_wall {
        damping_steps = damping_steps + 1;
    }
    let reflect_v = touches_floor && falling;
    if reflect_v {
        damping_steps = damping_steps + 1;
    }
    Bounce { reflect_u: touches_wall, reflect_v, damping_steps, gravity_applies: !touches_floor }
}

} // verus!
