use vstd::prelude::*;

verus! {

/// How the velocities of the bodies are updated during a tick.
#[derive(Clone, Copy, Debug, PartialEq, Eq, Structural)]
pub enum GravityMode {
    /// Constant downward acceleration, wall and floor reflection, and
    /// pairwise collision resolution.
    Uniform,
    /// Mutual inverse-square attraction between all bodies; no collisions.
    Radial,
}

/// The velocity pass that a tick runs after its contact pass.
#[derive(Clone, Copy, Debug, PartialEq, Eq, Structural)]
pub enum VelocityPass {
    /// Each body bounces off the walls and the floor, then takes the
    /// uniform gravity for the tick.
    WallsAndGravity,
    /// All bodies attract each other, against a snapshot taken at the start
    /// of the pass.
    Gravitate,
}

/// The passes of one tick, in the order in which they run. The position pass
/// runs last in every mode and so is not part of the plan.
#[derive(Clone, Copy, Debug, PartialEq, Eq, Structural)]
pub struct TickPlan {
    /// Whether every ordered pair of bodies is tested for contact and resolved.
    pub resolve_contacts: bool,
    pub velocity_pass: VelocityPass,
}

/// The plan of a tick in the given mode.
pub open spec fn plan_for(mode: GravityMode) -> TickPlan {
    match mode {
        GravityMode::Uniform => TickPlan {
            resolve_contacts: true,
            velocity_pass: VelocityPass::WallsAndGravity,
        },
        GravityMode::Radial => TickPlan {
            resolve_contacts: false,
            velocity_pass: VelocityPass::Gravitate,
        },
    }
}

/// Chooses the passes of a tick: in uniform mode contacts are resolved and
/// each body bounces and falls; in radial mode contacts are skipped and the
/// bodies attract each other.
pub fn tick_plan(mode: GravityMode) -> (r: TickPlan)
    ensures
        r == plan_for(mode),
        r.resolve_contacts <==> mode == GravityMode::Uniform,
        r.velocity_pass == VelocityPass::Gravitate <==> mode == GravityMode::Radial,
{
    match mode {
        GravityMode::Uniform => TickPlan {
            resolve_contacts: true,
            velocity_pass: VelocityPass::WallsAndGravity,
        },
        GravityMode::Radial => TickPlan {
            resolve_contacts: false,
            velocity_pass: VelocityPass::Gravitate,
        },
    }
}

} // verus!
