use vstd::prelude::*;
use crate::collider::{SpecialEffect, StructureType};

verus! {

/// What one sub-step of the collision loop does, once the nearest candidates
/// have been measured against the contact threshold.
#[derive(Clone, Copy, Debug, PartialEq, Eq, Structural)]
pub enum ContactStep {
    /// The loop ends and hands this effect to the caller; the ball is not moved.
    Effect(Option<SpecialEffect>),
    /// No candidate at all: the ball moves its whole remaining distance and the
    /// loop ends.
    MoveRest,
    /// The nearest collider is out of reach: the ball advances without turning.
    Advance,
    /// The ball touches the nearest collider: it is reflected, then advances.
    ReflectAndAdvance,
}

/// The sub-step decided from the structure owning the nearest special-effect
/// generator when that one lies within the contact threshold, and from whether
/// the nearest physical collider does (`None` when there is none).
pub open spec fn contact_step_spec(effect_in_reach: Option<StructureType>, collider_in_reach: Option<bool>) -> ContactStep {
    match effect_in_reach {
        Some(s) => ContactStep::Effect(s.effect_spec()),
        None => match collider_in_reach {
            None => ContactStep::MoveRest,
            Some(false) => ContactStep::Advance,
            Some(true) => ContactStep::ReflectAndAdvance,
        },
    }
}

/// Decides one sub-step of the collision loop. `effect_in_reach` is the
/// structure owning the nearest special-effect generator when that one is
/// within the contact threshold; `collider_in_reach` says whether the nearest
/// physical collider is, and is `None` when the window holds none.
pub fn contact_step(effect_in_reach: Option<StructureType>, collider_in_reach: Option<bool>) -> (r: ContactStep)
    ensures
        r == contact_step_spec(effect_in_reach, collider_in_reach),
{
    match effect_in_reach {
        Some(s) => ContactStep::Effect(s.get_special_effect()),
        None => match collider_in_reach {
            None => ContactStep::MoveRest,
            Some(false) => ContactStep::Advance,
            Some(true) => ContactStep::ReflectAndAdvance,
        },
    }
}

/// A hole in reach takes precedence over any collider: the sub-step returns
/// the hole's effect and reflects nothing, whether or not a wall is touched.
pub proof fn lemma_hole_before_wall(collider_in_reach: Option<bool>)
    ensures
        contact_step_spec(Some(StructureType::Hole), collider_in_reach) == ContactStep::Effect(
            Some(SpecialEffect::Hole),
        ),
{
}

} // verus!
