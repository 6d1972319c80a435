//! The damage engine: base damage per plant, the moon modifier, the calming
//! reduction, and the minimum-damage floor.

use vstd::prelude::*;

use crate::moon::MoonPhase;

verus! {

/// The engine's base damage of a plant code: 1, 2 and 3 for the three plant
/// kinds, 0 for anything else.
pub open spec fn spec_base_damage(plant_type: u32) -> u32 {
    if plant_type == 1 {
        1u32
    } else if plant_type == 2 {
        2u32
    } else if plant_type == 3 {
        3u32
    } else {
        0u32
    }
}

/// Base damage adjusted by the moon: a full moon subtracts one (floored at
/// zero), a new moon adds one (saturating), a balanced moon changes nothing.
pub open spec fn spec_moon_adjusted(base_damage: u32, phase: MoonPhase) -> u32 {
    match phase {
        MoonPhase::FullMoon => if base_damage == 0 {
            0u32
        } else {
            (base_damage - 1) as u32
        },
        MoonPhase::NewMoon => if base_damage == u32::MAX {
            u32::MAX
        } else {
            (base_damage + 1) as u32
        },
        MoonPhase::Balanced => base_damage,
    }
}

/// The damage a revealed plant finally deals: moon-adjusted base damage,
/// less the pending calming reduction (floored at zero), floored at one —
/// a plant always deals at least one point.
pub open spec fn spec_final_damage(plant_type: u32, phase: MoonPhase, reduction: u32) -> u32 {
    let adjusted = spec_moon_adjusted(spec_base_damage(plant_type), phase);
    let reduced = if adjusted >= reduction {
        (adjusted - reduction) as u32
    } else {
        0u32
    };
    if reduced == 0 {
        1u32
    } else {
        reduced
    }
}

/// The calming reduction left pending after a plant is hit: hitting Lavender
/// (code 1) arms a reduction of one for the next hit; any other hit leaves
/// none. An empty reveal does not go through here and leaves the pending
/// reduction untouched.
pub open spec fn spec_next_reduction(plant_type: u32) -> u32 {
    if plant_type == 1 {
        1u32
    } else {
        0u32
    }
}

/// Health after taking damage, floored at zero.
pub open spec fn spec_hp_after(hp: u32, damage: u32) -> u32 {
    if hp >= damage {
        (hp - damage) as u32
    } else {
        0u32
    }
}

impl crate::engine::HerbalMoonlight {
    /// Base damage of a plant code: Lavender 1, Mint 2, Mandrake 3.
    pub fn base_damage_for_plant(plant_type: u32) -> (r: u32)
        ensures
            r == spec_base_damage(plant_type),
    {
        match plant_type {
            1 => 1,
            2 => 2,
            3 => 3,
            _ => 0,
        }
    }

    /// Apply the moon modifier to a base damage value.
    pub fn calculate_damage(base_damage: u32, moon_phase: &MoonPhase) -> (r: u32)
        ensures
            r == spec_moon_adjusted(base_damage, *moon_phase),
    {
        match moon_phase {
            MoonPhase::FullMoon => if base_damage == 0 {
                0
            } else {
                base_damage - 1
            },
            MoonPhase::NewMoon => if base_damage == u32::MAX {
                u32::MAX
            } else {
                base_damage + 1
            },
            MoonPhase::Balanced => base_damage,
        }
    }
}

/// Resolve a plant hit: the damage finally dealt and the calming reduction
/// left pending for the next hit.
pub fn resolve_plant_hit(plant_type: u32, moon_phase: &MoonPhase, reduction: u32) -> (r: (
    u32,
    u32,
))
    ensures
        r.0 == spec_final_damage(plant_type, *moon_phase, reduction),
        r.1 == spec_next_reduction(plant_type),
{
    let base = crate::engine::HerbalMoonlight::base_damage_for_plant(plant_type);
    let adjusted = crate::engine::HerbalMoonlight::calculate_damage(base, moon_phase);
    let reduced = if adjusted >= reduction {
        adjusted - reduction
    } else {
        0
    };
    let final_damage = if reduced == 0 {
        1
    } else {
        reduced
    };
    let next_reduction = if plant_type == 1 {
        1
    } else {
        0
    };
    (final_damage, next_reduction)
}

/// A plant always deals at least one point: for every recognized plant, any
/// moon phase and any pending reduction, the final damage is at least 1.
pub proof fn lemma_damage_floor(plant_type: u32, phase: MoonPhase, reduction: u32)
    requires
        1 <= plant_type <= 3,
    ensures
        spec_final_damage(plant_type, phase, reduction) >= 1,
{
}

/// The calming mist is consumed exactly once: a Lavender hit arms a
/// reduction of one; the next plant hit, whatever it is and under whatever
/// moon, is resolved against that reduction and leaves a pending reduction
/// that depends only on the plant just hit — so a third hit no longer sees
/// the mist unless the second plant was itself Lavender.
pub proof fn lemma_calming_mist_consumed_once(second_plant: u32, phase: MoonPhase)
    requires
        1 <= second_plant <= 3,
    ensures
        spec_next_reduction(1) == 1,
        spec_final_damage(second_plant, phase, 1) == {
            let adjusted = spec_moon_adjusted(spec_base_damage(second_plant), phase);
            if adjusted <= 1 {
                1u32
            } else {
                (adjusted - 1) as u32
            }
        },
        second_plant != 1 ==> spec_next_reduction(second_plant) == 0,
{
}

} // verus!
