//! Plant kinds and their per-plant attributes.

use vstd::prelude::*;

verus! {

/// Kinds of plants that can be placed in the garden. The `u8` value stored in
/// a garden cell is the plant's wire encoding: 0 = empty, 1..=3 = plant kinds.
#[derive(Clone, Copy, Debug, PartialEq, Eq, Structural)]
pub enum PlantType {
    /// Empty cell (no plant).
    Empty,
    /// Support plant: damage 1, sets the calming reduction.
    Lavender,
    /// Damage plant: damage 2.
    Mint,
    /// Tank plant: damage 3.
    Mandrake,
}

/// The wire encoding of a plant kind.
pub open spec fn spec_plant_code(p: PlantType) -> u8 {
    match p {
        PlantType::Empty => 0,
        PlantType::Lavender => 1,
        PlantType::Mint => 2,
        PlantType::Mandrake => 3,
    }
}

/// The plant kind a cell byte stands for, if it is a recognized value.
pub open spec fn spec_plant_from_code(value: u8) -> Option<PlantType> {
    if value == 0 {
        Some(PlantType::Empty)
    } else if value == 1 {
        Some(PlantType::Lavender)
    } else if value == 2 {
        Some(PlantType::Mint)
    } else if value == 3 {
        Some(PlantType::Mandrake)
    } else {
        None
    }
}

impl PlantType {
    /// Decode a cell byte into a plant kind; unrecognized values decode to `None`.
    pub fn from_u8(value: u8) -> (r: Option<Self>)
        ensures
            r == spec_plant_from_code(value),
    {
        match value {
            0 => Some(PlantType::Empty),
            1 => Some(PlantType::Lavender),
            2 => Some(PlantType::Mint),
            3 => Some(PlantType::Mandrake),
            _ => None,
        }
    }

    /// The damage this plant deals, as listed in the journal. It agrees
    /// with the engine's base damage table: Lavender 1, Mint 2, Mandrake 3.
    pub fn damage(&self) -> (r: u8)
        ensures
            r == spec_plant_hit_value(*self),
    {
        match self {
            PlantType::Empty => 0,
            PlantType::Lavender => 1,
            PlantType::Mint => 2,
            PlantType::Mandrake => 3,
        }
    }

    /// Whether this is an actual plant (not an empty cell).
    pub fn is_plant(&self) -> (r: bool)
        ensures
            r == (*self != PlantType::Empty),
    {
        !matches!(self, PlantType::Empty)
    }
}

/// The damage a plant deals, as listed in the journal: the same values as
/// the engine's base damage table.
pub open spec fn spec_plant_hit_value(p: PlantType) -> u8 {
    match p {
        PlantType::Empty => 0,
        PlantType::Lavender => 1,
        PlantType::Mint => 2,
        PlantType::Mandrake => 3,
    }
}

impl Default for PlantType {
    /// An unset cell holds no plant.
    fn default() -> (r: Self)
        ensures
            r == PlantType::Empty,
    {
        PlantType::Empty
    }
}

} // verus!
