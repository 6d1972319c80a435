//! The hidden garden layout, its validity rules, and the commitment scheme
//! that binds the gardener to one layout for the whole game.

use vstd::prelude::*;

use crate::hashing::{sha256, sha256_of};

verus! {

/// Number of cells in the 5x5 grid.
pub const GRID_CELLS: usize = 25;

/// Number of plants a layout may hold at most.
pub const MAX_PLANTS: usize = 7;

/// Length of the commitment salt in bytes.
pub const SALT_LEN: usize = 16;

/// The complete garden layout: 25 cells in row-major order (index =
/// y * 5 + x, so (0,0) is top-left) plus a random salt that blinds the
/// commitment. Row 4 is the gardener's house and must stay empty.
#[derive(Clone, Debug)]
pub struct GardenLayout {
    /// Cell bytes in row-major order; each byte encodes a `PlantType`.
    pub cells: Vec<u8>,
    /// Random salt mixed into the commitment hash.
    pub salt: Vec<u8>,
}

/// Errors a garden layout or a reveal request can be rejected with.
#[derive(Debug, Clone, Copy, PartialEq, Eq, Structural)]
pub enum ValidationError {
    /// More than `MAX_PLANTS` plants.
    TooManyPlants,
    /// A cell byte that encodes no plant kind.
    InvalidPlantType,
    /// A plant placed in the house row (row 4).
    PlantInHouseRow,
    /// Reveal coordinates outside the grid.
    CoordinatesOutOfBounds,
}

/// Number of non-empty cells in a cell sequence.
pub open spec fn spec_plant_count(cells: Seq<u8>) -> int
    decreases cells.len(),
{
    if cells.len() == 0 {
        0
    } else {
        spec_plant_count(cells.drop_last()) + if cells.last() != 0 {
            1int
        } else {
            0int
        }
    }
}

/// The first per-cell fault at or after index `i`, scanning in cell order:
/// an unrecognized cell byte, or a plant standing in the house row.
pub open spec fn spec_first_cell_fault(cells: Seq<u8>, i: int) -> Option<ValidationError>
    decreases cells.len() - i,
{
    if i < 0 || i >= cells.len() {
        None
    } else if cells[i] > 3 {
        Some(ValidationError::InvalidPlantType)
    } else if cells[i] != 0 && i / 5 == 4 {
        Some(ValidationError::PlantInHouseRow)
    } else {
        spec_first_cell_fault(cells, i + 1)
    }
}

/// The outcome of validating a layout's cells: the first per-cell fault if
/// one exists, else a count check against `MAX_PLANTS`.
pub open spec fn spec_validate(cells: Seq<u8>) -> Result<(), ValidationError> {
    match spec_first_cell_fault(cells, 0) {
        Some(e) => Err(e),
        None => if spec_plant_count(cells) > MAX_PLANTS {
            Err(ValidationError::TooManyPlants)
        } else {
            Ok(())
        },
    }
}

/// A layout is valid when every cell byte is recognized, the house row is
/// empty, and at most `MAX_PLANTS` cells hold a plant.
pub open spec fn spec_layout_valid(cells: Seq<u8>) -> bool {
    &&& forall|i: int| 0 <= i < cells.len() ==> cells[i] <= 3
    &&& forall|i: int| 0 <= i < cells.len() && i / 5 == 4 ==> cells[i] == 0
    &&& spec_plant_count(cells) <= MAX_PLANTS
}

/// The byte string the commitment hashes: the cells followed by the salt,
/// with no separators (both fields are of fixed length).
pub open spec fn spec_layout_bytes(g: GardenLayout) -> Seq<u8> {
    g.cells@ + g.salt@
}

/// The commitment that binds a gardener to a layout.
pub open spec fn spec_commitment(g: GardenLayout) -> Seq<u8> {
    sha256_of(spec_layout_bytes(g))
}

impl GardenLayout {
    /// A layout is well-formed when its two byte vectors have their fixed
    /// lengths (25 cells, 16 salt bytes).
    pub open spec fn wf(self) -> bool {
        &&& self.cells@.len() == GRID_CELLS
        &&& self.salt@.len() == SALT_LEN
    }

    /// Assemble a layout from its cells and salt.
    pub fn new(cells: Vec<u8>, salt: Vec<u8>) -> (r: Self)
        requires
            cells@.len() == GRID_CELLS,
            salt@.len() == SALT_LEN,
        ensures
            r.cells@ == cells@,
            r.salt@ == salt@,
            r.wf(),
    {
        Self { cells, salt }
    }

    /// The plant kind a coordinate holds: out-of-bounds coordinates and
    /// unrecognized cell bytes read as empty.
    pub open spec fn spec_cell_at(self, x: u8, y: u8) -> crate::plant::PlantType {
        if x < 5 && y < 5 {
            match crate::plant::spec_plant_from_code(self.cells@[y as int * 5 + x as int]) {
                Some(p) => p,
                None => crate::plant::PlantType::Empty,
            }
        } else {
            crate::plant::PlantType::Empty
        }
    }

    /// Read the plant at a coordinate; anything unreadable is empty.
    pub fn get_cell(&self, x: u8, y: u8) -> (r: crate::plant::PlantType)
        requires
            self.wf(),
        ensures
            r == self.spec_cell_at(x, y),
    {
        if x >= 5 || y >= 5 {
            return crate::plant::PlantType::Empty;
        }
        let index: usize = (y as usize) * 5 + (x as usize);
        match crate::plant::PlantType::from_u8(self.cells[index]) {
            Some(p) => p,
            None => crate::plant::PlantType::Empty,
        }
    }

    /// Count the plants standing in the garden.
    pub fn plant_count(&self) -> (r: usize)
        ensures
            r == spec_plant_count(self.cells@),
    {
        let mut count: usize = 0;
        let mut i: usize = 0;
        while i < self.cells.len()
            invariant
                i <= self.cells@.len(),
                count == spec_plant_count(self.cells@.take(i as int)),
                count <= i,
            decreases self.cells@.len() - i,
        {
            proof {
                assert(self.cells@.take(i + 1).drop_last() == self.cells@.take(i as int));
            }
            if self.cells[i] != 0 {
                count = count + 1;
            }
            i = i + 1;
        }
        proof {
            assert(self.cells@.take(self.cells@.len() as int) == self.cells@);
        }
        count
    }

    /// The byte string fed to the commitment hash: cells, then salt.
    pub fn to_bytes(&self) -> (r: Vec<u8>)
        ensures
            r@ == spec_layout_bytes(*self),
    {
        let mut bytes: Vec<u8> = Vec::new();
        bytes.extend_from_slice(self.cells.as_slice());
        bytes.extend_from_slice(self.salt.as_slice());
        proof {
            assert(bytes@ == self.cells@ + self.salt@);
        }
        bytes
    }

    /// Check the layout rules: recognized cell bytes only, no plant in the
    /// house row, at most `MAX_PLANTS` plants. The first faulty cell decides
    /// the error; a count over the limit is reported last.
    pub fn validate(&self) -> (r: Result<(), ValidationError>)
        ensures
            r == spec_validate(self.cells@),
            r is Ok <==> spec_layout_valid(self.cells@),
    {
        let ghost cells = self.cells@;
        let mut plant_count: usize = 0;
        let mut i: usize = 0;
        while i < self.cells.len()
            invariant
                i <= cells.len(),
                cells == self.cells@,
                plant_count == spec_plant_count(cells.take(i as int)),
                plant_count <= i,
                spec_first_cell_fault(cells, 0) == spec_first_cell_fault(cells, i as int),
            decreases cells.len() - i,
        {
            let cell = self.cells[i];
            if cell > 3 {
                proof {
                    assert(spec_first_cell_fault(cells, i as int) == Some(
                        ValidationError::InvalidPlantType,
                    ));
                    assert(!spec_layout_valid(cells)) by {
                        assert(cells[i as int] > 3);
                    }
                }
                return Err(ValidationError::InvalidPlantType);
            }
            proof {
                assert(cells.take(i + 1).drop_last() == cells.take(i as int));
                assert(cells.take(i + 1).last() == cells[i as int]);
            }
            if cell != 0 {
                plant_count = plant_count + 1;
                if i / 5 == 4 {
                    proof {
                        assert(spec_first_cell_fault(cells, i as int) == Some(
                            ValidationError::PlantInHouseRow,
                        ));
                        assert(!spec_layout_valid(cells)) by {
                            assert(cells[i as int] != 0 && i as int / 5 == 4);
                        }
                    }
                    return Err(ValidationError::PlantInHouseRow);
                }
            }
            proof {
                assert(spec_first_cell_fault(cells, i as int) == spec_first_cell_fault(
                    cells,
                    i + 1,
                ));
            }
            i = i + 1;
        }
        proof {
            assert(cells.take(cells.len() as int) == cells);
            lemma_no_fault_means_cells_clean(cells, 0);
        }
        if plant_count > MAX_PLANTS {
            return Err(ValidationError::TooManyPlants);
        }
        Ok(())
    }
}

impl Default for GardenLayout {
    /// An empty garden: all cells empty, zero salt.
    fn default() -> (r: Self)
        ensures
            r.wf(),
            r.cells@ == Seq::<u8>::new(GRID_CELLS as nat, |i: int| 0u8),
            r.salt@ == Seq::<u8>::new(SALT_LEN as nat, |i: int| 0u8),
    {
        let mut cells: Vec<u8> = Vec::new();
        let mut i: usize = 0;
        while i < GRID_CELLS
            invariant
                i <= GRID_CELLS,
                cells@ == Seq::<u8>::new(i as nat, |j: int| 0u8),
            decreases GRID_CELLS - i,
        {
            cells.push(0u8);
            proof {
                assert(cells@ =~= Seq::<u8>::new((i + 1) as nat, |j: int| 0u8));
            }
            i = i + 1;
        }
        let mut salt: Vec<u8> = Vec::new();
        let mut j: usize = 0;
        while j < SALT_LEN
            invariant
                j <= SALT_LEN,
                salt@ == Seq::<u8>::new(j as nat, |k: int| 0u8),
            decreases SALT_LEN - j,
        {
            salt.push(0u8);
            proof {
                assert(salt@ =~= Seq::<u8>::new((j + 1) as nat, |k: int| 0u8));
            }
            j = j + 1;
        }
        GardenLayout { cells, salt }
    }
}

/// Why a plant cannot be placed on a cell while authoring a layout.
#[derive(Debug, Clone, Copy, PartialEq, Eq, Structural)]
pub enum PlacementError {
    /// The coordinates lie outside the grid.
    OutOfBounds,
    /// The cell lies in the house row (row 4).
    HouseRow,
    /// The plant code names no plant.
    UnknownPlant,
    /// The cell already holds a plant.
    CellOccupied,
    /// The layout already holds `MAX_PLANTS` plants.
    GardenFull,
}

/// Place a plant while authoring a layout. The checks run in this order,
/// and the first failing one decides the error: coordinates on the grid,
/// not the house row, a recognized non-empty plant code, an empty target
/// cell, and room under the plant limit. On failure the cells are left
/// unchanged.
pub fn place_plant(cells: &mut Vec<u8>, x: u8, y: u8, plant_type: u8) -> (r: Result<
    (),
    PlacementError,
>)
    requires
        old(cells)@.len() == GRID_CELLS,
    ensures
        final(cells)@.len() == GRID_CELLS,
        r == Err::<(), PlacementError>(PlacementError::OutOfBounds) <==> x >= 5 || y >= 5,
        x < 5 && y < 5 ==> (r == Err::<(), PlacementError>(PlacementError::HouseRow) <==> y == 4),
        x < 5 && y < 4 ==> (r == Err::<(), PlacementError>(PlacementError::UnknownPlant) <==> !(1
            <= plant_type <= 3)),
        x < 5 && y < 4 && 1 <= plant_type <= 3 ==> (r == Err::<(), PlacementError>(
            PlacementError::CellOccupied,
        ) <==> old(cells)@[y as int * 5 + x as int] != 0),
        x < 5 && y < 4 && 1 <= plant_type <= 3 && old(cells)@[y as int * 5 + x as int] == 0 ==> (r
            == Err::<(), PlacementError>(PlacementError::GardenFull) <==> spec_plant_count(
            old(cells)@,
        ) >= MAX_PLANTS),
        r is Err ==> final(cells)@ == old(cells)@,
        r is Ok ==> final(cells)@ == old(cells)@.update(y as int * 5 + x as int, plant_type),
{
    if x >= 5 || y >= 5 {
        return Err(PlacementError::OutOfBounds);
    }
    if y == 4 {
        return Err(PlacementError::HouseRow);
    }
    if plant_type < 1 || plant_type > 3 {
        return Err(PlacementError::UnknownPlant);
    }
    let index: usize = (y as usize) * 5 + (x as usize);
    if cells[index] != 0 {
        return Err(PlacementError::CellOccupied);
    }
    let mut count: usize = 0;
    let mut i: usize = 0;
    while i < cells.len()
        invariant
            i <= cells@.len(),
            count == spec_plant_count(cells@.take(i as int)),
            count <= i,
        decreases cells@.len() - i,
    {
        proof {
            assert(cells@.take(i + 1).drop_last() == cells@.take(i as int));
        }
        if cells[i] != 0 {
            count = count + 1;
        }
        i = i + 1;
    }
    proof {
        assert(cells@.take(cells@.len() as int) == cells@);
    }
    if count >= MAX_PLANTS {
        return Err(PlacementError::GardenFull);
    }
    cells.set(index, plant_type);
    Ok(())
}

/// The stand-in salt the authoring tool offers when no random salt is
/// given: byte `i` is `i * 17 + 42` reduced modulo 256. A predictable salt
/// weakens the commitment's blinding; callers should prefer a random one.
pub fn default_salt() -> (r: Vec<u8>)
    ensures
        r@.len() == SALT_LEN,
        forall|i: int| 0 <= i < SALT_LEN ==> r@[i] == ((i * 17 + 42) % 256) as u8,
{
    let mut salt: Vec<u8> = Vec::new();
    let mut i: usize = 0;
    while i < SALT_LEN
        invariant
            i <= SALT_LEN,
            salt@.len() == i,
            forall|j: int| 0 <= j < i ==> salt@[j] == ((j * 17 + 42) % 256) as u8,
        decreases SALT_LEN - i,
    {
        let v: usize = (i * 17 + 42) % 256;
        salt.push(v as u8);
        i = i + 1;
    }
    salt
}

/// A clean scan from `i` to the end means every cell from `i` on is
/// recognized and out of the house row.
proof fn lemma_no_fault_means_cells_clean(cells: Seq<u8>, i: int)
    requires
        0 <= i <= cells.len(),
        spec_first_cell_fault(cells, i) is None,
    ensures
        forall|j: int| i <= j < cells.len() ==> cells[j] <= 3,
        forall|j: int| i <= j < cells.len() && j / 5 == 4 ==> cells[j] == 0,
    decreases cells.len() - i,
{
    if i < cells.len() {
        lemma_no_fault_means_cells_clean(cells, i + 1);
    }
}

/// Compute the commitment of a garden layout: the SHA-256 digest of the
/// cells followed by the salt.
pub fn compute_garden_commitment(garden: &GardenLayout) -> (r: Vec<u8>)
    ensures
        r@ == spec_commitment(*garden),
        r@.len() == 32,
{
    let bytes = garden.to_bytes();
    sha256(bytes.as_slice())
}

/// Commitment determinism: the commitment is a function of the cells and the
/// salt alone, so repeated computations on equal layouts agree.
pub proof fn lemma_commitment_deterministic(g1: GardenLayout, g2: GardenLayout)
    requires
        g1.cells@ == g2.cells@,
        g1.salt@ == g2.salt@,
    ensures
        spec_commitment(g1) == spec_commitment(g2),
{
    assert(spec_layout_bytes(g1) == spec_layout_bytes(g2));
}

/// Distinct layouts hash distinct byte strings: for well-formed layouts, a
/// change to any cell or to the salt changes the commitment's preimage.
/// (That the digests themselves then differ is the hash's collision
/// resistance, which is not provable here.)
pub proof fn lemma_distinct_layouts_distinct_preimage(g1: GardenLayout, g2: GardenLayout)
    requires
        g1.wf(),
        g2.wf(),
        g1.cells@ != g2.cells@ || g1.salt@ != g2.salt@,
    ensures
        spec_layout_bytes(g1) != spec_layout_bytes(g2),
{
    let b1 = spec_layout_bytes(g1);
    let b2 = spec_layout_bytes(g2);
    if g1.cells@ != g2.cells@ {
        assert(exists|i: int|
            0 <= i < GRID_CELLS && g1.cells@[i] != g2.cells@[i]) by {
            assert(g1.cells@.len() == g2.cells@.len());
            if forall|i: int| 0 <= i < GRID_CELLS ==> g1.cells@[i] == g2.cells@[i] {
                assert(g1.cells@ =~= g2.cells@);
            }
        }
        let i = choose|i: int| 0 <= i < GRID_CELLS && g1.cells@[i] != g2.cells@[i];
        assert(b1[i] != b2[i]);
    } else {
        assert(exists|i: int| 0 <= i < SALT_LEN && g1.salt@[i] != g2.salt@[i]) by {
            if forall|i: int| 0 <= i < SALT_LEN ==> g1.salt@[i] == g2.salt@[i] {
                assert(g1.salt@ =~= g2.salt@);
            }
        }
        let i = choose|i: int| 0 <= i < SALT_LEN && g1.salt@[i] != g2.salt@[i];
        assert(b1[GRID_CELLS + i] != b2[GRID_CELLS + i]);
    }
}

} // verus!
