//! Session state: the phase machine, the per-game record, the reveal result
//! handed back to callers, and the error taxonomy.

use vstd::prelude::*;

use crate::moon::MoonPhase;

verus! {

/// The strict four-state session lifecycle. The only legal transitions are
/// WaitingForCommitment -> Playing -> WaitingForProof -> Playing or
/// Finished; a finished session never changes again.
#[derive(Clone, Copy, Debug, Eq, PartialEq, Structural)]
pub enum GamePhase {
    /// Created; the gardener has not committed a garden yet.
    WaitingForCommitment,
    /// The creature has moved; the gardener owes a reveal proof.
    WaitingForProof,
    /// The creature may move.
    Playing,
    /// The game is over; the session is immutable.
    Finished,
}

/// Everything an operation can fail with. Each failing check aborts the
/// whole call with a distinct value and no observable state change.
#[derive(Copy, Clone, Debug, Eq, PartialEq, Structural)]
pub enum Error {
    /// The configuration record was never initialized.
    NotInitialized,
    /// A session with this id already exists.
    AlreadyInitialized,
    /// The operation is not legal in the session's current phase.
    InvalidPhase,
    /// The calling party may not act now.
    NotYourTurn,
    /// The proposed move breaks the movement rules.
    InvalidMove,
    /// The cell was already revealed.
    CellAlreadyRevealed,
    /// The proof or the journal hash failed verification, or the journal is
    /// malformed or semantically bogus.
    ProofVerificationFailed,
    /// The journal's embedded commitment does not match the stored one.
    CommitmentMismatch,
    /// No session with this id exists.
    SessionNotFound,
    /// The journal's coordinates do not match the creature's position.
    InvalidCoordinates,
    /// The game already reached its terminal state.
    GameAlreadyFinished,
    /// A party tried to play against itself.
    SelfPlayNotAllowed,
}

/// The full state of one game, created at start and mutated by every
/// subsequent call until the phase reaches Finished.
#[derive(Clone, Debug)]
pub struct GameSession {
    /// The session's identifier.
    pub session_id: u32,
    /// The concealing party, who commits the garden and proves reveals.
    pub gardener: String,
    /// The traversing party, who advances across the grid.
    pub creature: String,
    /// Points the gardener staked.
    pub gardener_points: i128,
    /// Points the creature staked.
    pub creature_points: i128,
    /// The recorded 32-byte garden commitment (all zero until committed).
    pub garden_commitment: Vec<u8>,
    /// The creature's current column.
    pub creature_x: u32,
    /// The creature's current row.
    pub creature_y: u32,
    /// The creature's remaining health.
    pub creature_hp: u32,
    /// Where the session stands in its lifecycle.
    pub phase: GamePhase,
    /// The modifier this session is played under.
    pub moon_phase: MoonPhase,
    /// Append-only log of revealed cell indices (y * 5 + x), in reveal
    /// order and not deduplicated.
    pub revealed_cells: Vec<u32>,
    /// Number of moves made so far.
    pub turn_number: u32,
    /// Pending calming reduction applied to the next plant hit.
    pub damage_reduction: u32,
}

/// What one reveal call reports back: the revealed cell and the damage the
/// engine charged for it.
#[derive(Clone, Copy, Debug, Eq, PartialEq, Structural)]
pub struct CellRevealResult {
    /// X coordinate of the revealed cell.
    pub x: u32,
    /// Y coordinate of the revealed cell.
    pub y: u32,
    /// Whether the cell holds a plant.
    pub has_plant: bool,
    /// The cell's plant code.
    pub plant_type: u32,
    /// The damage the engine resolved for this reveal (0 for an empty cell).
    pub damage_dealt: u32,
}

impl GameSession {
    /// The invariant every stored session satisfies: the creature stands on
    /// the grid, the commitment has its fixed length, the pending reduction
    /// is at most one, and the turn counter equals the creature's row (the
    /// creature starts at row 0 and each move advances one row).
    pub open spec fn wf(self) -> bool {
        &&& self.creature_x < crate::GRID_SIZE
        &&& self.creature_y < crate::GRID_SIZE
        &&& self.garden_commitment@.len() == 32
        &&& self.damage_reduction <= 1
        &&& self.turn_number == self.creature_y
    }
}

} // verus!
