//! The off-line proof producer's computation: evaluating the cell-reveal
//! circuit's statement and assembling a development-mode proof bundle.
//!
//! Production proofs come from a zero-knowledge proving system, an external
//! collaborator; a development-mode bundle carries an empty seal and only
//! binds the journal to its hash.

use vstd::prelude::*;

use crate::codec::{CellRevealInput, CellRevealOutput, JOURNAL_LEN};
use crate::garden::{
    compute_garden_commitment, spec_commitment, spec_layout_valid, spec_validate, GardenLayout,
    ValidationError,
};
use crate::hashing::{sha256, sha256_of};

verus! {

/// A generated proof bundle: the decoded public output, the raw journal,
/// its hash, and the seal (empty in development mode).
#[derive(Clone, Debug)]
pub struct ProofResult {
    /// Public output decoded from the journal.
    pub output: CellRevealOutput,
    /// Raw journal bytes, as the verifier receives them.
    pub journal_bytes: Vec<u8>,
    /// SHA-256 digest of the journal.
    pub journal_hash: Vec<u8>,
    /// Succinct-proof seal; empty in development mode.
    pub seal: Vec<u8>,
    /// Whether this bundle was produced without a proving run.
    pub is_dev_mode: bool,
}

/// What the cell-reveal circuit attests: with coordinates on the grid, a
/// valid garden, and a garden that hashes to the expected commitment, the
/// output names the queried cell's content, bound to the commitment, the
/// session and the gardener key. On any violated premise the circuit
/// aborts and no output exists.
pub fn evaluate_cell_reveal(input: &CellRevealInput) -> (r: Option<CellRevealOutput>)
    requires
        input.garden.wf(),
        input.expected_commitment@.len() == 32,
        input.gardener_pubkey@.len() == 32,
    ensures
        r is Some <==> {
            &&& input.x < 5
            &&& input.y < 5
            &&& spec_layout_valid(input.garden.cells@)
            &&& input.expected_commitment@ == spec_commitment(input.garden)
        },
        match r {
            Some(o) => {
                let cell = input.garden.cells@[input.y as int * 5 + input.x as int];
                &&& o.wf()
                &&& o.garden_commitment@ == spec_commitment(input.garden)
                &&& o.x == input.x
                &&& o.y == input.y
                &&& o.has_plant == (cell != 0)
                &&& o.plant_type == cell
                &&& o.damage == crate::plant::spec_plant_hit_value(
                    input.garden.spec_cell_at(input.x, input.y),
                )
                &&& o.session_id == input.session_id
                &&& o.gardener_pubkey@ == input.gardener_pubkey@
            },
            None => true,
        },
{
    if input.x >= 5 || input.y >= 5 {
        return None;
    }
    if input.garden.validate().is_err() {
        return None;
    }
    let computed_commitment = compute_garden_commitment(&input.garden);
    if !crate::engine::bytes_eq(
        computed_commitment.as_slice(),
        input.expected_commitment.as_slice(),
    ) {
        return None;
    }
    let plant = input.garden.get_cell(input.x, input.y);
    let index: usize = (input.y as usize) * 5 + (input.x as usize);
    Some(
        CellRevealOutput {
            garden_commitment: computed_commitment,
            x: input.x,
            y: input.y,
            has_plant: plant.is_plant(),
            plant_type: input.garden.cells[index],
            damage: plant.damage(),
            session_id: input.session_id,
            gardener_pubkey: input.gardener_pubkey.clone(),
        },
    )
}

/// Produce a development-mode proof bundle: no proving run, an empty seal,
/// and a journal that a development-mode gate (which checks only the
/// journal hash) will accept. Carries no cryptographic soundness.
///
/// Each plant's listed damage equals its plant code (1, 2 and 3), so the
/// journal's damage byte equals the cell's value.
pub fn generate_cell_reveal_proof_dev(
    garden: &GardenLayout,
    x: u8,
    y: u8,
    session_id: u32,
    gardener_pubkey: Vec<u8>,
) -> (r: Result<ProofResult, ValidationError>)
    requires
        garden.wf(),
        gardener_pubkey@.len() == 32,
    ensures
        r is Ok <==> x < 5 && y < 5 && spec_layout_valid(garden.cells@),
        x >= 5 || y >= 5 ==> r == Err::<ProofResult, ValidationError>(
            ValidationError::CoordinatesOutOfBounds,
        ),
        x < 5 && y < 5 && !spec_layout_valid(garden.cells@) ==> r == Err::<
            ProofResult,
            ValidationError,
        >(spec_validate(garden.cells@)->Err_0),
        match r {
            Ok(p) => {
                let cell = garden.cells@[y as int * 5 + x as int];
                &&& p.output.wf()
                &&& p.output.garden_commitment@ == spec_commitment(*garden)
                &&& p.output.x == x
                &&& p.output.y == y
                &&& p.output.has_plant == (cell != 0)
                &&& p.output.plant_type == cell
                &&& p.output.damage == cell
                &&& p.output.session_id == session_id
                &&& p.output.gardener_pubkey@ == gardener_pubkey@
                &&& p.journal_bytes@ == p.output.spec_encode()
                &&& p.journal_bytes@.len() == JOURNAL_LEN
                &&& p.journal_hash@ == sha256_of(p.journal_bytes@)
                &&& p.seal@.len() == 0
                &&& p.is_dev_mode
            },
            Err(_) => true,
        },
{
    if x >= 5 || y >= 5 {
        return Err(ValidationError::CoordinatesOutOfBounds);
    }
    match garden.validate() {
        Err(e) => {
            return Err(e);
        },
        Ok(()) => {},
    }
    let commitment = compute_garden_commitment(garden);
    let index: usize = (y as usize) * 5 + (x as usize);
    let cell = garden.cells[index];
    let output = CellRevealOutput {
        garden_commitment: commitment,
        x,
        y,
        has_plant: cell != 0,
        plant_type: cell,
        damage: cell,
        session_id,
        gardener_pubkey,
    };
    let journal_bytes = output.to_bytes();
    let journal_hash = sha256(journal_bytes.as_slice());
    let seal: Vec<u8> = Vec::new();
    Ok(ProofResult { output, journal_bytes, journal_hash, seal, is_dev_mode: true })
}

} // verus!
