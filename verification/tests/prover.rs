//! Tests of the proof producer's computation and the layout authoring
//! helpers.

use herbal_moonlight::codec::CellRevealInput;
use herbal_moonlight::garden::{
    compute_garden_commitment, default_salt, place_plant, GardenLayout, PlacementError,
    ValidationError,
};
use herbal_moonlight::prover::{evaluate_cell_reveal, generate_cell_reveal_proof_dev};

const GRID_CELLS: usize = 25;
const SALT_LEN: usize = 16;
const JOURNAL_LEN: usize = 73;

fn create_test_garden() -> GardenLayout {
    let mut cells = vec![0u8; GRID_CELLS];
    // Place some plants
    cells[0] = 1; // (0,0) Lavender
    cells[2] = 2; // (2,0) Mint
    cells[6] = 3; // (1,1) Mandrake
    cells[12] = 2; // (2,2) Mint

    GardenLayout::new(cells, vec![1u8; SALT_LEN])
}

#[test]
fn test_dev_proof_generation() {
    let garden = create_test_garden();
    let pubkey = vec![42u8; 32];

    // Test revealing empty cell
    let result = generate_cell_reveal_proof_dev(&garden, 1, 0, 123, pubkey.clone()).unwrap();
    assert!(!result.output.has_plant);
    assert_eq!(result.output.x, 1);
    assert_eq!(result.output.y, 0);
    assert_eq!(result.output.session_id, 123);
    assert!(result.seal.is_empty()); // Dev mode has empty seal

    // Test revealing cell with plant
    let result = generate_cell_reveal_proof_dev(&garden, 0, 0, 456, pubkey).unwrap();
    assert!(result.output.has_plant);
    assert_eq!(result.output.plant_type, 1); // Lavender
    assert_eq!(result.output.damage, 1);
}

#[test]
fn test_journal_hash() {
    let garden = create_test_garden();
    let pubkey = vec![42u8; 32];

    let result = generate_cell_reveal_proof_dev(&garden, 0, 0, 789, pubkey).unwrap();

    // Verify journal hash matches
    let computed_hash =
        <sha2::Sha256 as sha2::Digest>::digest(&result.journal_bytes).to_vec();
    assert_eq!(result.journal_hash, computed_hash);
    assert_eq!(result.journal_bytes.len(), JOURNAL_LEN);
}

#[test]
fn test_dev_proof_rejects_bad_coordinates() {
    let garden = create_test_garden();
    let result = generate_cell_reveal_proof_dev(&garden, 5, 0, 1, vec![0u8; 32]);
    assert_eq!(result.unwrap_err(), ValidationError::CoordinatesOutOfBounds);
}

#[test]
fn test_dev_proof_rejects_invalid_garden() {
    let mut cells = vec![0u8; GRID_CELLS];
    for i in 0..8 {
        cells[i] = 1;
    }
    let garden = GardenLayout::new(cells, vec![0u8; SALT_LEN]);
    let result = generate_cell_reveal_proof_dev(&garden, 0, 0, 1, vec![0u8; 32]);
    assert_eq!(result.unwrap_err(), ValidationError::TooManyPlants);
}

#[test]
fn test_circuit_accepts_matching_commitment() {
    let garden = create_test_garden();
    let commitment = compute_garden_commitment(&garden);
    let input = CellRevealInput {
        garden,
        x: 1,
        y: 1,
        expected_commitment: commitment.clone(),
        session_id: 5,
        gardener_pubkey: vec![9u8; 32],
    };
    let output = evaluate_cell_reveal(&input).unwrap();
    assert_eq!(output.garden_commitment, commitment);
    assert_eq!(output.x, 1);
    assert_eq!(output.y, 1);
    assert!(output.has_plant);
    assert_eq!(output.plant_type, 3); // Mandrake
    assert_eq!(output.damage, 3); // Mandrake's listed damage
    assert_eq!(output.session_id, 5);
}

#[test]
fn test_circuit_rejects_wrong_commitment() {
    let garden = create_test_garden();
    let input = CellRevealInput {
        garden,
        x: 0,
        y: 0,
        expected_commitment: vec![0u8; 32],
        session_id: 5,
        gardener_pubkey: vec![9u8; 32],
    };
    assert!(evaluate_cell_reveal(&input).is_none());
}

#[test]
fn test_place_plant_rules() {
    let mut cells = vec![0u8; GRID_CELLS];
    assert_eq!(place_plant(&mut cells, 5, 0, 1), Err(PlacementError::OutOfBounds));
    assert_eq!(place_plant(&mut cells, 0, 4, 1), Err(PlacementError::HouseRow));
    assert_eq!(place_plant(&mut cells, 0, 0, 4), Err(PlacementError::UnknownPlant));
    assert_eq!(place_plant(&mut cells, 0, 0, 0), Err(PlacementError::UnknownPlant));

    assert_eq!(place_plant(&mut cells, 0, 0, 1), Ok(()));
    assert_eq!(cells[0], 1);
    assert_eq!(place_plant(&mut cells, 0, 0, 2), Err(PlacementError::CellOccupied));

    // Fill up to the limit of 7
    for x in 1..5u8 {
        assert_eq!(place_plant(&mut cells, x, 0, 2), Ok(()));
    }
    assert_eq!(place_plant(&mut cells, 0, 1, 3), Ok(()));
    assert_eq!(place_plant(&mut cells, 1, 1, 3), Ok(()));
    assert_eq!(place_plant(&mut cells, 2, 1, 3), Err(PlacementError::GardenFull));
}

#[test]
fn test_default_salt_values() {
    let salt = default_salt();
    assert_eq!(salt.len(), SALT_LEN);
    for (i, byte) in salt.iter().enumerate() {
        assert_eq!(*byte, (i as u8).wrapping_mul(17).wrapping_add(42));
    }
}
