//! Tests of the shared data types: plant kinds, garden layouts, the
//! commitment scheme and the journal codec.

use herbal_moonlight::codec::CellRevealOutput;
use herbal_moonlight::garden::{compute_garden_commitment, GardenLayout, ValidationError};
use herbal_moonlight::plant::PlantType;

const GRID_CELLS: usize = 25;
const SALT_LEN: usize = 16;
const JOURNAL_LEN: usize = 73;

#[test]
fn test_plant_type_conversion() {
    assert_eq!(PlantType::from_u8(0), Some(PlantType::Empty));
    assert_eq!(PlantType::from_u8(1), Some(PlantType::Lavender));
    assert_eq!(PlantType::from_u8(2), Some(PlantType::Mint));
    assert_eq!(PlantType::from_u8(3), Some(PlantType::Mandrake));
    assert_eq!(PlantType::from_u8(4), None);
}

#[test]
fn test_plant_damage() {
    assert_eq!(PlantType::Empty.damage(), 0);
    assert_eq!(PlantType::Lavender.damage(), 1);
    assert_eq!(PlantType::Mint.damage(), 2);
    assert_eq!(PlantType::Mandrake.damage(), 3);
}

#[test]
fn test_garden_get_cell() {
    let mut cells = vec![0u8; GRID_CELLS];
    cells[0] = 1; // (0,0) = Lavender
    cells[6] = 2; // (1,1) = Mint
    cells[12] = 3; // (2,2) = Mandrake

    let garden = GardenLayout::new(cells, vec![0u8; SALT_LEN]);

    assert_eq!(garden.get_cell(0, 0), PlantType::Lavender);
    assert_eq!(garden.get_cell(1, 1), PlantType::Mint);
    assert_eq!(garden.get_cell(2, 2), PlantType::Mandrake);
    assert_eq!(garden.get_cell(0, 1), PlantType::Empty);
}

#[test]
fn test_garden_validation_valid() {
    let mut cells = vec![0u8; GRID_CELLS];
    // Place 7 plants in rows 0-3
    cells[0] = 1;
    cells[1] = 2;
    cells[5] = 1;
    cells[6] = 2;
    cells[10] = 3;
    cells[11] = 1;
    cells[15] = 2;

    let garden = GardenLayout::new(cells, vec![0u8; SALT_LEN]);
    assert!(garden.validate().is_ok());
}

#[test]
fn test_garden_validation_too_many_plants() {
    let mut cells = vec![0u8; GRID_CELLS];
    // Place 8 plants (max is 7)
    for i in 0..8 {
        cells[i] = 1;
    }

    let garden = GardenLayout::new(cells, vec![0u8; SALT_LEN]);
    assert_eq!(garden.validate(), Err(ValidationError::TooManyPlants));
}

#[test]
fn test_garden_validation_plant_in_house() {
    let mut cells = vec![0u8; GRID_CELLS];
    cells[20] = 1; // Row 4 (house row)

    let garden = GardenLayout::new(cells, vec![0u8; SALT_LEN]);
    assert_eq!(garden.validate(), Err(ValidationError::PlantInHouseRow));
}

#[test]
fn test_garden_validation_bad_plant_code() {
    let mut cells = vec![0u8; GRID_CELLS];
    cells[3] = 9;

    let garden = GardenLayout::new(cells, vec![0u8; SALT_LEN]);
    assert_eq!(garden.validate(), Err(ValidationError::InvalidPlantType));
}

#[test]
fn test_commitment_deterministic() {
    let cells = vec![1u8; GRID_CELLS];
    let salt = vec![42u8; SALT_LEN];
    let garden = GardenLayout::new(cells, salt);

    let commitment1 = compute_garden_commitment(&garden);
    let commitment2 = compute_garden_commitment(&garden);

    assert_eq!(commitment1, commitment2);
}

#[test]
fn test_commitment_different_for_different_gardens() {
    let cells1 = vec![1u8; GRID_CELLS];
    let cells2 = vec![2u8; GRID_CELLS];
    let salt = vec![42u8; SALT_LEN];

    let garden1 = GardenLayout::new(cells1, salt.clone());
    let garden2 = GardenLayout::new(cells2, salt);

    let commitment1 = compute_garden_commitment(&garden1);
    let commitment2 = compute_garden_commitment(&garden2);

    assert_ne!(commitment1, commitment2);
}

#[test]
fn test_commitment_different_for_different_salts() {
    let cells = vec![1u8; GRID_CELLS];
    let garden1 = GardenLayout::new(cells.clone(), vec![42u8; SALT_LEN]);
    let garden2 = GardenLayout::new(cells, vec![43u8; SALT_LEN]);

    assert_ne!(
        compute_garden_commitment(&garden1),
        compute_garden_commitment(&garden2)
    );
}

#[test]
fn test_commitment_matches_sha256() {
    // The commitment must be the SHA-256 digest of cells || salt, not any
    // other function of them (in particular not the input itself).
    let cells = vec![3u8; GRID_CELLS];
    let salt = vec![7u8; SALT_LEN];
    let garden = GardenLayout::new(cells.clone(), salt.clone());

    let commitment = compute_garden_commitment(&garden);

    let mut preimage = cells;
    preimage.extend_from_slice(&salt);
    let expected = <sha2::Sha256 as sha2::Digest>::digest(&preimage).to_vec();
    assert_eq!(commitment, expected);
    assert_eq!(commitment.len(), 32);
    assert_ne!(commitment, preimage);
}

#[test]
fn test_plant_count() {
    let mut cells = vec![0u8; GRID_CELLS];
    cells[1] = 1;
    cells[8] = 2;
    cells[17] = 3;
    let garden = GardenLayout::new(cells, vec![0u8; SALT_LEN]);
    assert_eq!(garden.plant_count(), 3);
}

#[test]
fn test_cell_reveal_output_serialization() {
    let output = CellRevealOutput {
        garden_commitment: vec![1u8; 32],
        x: 2,
        y: 3,
        has_plant: true,
        plant_type: 2,
        damage: 2,
        session_id: 42,
        gardener_pubkey: vec![7u8; 32],
    };

    let bytes = output.to_bytes();
    let parsed = CellRevealOutput::from_bytes(&bytes).unwrap();

    assert_eq!(output, parsed);
}

#[test]
fn test_journal_length() {
    let output = CellRevealOutput {
        garden_commitment: vec![0u8; 32],
        x: 0,
        y: 0,
        has_plant: false,
        plant_type: 0,
        damage: 0,
        session_id: 0,
        gardener_pubkey: vec![0u8; 32],
    };

    let bytes = output.to_bytes();
    assert_eq!(bytes.len(), JOURNAL_LEN);
    assert_eq!(bytes.len(), 73);
}

#[test]
fn test_journal_decode_rejects_wrong_length() {
    assert!(CellRevealOutput::from_bytes(&[0u8; 72]).is_none());
    assert!(CellRevealOutput::from_bytes(&[0u8; 74]).is_none());
    assert!(CellRevealOutput::from_bytes(&[]).is_none());
    assert!(CellRevealOutput::from_bytes(&[0u8; 73]).is_some());
}

#[test]
fn test_journal_field_offsets() {
    let output = CellRevealOutput {
        garden_commitment: vec![0xaau8; 32],
        x: 4,
        y: 1,
        has_plant: true,
        plant_type: 3,
        damage: 3,
        session_id: 0x01020304,
        gardener_pubkey: vec![0xbbu8; 32],
    };
    let bytes = output.to_bytes();
    assert_eq!(&bytes[0..32], &[0xaau8; 32][..]);
    assert_eq!(bytes[32], 4);
    assert_eq!(bytes[33], 1);
    assert_eq!(bytes[34], 1);
    assert_eq!(bytes[35], 3);
    assert_eq!(bytes[36], 3);
    // session id is little-endian
    assert_eq!(&bytes[37..41], &[0x04, 0x03, 0x02, 0x01][..]);
    assert_eq!(&bytes[41..73], &[0xbbu8; 32][..]);
}
