//! The fixed-layout binary journal: the public output of a cell-reveal
//! proof, encoded at fixed offsets so that circuit, prover and verifier
//! agree on it bit for bit.
//!
//! Layout (73 bytes): commitment at 0 (32 bytes), x at 32, y at 33,
//! has-plant flag at 34, plant type at 35, damage at 36, session id at 37
//! (4 bytes, little-endian), gardener public key at 41 (32 bytes).

use vstd::prelude::*;

use vstd::bytes::{
    lemma_auto_spec_u32_to_from_le_bytes, spec_u32_from_le_bytes, spec_u32_to_le_bytes,
    u32_from_le_bytes, u32_to_le_bytes,
};
use vstd::slice::{slice_subrange, slice_to_vec};

use crate::garden::GardenLayout;

verus! {

/// Length of the journal in bytes.
pub const JOURNAL_LEN: usize = 73;

/// The private input of the cell-reveal circuit: the full garden (which
/// never leaves the prover) plus the public query parameters.
#[derive(Clone, Debug)]
pub struct CellRevealInput {
    /// Complete garden layout; private to the prover.
    pub garden: GardenLayout,
    /// X coordinate of the cell to reveal.
    pub x: u8,
    /// Y coordinate of the cell to reveal.
    pub y: u8,
    /// The commitment the verifier holds; the circuit checks it.
    pub expected_commitment: Vec<u8>,
    /// Session the proof is bound to.
    pub session_id: u32,
    /// Public key of the gardener the proof is bound to.
    pub gardener_pubkey: Vec<u8>,
}

/// The public output of the cell-reveal circuit: what one cell holds, bound
/// to a commitment, a session and a gardener key.
#[derive(Clone, Debug, PartialEq, Eq)]
pub struct CellRevealOutput {
    /// Commitment of the garden the proof speaks about.
    pub garden_commitment: Vec<u8>,
    /// X coordinate that was revealed.
    pub x: u8,
    /// Y coordinate that was revealed.
    pub y: u8,
    /// Whether the cell holds a plant.
    pub has_plant: bool,
    /// The cell's plant code (0 = empty, 1..=3 = plant kinds).
    pub plant_type: u8,
    /// The damage listed for the cell's plant.
    pub damage: u8,
    /// Session the proof is bound to.
    pub session_id: u32,
    /// Public key of the gardener who produced the proof.
    pub gardener_pubkey: Vec<u8>,
}

impl CellRevealOutput {
    /// An output is well-formed when its commitment and key carry their
    /// fixed 32-byte lengths.
    pub open spec fn wf(self) -> bool {
        &&& self.garden_commitment@.len() == 32
        &&& self.gardener_pubkey@.len() == 32
    }

    /// The journal encoding of an output: every field at its fixed offset.
    pub open spec fn spec_encode(self) -> Seq<u8> {
        self.garden_commitment@ + seq![
            self.x,
            self.y,
            if self.has_plant {
                1u8
            } else {
                0u8
            },
            self.plant_type,
            self.damage,
        ] + spec_u32_to_le_bytes(self.session_id) + self.gardener_pubkey@
    }

    /// Encode the output as a journal.
    pub fn to_bytes(&self) -> (r: Vec<u8>)
        requires
            self.wf(),
        ensures
            r@ == self.spec_encode(),
            r@.len() == JOURNAL_LEN,
    {
        proof {
            lemma_auto_spec_u32_to_from_le_bytes();
        }
        let mut out: Vec<u8> = Vec::new();
        out.extend_from_slice(self.garden_commitment.as_slice());
        out.push(self.x);
        out.push(self.y);
        out.push(if self.has_plant {
            1u8
        } else {
            0u8
        });
        out.push(self.plant_type);
        out.push(self.damage);
        let session_bytes = u32_to_le_bytes(self.session_id);
        out.extend_from_slice(session_bytes.as_slice());
        out.extend_from_slice(self.gardener_pubkey.as_slice());
        proof {
            assert(out@ =~= self.spec_encode());
        }
        out
    }

    /// Decode a journal. Fails exactly on buffers whose length is not
    /// `JOURNAL_LEN`; on success every field is read from its fixed offset.
    pub fn from_bytes(bytes: &[u8]) -> (r: Option<Self>)
        ensures
            r is Some <==> bytes@.len() == JOURNAL_LEN,
            match r {
                Some(o) => {
                    &&& o.wf()
                    &&& o.garden_commitment@ == bytes@.subrange(0, 32)
                    &&& o.x == bytes@[32]
                    &&& o.y == bytes@[33]
                    &&& o.has_plant == (bytes@[34] != 0)
                    &&& o.plant_type == bytes@[35]
                    &&& o.damage == bytes@[36]
                    &&& o.session_id == spec_u32_from_le_bytes(bytes@.subrange(37, 41))
                    &&& o.gardener_pubkey@ == bytes@.subrange(41, 73)
                },
                None => true,
            },
    {
        if bytes.len() != JOURNAL_LEN {
            return None;
        }
        let garden_commitment: Vec<u8> = slice_to_vec(slice_subrange(bytes, 0, 32));
        let x = *vstd::slice::slice_index_get(bytes, 32);
        let y = *vstd::slice::slice_index_get(bytes, 33);
        let has_plant = *vstd::slice::slice_index_get(bytes, 34) != 0;
        let plant_type = *vstd::slice::slice_index_get(bytes, 35);
        let damage = *vstd::slice::slice_index_get(bytes, 36);
        let session_id = u32_from_le_bytes(slice_subrange(bytes, 37, 41));
        let gardener_pubkey: Vec<u8> = slice_to_vec(slice_subrange(bytes, 41, 73));
        Some(
            Self {
                garden_commitment,
                x,
                y,
                has_plant,
                plant_type,
                damage,
                session_id,
                gardener_pubkey,
            },
        )
    }
}

/// Journal round-trip: decoding an encoded output reads back exactly the
/// fields that were encoded. Together with the contract of `from_bytes`
/// (whose success is equivalent to the 73-byte length) this pins the codec
/// as a bijection over well-formed outputs.
pub proof fn lemma_journal_round_trip(o: CellRevealOutput)
    requires
        o.wf(),
    ensures
        o.spec_encode().len() == JOURNAL_LEN,
        o.spec_encode().subrange(0, 32) == o.garden_commitment@,
        o.spec_encode()[32] == o.x,
        o.spec_encode()[33] == o.y,
        (o.spec_encode()[34] != 0) == o.has_plant,
        o.spec_encode()[35] == o.plant_type,
        o.spec_encode()[36] == o.damage,
        spec_u32_from_le_bytes(o.spec_encode().subrange(37, 41)) == o.session_id,
        o.spec_encode().subrange(41, 73) == o.gardener_pubkey@,
{
    lemma_auto_spec_u32_to_from_le_bytes();
    let j = o.spec_encode();
    assert(j.subrange(0, 32) =~= o.garden_commitment@);
    assert(j.subrange(37, 41) =~= spec_u32_to_le_bytes(o.session_id));
    assert(j.subrange(41, 73) =~= o.gardener_pubkey@);
}

} // verus!
