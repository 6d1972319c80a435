//! The moon-phase oracle: a deterministic classifier that maps a session id
//! to one of three game modifiers, identical wherever it is computed.

use vstd::prelude::*;

use crate::hashing::{keccak256, keccak256_of};

verus! {

/// The creature's base starting health.
pub const CREATURE_STARTING_HP: u32 = 6;

/// The three game modifiers a session can be played under.
#[derive(Clone, Copy, Debug, PartialEq, Eq, Structural)]
pub enum MoonPhase {
    /// Softens every hit by one and grants the creature two extra health.
    FullMoon,
    /// Hardens every hit by one.
    NewMoon,
    /// Leaves damage unchanged.
    Balanced,
}

/// The big-endian bytes of a session id, the seed fed to the oracle's hash.
pub open spec fn spec_session_seed(session_id: u32) -> Seq<u8> {
    seq![
        ((session_id >> 24) & 0xff) as u8,
        ((session_id >> 16) & 0xff) as u8,
        ((session_id >> 8) & 0xff) as u8,
        (session_id & 0xff) as u8,
    ]
}

/// The bucket a hash byte falls into: [0,20) full moon, [20,40) new moon,
/// [40,100) balanced (the byte is reduced modulo 100 first).
pub open spec fn spec_phase_bucket(byte: u8) -> MoonPhase {
    let v = byte % 100;
    if v < 20 {
        MoonPhase::FullMoon
    } else if v < 40 {
        MoonPhase::NewMoon
    } else {
        MoonPhase::Balanced
    }
}

/// The moon phase of a session: bucket the first byte of the Keccak-256
/// digest of the session id's big-endian encoding.
pub open spec fn spec_moon_phase(session_id: u32) -> MoonPhase {
    spec_phase_bucket(keccak256_of(spec_session_seed(session_id))[0])
}

/// The creature's starting health under a moon phase: the base value, plus
/// two under a full moon.
pub open spec fn spec_starting_hp(phase: MoonPhase) -> u32 {
    if phase == MoonPhase::FullMoon {
        (CREATURE_STARTING_HP + 2) as u32
    } else {
        CREATURE_STARTING_HP
    }
}

/// Encode a session id as four big-endian bytes.
fn session_seed(session_id: u32) -> (r: Vec<u8>)
    ensures
        r@ == spec_session_seed(session_id),
{
    proof {
        assert((session_id >> 24) & 0xff < 256 && (session_id >> 16) & 0xff < 256 && (session_id
            >> 8) & 0xff < 256 && session_id & 0xff < 256) by (bit_vector);
    }
    let mut seed: Vec<u8> = Vec::new();
    seed.push(((session_id >> 24) & 0xff) as u8);
    seed.push(((session_id >> 16) & 0xff) as u8);
    seed.push(((session_id >> 8) & 0xff) as u8);
    seed.push((session_id & 0xff) as u8);
    proof {
        assert(seed@ =~= spec_session_seed(session_id));
    }
    seed
}

impl crate::engine::HerbalMoonlight {
    /// Classify a session: hash the big-endian session id with Keccak-256
    /// and bucket the first output byte modulo 100. Deterministic in the
    /// session id, so simulation and adjudication always agree.
    pub fn determine_moon_phase(session_id: u32) -> (r: MoonPhase)
        ensures
            r == spec_moon_phase(session_id),
    {
        let seed = session_seed(session_id);
        let digest = keccak256(seed.as_slice());
        let byte = digest[0] % 100;
        if byte < 20 {
            MoonPhase::FullMoon
        } else if byte < 40 {
            MoonPhase::NewMoon
        } else {
            MoonPhase::Balanced
        }
    }
}

} // verus!
