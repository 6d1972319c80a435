//! The game controller: the state machine that owns every session, enforces
//! phase legality, movement rules and the proof gate, and resolves damage
//! and terminal conditions.
//!
//! Authorization of the calling parties, the points-custody hub calls and
//! the succinct-proof verifier are external collaborators: the surrounding
//! host authenticates callers and invokes the verifier, and hands this
//! engine plain values (for the verifier, the boolean verdict).

use vstd::prelude::*;

use std::collections::HashMap;

use crate::codec::JOURNAL_LEN;
use crate::damage::{
    resolve_plant_hit, spec_final_damage, spec_hp_after, spec_next_reduction,
};
use crate::hashing::{sha256, sha256_of};
use crate::moon::{spec_moon_phase, spec_starting_hp, MoonPhase, CREATURE_STARTING_HP};
use crate::movement::{is_move_allowed, spec_move_allowed};
use crate::session::{CellRevealResult, Error, GamePhase, GameSession};
use crate::GRID_SIZE;

verus! {

broadcast use vstd::std_specs::hash::group_hash_axioms;

/// The game controller: the process-wide configuration record plus every
/// live session, keyed by session id.
pub struct HerbalMoonlight {
    /// The administrator allowed to change the configuration.
    pub admin: String,
    /// The points-custody hub the host reports game starts and ends to.
    pub game_hub: String,
    /// The registered succinct-proof verifier.
    pub verifier_id: String,
    /// The 32-byte circuit identifier proofs must be bound to.
    pub image_id: Vec<u8>,
    /// Every session ever started, keyed by its id. Finished sessions stay
    /// recorded, so a session id can never be reused.
    pub sessions: HashMap<u32, GameSession>,
}

/// Whether a journal embeds the stored commitment: it is at least 32 bytes
/// long and opens with exactly the stored 32 bytes.
pub open spec fn spec_commitment_embedded_ok(j: Seq<u8>, stored: Seq<u8>) -> bool {
    j.len() >= 32 && j.subrange(0, 32) == stored
}

/// Whether the verification gate passes. With an empty seal the proof gate runs in
/// development mode: it checks only that the claimed journal hash is the
/// SHA-256 digest of the journal (integrity, no soundness). With a non-empty
/// seal it runs in production mode: the same hash binding, and additionally
/// the external succinct-proof verifier's verdict must be positive.
pub open spec fn spec_gate_passes(
    j: Seq<u8>,
    claimed_hash: Seq<u8>,
    seal: Seq<u8>,
    proof_ok: bool,
) -> bool {
    if seal.len() == 0 {
        sha256_of(j) == claimed_hash
    } else {
        sha256_of(j) == claimed_hash && proof_ok
    }
}

/// Whether the journal's coordinates are the creature's current position.
pub open spec fn spec_coords_match(j: Seq<u8>, s: GameSession) -> bool {
    j[32] as u32 == s.creature_x && j[33] as u32 == s.creature_y
}

/// Whether the journal's plant claim is semantically sound: a claimed plant
/// must carry one of the recognized non-empty plant codes.
pub open spec fn spec_plant_claim_ok(j: Seq<u8>) -> bool {
    j[34] != 0 ==> 1 <= j[35] <= 3
}

/// The first check a reveal fails on, in gate order, if any: embedded
/// commitment, hash/proof gate, journal length, coordinates, plant claim.
pub open spec fn spec_reveal_gate_error(
    s: GameSession,
    j: Seq<u8>,
    claimed_hash: Seq<u8>,
    seal: Seq<u8>,
    proof_ok: bool,
) -> Option<Error> {
    if !spec_commitment_embedded_ok(j, s.garden_commitment@) {
        Some(Error::CommitmentMismatch)
    } else if !spec_gate_passes(j, claimed_hash, seal, proof_ok) {
        Some(Error::ProofVerificationFailed)
    } else if j.len() != JOURNAL_LEN {
        Some(Error::ProofVerificationFailed)
    } else if !spec_coords_match(j, s) {
        Some(Error::InvalidCoordinates)
    } else if !spec_plant_claim_ok(j) {
        Some(Error::ProofVerificationFailed)
    } else {
        None
    }
}

/// What an accepted reveal reports: the decoded cell, and the damage the
/// engine resolves for it (zero for an empty cell; the journal's own damage
/// byte is advisory and ignored).
pub open spec fn spec_reveal_result(s: GameSession, j: Seq<u8>) -> CellRevealResult {
    CellRevealResult {
        x: j[32] as u32,
        y: j[33] as u32,
        has_plant: j[34] != 0,
        plant_type: j[35] as u32,
        damage_dealt: if j[34] != 0 {
            spec_final_damage(j[35] as u32, s.moon_phase, s.damage_reduction)
        } else {
            0u32
        },
    }
}

/// The terminal decision after a reveal: `Some(true)` when the creature's
/// health reached zero (the gardener wins), otherwise `Some(false)` when the
/// creature stands on the last row (the creature wins), otherwise `None`
/// (play continues). Death is checked before goal arrival, in that fixed
/// priority.
pub open spec fn spec_winner(hp_after: u32, creature_y: u32) -> Option<bool> {
    if hp_after == 0 {
        Some(true)
    } else if creature_y >= 4 {
        Some(false)
    } else {
        None
    }
}

/// Terminal priority: a reveal that leaves the creature at zero health ends
/// the game as a gardener win, even when the same move also reached the goal
/// row.
pub proof fn lemma_terminal_priority(hp_after: u32, creature_y: u32)
    ensures
        hp_after == 0 ==> spec_winner(hp_after, creature_y) == Some(true),
        hp_after == 0 && creature_y >= 4 ==> spec_winner(hp_after, creature_y) == Some(true),
        hp_after != 0 && creature_y >= 4 ==> spec_winner(hp_after, creature_y) == Some(false),
        hp_after != 0 && creature_y < 4 ==> spec_winner(hp_after, creature_y) is None,
{
}

/// Compare two byte strings.
pub(crate) fn bytes_eq(a: &[u8], b: &[u8]) -> (r: bool)
    ensures
        r == (a@ == b@),
{
    if a.len() != b.len() {
        assert(a@ != b@);
        return false;
    }
    let mut i: usize = 0;
    while i < a.len()
        invariant
            i <= a@.len(),
            a@.len() == b@.len(),
            forall|k: int| 0 <= k < i ==> a@[k] == b@[k],
        decreases a@.len() - i,
    {
        if *vstd::slice::slice_index_get(a, i) != *vstd::slice::slice_index_get(b, i) {
            assert(a@[i as int] != b@[i as int]);
            return false;
        }
        i = i + 1;
    }
    proof {
        assert(a@ =~= b@);
    }
    true
}

/// A vector of `n` zero bytes.
fn zero_bytes(n: usize) -> (r: Vec<u8>)
    ensures
        r@ == Seq::<u8>::new(n as nat, |i: int| 0u8),
{
    let mut out: Vec<u8> = Vec::new();
    let mut i: usize = 0;
    while i < n
        invariant
            i <= n,
            out@ == Seq::<u8>::new(i as nat, |j: int| 0u8),
        decreases n - i,
    {
        out.push(0u8);
        proof {
            assert(out@ =~= Seq::<u8>::new((i + 1) as nat, |j: int| 0u8));
        }
        i = i + 1;
    }
    out
}

impl HerbalMoonlight {
    /// The controller invariant: every stored session is well-formed and
    /// filed under its own id.
    pub open spec fn wf(self) -> bool {
        forall|k: u32|
            self.sessions@.contains_key(k) ==> {
                &&& (#[trigger] self.sessions@[k]).wf()
                &&& self.sessions@[k].session_id == k
            }
    }

    /// Set up the controller: record the administrator, the points hub, the
    /// proof verifier and the 32-byte circuit identifier, with no sessions.
    pub fn new(admin: String, game_hub: String, verifier_id: String, image_id: Vec<u8>) -> (r:
        Self)
        requires
            image_id@.len() == 32,
        ensures
            r.admin == admin,
            r.game_hub == game_hub,
            r.verifier_id == verifier_id,
            r.image_id == image_id,
            r.sessions@ == Map::<u32, GameSession>::empty(),
            r.wf(),
    {
        HerbalMoonlight { admin, game_hub, verifier_id, image_id, sessions: HashMap::new() }
    }

    /// Start a game between a gardener and a creature. Self-play is
    /// rejected, and a session id can be claimed exactly once — a reused id
    /// fails and never overwrites, also after the earlier game finished.
    /// The new session puts the creature at the top row's center with the
    /// moon-phase-dependent starting health, waiting for the commitment.
    pub fn start_game(
        &mut self,
        session_id: u32,
        gardener: String,
        creature: String,
        gardener_points: i128,
        creature_points: i128,
    ) -> (r: Result<(), Error>)
        requires
            old(self).wf(),
        ensures
            final(self).wf(),
            final(self).admin == old(self).admin && final(self).game_hub == old(self).game_hub
                && final(self).verifier_id == old(self).verifier_id && final(self).image_id == old(
                self,
            ).image_id,
            r == Err::<(), Error>(Error::SelfPlayNotAllowed) <==> gardener@ == creature@,
            gardener@ != creature@ ==> (r == Err::<(), Error>(Error::AlreadyInitialized) <==> old(
                self,
            ).sessions@.contains_key(session_id)),
            r is Err ==> final(self).sessions@ == old(self).sessions@,
            r is Ok <==> gardener@ != creature@ && !old(self).sessions@.contains_key(session_id),
            r is Ok ==> {
                let s = final(self).sessions@[session_id];
                &&& final(self).sessions@.contains_key(session_id)
                &&& final(self).sessions@ == old(self).sessions@.insert(session_id, s)
                &&& s.session_id == session_id
                &&& s.gardener == gardener
                &&& s.creature == creature
                &&& s.gardener_points == gardener_points
                &&& s.creature_points == creature_points
                &&& s.garden_commitment@ == Seq::<u8>::new(32, |i: int| 0u8)
                &&& s.creature_x == 2
                &&& s.creature_y == 0
                &&& s.moon_phase == spec_moon_phase(session_id)
                &&& s.creature_hp == spec_starting_hp(s.moon_phase)
                &&& s.phase == GamePhase::WaitingForCommitment
                &&& s.revealed_cells@ == Seq::<u32>::empty()
                &&& s.turn_number == 0
                &&& s.damage_reduction == 0
            },
    {
        if gardener == creature {
            return Err(Error::SelfPlayNotAllowed);
        }
        if self.sessions.contains_key(&session_id) {
            return Err(Error::AlreadyInitialized);
        }
        let moon_phase = Self::determine_moon_phase(session_id);
        let creature_hp: u32 = match moon_phase {
            MoonPhase::FullMoon => CREATURE_STARTING_HP + 2,
            _ => CREATURE_STARTING_HP,
        };
        let session = GameSession {
            session_id,
            gardener,
            creature,
            gardener_points,
            creature_points,
            garden_commitment: zero_bytes(32),
            creature_x: 2,
            creature_y: 0,
            creature_hp,
            phase: GamePhase::WaitingForCommitment,
            moon_phase,
            revealed_cells: Vec::new(),
            turn_number: 0,
            damage_reduction: 0,
        };
        self.sessions.insert(session_id, session);
        Ok(())
    }

    /// Record the gardener's garden commitment. Legal only while the session
    /// waits for it; the session then enters the playing phase.
    pub fn commit_garden(&mut self, session_id: u32, garden_commitment: Vec<u8>) -> (r: Result<
        (),
        Error,
    >)
        requires
            old(self).wf(),
            garden_commitment@.len() == 32,
        ensures
            final(self).wf(),
            final(self).admin == old(self).admin && final(self).game_hub == old(self).game_hub
                && final(self).verifier_id == old(self).verifier_id && final(self).image_id == old(
                self,
            ).image_id,
            r == Err::<(), Error>(Error::SessionNotFound) <==> !old(self).sessions@.contains_key(
                session_id,
            ),
            old(self).sessions@.contains_key(session_id) ==> (r == Err::<(), Error>(
                Error::InvalidPhase,
            ) <==> old(self).sessions@[session_id].phase != GamePhase::WaitingForCommitment),
            r is Err ==> final(self).sessions@ == old(self).sessions@,
            r is Ok <==> old(self).sessions@.contains_key(session_id) && old(
                self,
            ).sessions@[session_id].phase == GamePhase::WaitingForCommitment,
            r is Ok ==> {
                let s0 = old(self).sessions@[session_id];
                let s = final(self).sessions@[session_id];
                &&& final(self).sessions@.contains_key(session_id)
                &&& final(self).sessions@ == old(self).sessions@.insert(session_id, s)
                &&& s.garden_commitment == garden_commitment
                &&& s.phase == GamePhase::Playing
                &&& s == GameSession { garden_commitment, phase: GamePhase::Playing, ..s0 }
            },
    {
        let has_phase_ok: bool = match self.sessions.get(&session_id) {
            Some(sess) => sess.phase == GamePhase::WaitingForCommitment,
            None => {
                return Err(Error::SessionNotFound);
            },
        };
        if !has_phase_ok {
            return Err(Error::InvalidPhase);
        }
        let mut session = match self.sessions.remove(&session_id) {
            Some(s) => s,
            None => {
                proof {
                    assert(false);
                }
                return Err(Error::SessionNotFound);
            },
        };
        session.garden_commitment = garden_commitment;
        session.phase = GamePhase::Playing;
        self.sessions.insert(session_id, session);
        proof {
            assert(final(self).sessions@ =~= old(self).sessions@.insert(
                session_id,
                final(self).sessions@[session_id],
            ));
        }
        Ok(())
    }

    /// Move the creature. Legal only in the playing phase and only for a
    /// move the movement rules allow: one row forward, on the grid, with at
    /// most one column of drift except on the free entry move from row 0.
    /// The session then waits for the reveal proof and the turn counter
    /// advances.
    pub fn creature_move(&mut self, session_id: u32, new_x: u32, new_y: u32) -> (r: Result<
        (),
        Error,
    >)
        requires
            old(self).wf(),
        ensures
            final(self).wf(),
            final(self).admin == old(self).admin && final(self).game_hub == old(self).game_hub
                && final(self).verifier_id == old(self).verifier_id && final(self).image_id == old(
                self,
            ).image_id,
            r == Err::<(), Error>(Error::SessionNotFound) <==> !old(self).sessions@.contains_key(
                session_id,
            ),
            old(self).sessions@.contains_key(session_id) ==> (r == Err::<(), Error>(
                Error::InvalidPhase,
            ) <==> old(self).sessions@[session_id].phase != GamePhase::Playing),
            old(self).sessions@.contains_key(session_id) && old(self).sessions@[session_id].phase
                == GamePhase::Playing ==> (r == Err::<(), Error>(Error::InvalidMove) <==> !spec_move_allowed(
                old(self).sessions@[session_id].creature_x,
                old(self).sessions@[session_id].creature_y,
                new_x,
                new_y,
            )),
            r is Err ==> final(self).sessions@ == old(self).sessions@,
            r is Ok <==> old(self).sessions@.contains_key(session_id) && old(
                self,
            ).sessions@[session_id].phase == GamePhase::Playing && spec_move_allowed(
                old(self).sessions@[session_id].creature_x,
                old(self).sessions@[session_id].creature_y,
                new_x,
                new_y,
            ),
            r is Ok ==> {
                let s0 = old(self).sessions@[session_id];
                let s = final(self).sessions@[session_id];
                &&& final(self).sessions@.contains_key(session_id)
                &&& final(self).sessions@ == old(self).sessions@.insert(session_id, s)
                &&& s == GameSession {
                    creature_x: new_x,
                    creature_y: new_y,
                    phase: GamePhase::WaitingForProof,
                    turn_number: (s0.turn_number + 1) as u32,
                    ..s0
                }
            },
    {
        let move_check: Option<Error> = match self.sessions.get(&session_id) {
            Some(sess) => {
                if sess.phase != GamePhase::Playing {
                    Some(Error::InvalidPhase)
                } else if !is_move_allowed(sess.creature_x, sess.creature_y, new_x, new_y) {
                    Some(Error::InvalidMove)
                } else {
                    None
                }
            },
            None => {
                return Err(Error::SessionNotFound);
            },
        };
        if let Some(e) = move_check {
            return Err(e);
        }
        let mut session = match self.sessions.remove(&session_id) {
            Some(s) => s,
            None => {
                proof {
                    assert(false);
                }
                return Err(Error::SessionNotFound);
            },
        };
        session.creature_x = new_x;
        session.creature_y = new_y;
        session.phase = GamePhase::WaitingForProof;
        session.turn_number = session.turn_number + 1;
        self.sessions.insert(session_id, session);
        proof {
            assert(final(self).sessions@ =~= old(self).sessions@.insert(
                session_id,
                final(self).sessions@[session_id],
            ));
        }
        Ok(())
    }

    /// Read a session's current state.
    pub fn get_session(&self, session_id: u32) -> (r: Result<&GameSession, Error>)
        ensures
            match r {
                Ok(s) => self.sessions@.contains_key(session_id) && *s
                    == self.sessions@[session_id],
                Err(e) => e == Error::SessionNotFound && !self.sessions@.contains_key(session_id),
            },
    {
        match self.sessions.get(&session_id) {
            Some(s) => Ok(s),
            None => Err(Error::SessionNotFound),
        }
    }

    /// Read the configured points-hub address.
    pub fn get_hub(&self) -> (r: Result<&String, Error>)
        ensures
            match r {
                Ok(h) => *h == self.game_hub,
                Err(_) => false,
            },
    {
        Ok(&self.game_hub)
    }

    /// Replace the points-hub address. The host authenticates the
    /// administrator before calling this.
    pub fn set_hub(&mut self, new_hub: String) -> (r: Result<(), Error>)
        requires
            old(self).wf(),
        ensures
            final(self).wf(),
            r is Ok,
            final(self).game_hub == new_hub,
            final(self).admin == old(self).admin && final(self).verifier_id == old(
                self,
            ).verifier_id && final(self).image_id == old(self).image_id,
            final(self).sessions@ == old(self).sessions@,
    {
        self.game_hub = new_hub;
        Ok(())
    }

    /// Extract the embedded commitment: the journal's first 32 bytes, absent
    /// when the journal is shorter than that.
    pub fn extract_commitment(journal: &[u8]) -> (r: Option<Vec<u8>>)
        ensures
            r is Some <==> journal@.len() >= 32,
            match r {
                Some(c) => c@ == journal@.subrange(0, 32),
                None => true,
            },
    {
        if journal.len() < 32 {
            return None;
        }
        Some(vstd::slice::slice_to_vec(vstd::slice::slice_subrange(journal, 0, 32)))
    }

    /// Decode a journal into a reveal result. Fails exactly on lengths other
    /// than `JOURNAL_LEN`; the decoded damage is a placeholder of zero — the
    /// engine, not the journal, is authoritative for damage.
    pub fn decode_journal(journal: &[u8]) -> (r: Option<CellRevealResult>)
        ensures
            r is Some <==> journal@.len() == JOURNAL_LEN,
            match r {
                Some(res) => {
                    &&& res.x == journal@[32] as u32
                    &&& res.y == journal@[33] as u32
                    &&& res.has_plant == (journal@[34] != 0)
                    &&& res.plant_type == journal@[35] as u32
                    &&& res.damage_dealt == 0
                },
                None => true,
            },
    {
        if journal.len() != JOURNAL_LEN {
            return None;
        }
        Some(
            CellRevealResult {
                x: *vstd::slice::slice_index_get(journal, 32) as u32,
                y: *vstd::slice::slice_index_get(journal, 33) as u32,
                has_plant: *vstd::slice::slice_index_get(journal, 34) != 0,
                plant_type: *vstd::slice::slice_index_get(journal, 35) as u32,
                damage_dealt: 0,
            },
        )
    }

    /// Reveal the cell the creature just entered. Legal only while the
    /// session waits for a proof. The journal must embed the stored
    /// commitment; the proof gate must pass (development mode with an empty seal
    /// checks the journal hash, production mode additionally requires the
    /// external verifier's verdict `proof_ok`, which the host obtains by
    /// invoking the registered verifier on the seal); the journal must have
    /// the exact fixed length, name the creature's current position, and
    /// make a semantically sound plant claim. An accepted reveal resolves
    /// damage, updates the calming reduction, logs the cell, and either
    /// finishes the game (death before goal, in that priority) or returns
    /// the session to the playing phase.
    pub fn reveal_cell(
        &mut self,
        session_id: u32,
        journal_bytes: &[u8],
        journal_hash: &[u8],
        seal: &[u8],
        proof_ok: bool,
    ) -> (r: Result<CellRevealResult, Error>)
        requires
            old(self).wf(),
            journal_hash@.len() == 32,
        ensures
            final(self).wf(),
            final(self).admin == old(self).admin && final(self).game_hub == old(self).game_hub
                && final(self).verifier_id == old(self).verifier_id && final(self).image_id == old(
                self,
            ).image_id,
            r == Err::<CellRevealResult, Error>(Error::SessionNotFound) <==> !old(
                self,
            ).sessions@.contains_key(session_id),
            old(self).sessions@.contains_key(session_id) ==> (r == Err::<CellRevealResult, Error>(
                Error::InvalidPhase,
            ) <==> old(self).sessions@[session_id].phase != GamePhase::WaitingForProof),
            old(self).sessions@.contains_key(session_id) && old(self).sessions@[session_id].phase
                == GamePhase::WaitingForProof ==> (match spec_reveal_gate_error(
                old(self).sessions@[session_id],
                journal_bytes@,
                journal_hash@,
                seal@,
                proof_ok,
            ) {
                Some(e) => r == Err::<CellRevealResult, Error>(e),
                None => r is Ok,
            }),
            r is Err ==> final(self).sessions@ == old(self).sessions@,
            r is Ok ==> {
                let s0 = old(self).sessions@[session_id];
                let res = spec_reveal_result(s0, journal_bytes@);
                let s1 = final(self).sessions@[session_id];
                &&& r == Ok::<CellRevealResult, Error>(res)
                &&& final(self).sessions@.contains_key(session_id)
                &&& final(self).sessions@ == old(self).sessions@.insert(session_id, s1)
                &&& s1.creature_hp == spec_hp_after(s0.creature_hp, res.damage_dealt)
                &&& s1.damage_reduction == (if res.has_plant {
                    spec_next_reduction(res.plant_type)
                } else {
                    s0.damage_reduction
                })
                &&& s1.revealed_cells@ == s0.revealed_cells@.push(
                    (res.y * 5 + res.x) as u32,
                )
                &&& s1.phase == (match spec_winner(s1.creature_hp, s0.creature_y) {
                    Some(_) => GamePhase::Finished,
                    None => GamePhase::Playing,
                })
                &&& s1 == GameSession {
                    creature_hp: s1.creature_hp,
                    damage_reduction: s1.damage_reduction,
                    revealed_cells: s1.revealed_cells,
                    phase: s1.phase,
                    ..s0
                }
            },
    {
        let gate: Option<Error> = match self.sessions.get(&session_id) {
            Some(sess) => {
                if sess.phase != GamePhase::WaitingForProof {
                    Some(Error::InvalidPhase)
                } else {
                    match Self::extract_commitment(journal_bytes) {
                        None => Some(Error::CommitmentMismatch),
                        Some(embedded) => {
                            if !bytes_eq(embedded.as_slice(), sess.garden_commitment.as_slice()) {
                                Some(Error::CommitmentMismatch)
                            } else {
                                let computed = sha256(journal_bytes);
                                if !bytes_eq(computed.as_slice(), journal_hash) {
                                    Some(Error::ProofVerificationFailed)
                                } else if seal.len() > 0 && !proof_ok {
                                    Some(Error::ProofVerificationFailed)
                                } else {
                                    None
                                }
                            }
                        },
                    }
                }
            },
            None => {
                return Err(Error::SessionNotFound);
            },
        };
        if let Some(e) = gate {
            return Err(e);
        }
        let decoded: CellRevealResult = match Self::decode_journal(journal_bytes) {
            Some(res) => res,
            None => {
                return Err(Error::ProofVerificationFailed);
            },
        };
        let coords_ok: bool = match self.sessions.get(&session_id) {
            Some(sess) => decoded.x == sess.creature_x && decoded.y == sess.creature_y,
            None => {
                proof {
                    assert(false);
                }
                false
            },
        };
        if !coords_ok {
            return Err(Error::InvalidCoordinates);
        }
        if decoded.has_plant && (decoded.plant_type < 1 || decoded.plant_type > 3) {
            return Err(Error::ProofVerificationFailed);
        }
        let mut session = match self.sessions.remove(&session_id) {
            Some(s) => s,
            None => {
                proof {
                    assert(false);
                }
                return Err(Error::SessionNotFound);
            },
        };
        let cell_index: u32 = decoded.y * GRID_SIZE + decoded.x;
        session.revealed_cells.push(cell_index);
        let mut result = decoded;
        if result.has_plant {
            let (final_damage, next_reduction) = resolve_plant_hit(
                result.plant_type,
                &session.moon_phase,
                session.damage_reduction,
            );
            result.damage_dealt = final_damage;
            session.damage_reduction = next_reduction;
            session.creature_hp = if session.creature_hp >= final_damage {
                session.creature_hp - final_damage
            } else {
                0
            };
        }
        if session.creature_hp == 0 {
            session.phase = GamePhase::Finished;
        } else if session.creature_y >= 4 {
            session.phase = GamePhase::Finished;
        } else {
            session.phase = GamePhase::Playing;
        }
        self.sessions.insert(session_id, session);
        proof {
            assert(final(self).sessions@ =~= old(self).sessions@.insert(
                session_id,
                final(self).sessions@[session_id],
            ));
        }
        Ok(result)
    }
}

} // verus!
