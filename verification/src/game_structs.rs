//! The parts of the game's memory that the randomizer reads and writes, as plain values.
//! Health and magic are kept as whole points: every value the randomizer writes is a whole
//! number of points.
use vstd::prelude::*;
use crate::constants::{Difficulty, spec_difficulty_index};

verus! {

/// Error type for accessing data
#[derive(PartialEq, Eq, Structural, Clone, Copy, Debug)]
pub enum GameDataError {
    /// If the requested data is unavailable
    NotUsable,
}

/// The game's record of the current play session.
#[derive(Clone, Copy, Debug)]
pub struct SessionData {
    pub mission: u32,
    /// Copies from mission after a second
    pub other_mission: u32,
    pub room: i32,
    pub difficulty: u32,
    pub hoh: bool,
    pub char: u8,
    pub red_orbs: i32,
    pub items: [u8; 20],
    pub weapon_style_unlocks: [bool; 14],
    pub weapons: [u8; 8],
    pub ranged_weapon_levels: [u32; 5],
    pub melee_index: u32,
    pub gun_index: u32,
    pub unlocked_dt: bool,
    pub max_hp: u32,
    pub max_magic: u32,
    pub style: u32,
    pub style_levels: [u32; 6],
    pub expertise: [u32; 8],
}

/// The game's record of the mission being played.
#[derive(Clone, Copy, Debug)]
pub struct MissionData {
    pub gun_stuff: [u32; 5],
    pub red_orbs: i32,
    pub items: [u8; 62],
    pub bought_items: [u8; 8],
}

/// The game's record of the character being played.
#[derive(Clone, Copy, Debug)]
pub struct CharacterData {
    pub expertise: [u32; 8],
    pub style: u32,
    pub style_level: u32,
    pub weapon_levels: [u32; 5],
}

/// The best rank of each mission on each difficulty; 0xFF marks a mission not completed.
#[derive(Clone, Copy, Debug)]
pub struct TotalRankings {
    pub easy_ranking: [u8; 20],
    pub normal_ranking: [u8; 20],
    pub hard_ranking: [u8; 20],
    pub very_hard_ranking: [u8; 20],
    pub dmd_ranking: [u8; 20],
    pub hoh_ranking: [u8; 20],
}

impl TotalRankings {
    /// The rankings of `difficulty`.
    pub open spec fn spec_ranking(&self, difficulty: Difficulty) -> [u8; 20] {
        match difficulty {
            Difficulty::Easy => self.easy_ranking,
            Difficulty::Normal => self.normal_ranking,
            Difficulty::Hard => self.hard_ranking,
            Difficulty::VeryHard => self.very_hard_ranking,
            Difficulty::DanteMustDie => self.dmd_ranking,
            Difficulty::HeavenOrHell => self.hoh_ranking,
        }
    }

    /// The rankings of `difficulty`.
    pub fn get_ranking_for_difficulty(&self, difficulty: Difficulty) -> (ranking: [u8; 20])
        ensures
            ranking == self.spec_ranking(difficulty),
    {
        match difficulty {
            Difficulty::Easy => self.easy_ranking,
            Difficulty::Normal => self.normal_ranking,
            Difficulty::Hard => self.hard_ranking,
            Difficulty::VeryHard => self.very_hard_ranking,
            Difficulty::DanteMustDie => self.dmd_ranking,
            Difficulty::HeavenOrHell => self.hoh_ranking,
        }
    }
}

/// The difficulty a session is played on: Heaven or Hell when its flag is set.
pub open spec fn spec_session_difficulty(session: SessionData) -> int {
    if session.hoh {
        5
    } else {
        session.difficulty as int
    }
}

/// Get current mission: 0 while the session data is not ready.
pub fn get_mission(session: Option<&SessionData>) -> (mission: u32)
    ensures
        mission == (match session {
            Some(s) => s.mission,
            None => 0,
        }),
{
    match session {
        Some(s) => s.mission,
        None => 0,
    }
}

/// Get current room
pub fn get_room(session: &SessionData) -> (room: i32)
    ensures
        room == session.room,
{
    session.room
}

/// Get current difficulty
pub fn get_difficulty(session: &SessionData) -> (difficulty: Difficulty)
    requires
        session.hoh || session.difficulty < 6,
    ensures
        spec_difficulty_index(difficulty) == spec_session_difficulty(*session),
{
    let repr: u32 = if session.hoh {
        5
    } else {
        session.difficulty
    };
    match Difficulty::from_repr(repr as usize) {
        Some(difficulty) => difficulty,
        None => Difficulty::Easy,
    }
}

} // verus!
