//! What the client tells PopTracker through the server's data storage.
use vstd::prelude::*;
use crate::constants::{
    Difficulty, Style, gun_names, spec_difficulty_index, spec_difficulty_name, spec_gun_names,
    spec_style_internal_order, spec_style_name,
};
use crate::game_structs::TotalRankings;
use crate::hooks::{completed_missions, get_unlocked_missions, max_missions_defined, spec_max_mission};
use crate::mapping::Mapping;

verus! {

/// Sent when the player changes room: the mission and room, or both 0 on the mission
/// select screen.
#[derive(PartialEq, Eq, Structural, Clone, Copy, Debug)]
pub struct RoomUpdate {
    pub mission: u32,
    pub room: i32,
}

impl RoomUpdate {
    /// The room update for the current mission and room.
    pub fn new(select_mission_screen: bool, mission: u32, room: i32) -> (update: RoomUpdate)
        ensures
            update == (if select_mission_screen {
                RoomUpdate { mission: 0, room: 0 }
            } else {
                RoomUpdate { mission, room }
            }),
    {
        RoomUpdate {
            mission: if !select_mission_screen {
                mission
            } else {
                0
            },
            room: if !select_mission_screen {
                room
            } else {
                0
            },
        }
    }
}

/// The missions open on each difficulty, by the difficulty's name.
#[derive(Debug)]
pub struct AvailableMissions {
    pub available_missions: Vec<(&'static str, Vec<u8>)>,
}

impl AvailableMissions {
    /// The open missions of each difficulty, in the game's order (see `get_unlocked_missions`).
    pub fn new(mapping: &Mapping, rankings: &TotalRankings) -> (missions: AvailableMissions)
        requires
            max_missions_defined(mapping, rankings),
        ensures
            missions.available_missions@.len() == 6,
            forall|d: Difficulty|
                #![trigger spec_difficulty_index(d)]
                missions.available_missions@[spec_difficulty_index(d) as int].0@
                    == spec_difficulty_name(d)@ && missions.available_missions@[spec_difficulty_index(
                    d,
                ) as int].1@ == completed_missions(rankings.spec_ranking(d)@, 20).push(
                    spec_max_mission(mapping, rankings.spec_ranking(d)@) as u8,
                ),
    {
        let all = Difficulty::all();
        let mut map: Vec<(&'static str, Vec<u8>)> = Vec::new();
        let mut i: usize = 0;
        while i < 6
            invariant
                i <= 6,
                all@.len() == 6,
                forall|k: int| 0 <= k < 6 ==> spec_difficulty_index(#[trigger] all@[k]) == k,
                max_missions_defined(mapping, rankings),
                map@.len() == i,
                forall|k: int|
                    0 <= k < i ==> (#[trigger] map@[k]).0@ == spec_difficulty_name(all@[k])@
                        && map@[k].1@ == completed_missions(rankings.spec_ranking(all@[k])@, 20).push(
                        spec_max_mission(mapping, rankings.spec_ranking(all@[k])@) as u8,
                    ),
            decreases 6 - i,
        {
            let difficulty = all[i];
            map.push((difficulty.name(), get_unlocked_missions(difficulty, mapping, rankings)));
            i = i + 1;
        }
        proof {
            assert forall|d: Difficulty|
                #![trigger spec_difficulty_index(d)]
                map@[spec_difficulty_index(d) as int].0@ == spec_difficulty_name(d)@
                    && map@[spec_difficulty_index(d) as int].1@ == completed_missions(
                    rankings.spec_ranking(d)@,
                    20,
                ).push(spec_max_mission(mapping, rankings.spec_ranking(d)@) as u8) by {
                let k = spec_difficulty_index(d) as int;
                let other = all@[k];
                assert(spec_difficulty_index(other) == k);
                match d {
                    Difficulty::Easy => {},
                    Difficulty::Normal => {},
                    Difficulty::Hard => {},
                    Difficulty::VeryHard => {},
                    Difficulty::DanteMustDie => {},
                    Difficulty::HeavenOrHell => {},
                }
                match other {
                    Difficulty::Easy => {},
                    Difficulty::Normal => {},
                    Difficulty::Hard => {},
                    Difficulty::VeryHard => {},
                    Difficulty::DanteMustDie => {},
                    Difficulty::HeavenOrHell => {},
                }
            }
        }
        AvailableMissions { available_missions: map }
    }
}

/// Sent when a gun is upgraded: each gun's level, by name.
#[derive(Debug)]
pub struct GunLevels {
    pub gun_levels: Vec<(&'static str, u32)>,
}

impl GunLevels {
    /// Each gun (in the order of `gun_names`) with its level.
    pub fn new(current_levels: [u32; 5]) -> (levels: GunLevels)
        ensures
            levels.gun_levels@.len() == 5,
            forall|i: int|
                0 <= i < 5 ==> #[trigger] levels.gun_levels@[i] == (spec_gun_names()[i], current_levels@[i]),
    {
        let names = gun_names();
        let mut pairs: Vec<(&'static str, u32)> = Vec::new();
        let mut i: usize = 0;
        while i < 5
            invariant
                i <= 5,
                names@ == spec_gun_names(),
                pairs@.len() == i,
                forall|k: int| 0 <= k < i ==> #[trigger] pairs@[k] == (spec_gun_names()[k], current_levels@[k]),
            decreases 5 - i,
        {
            pairs.push((names[i], current_levels[i]));
            i = i + 1;
        }
        GunLevels { gun_levels: pairs }
    }
}

/// Sent when a style levels up: each of the four styles' level, by name (Quicksilver and
/// Doppelganger are left out).
#[derive(Debug)]
pub struct StyleLevels {
    pub style_levels: Vec<(&'static str, u32)>,
}

impl StyleLevels {
    /// The four styles in the game's order, each with its level from `style_levels` (the
    /// game's six levels, of which the last two are left out).
    pub fn new(style_levels: [u32; 6]) -> (levels: StyleLevels)
        ensures
            levels.style_levels@.len() == 4,
            forall|i: int|
                0 <= i < 4 ==> (#[trigger] levels.style_levels@[i]).0@ == spec_style_name(
                    spec_style_internal_order(i),
                )@ && levels.style_levels@[i].1 == style_levels@[i],
    {
        let order = Style::internal_order();
        let mut pairs: Vec<(&'static str, u32)> = Vec::new();
        let mut i: usize = 0;
        while i < 4
            invariant
                i <= 4,
                forall|k: int| 0 <= k < 4 ==> #[trigger] order@[k] == spec_style_internal_order(k),
                pairs@.len() == i,
                forall|k: int|
                    0 <= k < i ==> (#[trigger] pairs@[k]).0@ == spec_style_name(spec_style_internal_order(k))@
                        && pairs@[k].1 == style_levels@[k],
            decreases 4 - i,
        {
            pairs.push((order[i].name(), style_levels[i]));
            i = i + 1;
        }
        StyleLevels { style_levels: pairs }
    }
}

/// Sent when a skill is bought: the expertise words of the character.
#[derive(Clone, Copy, Debug)]
pub struct SkillUpdate {
    pub skills: [u32; 8],
}

impl SkillUpdate {
    /// The expertise of the mission's actor when there is one, else of the session, else
    /// none.
    pub fn new(actor_expertise: Option<[u32; 8]>, session_expertise: Option<[u32; 8]>) -> (update: SkillUpdate)
        ensures
            update.skills@ == match actor_expertise {
                Some(e) => e@,
                None => match session_expertise {
                    Some(e) => e@,
                    None => Seq::new(8, |i: int| 0u32),
                },
            },
    {
        if let Some(expertise) = actor_expertise {
            return SkillUpdate { skills: expertise };
        }
        if let Some(expertise) = session_expertise {
            return SkillUpdate { skills: expertise };
        }
        let update = SkillUpdate { skills: [0; 8] };
        proof {
            assert(update.skills@ =~= Seq::new(8, |i: int| 0u32));
        }
        update
    }
}

} // verus!
