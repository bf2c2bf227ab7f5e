//! Skills as received items: which game flag each skill sets, and the skill words written into
//! the game's records.
use vstd::prelude::*;
use crate::game_manager::{ArchipelagoData, ArchipelagoDataView, MAX_SKILL_LEVEL, bump};

verus! {

broadcast use vstd::std_specs::hash::group_hash_axioms;

/// Where a skill lives in the game's skill words: the word and the flag in it.
#[derive(PartialEq, Eq, Structural, Clone, Copy, Debug)]
pub struct SkillData {
    pub id: usize,
    pub index: usize,
    pub flag: u32,
}

/// The skill with the given item id.
pub open spec fn spec_skill_data(id: usize) -> Option<SkillData> {
    match id {
        0x40 => Some(SkillData { id: 0x40, index: 0, flag: 0x80 }),
        0x41 => Some(SkillData { id: 0x41, index: 0, flag: 0x100 }),
        0x42 => Some(SkillData { id: 0x42, index: 0, flag: 0x2000 }),
        0x43 => Some(SkillData { id: 0x43, index: 6, flag: 0x40000 }),
        0x44 => Some(SkillData { id: 0x44, index: 1, flag: 0x40 }),
        0x45 => Some(SkillData { id: 0x45, index: 1, flag: 0x20 }),
        0x46 => Some(SkillData { id: 0x46, index: 1, flag: 0x4000000 }),
        0x47 => Some(SkillData { id: 0x47, index: 1, flag: 0x8000000 }),
        0x48 => Some(SkillData { id: 0x48, index: 1, flag: 0x40000000 }),
        0x49 => Some(SkillData { id: 0x49, index: 6, flag: 0x80000 }),
        0x4A => Some(SkillData { id: 0x4A, index: 2, flag: 0x400000 }),
        0x4B => Some(SkillData { id: 0x4B, index: 2, flag: 0x800000 }),
        0x4C => Some(SkillData { id: 0x4C, index: 2, flag: 0x200000 }),
        0x4D => Some(SkillData { id: 0x4D, index: 3, flag: 4 }),
        0x4E => Some(SkillData { id: 0x4E, index: 3, flag: 2 }),
        0x4F => Some(SkillData { id: 0x4F, index: 3, flag: 0x2000000 }),
        0x50 => Some(SkillData { id: 0x50, index: 3, flag: 0x200000 }),
        0x51 => Some(SkillData { id: 0x51, index: 3, flag: 0x400000 }),
        0x52 => Some(SkillData { id: 0x52, index: 6, flag: 0x100000 }),
        _ => None,
    }
}

/// The skill with the given item id.
pub fn skill_data(id: usize) -> (data: Option<SkillData>)
    ensures
        data == spec_skill_data(id),
{
    match id {
        0x40 => Some(SkillData { id: 0x40, index: 0, flag: 0x80 }),
        0x41 => Some(SkillData { id: 0x41, index: 0, flag: 0x100 }),
        0x42 => Some(SkillData { id: 0x42, index: 0, flag: 0x2000 }),
        0x43 => Some(SkillData { id: 0x43, index: 6, flag: 0x40000 }),
        0x44 => Some(SkillData { id: 0x44, index: 1, flag: 0x40 }),
        0x45 => Some(SkillData { id: 0x45, index: 1, flag: 0x20 }),
        0x46 => Some(SkillData { id: 0x46, index: 1, flag: 0x4000000 }),
        0x47 => Some(SkillData { id: 0x47, index: 1, flag: 0x8000000 }),
        0x48 => Some(SkillData { id: 0x48, index: 1, flag: 0x40000000 }),
        0x49 => Some(SkillData { id: 0x49, index: 6, flag: 0x80000 }),
        0x4A => Some(SkillData { id: 0x4A, index: 2, flag: 0x400000 }),
        0x4B => Some(SkillData { id: 0x4B, index: 2, flag: 0x800000 }),
        0x4C => Some(SkillData { id: 0x4C, index: 2, flag: 0x200000 }),
        0x4D => Some(SkillData { id: 0x4D, index: 3, flag: 4 }),
        0x4E => Some(SkillData { id: 0x4E, index: 3, flag: 2 }),
        0x4F => Some(SkillData { id: 0x4F, index: 3, flag: 0x2000000 }),
        0x50 => Some(SkillData { id: 0x50, index: 3, flag: 0x200000 }),
        0x51 => Some(SkillData { id: 0x51, index: 3, flag: 0x400000 }),
        0x52 => Some(SkillData { id: 0x52, index: 6, flag: 0x100000 }),
        _ => None,
    }
}

/// The name of the skill, gun upgrade or style with the given item id.
pub open spec fn spec_skill_name(id: usize) -> Option<&'static str> {
    match id {
        0x40 => Some("Rebellion - Stinger Level 1"),
        0x41 => Some("Rebellion - Stinger Level 2"),
        0x42 => Some("Rebellion - Drive"),
        0x43 => Some("Rebellion - Air Hike"),
        0x44 => Some("Cerberus - Revolver Level 2"),
        0x45 => Some("Cerberus - Windmill"),
        0x46 => Some("Agni and Rudra - Jet Stream Level 2"),
        0x47 => Some("Agni and Rudra - Jet Stream Level 3"),
        0x48 => Some("Agni and Rudra - Whirlwind"),
        0x49 => Some("Agni and Rudra - Air Hike"),
        0x4A => Some("Nevan - Reverb Shock"),
        0x4B => Some("Nevan - Reverb Shock Level 2"),
        0x4C => Some("Nevan - Bat Rift Level 2"),
        0x4D => Some("Nevan - Air Raid"),
        0x4E => Some("Nevan - Volume Up"),
        0x4F => Some("Beowulf - Straight Level 2"),
        0x50 => Some("Beowulf - Beast Uppercut"),
        0x51 => Some("Beowulf - Rising Dragon"),
        0x52 => Some("Beowulf - Air Hike"),
        0x53 => Some("Ebony & Ivory Progressive Upgrade"),
        0x54 => Some("Shotgun Progressive Upgrade"),
        0x55 => Some("Artemis Progressive Upgrade"),
        0x56 => Some("Spiral Progressive Upgrade"),
        0x57 => Some("Kalina Ann Progressive Upgrade"),
        0x60 => Some("Progressive Trickster"),
        0x61 => Some("Progressive Swordmaster"),
        0x62 => Some("Progressive Gunslinger"),
        0x63 => Some("Progressive Royalguard"),
        _ => None,
    }
}

/// The name of the skill, gun upgrade or style with the given item id.
pub fn id_skill_name(id: usize) -> (name: Option<&'static str>)
    ensures
        name == spec_skill_name(id),
{
    match id {
        0x40 => Some("Rebellion - Stinger Level 1"),
        0x41 => Some("Rebellion - Stinger Level 2"),
        0x42 => Some("Rebellion - Drive"),
        0x43 => Some("Rebellion - Air Hike"),
        0x44 => Some("Cerberus - Revolver Level 2"),
        0x45 => Some("Cerberus - Windmill"),
        0x46 => Some("Agni and Rudra - Jet Stream Level 2"),
        0x47 => Some("Agni and Rudra - Jet Stream Level 3"),
        0x48 => Some("Agni and Rudra - Whirlwind"),
        0x49 => Some("Agni and Rudra - Air Hike"),
        0x4A => Some("Nevan - Reverb Shock"),
        0x4B => Some("Nevan - Reverb Shock Level 2"),
        0x4C => Some("Nevan - Bat Rift Level 2"),
        0x4D => Some("Nevan - Air Raid"),
        0x4E => Some("Nevan - Volume Up"),
        0x4F => Some("Beowulf - Straight Level 2"),
        0x50 => Some("Beowulf - Beast Uppercut"),
        0x51 => Some("Beowulf - Rising Dragon"),
        0x52 => Some("Beowulf - Air Hike"),
        0x53 => Some("Ebony & Ivory Progressive Upgrade"),
        0x54 => Some("Shotgun Progressive Upgrade"),
        0x55 => Some("Artemis Progressive Upgrade"),
        0x56 => Some("Spiral Progressive Upgrade"),
        0x57 => Some("Kalina Ann Progressive Upgrade"),
        0x60 => Some("Progressive Trickster"),
        0x61 => Some("Progressive Swordmaster"),
        0x62 => Some("Progressive Gunslinger"),
        0x63 => Some("Progressive Royalguard"),
        _ => None,
    }
}

/// The skill words of a new game.
pub open spec fn spec_default_skills() -> Seq<u32> {
    seq![
        0xFFFF5E7Fu32,
        0xA7FFAF5F,
        0xAF1FFFF3,
        0xCB9FFFF9,
        0xFBFBFFFE,
        0xFFFFEFFD,
        0xFFE3FEFF,
        0xFFFFFFFF,
    ]
}

/// The skill words of a new game.
pub fn default_skills() -> (skills: [u32; 8])
    ensures
        skills@ == spec_default_skills(),
{
    let skills = [
        0xFFFF5E7Fu32,
        0xA7FFAF5F,
        0xAF1FFFF3,
        0xCB9FFFF9,
        0xFBFBFFFE,
        0xFFFFEFFD,
        0xFFE3FEFF,
        0xFFFFFFFF,
    ];
    proof {
        assert(skills@ =~= spec_default_skills());
    }
    skills
}

/// Whether bit `bit` of `word` is set.
pub open spec fn bit_set(word: u32, bit: u32) -> bool {
    (word >> bit) & 1u32 == 1u32
}

proof fn lemma_or_bits(x: u32, y: u32, bit: u32)
    requires
        bit < 32,
    ensures
        bit_set(x | y, bit) == (bit_set(x, bit) || bit_set(y, bit)),
{
    assert(((x | y) >> bit) & 1u32 == 1u32 <==> ((x >> bit) & 1u32 == 1u32 || (y >> bit) & 1u32
        == 1u32)) by (bit_vector)
        requires
            bit < 32,
    ;
}

/// Skill words back to those of a new game.
pub fn reset_expertise(expertise: &mut [u32; 8])
    ensures
        final(expertise)@ == spec_default_skills(),
{
    *expertise = default_skills();
}

/// Sets the flag of a received skill in the skill words.
pub fn give_skill(expertise: &mut [u32; 8], skill_id: usize)
    requires
        spec_skill_data(skill_id) is Some,
    ensures
        final(expertise)@ == old(expertise)@.update(
            spec_skill_data(skill_id).unwrap().index as int,
            old(expertise)@[spec_skill_data(skill_id).unwrap().index as int] | spec_skill_data(
                skill_id,
            ).unwrap().flag,
        ),
{
    match skill_data(skill_id) {
        Some(data) => {
            expertise[data.index] = expertise[data.index] | data.flag;
        },
        None => {},
    }
}

/// Whether some skill of `skills` sets bit `bit` of word `word`.
pub open spec fn skills_set_bit(skills: Set<usize>, word: int, bit: u32) -> bool {
    exists|skill: usize| skills.contains(skill) && #[trigger] skill_sets_bit(skill, word, bit)
}

/// Whether `skill` sets bit `bit` of word `word`.
pub open spec fn skill_sets_bit(skill: usize, word: int, bit: u32) -> bool {
    match spec_skill_data(skill) {
        Some(data) => data.index == word && bit_set(data.flag, bit),
        None => false,
    }
}

/// The skill words that the received skills give: a bit is set when a new game has it set
/// or a received skill sets it, whatever order the skills came in.
pub open spec fn skill_words_hold(expertise: Seq<u32>, skills: Set<usize>) -> bool {
    &&& expertise.len() == 8
    &&& forall|word: int, bit: u32|
        0 <= word < 8 && bit < 32 ==> #[trigger] bit_set(expertise[word], bit) == (bit_set(
            spec_default_skills()[word],
            bit,
        ) || skills_set_bit(skills, word, bit))
}

/// Writes the received skills into the skill words: those of a new game, with the flag of
/// every received skill set.
pub fn set_skills(expertise: &mut [u32; 8], data: &ArchipelagoData)
    requires
        forall|skill: usize| data@.skills.contains(skill) ==> #[trigger] spec_skill_data(skill) is Some,
    ensures
        skill_words_hold(final(expertise)@, data@.skills),
{
    reset_expertise(expertise);
    let skills = data.skills();
    let ghost mut processed: Set<usize> = Set::empty();
    proof {
        assert(skill_words_hold(expertise@, processed));
    }
    for skill in it: skills.iter()
        invariant
            skills@ == data@.skills,
            forall|s: usize| data@.skills.contains(s) ==> #[trigger] spec_skill_data(s) is Some,
            it.seq().unref().to_set() == skills@,
            processed == it.seq().take(it.index() as int).unref().to_set(),
            skill_words_hold(expertise@, processed),
            it.index() == it.seq().len() ==> processed == data@.skills,
    {
        let ghost before = expertise@;
        let ghost done = it.seq().take(it.index() as int).unref().to_set();
        proof {
            let mapped = it.seq().unref();
            assert(mapped[it.index() as int] == *skill);
            assert(mapped.to_set().contains(*skill));
            assert(mapped.contains(*skill));
            assert(data@.skills.contains(*skill));
        }
        give_skill(expertise, *skill);
        proof {
            processed = processed.insert(*skill);
        }
        proof {
            lemma_give_step(before, expertise@, done, *skill);
            assert(it.seq().take(it.index() + 1).unref() =~= it.seq().take(
                it.index() as int,
            ).unref().push(*skill));
            lemma_push_to_set(it.seq().take(it.index() as int).unref(), *skill);
            assert(it.seq().take(it.index() + 1).unref().to_set() =~= done.insert(
                *skill,
            ));
            assert(it.seq().take(it.seq().len() as int) =~= it.seq());
        }
    }
}

proof fn lemma_push_to_set<A>(s: Seq<A>, x: A)
    ensures
        s.push(x).to_set() == s.to_set().insert(x),
{
    assert forall|a: A| #[trigger] s.push(x).to_set().contains(a) <==> s.to_set().insert(x).contains(a) by {
        if s.push(x).contains(a) {
            let i = choose|i: int| 0 <= i < s.push(x).len() && s.push(x)[i] == a;
            if i < s.len() {
                assert(s[i] == a);
            }
        }
        if s.contains(a) {
            let i = choose|i: int| 0 <= i < s.len() && s[i] == a;
            assert(s.push(x)[i] == a);
        }
        if a == x {
            assert(s.push(x)[s.len() as int] == x);
        }
    }
    assert(s.push(x).to_set() =~= s.to_set().insert(x));
}

proof fn lemma_give_step(before: Seq<u32>, after: Seq<u32>, done: Set<usize>, skill: usize)
    requires
        skill_words_hold(before, done),
        spec_skill_data(skill) is Some,
        after == before.update(
            spec_skill_data(skill).unwrap().index as int,
            before[spec_skill_data(skill).unwrap().index as int] | spec_skill_data(skill).unwrap().flag,
        ),
    ensures
        skill_words_hold(after, done.insert(skill)),
{
    let d = spec_skill_data(skill).unwrap();
    let all = done.insert(skill);
    assert forall|w: int, b: u32| 0 <= w < 8 && b < 32 implies #[trigger] bit_set(after[w], b) == (
    bit_set(spec_default_skills()[w], b) || skills_set_bit(all, w, b)) by {
        assert(bit_set(before[w], b) == (bit_set(spec_default_skills()[w], b) || skills_set_bit(
            done,
            w,
            b,
        )));
        if w == d.index {
            lemma_or_bits(before[w], d.flag, b);
        }
        if skills_set_bit(all, w, b) {
            let s = choose|s: usize| all.contains(s) && #[trigger] skill_sets_bit(s, w, b);
            if s != skill {
                assert(done.contains(s));
                assert(skills_set_bit(done, w, b));
            }
        }
        if d.index == w && bit_set(d.flag, b) {
            assert(all.contains(skill) && skill_sets_bit(skill, w, b));
            assert(skills_set_bit(all, w, b));
        }
        if skills_set_bit(done, w, b) {
            let s = choose|s: usize| done.contains(s) && #[trigger] skill_sets_bit(s, w, b);
            assert(all.contains(s));
            assert(skills_set_bit(all, w, b));
        }
    }
}

/// Which skill a received skill item gives, given how many levels of it came before.
pub open spec fn spec_leveled_skill_id(id: usize, data: ArchipelagoDataView) -> usize {
    if id == 0x40 {
        if bump(data.stinger_level as int, MAX_SKILL_LEVEL as int) == 1 { 0x40 } else { 0x41 }
    } else if id == 0x46 {
        if bump(data.jet_stream_level as int, MAX_SKILL_LEVEL as int) == 1 { 0x46 } else { 0x47 }
    } else if id == 0x4A {
        if bump(data.reverb_level as int, MAX_SKILL_LEVEL as int) == 1 { 0x4A } else { 0x4B }
    } else if id == 0x50 {
        if bump(data.beowulf_level as int, MAX_SKILL_LEVEL as int) == 1 { 0x50 } else { 0x51 }
    } else {
        id
    }
}

/// Records a received skill item. Certain skills have two levels they can gain: the first
/// item of one gives its first level, the next its second.
pub fn add_skill(id: usize, data: &mut ArchipelagoData)
    ensures
        final(data)@.skills == old(data)@.skills.insert(spec_leveled_skill_id(id, old(data)@)),
        final(data)@.items == old(data)@.items,
        final(data)@.stinger_level == (if id == 0x40 {
            bump(old(data)@.stinger_level as int, MAX_SKILL_LEVEL as int) as u8
        } else {
            old(data)@.stinger_level
        }),
        final(data)@.jet_stream_level == (if id == 0x46 {
            bump(old(data)@.jet_stream_level as int, MAX_SKILL_LEVEL as int) as u8
        } else {
            old(data)@.jet_stream_level
        }),
        final(data)@.reverb_level == (if id == 0x4A {
            bump(old(data)@.reverb_level as int, MAX_SKILL_LEVEL as int) as u8
        } else {
            old(data)@.reverb_level
        }),
        final(data)@.beowulf_level == (if id == 0x50 {
            bump(old(data)@.beowulf_level as int, MAX_SKILL_LEVEL as int) as u8
        } else {
            old(data)@.beowulf_level
        }),
        final(data)@.blue_orbs == old(data)@.blue_orbs,
        final(data)@.purple_orbs == old(data)@.purple_orbs,
        final(data)@.dt_unlocked == old(data)@.dt_unlocked,
        final(data)@.gun_levels == old(data)@.gun_levels,
        final(data)@.style_levels == old(data)@.style_levels,
{
    match id {
        0x40 => {
            data.add_stinger_level();
        },
        0x46 => {
            data.add_jet_stream_level();
        },
        0x4A => {
            data.add_reverb_level();
        },
        0x50 => {
            data.add_beowulf_level();
        },
        _ => {},
    }
    let skill_id = match id {
        0x40 => if data.stinger_level() == 1 { 0x40 } else { 0x41 },
        0x46 => if data.jet_stream_level() == 1 { 0x46 } else { 0x47 },
        0x4A => if data.reverb_level() == 1 { 0x4A } else { 0x4B },
        0x50 => if data.beowulf_level() == 1 { 0x50 } else { 0x51 },
        _ => id,
    };
    data.add_skill(skill_id);
}

} // verus!
