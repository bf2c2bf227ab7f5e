//! Which received items each save slot has handled, kept per seed and player, and the names
//! of the files that keep them.
use vstd::prelude::*;
use vstd::string::StringExecFns;
use crate::strings::str_eq;

verus! {

/// Number of save slots of the game.
pub const SLOT_COUNT: usize = 10;

/// What one save slot has handled: the index of the next received item, and the checks
/// made while offline.
#[derive(Debug)]
pub struct SlotSyncInfo {
    pub sync_index: i64,
    pub offline_checks: Vec<i64>,
}

/// A slot's sync info as values.
pub struct SlotSyncInfoView {
    pub sync_index: i64,
    pub offline_checks: Seq<i64>,
}

impl View for SlotSyncInfo {
    type V = SlotSyncInfoView;

    open spec fn view(&self) -> SlotSyncInfoView {
        SlotSyncInfoView { sync_index: self.sync_index, offline_checks: self.offline_checks@ }
    }
}

/// The sync data of every seed and player: each key (see `get_sync_file_key`) with the
/// sync info of its ten slots. A key is looked up at its first entry.
#[derive(Debug)]
pub struct SyncData {
    pub room_sync_info: Vec<(String, [SlotSyncInfo; 10])>,
}

/// One key's entry as values.
pub type SyncEntryView = (Seq<char>, Seq<SlotSyncInfoView>);

/// The sync data as values.
pub open spec fn sync_view(data: &SyncData) -> Seq<SyncEntryView> {
    data.room_sync_info@.map_values(
        |e: (String, [SlotSyncInfo; 10])| (e.0@, e.1@.map_values(|s: SlotSyncInfo| s@)),
    )
}

/// Every entry has ten slots.
pub open spec fn entries_have_slots(entries: Seq<SyncEntryView>) -> bool {
    forall|i: int| 0 <= i < entries.len() ==> (#[trigger] entries[i]).1.len() == SLOT_COUNT
}

/// The ten slots of a key seen for the first time: nothing handled, nothing checked offline.
pub open spec fn empty_slots() -> Seq<SlotSyncInfoView> {
    Seq::new(10, |i: int| SlotSyncInfoView { sync_index: 0, offline_checks: Seq::empty() })
}

/// The first entry, from `start` on, of the key.
pub open spec fn first_key(entries: Seq<SyncEntryView>, key: Seq<char>, start: int) -> Option<int>
    decreases entries.len() - start,
{
    if start < 0 || start >= entries.len() {
        None
    } else if entries[start].0 == key {
        Some(start)
    } else {
        first_key(entries, key, start + 1)
    }
}

/// The index that a slot of the key has handled up to, if the key has an entry.
pub open spec fn spec_load(entries: Seq<SyncEntryView>, key: Seq<char>, slot: int) -> Option<i64> {
    match first_key(entries, key, 0) {
        Some(i) => Some(entries[i].1[slot].sync_index),
        None => None,
    }
}

/// The entries once a slot of the key has handled up to `index`: the key's first entry is
/// updated, or a new entry with ten empty slots is added for it.
pub open spec fn spec_save(entries: Seq<SyncEntryView>, key: Seq<char>, slot: int, index: i64) -> Seq<SyncEntryView> {
    match first_key(entries, key, 0) {
        Some(i) => entries.update(
            i,
            (entries[i].0, entries[i].1.update(slot, SlotSyncInfoView { sync_index: index, ..entries[i].1[slot] })),
        ),
        None => entries.push(
            (key, empty_slots().update(slot, SlotSyncInfoView { sync_index: index, offline_checks: Seq::empty() })),
        ),
    }
}

fn empty_slot() -> (slot: SlotSyncInfo)
    ensures
        slot@ == (SlotSyncInfoView { sync_index: 0, offline_checks: Seq::empty() }),
{
    SlotSyncInfo { sync_index: 0, offline_checks: Vec::new() }
}

/// The key of a seed and player in the sync data: "<seed>_<player>".
pub fn get_sync_file_key(seed_name: &str, slot_name: String) -> (key: String)
    ensures
        key@ == seed_name@ + "_"@ + slot_name@,
{
    let mut key = String::from_str(seed_name);
    key.append("_");
    key.append(slot_name.as_str());
    key
}

/// The file that the game's saves of a seed and player go to:
/// "archipelago/dmc3_<seed>_<player>.sav".
pub fn get_new_save_path(seed_name: &str, player_name: &str) -> (path: String)
    ensures
        path@ == "archipelago/dmc3_"@ + seed_name@ + "_"@ + player_name@ + ".sav"@,
{
    let mut path = String::from_str("archipelago/dmc3_");
    path.append(seed_name);
    path.append("_");
    path.append(player_name);
    path.append(".sav");
    path
}

fn find_key(data: &SyncData, key: &str) -> (found: Option<usize>)
    ensures
        found matches Some(i) ==> first_key(sync_view(data), key@, 0) == Some(i as int) && i
            < data.room_sync_info@.len(),
        found is None ==> first_key(sync_view(data), key@, 0) is None,
{
    let ghost view = sync_view(data);
    let mut i: usize = 0;
    while i < data.room_sync_info.len()
        invariant
            i <= data.room_sync_info@.len(),
            view == sync_view(data),
            first_key(view, key@, 0) == first_key(view, key@, i as int),
        decreases data.room_sync_info@.len() - i,
    {
        if str_eq(data.room_sync_info[i].0.as_str(), key) {
            return Some(i);
        }
        i = i + 1;
    }
    None
}

/// The index that a save slot has handled up to, when the sync data has the key
/// (`load_slot`: without one the slot starts from the first received item).
pub fn load_slot_index(data: &SyncData, key: &str, slot: usize) -> (index: Option<i64>)
    requires
        slot < SLOT_COUNT,
    ensures
        index == spec_load(sync_view(data), key@, slot as int),
{
    match find_key(data, key) {
        Some(i) => {
            let index = data.room_sync_info[i].1[slot].sync_index;
            proof {
                assert(sync_view(data)[i as int].1[slot as int] == data.room_sync_info@[i as int].1@[slot as int]@);
            }
            Some(index)
        },
        None => None,
    }
}

/// Records that a save slot has handled the received items up to `index`.
pub fn save_slot_index(data: &mut SyncData, key: String, slot: usize, index: i64)
    requires
        slot < SLOT_COUNT,
    ensures
        sync_view(final(data)) == spec_save(sync_view(old(data)), key@, slot as int, index),
{
    match find_key(data, key.as_str()) {
        Some(i) => {
            let ghost before = sync_view(data);
            let (name, mut slots) = data.room_sync_info.remove(i);
            slots[slot].sync_index = index;
            data.room_sync_info.insert(i, (name, slots));
            proof {
                assert(sync_view(data) =~= spec_save(before, key@, slot as int, index)) by {
                    assert(before[i as int].1.update(
                        slot as int,
                        SlotSyncInfoView { sync_index: index, ..before[i as int].1[slot as int] },
                    ) =~= slots@.map_values(|s: SlotSyncInfo| s@));
                }
            }
        },
        None => {
            let mut slots: [SlotSyncInfo; 10] = [
                empty_slot(),
                empty_slot(),
                empty_slot(),
                empty_slot(),
                empty_slot(),
                empty_slot(),
                empty_slot(),
                empty_slot(),
                empty_slot(),
                empty_slot(),
            ];
            slots[slot].sync_index = index;
            let ghost before = sync_view(data);
            data.room_sync_info.push((key, slots));
            proof {
                assert(slots@.map_values(|s: SlotSyncInfo| s@) =~= empty_slots().update(
                    slot as int,
                    SlotSyncInfoView { sync_index: index, offline_checks: Seq::empty() },
                ));
                assert(sync_view(data) =~= spec_save(before, key@, slot as int, index));
            }
        },
    }
}

proof fn lemma_first_key_bounds(entries: Seq<SyncEntryView>, key: Seq<char>, start: int)
    requires
        0 <= start,
    ensures
        first_key(entries, key, start) matches Some(i) ==> start <= i < entries.len() && entries[i].0
            == key,
        first_key(entries, key, start) is None ==> forall|j: int|
            start <= j < entries.len() ==> (#[trigger] entries[j]).0 != key,
    decreases entries.len() - start,
{
    if start < entries.len() {
        lemma_first_key_bounds(entries, key, start + 1);
    }
}

proof fn lemma_first_key_same_keys(a: Seq<SyncEntryView>, b: Seq<SyncEntryView>, key: Seq<char>, start: int)
    requires
        a.len() == b.len(),
        forall|j: int| 0 <= j < a.len() ==> (#[trigger] a[j]).0 == b[j].0,
    ensures
        first_key(a, key, start) == first_key(b, key, start),
    decreases a.len() - start,
{
    if 0 <= start < a.len() {
        lemma_first_key_same_keys(a, b, key, start + 1);
    }
}

proof fn lemma_first_key_push(entries: Seq<SyncEntryView>, e: SyncEntryView, key: Seq<char>, start: int)
    requires
        0 <= start <= entries.len(),
    ensures
        first_key(entries.push(e), key, start) == match first_key(entries, key, start) {
            Some(i) => Some(i),
            None => if e.0 == key {
                Some(entries.len() as int)
            } else {
                None
            },
        },
    decreases entries.len() - start,
{
    if start < entries.len() {
        lemma_first_key_push(entries, e, key, start + 1);
        assert(entries.push(e)[start] == entries[start]);
    } else {
        assert(entries.push(e)[start] == e);
        assert(first_key(entries.push(e), key, start + 1) is None);
    }
}

/// A save slot reads back the index it was last saved with; saving one slot of one key
/// leaves every other key as it was, and the key's other slots as they were (a key seen for
/// the first time gets its other slots at index 0).
pub proof fn lemma_save_then_load(
    entries: Seq<SyncEntryView>,
    key: Seq<char>,
    slot: int,
    index: i64,
    other_key: Seq<char>,
    other_slot: int,
)
    requires
        entries_have_slots(entries),
        0 <= slot < SLOT_COUNT,
        0 <= other_slot < SLOT_COUNT,
    ensures
        spec_load(spec_save(entries, key, slot, index), key, slot) == Some(index),
        other_key != key ==> spec_load(spec_save(entries, key, slot, index), other_key, other_slot)
            == spec_load(entries, other_key, other_slot),
        other_slot != slot ==> spec_load(spec_save(entries, key, slot, index), key, other_slot)
            == match spec_load(entries, key, other_slot) {
            Some(v) => Some(v),
            None => Some(0i64),
        },
{
    let saved = spec_save(entries, key, slot, index);
    lemma_first_key_bounds(entries, key, 0);
    lemma_first_key_bounds(entries, other_key, 0);
    match first_key(entries, key, 0) {
        Some(i) => {
            lemma_first_key_same_keys(saved, entries, key, 0);
            lemma_first_key_same_keys(saved, entries, other_key, 0);
            if let Some(j) = first_key(entries, other_key, 0) {
                if other_key != key {
                    assert(saved[j] == entries[j]);
                }
            }
            if other_slot != slot {
                assert(saved[i].1[other_slot] == entries[i].1[other_slot]);
            }
        },
        None => {
            let e = (key, empty_slots().update(slot, SlotSyncInfoView { sync_index: index, offline_checks: Seq::empty() }));
            lemma_first_key_push(entries, e, key, 0);
            lemma_first_key_push(entries, e, other_key, 0);
            if let Some(j) = first_key(entries, other_key, 0) {
                assert(saved[j] == entries[j]);
            }
            assert(saved[entries.len() as int] == e);
        },
    }
}

} // verus!
