//! The item bank: consumables kept on the server for the player, shown in the inventory while
//! the status screen is open.
use vstd::prelude::*;
use vstd::string::StringExecFns;
use crate::constants::{ITEM_COUNT, ItemCategory, get_items_by_category, names_in_category, spec_item};
use crate::game_manager::{id_of_item, is_item_name, spec_id_of};
use crate::strings::{decimal, push_decimal, str_eq};

verus! {

/// The consumables, in the item table's order.
pub open spec fn consumables() -> Seq<&'static str> {
    names_in_category(ItemCategory::Consumable, ITEM_COUNT as int)
}

/// The key of a banked item in the server's data storage: "team<team>_slot<slot>_<item>".
pub open spec fn spec_bank_key(item: Seq<char>, team: u32, slot: u32) -> Seq<char> {
    "team"@ + decimal(team as nat) + "_slot"@ + decimal(slot as nat) + "_"@ + item
}

/// The key of a banked item in the server's data storage.
pub fn get_bank_key(item: &str, team: u32, slot: u32) -> (key: String)
    ensures
        key@ == spec_bank_key(item@, team, slot),
{
    let mut key = String::from_str("team");
    push_decimal(&mut key, team as u64);
    key.append("_slot");
    push_decimal(&mut key, slot as u64);
    key.append("_");
    key.append(item);
    key
}

pub(crate) proof fn lemma_category_names(category: ItemCategory, n: int)
    requires
        0 <= n <= ITEM_COUNT,
    ensures
        forall|i: int|
            0 <= i < names_in_category(category, n).len() ==> is_item_name(
                #[trigger] names_in_category(category, n)[i]@,
            ) && 0 <= spec_id_of(names_in_category(category, n)[i]@) < n,
        forall|i: int, j: int|
            0 <= i < j < names_in_category(category, n).len() ==> spec_id_of(
                #[trigger] names_in_category(category, n)[i]@,
            ) < spec_id_of(#[trigger] names_in_category(category, n)[j]@),
    decreases n,
{
    if n > 0 {
        lemma_category_names(category, n - 1);
        crate::hooks::lemma_id_of_item(n - 1);
        let prev = names_in_category(category, n - 1);
        let cur = names_in_category(category, n);
        if spec_item(n - 1).category == category {
            assert(cur == prev.push(spec_item(n - 1).name));
            assert forall|i: int| 0 <= i < cur.len() implies is_item_name(#[trigger] cur[i]@) && 0
                <= spec_id_of(cur[i]@) < n by {
                if i < prev.len() {
                    assert(cur[i] == prev[i]);
                }
            }
            assert forall|i: int, j: int| 0 <= i < j < cur.len() implies spec_id_of(
                #[trigger] cur[i]@,
            ) < spec_id_of(#[trigger] cur[j]@) by {
                assert(cur[i] == prev[i]);
                if j < prev.len() {
                    assert(cur[j] == prev[j]);
                }
            }
        } else {
            assert(cur == prev);
        }
    }
}

/// The consumables are items of the table, each with its own id.
proof fn lemma_consumables()
    ensures
        forall|k: int| 0 <= k < consumables().len() ==> is_item_name(#[trigger] consumables()[k]@)
            && 0 <= spec_id_of(consumables()[k]@) < ITEM_COUNT,
        forall|a: int, b: int|
            0 <= a < consumables().len() && 0 <= b < consumables().len() && a != b ==> spec_id_of(
                #[trigger] consumables()[a]@,
            ) != spec_id_of(#[trigger] consumables()[b]@),
{
    lemma_category_names(ItemCategory::Consumable, ITEM_COUNT as int);
    assert forall|a: int, b: int|
        0 <= a < consumables().len() && 0 <= b < consumables().len() && a != b implies spec_id_of(
        #[trigger] consumables()[a]@,
    ) != spec_id_of(#[trigger] consumables()[b]@) by {
        if a < b {
            assert(spec_id_of(consumables()[a]@) < spec_id_of(consumables()[b]@));
        } else {
            assert(spec_id_of(consumables()[b]@) < spec_id_of(consumables()[a]@));
        }
    }
}

/// The banked count of each consumable, in the order of `consumables()`.
#[derive(Debug)]
pub struct Bank {
    counts: Vec<(&'static str, i32)>,
}

impl View for Bank {
    type V = Seq<i32>;

    closed spec fn view(&self) -> Seq<i32> {
        self.counts@.map_values(|e: (&'static str, i32)| e.1)
    }
}

/// The id of the `k`-th consumable.
pub open spec fn consumable_id(k: int) -> int {
    spec_id_of(consumables()[k]@)
}

/// The inventory bytes once the status screen opened: each consumable's byte raised by its
/// banked count (taken as a byte).
pub open spec fn spec_opened(status: Seq<u8>, counts: Seq<i32>) -> Seq<u8> {
    Seq::new(
        status.len(),
        |j: int|
            if exists|k: int| 0 <= k < counts.len() && consumable_id(k) == j {
                let k = choose|k: int| 0 <= k < counts.len() && consumable_id(k) == j;
                (status[j] + (counts[k] as u8)) as u8
            } else {
                status[j]
            },
    )
}

/// The inventory bytes once the status screen closed: each consumable's byte lowered by its
/// banked count, not below 0.
pub open spec fn spec_closed(status: Seq<u8>, counts: Seq<i32>) -> Seq<u8> {
    Seq::new(
        status.len(),
        |j: int|
            if exists|k: int| 0 <= k < counts.len() && consumable_id(k) == j {
                let k = choose|k: int| 0 <= k < counts.len() && consumable_id(k) == j;
                if status[j] - counts[k] > 0 {
                    (status[j] - counts[k]) as u8
                } else {
                    0u8
                }
            } else {
                status[j]
            },
    )
}

/// Whether opening the status screen fits every raised byte in a byte.
pub open spec fn opening_fits(status: Seq<u8>, counts: Seq<i32>) -> bool {
    forall|k: int|
        0 <= k < counts.len() ==> status[consumable_id(k)] + (#[trigger] counts[k] as u8) <= 255
}

impl Bank {
    #[verifier::type_invariant]
    closed spec fn wf(self) -> bool {
        &&& self.counts@.len() == consumables().len()
        &&& forall|k: int| 0 <= k < self.counts@.len() ==> (#[trigger] self.counts@[k]).0 == consumables()[k]
    }

    /// The consumables the bank holds counts of, in order.
    pub closed spec fn names(self) -> Seq<&'static str> {
        self.counts@.map_values(|e: (&'static str, i32)| e.0)
    }

    /// Every consumable with nothing banked.
    pub fn get_bank() -> (bank: Bank)
        ensures
            bank.names() == consumables(),
            bank@ == Seq::new(consumables().len(), |k: int| 0i32),
    {
        let names = get_items_by_category(ItemCategory::Consumable);
        let mut counts: Vec<(&'static str, i32)> = Vec::new();
        let mut i: usize = 0;
        while i < names.len()
            invariant
                i <= names@.len(),
                names@ == consumables(),
                counts@.len() == i,
                forall|k: int| 0 <= k < i ==> (#[trigger] counts@[k]) == (consumables()[k], 0i32),
            decreases names@.len() - i,
        {
            counts.push((names[i], 0));
            i = i + 1;
        }
        let bank = Bank { counts };
        proof {
            assert(bank@ =~= Seq::new(consumables().len(), |k: int| 0i32));
            assert(bank.names() =~= consumables());
        }
        bank
    }

    /// How many consumables the bank holds kinds of.
    pub fn len(&self) -> (n: usize)
        ensures
            self.names() == consumables(),
            n == consumables().len(),
            n == self@.len(),
    {
        proof {
            use_type_invariant(self);
            assert(self.names() =~= consumables());
        }
        self.counts.len()
    }

    /// The banked count of the `k`-th consumable.
    pub fn count_at(&self, k: usize) -> (count: i32)
        requires
            k < self@.len(),
        ensures
            count == self@[k as int],
    {
        self.counts[k].1
    }

    /// The banked count of the named consumable, if it is one.
    pub fn count(&self, name: &str) -> (count: Option<i32>)
        ensures
            count matches Some(c) ==> exists|k: int|
                0 <= k < self@.len() && consumables()[k]@ == name@ && c == self@[k],
            count is None ==> forall|k: int| 0 <= k < self@.len() ==> consumables()[k]@ != name@,
    {
        proof {
            use_type_invariant(self);
        }
        let mut i: usize = 0;
        while i < self.counts.len()
            invariant
                i <= self.counts@.len(),
                self.counts@.len() == consumables().len(),
                forall|k: int| 0 <= k < self.counts@.len() ==> (#[trigger] self.counts@[k]).0 == consumables()[k],
                forall|k: int| 0 <= k < i ==> consumables()[k]@ != name@,
            decreases self.counts@.len() - i,
        {
            if str_eq(self.counts[i].0, name) {
                proof {
                    assert(self@[i as int] == self.counts@[i as int].1);
                }
                return Some(self.counts[i].1);
            }
            i = i + 1;
        }
        None
    }

    /// Takes the counts that the server's data storage holds: each consumable whose key (see
    /// `get_bank_key`) has a value gets that value, a missing number counting as 0 and a
    /// number kept to its low 32 bits; the others keep their count.
    pub fn apply_retrieved(&mut self, retrieved: &Vec<(String, Option<i64>)>, team: u32, slot: u32)
        ensures
            final(self).names() == old(self).names(),
            final(self)@.len() == old(self)@.len(),
            forall|k: int|
                0 <= k < old(self)@.len() ==> #[trigger] final(self)@[k] == match first_value(
                    retrieved@.map_values(|e: (String, Option<i64>)| (e.0@, e.1)),
                    spec_bank_key(consumables()[k]@, team, slot),
                    0,
                ) {
                    Some(v) => match v {
                        Some(n) => n as i32,
                        None => 0i32,
                    },
                    None => old(self)@[k],
                },
    {
        proof {
            use_type_invariant(&*self);
        }
        let ghost values = retrieved@.map_values(|e: (String, Option<i64>)| (e.0@, e.1));
        let ghost old_counts = self.counts@;
        let mut counts: Vec<(&'static str, i32)> = Vec::new();
        let mut i: usize = 0;
        while i < self.counts.len()
            invariant
                i <= self.counts@.len(),
                self.counts@ == old_counts,
                old_counts.len() == consumables().len(),
                forall|k: int| 0 <= k < old_counts.len() ==> (#[trigger] old_counts[k]).0 == consumables()[k],
                values == retrieved@.map_values(|e: (String, Option<i64>)| (e.0@, e.1)),
                counts@.len() == i,
                forall|k: int| 0 <= k < i ==> (#[trigger] counts@[k]).0 == consumables()[k],
                forall|k: int|
                    0 <= k < i ==> (#[trigger] counts@[k]).1 == match first_value(
                        values,
                        spec_bank_key(consumables()[k]@, team, slot),
                        0,
                    ) {
                        Some(v) => match v {
                            Some(n) => n as i32,
                            None => 0i32,
                        },
                        None => old_counts[k].1,
                    },
            decreases self.counts@.len() - i,
        {
            let (name, count) = self.counts[i];
            let key = get_bank_key(name, team, slot);
            let value: i32 = match find_value(retrieved, key.as_str()) {
                Some(v) => {
                    let n: i64 = match v {
                        Some(n) => n,
                        None => 0,
                    };
                    #[verifier::truncate] (n as i32)
                },
                None => count,
            };
            counts.push((name, value));
            i = i + 1;
        }
        self.counts = counts;
        proof {
            assert forall|k: int| 0 <= k < old(self)@.len() implies #[trigger] self@[k] == match first_value(
                values,
                spec_bank_key(consumables()[k]@, team, slot),
                0,
            ) {
                Some(v) => match v {
                    Some(n) => n as i32,
                    None => 0i32,
                },
                None => old(self)@[k],
            } by {
                assert(self@[k] == self.counts@[k].1);
                assert(old(self)@[k] == old_counts[k].1);
            }
            assert(self.names() =~= old(self).names());
        }
    }

    /// Raises each consumable's inventory byte by its banked count when the status screen
    /// opens (`status` holds the inventory bytes by item id).
    pub fn open_inv_screen(&self, status: &mut Vec<u8>)
        requires
            old(status)@.len() >= ITEM_COUNT,
            opening_fits(old(status)@, self@),
        ensures
            final(status)@ == spec_opened(old(status)@, self@),
    {
        proof {
            use_type_invariant(self);
            lemma_consumables();
        }
        let ghost counts = self@;
        let mut i: usize = 0;
        while i < self.counts.len()
            invariant
                i <= self.counts@.len(),
                self.counts@.len() == consumables().len(),
                counts == self@,
                counts.len() == self.counts@.len(),
                forall|k: int| 0 <= k < self.counts@.len() ==> (#[trigger] self.counts@[k]).0 == consumables()[k],
                forall|k: int| 0 <= k < self.counts@.len() ==> (#[trigger] counts[k]) == self.counts@[k].1,
                forall|k: int| 0 <= k < consumables().len() ==> is_item_name(#[trigger] consumables()[k]@)
                    && 0 <= spec_id_of(consumables()[k]@) < ITEM_COUNT,
                forall|a: int, b: int|
                    0 <= a < consumables().len() && 0 <= b < consumables().len() && a != b
                        ==> spec_id_of(#[trigger] consumables()[a]@) != spec_id_of(#[trigger] consumables()[b]@),
                status@.len() == old(status)@.len(),
                old(status)@.len() >= ITEM_COUNT,
                opening_fits(old(status)@, counts),
                forall|j: int|
                    0 <= j < status@.len() ==> #[trigger] status@[j] == if exists|k: int|
                        0 <= k < i && consumable_id(k) == j {
                        let k = choose|k: int| 0 <= k < i && consumable_id(k) == j;
                        (old(status)@[j] + (counts[k] as u8)) as u8
                    } else {
                        old(status)@[j]
                    },
            decreases self.counts@.len() - i,
        {
            let (name, count) = self.counts[i];
            let id = id_of_item(name) as usize;
            let ghost before = status@;
            proof {
                assert(consumable_id(i as int) == id);
                assert(status@[id as int] == old(status)@[id as int]) by {
                    if exists|k: int| 0 <= k < i && consumable_id(k) == id {
                        let k = choose|k: int| 0 <= k < i && consumable_id(k) == id;
                        assert(consumables()[k] != consumables()[i as int] || k == i);
                    }
                }
                assert(old(status)@[consumable_id(i as int)] + (counts[i as int] as u8) <= 255);
            }
            let value = status[id] + (count as u8);
            status.set(id, value);
            proof {
                assert forall|j: int| 0 <= j < status@.len() implies #[trigger] status@[j] == if exists|k: int|
                    0 <= k < i + 1 && consumable_id(k) == j {
                    let k = choose|k: int| 0 <= k < i + 1 && consumable_id(k) == j;
                    (old(status)@[j] + (counts[k] as u8)) as u8
                } else {
                    old(status)@[j]
                } by {
                    if j == id {
                        let k = choose|k: int| 0 <= k < i + 1 && consumable_id(k) == j;
                        assert(consumable_id(i as int) == j);
                        assert(k == i);
                    } else {
                        if exists|k: int| 0 <= k < i + 1 && consumable_id(k) == j {
                            let k = choose|k: int| 0 <= k < i + 1 && consumable_id(k) == j;
                            assert(k != i);
                            assert(exists|k: int| 0 <= k < i && consumable_id(k) == j);
                            let k2 = choose|k: int| 0 <= k < i && consumable_id(k) == j;
                            assert(k2 == k);
                        }
                    }
                }
            }
            i = i + 1;
        }
        proof {
            assert(status@ =~= spec_opened(old(status)@, counts));
        }
    }

    /// Lowers each consumable's inventory byte by its banked count, not below 0, when the
    /// status screen closes, so the inventory holds only what was not banked.
    pub fn close_inv_screen(&self, status: &mut Vec<u8>)
        requires
            old(status)@.len() >= ITEM_COUNT,
        ensures
            final(status)@ == spec_closed(old(status)@, self@),
    {
        proof {
            use_type_invariant(self);
            lemma_consumables();
        }
        let ghost counts = self@;
        let mut i: usize = 0;
        while i < self.counts.len()
            invariant
                i <= self.counts@.len(),
                self.counts@.len() == consumables().len(),
                counts == self@,
                counts.len() == self.counts@.len(),
                forall|k: int| 0 <= k < self.counts@.len() ==> (#[trigger] self.counts@[k]).0 == consumables()[k],
                forall|k: int| 0 <= k < self.counts@.len() ==> (#[trigger] counts[k]) == self.counts@[k].1,
                forall|k: int| 0 <= k < consumables().len() ==> is_item_name(#[trigger] consumables()[k]@)
                    && 0 <= spec_id_of(consumables()[k]@) < ITEM_COUNT,
                forall|a: int, b: int|
                    0 <= a < consumables().len() && 0 <= b < consumables().len() && a != b
                        ==> spec_id_of(#[trigger] consumables()[a]@) != spec_id_of(#[trigger] consumables()[b]@),
                status@.len() == old(status)@.len(),
                old(status)@.len() >= ITEM_COUNT,
                forall|j: int|
                    0 <= j < status@.len() ==> #[trigger] status@[j] == if exists|k: int|
                        0 <= k < i && consumable_id(k) == j {
                        let k = choose|k: int| 0 <= k < i && consumable_id(k) == j;
                        if old(status)@[j] - counts[k] > 0 {
                            (old(status)@[j] - counts[k]) as u8
                        } else {
                            0u8
                        }
                    } else {
                        old(status)@[j]
                    },
            decreases self.counts@.len() - i,
        {
            let (name, count) = self.counts[i];
            let id = id_of_item(name) as usize;
            proof {
                assert(consumable_id(i as int) == id);
                assert(status@[id as int] == old(status)@[id as int]) by {
                    if exists|k: int| 0 <= k < i && consumable_id(k) == id {
                        let k = choose|k: int| 0 <= k < i && consumable_id(k) == id;
                        assert(consumables()[k] != consumables()[i as int] || k == i);
                    }
                }
            }
            let current: i64 = status[id] as i64;
            let remaining: i64 = current - count as i64;
            let value: u8 = if remaining > 0 {
                #[verifier::truncate] (remaining as u8)
            } else {
                0
            };
            status.set(id, value);
            proof {
                assert forall|j: int| 0 <= j < status@.len() implies #[trigger] status@[j] == if exists|k: int|
                    0 <= k < i + 1 && consumable_id(k) == j {
                    let k = choose|k: int| 0 <= k < i + 1 && consumable_id(k) == j;
                    if old(status)@[j] - counts[k] > 0 {
                        (old(status)@[j] - counts[k]) as u8
                    } else {
                        0u8
                    }
                } else {
                    old(status)@[j]
                } by {
                    if j == id {
                        let k = choose|k: int| 0 <= k < i + 1 && consumable_id(k) == j;
                        assert(consumable_id(i as int) == j);
                        assert(k == i);
                    } else {
                        if exists|k: int| 0 <= k < i + 1 && consumable_id(k) == j {
                            let k = choose|k: int| 0 <= k < i + 1 && consumable_id(k) == j;
                            assert(k != i);
                            assert(exists|k: int| 0 <= k < i && consumable_id(k) == j);
                            let k2 = choose|k: int| 0 <= k < i && consumable_id(k) == j;
                            assert(k2 == k);
                        }
                    }
                }
            }
            i = i + 1;
        }
        proof {
            assert(status@ =~= spec_closed(old(status)@, counts));
        }
    }

    /// The consumable used from the inventory screen, by its place there (Vital Star S,
    /// Vital Star L, Devil Star, Holy Water), when the bank holds some of it: one of those is
    /// then taken from the bank.
    pub fn use_item(&self, item_index: i32) -> (taken: Option<&'static str>)
        ensures
            taken matches Some(name) ==> 0 <= item_index < 4 && name@ == spec_used_item(item_index)@
                && exists|k: int| 0 <= k < self@.len() && consumables()[k]@ == name@ && self@[k] > 0,
            taken is None ==> !(0 <= item_index < 4) || forall|k: int|
                0 <= k < self@.len() && consumables()[k]@ == spec_used_item(item_index)@ ==> self@[k] <= 0,
    {
        if item_index < 0 || item_index >= 4 {
            return None;
        }
        let name = if item_index == 0 {
            "Vital Star S"
        } else if item_index == 1 {
            "Vital Star L"
        } else if item_index == 2 {
            "Devil Star"
        } else {
            "Holy Water"
        };
        match self.count(name) {
            Some(c) => {
                if c > 0 {
                    Some(name)
                } else {
                    proof {
                        use_type_invariant(self);
                        lemma_consumables();
                        assert forall|k: int| 0 <= k < self@.len() && consumables()[k]@ == spec_used_item(item_index)@
                            implies self@[k] <= 0 by {
                            let k0 = choose|k0: int| 0 <= k0 < self@.len() && consumables()[k0]@ == name@ && c == self@[k0];
                            if k != k0 {
                                assert(spec_id_of(consumables()[k]@) != spec_id_of(consumables()[k0]@));
                            }
                        }
                    }
                    None
                }
            },
            None => None,
        }
    }
}

/// The consumable at a place of the inventory screen.
pub open spec fn spec_used_item(item_index: i32) -> &'static str {
    if item_index == 0 {
        "Vital Star S"
    } else if item_index == 1 {
        "Vital Star L"
    } else if item_index == 2 {
        "Devil Star"
    } else {
        "Holy Water"
    }
}

/// Closing the status screen gives back the inventory it was opened on, when every banked
/// count is one a byte holds.
pub proof fn lemma_close_undoes_open(status: Seq<u8>, counts: Seq<i32>)
    requires
        forall|k: int| 0 <= k < counts.len() ==> 0 <= #[trigger] counts[k] <= 255,
        opening_fits(status, counts),
    ensures
        spec_closed(spec_opened(status, counts), counts) == status,
{
    let opened = spec_opened(status, counts);
    let closed = spec_closed(opened, counts);
    assert forall|j: int| 0 <= j < status.len() implies closed[j] == status[j] by {
        if exists|k: int| 0 <= k < counts.len() && consumable_id(k) == j {
            let k = choose|k: int| 0 <= k < counts.len() && consumable_id(k) == j;
            assert(status[consumable_id(k)] + (counts[k] as u8) <= 255);
            assert((counts[k] as u8) == counts[k]);
        }
    }
    assert(closed =~= status);
}

/// The first value, from `start` on, stored under the key.
pub open spec fn first_value(values: Seq<(Seq<char>, Option<i64>)>, key: Seq<char>, start: int) -> Option<Option<i64>>
    decreases values.len() - start,
{
    if start < 0 || start >= values.len() {
        None
    } else if values[start].0 == key {
        Some(values[start].1)
    } else {
        first_value(values, key, start + 1)
    }
}

fn find_value(values: &Vec<(String, Option<i64>)>, key: &str) -> (found: Option<Option<i64>>)
    ensures
        found == first_value(values@.map_values(|e: (String, Option<i64>)| (e.0@, e.1)), key@, 0),
{
    let ghost view = values@.map_values(|e: (String, Option<i64>)| (e.0@, e.1));
    let mut i: usize = 0;
    while i < values.len()
        invariant
            i <= values@.len(),
            view == values@.map_values(|e: (String, Option<i64>)| (e.0@, e.1)),
            first_value(view, key@, 0) == first_value(view, key@, i as int),
        decreases values@.len() - i,
    {
        if str_eq(values[i].0.as_str(), key) {
            return Some(values[i].1);
        }
        i = i + 1;
    }
    None
}

/// A bank holds counts of exactly the four consumables, in this order: `get_bank` starts
/// them at 0, every bank's `names` are these (see `Bank::len`), and the one operation that
/// changes a bank, `apply_retrieved`, keeps them.
pub proof fn lemma_bank_entries()
    ensures
        consumables() == seq!["Vital Star L", "Vital Star S", "Devil Star", "Holy Water"],
{
    reveal_with_fuel(names_in_category, 59);
    assert(consumables() =~= seq!["Vital Star L", "Vital Star S", "Devil Star", "Holy Water"]);
}

} // verus!
