//! What the client's windows show: the connection status, the key-item checklist, the bank,
//! and when the keyboard may be read again.
use vstd::prelude::*;
use vstd::string::StringExecFns;
use crate::bank::{Bank, consumables};
use crate::constants::{ItemCategory, ITEM_COUNT, get_items_by_category, names_in_category};
use crate::strings::{push_signed_decimal, signed_decimal, str_eq};

verus! {

/// The state of the connection to the server, as the window reports it.
#[derive(PartialEq, Eq, Structural, Clone, Copy, Debug)]
pub enum Status {
    Connected,
    Disconnected,
    InvalidSlot,
    InvalidGame,
    IncompatibleVersion,
    InvalidPassword,
    InvalidItemHandling,
}

/// The text shown for a connection status.
pub open spec fn spec_status_text(status: Status) -> &'static str {
    match status {
        Status::Connected => "Connected",
        Status::Disconnected => "Disconnected",
        Status::InvalidSlot => "Invalid slot (Check name)",
        Status::InvalidGame => "Invalid game (Wrong url/port or name?)",
        Status::IncompatibleVersion => "Incompatible Version, post on GitHub or Discord",
        Status::InvalidPassword => "Invalid password",
        Status::InvalidItemHandling => "Invalid item handling, post on Github or Discord",
    }
}

/// The text shown for a connection status.
pub fn get_status_text(status: Status) -> (text: &'static str)
    ensures
        text == spec_status_text(status),
{
    match status {
        Status::Connected => "Connected",
        Status::Disconnected => "Disconnected",
        Status::InvalidSlot => "Invalid slot (Check name)",
        Status::InvalidGame => "Invalid game (Wrong url/port or name?)",
        Status::IncompatibleVersion => "Incompatible Version, post on GitHub or Discord",
        Status::InvalidPassword => "Invalid password",
        Status::InvalidItemHandling => "Invalid item handling, post on Github or Discord",
    }
}

/// The checklist of items the tracker window ticks off, by name.
#[derive(Debug)]
pub struct Checklist {
    entries: Vec<(String, bool)>,
}

impl View for Checklist {
    type V = Map<Seq<char>, bool>;

    closed spec fn view(&self) -> Map<Seq<char>, bool> {
        Map::new(
            |k: Seq<char>| exists|i: int| 0 <= i < self.entries@.len() && (#[trigger] self.entries@[i]).0@ == k,
            |k: Seq<char>| {
                let i = choose|i: int| 0 <= i < self.entries@.len() && (#[trigger] self.entries@[i]).0@ == k;
                self.entries@[i].1
            },
        )
    }
}

impl Checklist {
    #[verifier::type_invariant]
    closed spec fn keys_distinct(self) -> bool {
        forall|i: int, j: int|
            0 <= i < self.entries@.len() && 0 <= j < self.entries@.len() && i != j ==> (#[trigger] self.entries@[i]).0@
                != (#[trigger] self.entries@[j]).0@
    }

    /// An empty checklist.
    pub fn new() -> (checklist: Checklist)
        ensures
            checklist@ == Map::<Seq<char>, bool>::empty(),
    {
        let checklist = Checklist { entries: Vec::new() };
        proof {
            assert(checklist@ =~= Map::<Seq<char>, bool>::empty());
        }
        checklist
    }

    fn position(&self, item: &str) -> (found: Option<usize>)
        ensures
            found matches Some(i) ==> i < self.entries@.len() && self.entries@[i as int].0@ == item@,
            found is None ==> forall|i: int| 0 <= i < self.entries@.len() ==> (#[trigger] self.entries@[i]).0@ != item@,
    {
        let mut i: usize = 0;
        while i < self.entries.len()
            invariant
                i <= self.entries@.len(),
                forall|k: int| 0 <= k < i ==> (#[trigger] self.entries@[k]).0@ != item@,
            decreases self.entries@.len() - i,
        {
            if str_eq(self.entries[i].0.as_str(), item) {
                return Some(i);
            }
            i = i + 1;
        }
        None
    }

    /// Whether the item is ticked; unlisted items are not.
    pub fn is_checked(&self, item: &str) -> (checked: bool)
        ensures
            checked == (self@.contains_key(item@) && self@[item@]),
    {
        proof {
            use_type_invariant(self);
        }
        match self.position(item) {
            Some(i) => {
                proof {
                    assert(self@.contains_key(item@));
                    let c = choose|k: int| 0 <= k < self.entries@.len() && (#[trigger] self.entries@[k]).0@ == item@;
                    assert(c == i);
                }
                self.entries[i].1
            },
            None => false,
        }
    }

    /// Ticks or unticks an item.
    pub fn set_checklist_item(&mut self, item: &str, value: bool)
        ensures
            final(self)@ == old(self)@.insert(item@, value),
    {
        proof {
            use_type_invariant(&*self);
        }
        let ghost before = self.entries@;
        let mut entries: Vec<(String, bool)> = Vec::new();
        let mut i: usize = 0;
        let mut found = false;
        while i < self.entries.len()
            invariant
                i <= self.entries@.len(),
                self.entries@ == before,
                before == old(self).entries@,
                forall|a: int, b: int|
                    0 <= a < before.len() && 0 <= b < before.len() && a != b ==> (#[trigger] before[a]).0@
                        != (#[trigger] before[b]).0@,
                entries@.len() == i,
                forall|k: int| 0 <= k < i ==> (#[trigger] entries@[k]).0@ == before[k].0@,
                forall|k: int|
                    0 <= k < i ==> (#[trigger] entries@[k]).1 == if before[k].0@ == item@ {
                        value
                    } else {
                        before[k].1
                    },
                found == exists|k: int| 0 <= k < i && (#[trigger] before[k]).0@ == item@,
            decreases self.entries@.len() - i,
        {
            let name = String::from_str(self.entries[i].0.as_str());
            let same = str_eq(name.as_str(), item);
            let checked = if same {
                value
            } else {
                self.entries[i].1
            };
            if same {
                found = true;
            }
            entries.push((name, checked));
            i = i + 1;
        }
        if !found {
            entries.push((String::from_str(item), value));
        }
        self.entries = entries;
        proof {
            assert(self@ =~= old(self)@.insert(item@, value)) by {
                assert forall|k: Seq<char>| #[trigger] self@.contains_key(k) == old(self)@.insert(item@, value).contains_key(k) by {
                    if old(self)@.contains_key(k) {
                        let j = choose|j: int| 0 <= j < before.len() && (#[trigger] before[j]).0@ == k;
                        assert(self.entries@[j].0@ == k);
                    }
                    if k == item@ && !found {
                        assert(self.entries@[before.len() as int].0@ == k);
                    }
                    if k == item@ && found {
                        let j = choose|j: int| 0 <= j < before.len() && (#[trigger] before[j]).0@ == item@;
                        assert(self.entries@[j].0@ == k);
                    }
                }
                assert forall|k: Seq<char>| #[trigger] self@.contains_key(k) implies self@[k] == old(self)@.insert(item@, value)[k] by {
                    let j = choose|j: int| 0 <= j < self.entries@.len() && (#[trigger] self.entries@[j]).0@ == k;
                    if j < before.len() {
                        assert(before[j].0@ == k);
                        if k != item@ {
                            let j2 = choose|j2: int| 0 <= j2 < before.len() && (#[trigger] before[j2]).0@ == k;
                            assert(j2 == j);
                        }
                    }
                }
            }
            assert forall|a: int, b: int|
                0 <= a < self.entries@.len() && 0 <= b < self.entries@.len() && a != b implies (#[trigger] self.entries@[a]).0@
                    != (#[trigger] self.entries@[b]).0@ by {
                if a < before.len() && b < before.len() {
                    assert(before[a].0@ != before[b].0@);
                }
            }
        }
    }
}

/// The tracker's text for a checklist item: "<item> [X]" when ticked, "<item> [ ]" if not.
pub fn checkbox_text(checklist: &Checklist, item: &str) -> (text: String)
    ensures
        text@ == item@ + " ["@ + (if checklist@.contains_key(item@) && checklist@[item@] {
            "X"@
        } else {
            " "@
        }) + "]"@,
{
    let state = checklist.is_checked(item);
    let mut text = String::from_str(item);
    text.append(" [");
    text.append(if state {
        "X"
    } else {
        " "
    });
    text.append("]");
    text
}

/// Each key item with whether the checklist ticks it, three to a row.
pub fn setup_tracker_grid(checklist: &Checklist) -> (rows: Vec<Vec<(&'static str, bool)>>)
    ensures
        forall|r: int, c: int|
            0 <= r < rows@.len() && 0 <= c < rows@[r]@.len() ==> 3 * r + c < names_in_category(
                ItemCategory::Key,
                ITEM_COUNT as int,
            ).len() && (#[trigger] rows@[r]@[c]).0 == names_in_category(ItemCategory::Key, ITEM_COUNT as int)[3 * r + c]
                && rows@[r]@[c].1 == (checklist@.contains_key(rows@[r]@[c].0@) && checklist@[rows@[r]@[c].0@]),
        forall|r: int| 0 <= r < rows@.len() ==> (#[trigger] rows@[r]@.len()) == if 3 * r + 3 <= names_in_category(
            ItemCategory::Key,
            ITEM_COUNT as int,
        ).len() {
            3
        } else {
            names_in_category(ItemCategory::Key, ITEM_COUNT as int).len() - 3 * r
        },
        rows@.len() == (names_in_category(ItemCategory::Key, ITEM_COUNT as int).len() + 2) / 3,
{
    let keys = get_items_by_category(ItemCategory::Key);
    let ghost all = names_in_category(ItemCategory::Key, ITEM_COUNT as int);
    let mut rows: Vec<Vec<(&'static str, bool)>> = Vec::new();
    let mut i: usize = 0;
    while i < keys.len()
        invariant
            keys@ == all,
            i <= keys@.len(),
            i % 3 == 0 || i == keys@.len(),
            rows@.len() == (i + 2) / 3,
            forall|r: int, c: int|
                0 <= r < rows@.len() && 0 <= c < rows@[r]@.len() ==> 3 * r + c < all.len() && (#[trigger] rows@[r]@[c]).0
                    == all[3 * r + c] && rows@[r]@[c].1 == (checklist@.contains_key(rows@[r]@[c].0@)
                    && checklist@[rows@[r]@[c].0@]),
            forall|r: int| 0 <= r < rows@.len() ==> (#[trigger] rows@[r]@.len()) == if 3 * r + 3 <= all.len() {
                3
            } else {
                all.len() - 3 * r
            },
        decreases keys@.len() - i,
    {
        let mut row: Vec<(&'static str, bool)> = Vec::new();
        let start = i;
        while i < keys.len() && i < start + 3
            invariant
                keys@ == all,
                start <= i <= keys@.len(),
                i <= start + 3,
                start % 3 == 0,
                row@.len() == i - start,
                forall|c: int| 0 <= c < row@.len() ==> (#[trigger] row@[c]).0 == all[start + c] && row@[c].1 == (
                    checklist@.contains_key(row@[c].0@) && checklist@[row@[c].0@]),
            decreases keys@.len() - i,
        {
            let name = keys[i];
            row.push((name, checklist.is_checked(name)));
            i = i + 1;
        }
        rows.push(row);
        proof {
            assert(start / 3 == rows@.len() - 1);
            assert(3 * (rows@.len() - 1) == start);
        }
    }
    rows
}

/// Each consumable with its banked count, as the bank window shows them: "<item>:" and the
/// count.
pub fn setup_bank_grid(bank: &Bank) -> (rows: Vec<(String, String)>)
    ensures
        rows@.len() == consumables().len(),
        forall|k: int|
            0 <= k < rows@.len() ==> (#[trigger] rows@[k]).0@ == consumables()[k]@ + ":"@ && rows@[k].1@
                == signed_decimal(bank@[k] as int),
{
    let names = get_items_by_category(ItemCategory::Consumable);
    let n = bank.len();
    let mut rows: Vec<(String, String)> = Vec::new();
    let mut i: usize = 0;
    while i < n
        invariant
            i <= n,
            n == consumables().len(),
            n == bank@.len(),
            names@ == consumables(),
            rows@.len() == i,
            forall|k: int|
                0 <= k < i ==> (#[trigger] rows@[k]).0@ == consumables()[k]@ + ":"@ && rows@[k].1@
                    == signed_decimal(bank@[k] as int),
        decreases n - i,
    {
        let name = names[i];
        let mut label = String::from_str(name);
        label.append(":");
        let count = bank.count_at(i);
        let mut value = String::new();
        push_signed_decimal(&mut value, count as i64);
        rows.push((label, value));
        i = i + 1;
    }
    rows
}

/// Lets a key through no more often than every `delay` milliseconds.
#[derive(Debug)]
pub struct InputHandler {
    last_key_time: u64,
    delay: u64,
}

impl InputHandler {
    /// The time of the last key let through, in milliseconds.
    pub closed spec fn last(&self) -> u64 {
        self.last_key_time
    }

    /// The delay between keys, in milliseconds.
    pub closed spec fn spec_delay(&self) -> u64 {
        self.delay
    }

    /// A handler that counts `now` as the last key's time, with a delay of 100 milliseconds.
    pub fn new(now: u64) -> (handler: InputHandler)
        ensures
            handler.last() == now,
            handler.spec_delay() == 100,
    {
        InputHandler { last_key_time: now, delay: 100 }
    }

    /// Whether a key pressed at `now` is let through: when at least the delay has passed
    /// since the last one let through (no time passes between a time and an earlier one),
    /// which then counts as the last.
    pub fn can_process_key(&mut self, now: u64) -> (processed: bool)
        ensures
            processed == (now >= old(self).last() && now - old(self).last() >= old(self).spec_delay()),
            final(self).spec_delay() == old(self).spec_delay(),
            final(self).last() == if processed {
                now
            } else {
                old(self).last()
            },
    {
        let elapsed: u64 = if now >= self.last_key_time {
            now - self.last_key_time
        } else {
            0
        };
        if elapsed >= self.delay && now >= self.last_key_time {
            self.last_key_time = now;
            return true;
        }
        false
    }
}

/// The connection window's state: whether it is open, what was typed in it, and the key
/// handler.
#[derive(Debug)]
pub struct ArchipelagoHud {
    pub open: bool,
    pub arch_url: String,
    pub username: String,
    pub password: String,
    pub input_handler: InputHandler,
}

impl ArchipelagoHud {
    /// A closed window with nothing typed.
    pub fn new(now: u64) -> (hud: ArchipelagoHud)
        ensures
            !hud.open,
            hud.arch_url@ == Seq::<char>::empty(),
            hud.username@ == Seq::<char>::empty(),
            hud.password@ == Seq::<char>::empty(),
            hud.input_handler.last() == now,
            hud.input_handler.spec_delay() == 100,
    {
        ArchipelagoHud {
            open: false,
            arch_url: String::new(),
            username: String::new(),
            password: String::new(),
            input_handler: InputHandler::new(now),
        }
    }
}

/// The name of a Windows exception code.
pub fn exception_code_to_str(code: u32) -> (name: &'static str)
    ensures
        name == (if code == 0xC0000005 {
            "Access Violation"
        } else if code == 0x80000003 {
            "Breakpoint"
        } else if code == 0xC0000094 {
            "Integer Divide by Zero"
        } else if code == 0xC000001D {
            "Illegal Instruction"
        } else if code == 0xC000008E {
            "Floating-Point Divide by Zero"
        } else if code == 0xC0000096 {
            "Privileged Instruction"
        } else if code == 0xC00000FD {
            "Stack Overflow"
        } else if code == 0xC0000374 {
            "Heap Corruption"
        } else if code == 0xE06D7363 {
            "C++ Exception"
        } else {
            "Unknown Exception"
        }),
{
    match code {
        0xC0000005 => "Access Violation",
        0x80000003 => "Breakpoint",
        0xC0000094 => "Integer Divide by Zero",
        0xC000001D => "Illegal Instruction",
        0xC000008E => "Floating-Point Divide by Zero",
        0xC0000096 => "Privileged Instruction",
        0xC00000FD => "Stack Overflow",
        0xC0000374 => "Heap Corruption",
        0xE06D7363 => "C++ Exception",
        _ => "Unknown Exception",
    }
}


/// A message's text as the game's text engine reads it: each line break written `<BR>`.
pub open spec fn with_line_breaks(s: Seq<char>) -> Seq<char>
    decreases s.len(),
{
    if s.len() == 0 {
        Seq::empty()
    } else {
        with_line_breaks(s.drop_last()) + if s.last() == '\n' {
            "<BR>"@
        } else {
            seq![s.last()]
        }
    }
}

/// The text written over the game's unused message to show a message: its position, size
/// and icon, the message with `<BR>` line breaks, the end marker and a terminating zero
///.
pub fn game_message(message: &str) -> (text: String)
    ensures
        text@ == "<PS 85 305><SZ 24><IT 0>"@ + with_line_breaks(message@) + "<NE>\0"@,
{
    let mut text = String::from_str("<PS 85 305><SZ 24><IT 0>");
    let ghost start = text@;
    let len = message.unicode_len();
    let mut i: usize = 0;
    while i < len
        invariant
            i <= len,
            len == message@.len(),
            text@ == start + with_line_breaks(message@.take(i as int)),
        decreases len - i,
    {
        let c = message.get_char(i);
        proof {
            assert(message@.take(i + 1).drop_last() =~= message@.take(i as int));
            assert(message@.take(i + 1).last() == c);
        }
        if c == '\n' {
            text.append("<BR>");
        } else {
            let one = message.substring_char(i, i + 1);
            proof {
                assert(one@ =~= seq![c]);
            }
            text.append(one);
        }
        proof {
            assert(text@ =~= start + with_line_breaks(message@.take(i + 1)));
        }
        i = i + 1;
    }
    proof {
        assert(message@.take(len as int) =~= message@);
    }
    text.append("<NE>\0");
    text
}

} // verus!
