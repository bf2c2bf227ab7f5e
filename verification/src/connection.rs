//! The client's decisions around its connection to the server: which hooks to create,
//! enable and disable, what a DeathLink does, and what the server's settings say.
use vstd::prelude::*;
use vstd::string::StringExecFns;
use crate::constants::{Difficulty, spec_difficulty_name};
use crate::game_manager::ArchipelagoData;
use crate::mapping::{DeathlinkSetting, Goal, Mapping};
use crate::strings::{str_eq, surround_decimal};
use crate::receive::empty_data;
use crate::strings::{contains, decimal, digits, push_decimal, spec_contains, spec_starts_with, starts_with};
use crate::location::{NamedLocation, NamedLocationView, table_view};
use crate::constants::{gun_names, spec_gun_names};

verus! {

/// Whether a set of hooks is installed and whether it is enabled.
#[derive(PartialEq, Eq, Structural, Clone, Copy, Debug)]
pub struct HookFlags {
    pub installed: bool,
    pub enabled: bool,
}

/// The mode that the slot data announces.
#[derive(PartialEq, Eq, Structural, Clone, Copy, Debug)]
pub enum SlotMode {
    /// The Bloody Palace hint game.
    HintGame,
    /// The randomizer proper.
    Normal,
}

/// The hooks of both modes.
#[derive(PartialEq, Eq, Structural, Clone, Copy, Debug)]
pub struct CoreState {
    /// The randomizer's hooks.
    pub hooks: HookFlags,
    /// The hint game's hooks.
    pub hint_hooks: HookFlags,
}

/// The hooks that a mode uses.
pub open spec fn spec_mode_hooks(state: CoreState, mode: SlotMode) -> HookFlags {
    match mode {
        SlotMode::HintGame => state.hint_hooks,
        SlotMode::Normal => state.hooks,
    }
}

/// `state` with the hooks of `mode` replaced by `flags`.
pub open spec fn spec_with_mode_hooks(state: CoreState, mode: SlotMode, flags: HookFlags) -> CoreState {
    match mode {
        SlotMode::HintGame => CoreState { hint_hooks: flags, ..state },
        SlotMode::Normal => CoreState { hooks: flags, ..state },
    }
}

impl CoreState {
    /// No hooks installed or enabled.
    pub fn new() -> (state: Self)
        ensures
            state == (CoreState {
                hooks: HookFlags { installed: false, enabled: false },
                hint_hooks: HookFlags { installed: false, enabled: false },
            }),
    {
        CoreState {
            hooks: HookFlags { installed: false, enabled: false },
            hint_hooks: HookFlags { installed: false, enabled: false },
        }
    }

    /// Whether connecting in `mode` must first create that mode's hooks.
    pub fn creation_needed(&self, mode: SlotMode) -> (needed: bool)
        ensures
            needed == !spec_mode_hooks(*self, mode).installed,
    {
        match mode {
            SlotMode::HintGame => !self.hint_hooks.installed,
            SlotMode::Normal => !self.hooks.installed,
        }
    }

    /// Records whether creating the hooks of `mode` succeeded (`false` when none was tried)
    /// and says whether they are now to be enabled: they are, once installed, unless they
    /// already are. The hooks count as enabled from then on.
    pub fn after_creation(&mut self, mode: SlotMode, created: bool) -> (enable: bool)
        ensures
            enable == ((spec_mode_hooks(*old(self), mode).installed || created)
                && !spec_mode_hooks(*old(self), mode).enabled),
            *final(self) == spec_with_mode_hooks(
                *old(self),
                mode,
                HookFlags {
                    installed: spec_mode_hooks(*old(self), mode).installed || created,
                    enabled: spec_mode_hooks(*old(self), mode).enabled || enable,
                },
            ),
    {
        let flags = match mode {
            SlotMode::HintGame => self.hint_hooks,
            SlotMode::Normal => self.hooks,
        };
        let installed = flags.installed || created;
        let enable = installed && !flags.enabled;
        let next = HookFlags { installed, enabled: flags.enabled || enable };
        match mode {
            SlotMode::HintGame => {
                self.hint_hooks = next;
            },
            SlotMode::Normal => {
                self.hooks = next;
            },
        }
        enable
    }
}

/// On disconnection: says which hooks are to be disabled (the randomizer's, the hint
/// game's), marks them disabled, forgets the slot's settings and resets the received data.
pub fn disconnect(
    state: &mut CoreState,
    mapping: &mut Option<Mapping>,
    data: &mut ArchipelagoData,
) -> (to_disable: (bool, bool))
    ensures
        to_disable == (old(state).hooks.enabled, old(state).hint_hooks.enabled),
        *final(state) == (CoreState {
            hooks: HookFlags { installed: old(state).hooks.installed, enabled: false },
            hint_hooks: HookFlags { installed: old(state).hint_hooks.installed, enabled: false },
        }),
        final(mapping).is_none(),
        final(data)@ == empty_data(),
{
    let to_disable = (state.hooks.enabled, state.hint_hooks.enabled);
    state.hooks.enabled = false;
    state.hint_hooks.enabled = false;
    *mapping = None;
    *data = ArchipelagoData::new();
    proof {
        assert(data@ =~= empty_data());
    }
    to_disable
}

/// What a DeathLink from another player does to Dante.
#[derive(PartialEq, Eq, Structural, Clone, Copy, Debug)]
pub enum DeathResponse {
    Kill,
    Hurt,
    Ignore,
}

/// What a DeathLink does under the seed's DeathLink setting.
pub fn deathlink_response(setting: DeathlinkSetting) -> (response: DeathResponse)
    ensures
        response == match setting {
            DeathlinkSetting::DeathLink => DeathResponse::Kill,
            DeathlinkSetting::HurtLink => DeathResponse::Hurt,
            DeathlinkSetting::Off => DeathResponse::Ignore,
        },
{
    match setting {
        DeathlinkSetting::DeathLink => DeathResponse::Kill,
        DeathlinkSetting::HurtLink => DeathResponse::Hurt,
        DeathlinkSetting::Off => DeathResponse::Ignore,
    }
}

/// The value of the decimal digit `c`, if it is one.
pub open spec fn digit_value(c: char) -> Option<int> {
    if '0' <= c && c <= '9' {
        Some(c as int - '0' as int)
    } else {
        None
    }
}

/// Whether every character of `s` is a decimal digit.
pub open spec fn all_digits(s: Seq<char>) -> bool {
    forall|i: int| 0 <= i < s.len() ==> #[trigger] digit_value(s[i]) is Some
}

/// The number that the decimal digits `s` write.
pub open spec fn digits_value(s: Seq<char>) -> int
    decreases s.len(),
{
    if s.len() == 0 {
        0
    } else {
        digits_value(s.drop_last()) * 10 + digit_value(s.last()).unwrap()
    }
}

/// The digits of a number as `str::parse` reads it: all after an optional leading `+`.
pub open spec fn unsigned_body(s: Seq<char>) -> Seq<char> {
    if s.len() > 0 && s[0] == '+' {
        s.drop_first()
    } else {
        s
    }
}

/// What `str::parse::<u16>` gives: the value of one or more decimal digits, after an
/// optional `+`, when it fits.
pub open spec fn spec_parse_u16(s: Seq<char>) -> Option<u16> {
    let body = unsigned_body(s);
    if body.len() > 0 && all_digits(body) && digits_value(body) <= u16::MAX {
        Some(digits_value(body) as u16)
    } else {
        None
    }
}

proof fn lemma_digits_value_grows(s: Seq<char>, n: int)
    requires
        0 <= n <= s.len(),
        all_digits(s),
    ensures
        0 <= digits_value(s.take(n)) <= digits_value(s),
    decreases s.len() - n,
{
    if n < s.len() {
        lemma_digits_value_grows(s, n + 1);
        assert(s.take(n + 1).drop_last() =~= s.take(n));
        assert(digit_value(s[n]) is Some);
    } else {
        assert(s.take(n) =~= s);
    }
    lemma_digits_value_nonneg(s.take(n));
}

proof fn lemma_digits_value_nonneg(s: Seq<char>)
    requires
        all_digits(s),
    ensures
        digits_value(s) >= 0,
    decreases s.len(),
{
    if s.len() > 0 {
        assert(all_digits(s.drop_last()) ) by {
            assert forall|i: int| 0 <= i < s.drop_last().len() implies #[trigger] digit_value(
                s.drop_last()[i],
            ) is Some by {
                assert(s.drop_last()[i] == s[i]);
            }
        }
        lemma_digits_value_nonneg(s.drop_last());
        assert(digit_value(s[s.len() - 1]) is Some);
    }
}

/// Reads an unsigned 16-bit number as `str::parse::<u16>` does.
pub fn parse_u16(s: &str) -> (value: Option<u16>)
    ensures
        value == spec_parse_u16(s@),
{
    let len = s.unicode_len();
    let mut start: usize = 0;
    if len > 0 && s.get_char(0) == '+' {
        start = 1;
    }
    let ghost body = unsigned_body(s@);
    proof {
        assert(body =~= s@.subrange(start as int, len as int));
    }
    if start >= len {
        return None;
    }
    let mut value: u32 = 0;
    let mut i: usize = start;
    while i < len
        invariant
            start <= i <= len,
            len == s@.len(),
            body == s@.subrange(start as int, len as int),
            body == unsigned_body(s@),
            all_digits(body.take(i - start)),
            value == digits_value(body.take(i - start)),
            value <= u16::MAX,
        decreases len - i,
    {
        let c = s.get_char(i);
        if c < '0' || c > '9' {
            proof {
                assert(body[i - start] == c);
                assert(digit_value(body[i - start]) is None);
                assert(!all_digits(body));
            }
            return None;
        }
        let d: u32 = (c as u32) - ('0' as u32);
        proof {
            assert(body.take(i - start + 1).drop_last() =~= body.take(i - start));
            assert(body.take(i - start + 1).last() == c);
            assert(all_digits(body.take(i - start + 1))) by {
                assert forall|k: int| 0 <= k < body.take(i - start + 1).len() implies #[trigger] digit_value(
                    body.take(i - start + 1)[k],
                ) is Some by {
                    if k < i - start {
                        assert(body.take(i - start + 1)[k] == body.take(i - start)[k]);
                    }
                }
            }
        }
        let next: u32 = value * 10 + d;
        if next > 0xFFFF {
            proof {
                if all_digits(body) {
                    lemma_digits_value_grows(body, i - start + 1);
                }
            }
            return None;
        }
        value = next;
        i = i + 1;
    }
    proof {
        assert(body.take(i - start) =~= body);
    }
    Some(value as u16)
}

/// The hint game's floors per hint, from the value a Bounce carries: its number when it
/// reads as one, else 80.
pub fn floors_per_hint_from_bounce(value: Option<&str>) -> (floors: u16)
    ensures
        floors == match value {
            Some(v) => match spec_parse_u16(v@) {
                Some(n) => n,
                None => 80u16,
            },
            None => 80u16,
        },
{
    match value {
        Some(v) => match parse_u16(v) {
            Some(n) => n,
            None => 80,
        },
        None => 80,
    }
}

/// The cause sent with a DeathLink: "died in Mission #<mission> on <difficulty>".
pub fn deathlink_cause(mission: u32, difficulty: Difficulty) -> (cause: String)
    ensures
        cause@ == "died in Mission #"@ + decimal(mission as nat) + " on "@ + spec_difficulty_name(
            difficulty,
        )@,
{
    let mut cause = String::from_str("died in Mission #");
    push_decimal(&mut cause, mission as u64);
    cause.append(" on ");
    cause.append(difficulty.name());
    cause
}


/// Whether a location is one of the shop's orb purchases.
pub open spec fn is_orb_purchase(name: Seq<char>) -> bool {
    spec_contains(name, "Purchase Purple Orb"@) || spec_contains(name, "Purchase Blue Orb"@)
}

/// Whether a location is one of the shop's gun purchases.
pub open spec fn is_gun_purchase(name: Seq<char>) -> bool {
    exists|g: int|
        0 <= g < spec_gun_names().len() && spec_starts_with(name, "Purchase "@) && spec_contains(
            name,
            #[trigger] spec_gun_names()[g]@,
        )
}

/// The positions, among the first `n` locations of the table, of those whose names pass.
pub open spec fn positions_where(table: Seq<NamedLocationView>, pass: spec_fn(Seq<char>) -> bool, n: int) -> Seq<usize>
    decreases n,
{
    if n <= 0 {
        Seq::empty()
    } else if pass(table[n - 1].name) {
        positions_where(table, pass, n - 1).push((n - 1) as usize)
    } else {
        positions_where(table, pass, n - 1)
    }
}

fn is_gun_purchase_name(name: &str) -> (found: bool)
    ensures
        found == is_gun_purchase(name@),
{
    let guns = gun_names();
    if !starts_with(name, "Purchase ") {
        return false;
    }
    let mut g: usize = 0;
    while g < guns.len()
        invariant
            g <= guns@.len(),
            guns@ == spec_gun_names(),
            spec_starts_with(name@, "Purchase "@),
            forall|k: int| 0 <= k < g ==> !spec_contains(name@, (#[trigger] spec_gun_names()[k])@),
        decreases guns@.len() - g,
    {
        if contains(name, guns[g]) {
            return true;
        }
        g = g + 1;
    }
    false
}

/// The locations scouted at setup for the shop's checks, by position in the
/// table: with orb checks, the orb purchases in table order; then, with gun checks, the gun
/// purchases in table order.
pub fn shop_locations_to_scout(table: &Vec<NamedLocation>, mapping: &Mapping) -> (positions: Vec<usize>)
    ensures
        positions@ == (if mapping.shop_orb_checks {
            positions_where(table_view(table@), |n: Seq<char>| is_orb_purchase(n), table@.len() as int)
        } else {
            Seq::empty()
        }) + (if mapping.shop_gun_checks {
            positions_where(table_view(table@), |n: Seq<char>| is_gun_purchase(n), table@.len() as int)
        } else {
            Seq::empty()
        }),
{
    let ghost view = table_view(table@);
    let mut positions: Vec<usize> = Vec::new();
    if mapping.shop_orb_checks {
        let mut i: usize = 0;
        while i < table.len()
            invariant
                i <= table@.len(),
                view == table_view(table@),
                positions@ == positions_where(view, |n: Seq<char>| is_orb_purchase(n), i as int),
            decreases table@.len() - i,
        {
            let name = table[i].name.as_str();
            proof {
                assert(view[i as int].name == name@);
            }
            if contains(name, "Purchase Purple Orb") || contains(name, "Purchase Blue Orb") {
                positions.push(i);
            }
            i = i + 1;
        }
    }
    let ghost orbs = positions@;
    if mapping.shop_gun_checks {
        let mut i: usize = 0;
        while i < table.len()
            invariant
                i <= table@.len(),
                view == table_view(table@),
                positions@ == orbs + positions_where(view, |n: Seq<char>| is_gun_purchase(n), i as int),
            decreases table@.len() - i,
        {
            let name = table[i].name.as_str();
            proof {
                assert(view[i as int].name == name@);
            }
            if is_gun_purchase_name(name) {
                positions.push(i);
            }
            proof {
                assert(positions@ =~= orbs + positions_where(view, |n: Seq<char>| is_gun_purchase(n), i + 1));
            }
            i = i + 1;
        }
    } else {
        proof {
            assert(positions@ =~= orbs + Seq::empty());
        }
    }
    positions
}


/// The name of a mission's completion location: "Mission #<mission> Complete".
pub open spec fn mission_complete_name(mission: int) -> Seq<char> {
    "Mission #"@ + decimal(mission as nat) + " Complete"@
}

/// Whether the checked locations reach the seed's goal: mission 20 completed for the
/// standard goal; missions 1 to 20 completed when every mission counts; the last mission of
/// the order completed for a random order. Not in the hint game (no seed settings).
pub open spec fn spec_goal_reached(mapping: Option<&Mapping>, checked: Seq<Seq<char>>) -> bool {
    match mapping {
        None => false,
        Some(m) => match m.goal {
            Goal::Standard => checked.contains(mission_complete_name(20)),
            Goal::All => forall|i: int| 1 <= i <= 20 ==> checked.contains(#[trigger] mission_complete_name(i)),
            Goal::RandomOrder => match m.spec_order() {
                Some(order) => checked.contains(mission_complete_name(order[19] as int)),
                None => false,
            },
        },
    }
}

pub(crate) fn checked_contains(checked: &Vec<String>, name: &str) -> (found: bool)
    ensures
        found == checked@.map_values(|x: String| x@).contains(name@),
{
    let mut i: usize = 0;
    while i < checked.len()
        invariant
            i <= checked@.len(),
            forall|j: int| 0 <= j < i ==> (#[trigger] checked@[j])@ != name@,
        decreases checked@.len() - i,
    {
        if str_eq(checked[i].as_str(), name) {
            proof {
                assert(checked@.map_values(|x: String| x@)[i as int] == name@);
            }
            return true;
        }
        i = i + 1;
    }
    proof {
        let mapped = checked@.map_values(|x: String| x@);
        assert forall|j: int| 0 <= j < mapped.len() implies mapped[j] != name@ by {
            assert(checked@[j]@ != name@);
        }
    }
    false
}

/// Whether the checked locations (by name) reach the seed's goal (see `spec_goal_reached`);
/// `mapping` is none in the hint game.
pub fn has_reached_goal(mapping: Option<&Mapping>, checked: &Vec<String>) -> (reached: bool)
    requires
        mapping is Some && mapping.unwrap().goal == Goal::RandomOrder && mapping.unwrap().spec_order() is Some
            ==> mapping.unwrap().spec_order().unwrap().len() >= 20,
    ensures
        reached == spec_goal_reached(mapping, checked@.map_values(|x: String| x@)),
{
    let ghost names = checked@.map_values(|x: String| x@);
    match mapping {
        None => false,
        Some(m) => match m.goal {
            Goal::Standard => {
                let name = surround_decimal("Mission #", 20, " Complete");
                checked_contains(checked, name.as_str())
            },
            Goal::All => {
                let mut i: u64 = 1;
                while i <= 20
                    invariant
                        1 <= i <= 21,
                        mapping == Some(m),
                        m.goal == Goal::All,
                        names == checked@.map_values(|x: String| x@),
                        forall|k: int| 1 <= k < i ==> names.contains(#[trigger] mission_complete_name(k)),
                    decreases 21 - i,
                {
                    let name = surround_decimal("Mission #", i, " Complete");
                    if !checked_contains(checked, name.as_str()) {
                        proof {
                            assert(!names.contains(mission_complete_name(i as int)));
                        }
                        return false;
                    }
                    i = i + 1;
                }
                true
            },
            Goal::RandomOrder => {
                match &m.mission_order {
                    Some(order) => {
                        let name = surround_decimal("Mission #", order[19] as u64, " Complete");
                        checked_contains(checked, name.as_str())
                    },
                    None => false,
                }
            },
        },
    }
}

/// Whether an item this client sent is also recorded as received: only this world's own
/// items of the game past the consumables (ids above 0x14), never the "Remote" stand-in.
pub fn sent_item_recorded(own_item: bool, item_id: u32) -> (recorded: bool)
    ensures
        recorded == (own_item && item_id > 0x14 && item_id != 0x26),
{
    let in_game_id = if own_item {
        item_id
    } else {
        0x26
    };
    in_game_id > 0x14 && in_game_id != 0x26
}


/// Whether every set of hooks is enabled only when installed.
pub open spec fn hooks_consistent(state: CoreState) -> bool {
    &&& (state.hooks.enabled ==> state.hooks.installed)
    &&& (state.hint_hooks.enabled ==> state.hint_hooks.installed)
}

/// Hooks are enabled only once they are installed: a connection step (whether creating the
/// hooks succeeded or not) and a disconnection keep it so.
pub proof fn lemma_enabled_only_when_installed(state: CoreState, mode: SlotMode, created: bool)
    requires
        hooks_consistent(state),
    ensures
        ({
            let flags = spec_mode_hooks(state, mode);
            let installed = flags.installed || created;
            let enable = installed && !flags.enabled;
            hooks_consistent(
                spec_with_mode_hooks(state, mode, HookFlags { installed, enabled: flags.enabled || enable }),
            )
        }),
        hooks_consistent(
            CoreState {
                hooks: HookFlags { installed: state.hooks.installed, enabled: false },
                hint_hooks: HookFlags { installed: state.hint_hooks.installed, enabled: false },
            },
        ),
{
}

proof fn lemma_digit_values()
    ensures
        forall|k: int| 0 <= k < 10 ==> #[trigger] digit_value(digits()[k]) == Some(k),
{
    assert(digit_value(digits()[0]) == Some(0int));
    assert(digit_value(digits()[1]) == Some(1int));
    assert(digit_value(digits()[2]) == Some(2int));
    assert(digit_value(digits()[3]) == Some(3int));
    assert(digit_value(digits()[4]) == Some(4int));
    assert(digit_value(digits()[5]) == Some(5int));
    assert(digit_value(digits()[6]) == Some(6int));
    assert(digit_value(digits()[7]) == Some(7int));
    assert(digit_value(digits()[8]) == Some(8int));
    assert(digit_value(digits()[9]) == Some(9int));
}

proof fn lemma_decimal_digits(n: nat)
    ensures
        decimal(n).len() > 0,
        all_digits(decimal(n)),
        digits_value(decimal(n)) == n,
        decimal(n)[0] != '+',
    decreases n,
{
    lemma_digit_values();
    if n >= 10 {
        lemma_decimal_digits(n / 10);
        let rest = decimal(n / 10);
        let d = digits()[(n % 10) as int];
        assert(decimal(n) == rest.push(d));
        assert(rest.push(d).drop_last() =~= rest);
        assert forall|i: int| 0 <= i < rest.push(d).len() implies #[trigger] digit_value(rest.push(d)[i]) is Some by {
            if i < rest.len() {
                assert(rest.push(d)[i] == rest[i]);
            }
        }
        assert(rest.push(d)[0] == rest[0]);
        assert(rest.push(d).last() == d);
        assert(digit_value(digits()[(n % 10) as int]) == Some((n % 10) as int));
        assert(digits_value(rest.push(d)) == digits_value(rest) * 10 + (n % 10));
        assert((n / 10) * 10 + n % 10 == n);
    } else {
        let s1 = seq![digits()[n as int]];
        assert(s1.drop_last() =~= Seq::<char>::empty());
        assert(s1.last() == digits()[n as int]);
        assert(digit_value(digits()[n as int]) == Some(n as int));
        assert(digits_value(s1) == digits_value(s1.drop_last()) * 10 + digit_value(s1.last()).unwrap());
    }
}

/// A number written in decimal reads back as itself.
pub proof fn lemma_parse_decimal(n: u16)
    ensures
        spec_parse_u16(decimal(n as nat)) == Some(n),
{
    lemma_decimal_digits(n as nat);
}

/// What the client learns from the server or from its own attempts, one thing at a time.
pub enum CoreEvent {
    /// The room was joined; the slot data announces `mode`, and, in the hint game, the floors
    /// per hint.
    Connected { mode: SlotMode, floors_per_hint: u16 },
    /// Creating the hooks of `mode`, asked for on connection, succeeded or not.
    HooksCreated { mode: SlotMode, floors_per_hint: u16, created: bool },
    /// A received-items packet starting at `index` arrived.
    ReceivedItems(u64),
    /// A Bounce with data arrived; `value` is its floors-per-hint entry as text, if any.
    Bounce { hint_game: bool, value: Option<String> },
    /// Another player died; `setting` is the seed's DeathLink setting (none in the hint game).
    DeathLink(Option<DeathlinkSetting>),
    /// The connection was lost.
    Disconnected,
    /// Anything that asks nothing of the client (a print, an error, an update).
    Other,
}

/// What the client is to do, in order.
#[derive(PartialEq, Eq, Structural, Clone, Copy, Debug)]
pub enum CoreAction {
    /// Keep the slot's settings.
    StoreMapping,
    /// Send the checks made while offline.
    SendOfflineChecks,
    /// Create the hooks of a mode (and report with `HooksCreated`).
    CreateHooks(SlotMode),
    /// Enable the hooks of a mode.
    EnableHooks(SlotMode),
    /// Run the randomizer's setup (scouts and mode table).
    RunSetup,
    /// Use this many floors per hint.
    SetFloorsPerHint(u16),
    /// Handle the received items from this index on.
    HandleReceivedItems(u64),
    /// Show the DeathLink's message.
    ShowDeathLink,
    /// Kill Dante.
    Kill,
    /// Hurt Dante.
    Hurt,
    /// Clear the overlay's version information.
    ResetOverlay,
    /// Disable the hooks of a mode.
    DisableHooks(SlotMode),
    /// Restore the game's mode table.
    RestoreModeTable,
    /// Stop: the connection is over.
    Stop,
}

/// What connecting in `mode` does before the hooks: keep the settings and send the offline
/// checks in the randomizer proper, nothing in the hint game.
pub open spec fn connect_prelude(mode: SlotMode) -> Seq<CoreAction> {
    match mode {
        SlotMode::Normal => seq![CoreAction::StoreMapping, CoreAction::SendOfflineChecks],
        SlotMode::HintGame => Seq::empty(),
    }
}

/// What connecting does once the hooks are there: enable them when asked, then run the
/// setup, or, in the hint game, set the floors per hint.
pub open spec fn connect_finish(mode: SlotMode, enable: bool, floors_per_hint: u16) -> Seq<CoreAction> {
    (if enable {
        seq![CoreAction::EnableHooks(mode)]
    } else {
        Seq::empty()
    }) + match mode {
        SlotMode::Normal => seq![CoreAction::RunSetup],
        SlotMode::HintGame => seq![CoreAction::SetFloorsPerHint(floors_per_hint)],
    }
}

/// The floors per hint that a Bounce's entry gives (see `floors_per_hint_from_bounce`).
pub open spec fn bounce_floors(value: Option<Seq<char>>) -> u16 {
    match value {
        Some(v) => match spec_parse_u16(v) {
            Some(n) => n,
            None => 80u16,
        },
        None => 80u16,
    }
}

/// The hooks state after `after_creation(mode, created)`.
pub open spec fn spec_after_creation(state: CoreState, mode: SlotMode, created: bool) -> CoreState {
    let flags = spec_mode_hooks(state, mode);
    spec_with_mode_hooks(
        state,
        mode,
        HookFlags {
            installed: flags.installed || created,
            enabled: flags.enabled || ((flags.installed || created) && !flags.enabled),
        },
    )
}

/// The hooks state once disconnected: installed hooks stay installed, none is enabled.
pub open spec fn spec_disconnected(state: CoreState) -> CoreState {
    CoreState {
        hooks: HookFlags { installed: state.hooks.installed, enabled: false },
        hint_hooks: HookFlags { installed: state.hint_hooks.installed, enabled: false },
    }
}

/// Takes one event of the connection: gives what the client is to do, in order, and keeps
/// the hooks state, the slot's settings and the received data up to date.
/// - Connected: in the randomizer proper, keep the settings and send the offline checks;
///   then, when the mode's hooks are not installed, ask for them to be created; otherwise
///   enable them if they are not, and finish (run the setup, or set the hint game's floors).
/// - HooksCreated: record the result, enable the hooks if they are now installed and not
///   enabled, and finish.
/// - ReceivedItems: handle the packet. Bounce: in the hint game, set the floors it gives.
/// - DeathLink: show it, then kill or hurt Dante as the setting says.
/// - Disconnected: clear the overlay, disable the enabled hooks, restore the mode table,
///   forget the settings, reset the received data, and stop.
pub fn step(
    state: &mut CoreState,
    mapping: &mut Option<Mapping>,
    data: &mut ArchipelagoData,
    event: &CoreEvent,
) -> (actions: Vec<CoreAction>)
    ensures
        match event {
            CoreEvent::Connected { mode, floors_per_hint } => {
                let flags = spec_mode_hooks(*old(state), *mode);
                &&& actions@ == connect_prelude(*mode) + if flags.installed {
                    connect_finish(*mode, !flags.enabled, *floors_per_hint)
                } else {
                    seq![CoreAction::CreateHooks(*mode)]
                }
                &&& *final(state) == if flags.installed {
                    spec_after_creation(*old(state), *mode, false)
                } else {
                    *old(state)
                }
                &&& *final(mapping) == *old(mapping)
                &&& final(data)@ == old(data)@
            },
            CoreEvent::HooksCreated { mode, floors_per_hint, created } => {
                let flags = spec_mode_hooks(*old(state), *mode);
                &&& actions@ == connect_finish(
                    *mode,
                    (flags.installed || *created) && !flags.enabled,
                    *floors_per_hint,
                )
                &&& *final(state) == spec_after_creation(*old(state), *mode, *created)
                &&& *final(mapping) == *old(mapping)
                &&& final(data)@ == old(data)@
            },
            CoreEvent::ReceivedItems(index) => {
                &&& actions@ == seq![CoreAction::HandleReceivedItems(*index)]
                &&& *final(state) == *old(state)
                &&& *final(mapping) == *old(mapping)
                &&& final(data)@ == old(data)@
            },
            CoreEvent::Bounce { hint_game, value } => {
                &&& actions@ == if *hint_game {
                    seq![CoreAction::SetFloorsPerHint(bounce_floors(
                        match value {
                            Some(v) => Some(v@),
                            None => None,
                        },
                    ))]
                } else {
                    Seq::empty()
                }
                &&& *final(state) == *old(state)
                &&& *final(mapping) == *old(mapping)
                &&& final(data)@ == old(data)@
            },
            CoreEvent::DeathLink(setting) => {
                &&& actions@ == seq![CoreAction::ShowDeathLink] + match setting {
                    Some(DeathlinkSetting::DeathLink) => seq![CoreAction::Kill],
                    Some(DeathlinkSetting::HurtLink) => seq![CoreAction::Hurt],
                    _ => Seq::empty(),
                }
                &&& *final(state) == *old(state)
                &&& *final(mapping) == *old(mapping)
                &&& final(data)@ == old(data)@
            },
            CoreEvent::Disconnected => {
                &&& actions@ == seq![CoreAction::ResetOverlay] + (if old(state).hooks.enabled {
                    seq![CoreAction::DisableHooks(SlotMode::Normal)]
                } else {
                    Seq::empty()
                }) + (if old(state).hint_hooks.enabled {
                    seq![CoreAction::DisableHooks(SlotMode::HintGame)]
                } else {
                    Seq::empty()
                }) + seq![CoreAction::RestoreModeTable, CoreAction::Stop]
                &&& *final(state) == spec_disconnected(*old(state))
                &&& final(mapping).is_none()
                &&& final(data)@ == empty_data()
            },
            CoreEvent::Other => {
                &&& actions@ == Seq::<CoreAction>::empty()
                &&& *final(state) == *old(state)
                &&& *final(mapping) == *old(mapping)
                &&& final(data)@ == old(data)@
            },
        },
{
    let mut actions: Vec<CoreAction> = Vec::new();
    match event {
        CoreEvent::Connected { mode, floors_per_hint } => {
            let mode = *mode;
            if mode == SlotMode::Normal {
                actions.push(CoreAction::StoreMapping);
                actions.push(CoreAction::SendOfflineChecks);
            }
            if state.creation_needed(mode) {
                actions.push(CoreAction::CreateHooks(mode));
            } else {
                let enable = state.after_creation(mode, false);
                push_finish(&mut actions, mode, enable, *floors_per_hint);
            }
            proof {
                let flags = spec_mode_hooks(*old(state), mode);
                let finish = if flags.installed {
                    connect_finish(mode, !flags.enabled, *floors_per_hint)
                } else {
                    seq![CoreAction::CreateHooks(mode)]
                };
                assert(actions@ =~= connect_prelude(mode) + finish);
            }
        },
        CoreEvent::HooksCreated { mode, floors_per_hint, created } => {
            let enable = state.after_creation(*mode, *created);
            push_finish(&mut actions, *mode, enable, *floors_per_hint);
            proof {
                assert(actions@ =~= Seq::empty() + connect_finish(*mode, enable, *floors_per_hint));
            }
        },
        CoreEvent::ReceivedItems(index) => {
            actions.push(CoreAction::HandleReceivedItems(*index));
            proof {
                assert(actions@ =~= seq![CoreAction::HandleReceivedItems(*index)]);
            }
        },
        CoreEvent::Bounce { hint_game, value } => {
            if *hint_game {
                let floors = match value {
                    Some(v) => floors_per_hint_from_bounce(Some(v.as_str())),
                    None => floors_per_hint_from_bounce(None),
                };
                actions.push(CoreAction::SetFloorsPerHint(floors));
                proof {
                    assert(actions@ =~= seq![CoreAction::SetFloorsPerHint(floors)]);
                }
            }
        },
        CoreEvent::DeathLink(setting) => {
            actions.push(CoreAction::ShowDeathLink);
            match setting {
                Some(s) => match deathlink_response(*s) {
                    DeathResponse::Kill => actions.push(CoreAction::Kill),
                    DeathResponse::Hurt => actions.push(CoreAction::Hurt),
                    DeathResponse::Ignore => {},
                },
                None => {},
            }
            proof {
                let rest = match setting {
                    Some(DeathlinkSetting::DeathLink) => seq![CoreAction::Kill],
                    Some(DeathlinkSetting::HurtLink) => seq![CoreAction::Hurt],
                    _ => Seq::empty(),
                };
                assert(actions@ =~= seq![CoreAction::ShowDeathLink] + rest);
            }
        },
        CoreEvent::Disconnected => {
            actions.push(CoreAction::ResetOverlay);
            let (hooks_on, hint_hooks_on) = disconnect(state, mapping, data);
            if hooks_on {
                actions.push(CoreAction::DisableHooks(SlotMode::Normal));
            }
            if hint_hooks_on {
                actions.push(CoreAction::DisableHooks(SlotMode::HintGame));
            }
            actions.push(CoreAction::RestoreModeTable);
            actions.push(CoreAction::Stop);
            proof {
                let a: Seq<CoreAction> = if old(state).hooks.enabled {
                    seq![CoreAction::DisableHooks(SlotMode::Normal)]
                } else {
                    Seq::empty()
                };
                let b: Seq<CoreAction> = if old(state).hint_hooks.enabled {
                    seq![CoreAction::DisableHooks(SlotMode::HintGame)]
                } else {
                    Seq::empty()
                };
                assert(actions@ =~= seq![CoreAction::ResetOverlay] + a + b + seq![
                    CoreAction::RestoreModeTable,
                    CoreAction::Stop,
                ]);
            }
        },
        CoreEvent::Other => {},
    }
    actions
}

fn push_finish(actions: &mut Vec<CoreAction>, mode: SlotMode, enable: bool, floors_per_hint: u16)
    ensures
        final(actions)@ == old(actions)@ + connect_finish(mode, enable, floors_per_hint),
{
    if enable {
        actions.push(CoreAction::EnableHooks(mode));
    }
    match mode {
        SlotMode::Normal => actions.push(CoreAction::RunSetup),
        SlotMode::HintGame => actions.push(CoreAction::SetFloorsPerHint(floors_per_hint)),
    }
    proof {
        assert(final(actions)@ =~= old(actions)@ + connect_finish(mode, enable, floors_per_hint));
    }
}

} // verus!
