//! Directing the suppression units: select a unit, arm an order, click the
//! ground.
//!
//! Three things own left-click — placing a fire, selecting an agent, and an
//! armed order — and never two at once: arming an order switches the
//! ignition tool off, arming the ignition tool disarms the order, and `Esc`
//! returns to plain inspect-and-orbit. A hand line takes two clicks, where it
//! starts and where it ends; the first is remembered until the second.
//!
//! Positions are whatever the caller measures the ground in (`P`): this
//! module only carries them from the click to the order.
use vstd::prelude::*;
use crate::ignition::EditMode;
use crate::inspect::Target;
use crate::model::{TaskKind, UnitKind};
use crate::recall::text_view;

verus! {

/// What an armed left-click will order.
#[derive(Debug, Clone, Copy, PartialEq, Eq, Structural)]
pub enum OrderKind {
    /// Work the fire here: wet the fuel (engine) or cut across the front (crew).
    Attack,
    /// Cut a line along an alignment. Two clicks.
    Line,
    /// Put a load here. Aircraft only.
    Drop,
}

pub open spec fn kind_label(k: OrderKind) -> Seq<char> {
    match k {
        OrderKind::Attack => "Attack here"@,
        OrderKind::Line => "Cut line"@,
        OrderKind::Drop => "Drop here"@,
    }
}

pub open spec fn kind_label_for(k: OrderKind, u: UnitKind) -> Seq<char> {
    match (k, u) {
        (OrderKind::Attack, UnitKind::Engine) => "Suppress from road"@,
        (OrderKind::Attack, UnitKind::HandCrew) => "Build defensive line here"@,
        (OrderKind::Line, _) => "Draw line (2 clicks)"@,
        (OrderKind::Drop, _) => "Drop water here"@,
        _ => kind_label(k),
    }
}

/// Whether a unit of kind `u` can take an order of kind `k` at all: ground
/// units attack, only a hand crew cuts line, only aircraft drop.
pub open spec fn may_take(k: OrderKind, u: UnitKind) -> bool {
    match k {
        OrderKind::Attack => u != UnitKind::AirTanker,
        OrderKind::Line => u == UnitKind::HandCrew,
        OrderKind::Drop => u == UnitKind::AirTanker,
    }
}

impl OrderKind {
    /// The order's name on its own.
    pub fn label(self) -> (r: &'static str)
        ensures
            r@ == kind_label(self),
    {
        match self {
            OrderKind::Attack => "Attack here",
            OrderKind::Line => "Cut line",
            OrderKind::Drop => "Drop here",
        }
    }

    /// The order's name as a button for a unit of kind `kind` reads.
    pub fn label_for(self, kind: UnitKind) -> (r: &'static str)
        ensures
            r@ == kind_label_for(self, kind),
    {
        match (self, kind) {
            (OrderKind::Attack, UnitKind::Engine) => "Suppress from road",
            (OrderKind::Attack, UnitKind::HandCrew) => "Build defensive line here",
            (OrderKind::Line, _) => "Draw line (2 clicks)",
            (OrderKind::Drop, _) => "Drop water here",
            _ => self.label(),
        }
    }

    /// See [`may_take`]: asked early, so the button is greyed out rather than
    /// the click refused.
    pub fn allowed_for(self, kind: UnitKind) -> (r: bool)
        ensures
            r == may_take(self, kind),
    {
        match self {
            OrderKind::Attack => !kind.is_air(),
            OrderKind::Line => kind == UnitKind::HandCrew,
            OrderKind::Drop => kind.is_air(),
        }
    }
}

/// What the cached route preview was computed for: the unit, the order, the
/// simulation second and the cursor rounded to whole metres.
#[derive(Debug, Clone, Copy, PartialEq, Eq, Structural)]
pub struct PreviewKey {
    pub unit: usize,
    pub order: OrderKind,
    pub time_s: i64,
    pub x: i32,
    pub y: i32,
}

/// The order tool's state.
pub struct OrderTool<P> {
    /// Unit the panel has selected, by id.
    pub selected: Option<usize>,
    /// Order waiting for a ground click.
    pub armed: Option<OrderKind>,
    /// Where the cursor is, and whether the armed order would achieve
    /// anything there.
    pub hover: Option<(P, bool)>,
    /// First click of a two-click line order.
    pub line_from: Option<P>,
    /// Why the last order was refused, for the panel to show.
    pub refusal: Option<String>,
    pub confirmation: Option<String>,
    /// Keeps the matching mouse release from selecting an entity after
    /// disarming.
    pub click_consumed: bool,
    /// Planned approach for the current cursor, reused by the overlay.
    pub preview_route: Vec<P>,
    pub preview_road: Option<P>,
    pub preview_reason: Option<&'static str>,
    pub preview_key: Option<PreviewKey>,
}

/// [`OrderTool`] with its texts and route as values.
pub struct ToolView<P> {
    pub selected: Option<usize>,
    pub armed: Option<OrderKind>,
    pub hover: Option<(P, bool)>,
    pub line_from: Option<P>,
    pub refusal: Option<Seq<char>>,
    pub confirmation: Option<Seq<char>>,
    pub click_consumed: bool,
    pub preview_route: Seq<P>,
    pub preview_road: Option<P>,
    pub preview_reason: Option<Seq<char>>,
    pub preview_key: Option<PreviewKey>,
}

pub open spec fn reason_view(o: Option<&'static str>) -> Option<Seq<char>> {
    match o {
        Some(s) => Some(s@),
        None => None,
    }
}

impl<P> View for OrderTool<P> {
    type V = ToolView<P>;

    open spec fn view(&self) -> ToolView<P> {
        ToolView {
            selected: self.selected,
            armed: self.armed,
            hover: self.hover,
            line_from: self.line_from,
            refusal: text_view(self.refusal),
            confirmation: text_view(self.confirmation),
            click_consumed: self.click_consumed,
            preview_route: self.preview_route@,
            preview_road: self.preview_road,
            preview_reason: reason_view(self.preview_reason),
            preview_key: self.preview_key,
        }
    }
}

/// Nothing armed, no half-placed line and no preview; the selection, the
/// messages and the click flag stay.
pub open spec fn disarmed<P>(v: ToolView<P>) -> ToolView<P> {
    ToolView {
        armed: None,
        hover: None,
        line_from: None,
        preview_route: Seq::empty(),
        preview_road: None,
        preview_reason: None,
        preview_key: None,
        ..v
    }
}

/// Arming the order that is already armed disarms it; arming another starts
/// afresh, with no half-placed line and no message left over.
pub open spec fn toggled<P>(v: ToolView<P>, k: OrderKind) -> ToolView<P> {
    if v.armed == Some(k) {
        disarmed(v)
    } else {
        ToolView { armed: Some(k), line_from: None, refusal: None, confirmation: None, ..v }
    }
}

/// A new unit selected, from the roster or the map: nothing armed for the
/// old one survives, nor its messages.
pub open spec fn reselected<P>(v: ToolView<P>, id: Option<usize>) -> ToolView<P> {
    ToolView { selected: id, refusal: None, confirmation: None, ..disarmed(v) }
}

/// The unit a selection on the map names, if it names one.
pub open spec fn unit_of(target: Option<Target>) -> Option<usize> {
    match target {
        Some(Target::Unit(id)) => Some(id),
        _ => None,
    }
}

/// The inspector and the roster share one selected unit: when the map's
/// selection changed to something else, the order tool follows it.
pub open spec fn synced<P>(v: ToolView<P>, target: Option<Target>, changed: bool) -> ToolView<P> {
    if changed && v.selected != unit_of(target) {
        reselected(v, unit_of(target))
    } else {
        v
    }
}

/// The unit `k` places after `start`, cyclically, among `n` units.
pub open spec fn cycled(start: int, k: int, n: int) -> int {
    (start + k) % n
}

/// The first of the `n` units after `start` (cyclically, from `start`
/// itself) that `assignable` marks, searching from the `k`th.
pub open spec fn next_from(assignable: Seq<bool>, start: int, k: int) -> Option<usize>
    decreases assignable.len() - k,
{
    if k < 0 || k >= assignable.len() {
        None
    } else if assignable[cycled(start, k, assignable.len() as int)] {
        Some(cycled(start, k, assignable.len() as int) as usize)
    } else {
        next_from(assignable, start, k + 1)
    }
}

/// The next unit that can take an order, after the selected one, wrapping
/// round; the first such unit when nothing is selected.
pub open spec fn next_unit(selected: Option<usize>, assignable: Seq<bool>) -> Option<usize> {
    let start: int = match selected {
        Some(s) => s + 1,
        None => 0,
    };
    next_from(assignable, start, 0)
}

proof fn lemma_cycled(s: int, n: int, k: int)
    requires
        0 <= s,
        0 < n,
        0 <= k < n,
    ensures
        cycled(s + 1, k, n) == (if s % n + 1 + k < n {
            s % n + 1 + k
        } else {
            s % n + 1 + k - n
        }),
{
    let b = s % n;
    vstd::arithmetic::div_mod::lemma_fundamental_div_mod(s, n);
    assert(s + 1 + k == n * (s / n) + (b + 1 + k));
    vstd::arithmetic::div_mod::lemma_mod_multiples_vanish(s / n, b + 1 + k, n);
    if b + 1 + k < n {
        vstd::arithmetic::div_mod::lemma_small_mod((b + 1 + k) as nat, n as nat);
    } else {
        vstd::arithmetic::div_mod::lemma_mod_multiples_vanish(1, b + 1 + k - n, n);
        vstd::arithmetic::div_mod::lemma_small_mod((b + 1 + k - n) as nat, n as nat);
    }
}

/// See [`next_unit`]; `assignable` marks the units that can be given an order.
pub fn next_assignable(selected: Option<usize>, assignable: &Vec<bool>) -> (r: Option<usize>)
    ensures
        r == next_unit(selected, assignable@),
        r matches Some(i) ==> i < assignable@.len() && assignable@[i as int],
{
    let n = assignable.len();
    if n == 0 {
        return None;
    }
    let ghost start: int = match selected {
        Some(s) => s + 1,
        None => 0,
    };
    let first: usize = match selected {
        Some(s) => s % n + 1,
        None => 0,
    };
    let mut k: usize = 0;
    while k < n
        invariant
            n == assignable@.len(),
            0 < n,
            first <= n,
            start == match selected {
                Some(s) => s + 1,
                None => 0,
            },
            match selected {
                Some(s) => first == s % n + 1,
                None => first == 0,
            },
            k <= n,
            next_from(assignable@, start, k as int) == next_unit(selected, assignable@),
        decreases n - k,
    {
        let idx: usize = if k < n - first {
            first + k
        } else {
            k - (n - first)
        };
        proof {
            match selected {
                Some(s) => lemma_cycled(s as int, n as int, k as int),
                None => vstd::arithmetic::div_mod::lemma_small_mod(k as nat, n as nat),
            }
            assert(idx == cycled(start, k as int, n as int));
        }
        if assignable[idx] {
            return Some(idx);
        }
        k = k + 1;
    }
    None
}

/// A unit as the order keys see it.
#[derive(Debug, Clone, Copy, PartialEq, Eq, Structural)]
pub struct RosterUnit {
    pub kind: UnitKind,
    /// On the roster and able to take an order now.
    pub assignable: bool,
}

pub open spec fn assignable_flags(roster: Seq<RosterUnit>) -> Seq<bool> {
    Seq::new(roster.len(), |i: int| roster[i].assignable)
}

/// The keys the order tool answers to this frame.
#[derive(Debug, Clone, Copy, PartialEq, Eq, Structural)]
pub struct OrderKeys {
    /// `Esc`: stand the tool down.
    pub escape: bool,
    /// `Tab`: the next unit that can be ordered.
    pub tab: bool,
    /// `A`, `L`, `D`: arm an attack, a line, a drop.
    pub attack: bool,
    pub line: bool,
    pub drop: bool,
    /// `X`: send the selected unit back to staging.
    pub stand_down: bool,
    /// `C`: call for air support.
    pub request_air: bool,
}

/// What the keys ask of the rest of the game.
#[derive(Debug, Clone, Copy, PartialEq, Eq, Structural)]
pub struct KeyOutcome {
    /// Bring the units tab forward.
    pub focus_units: bool,
    /// A new selection for the inspector, when `Tab` moved it.
    pub inspect: Option<Option<Target>>,
    pub request_air: bool,
    /// Send this unit back to staging.
    pub stand_down: Option<usize>,
}

pub open spec fn unit_target(id: Option<usize>) -> Option<Target> {
    match id {
        Some(i) => Some(Target::Unit(i)),
        None => None,
    }
}

/// The selected unit exists and can take an order of kind `k` now.
pub open spec fn can_arm(selected: Option<usize>, roster: Seq<RosterUnit>, k: OrderKind) -> bool {
    match selected {
        Some(id) => id < roster.len() && may_take(k, roster[id as int].kind)
            && roster[id as int].assignable,
        None => false,
    }
}

/// One arming key: when pressed for a unit that can take the order, it takes
/// left-click off the ignition tool and toggles the order.
pub open spec fn armed_by_key<P>(
    v: ToolView<P>,
    mode: EditMode,
    k: OrderKind,
    pressed: bool,
    roster: Seq<RosterUnit>,
) -> (ToolView<P>, EditMode, bool) {
    if pressed && can_arm(v.selected, roster, k) {
        (toggled(v, k), EditMode::Off, true)
    } else {
        (v, mode, false)
    }
}

/// One frame of the order keys, unless a widget is taking keystrokes:
/// `Esc` disarms; an order armed while the ignition tool is on is disarmed
/// (whichever tool was reached for last is live); `Tab` disarms and moves to
/// the next unit that can be ordered; `A`, `L`, `D` arm; `X` and `C` are
/// passed on.
pub open spec fn keys_after<P>(
    v: ToolView<P>,
    mode: EditMode,
    keys: OrderKeys,
    typing: bool,
    roster: Seq<RosterUnit>,
) -> (ToolView<P>, EditMode, KeyOutcome) {
    if typing {
        (v, mode, KeyOutcome { focus_units: false, inspect: None, request_air: false, stand_down: None })
    } else {
        let v1 = if keys.escape {
            disarmed(v)
        } else {
            v
        };
        let v2 = if mode != EditMode::Off && v1.armed.is_some() {
            disarmed(v1)
        } else {
            v1
        };
        let next = next_unit(v2.selected, assignable_flags(roster));
        let v3 = if keys.tab {
            ToolView { selected: next, ..disarmed(v2) }
        } else {
            v2
        };
        let a = armed_by_key(v3, mode, OrderKind::Attack, keys.attack, roster);
        let l = armed_by_key(a.0, a.1, OrderKind::Line, keys.line, roster);
        let d = armed_by_key(l.0, l.1, OrderKind::Drop, keys.drop, roster);
        (
            d.0,
            d.1,
            KeyOutcome {
                focus_units: keys.tab || a.2 || l.2 || d.2,
                inspect: if keys.tab {
                    Some(unit_target(next))
                } else {
                    None
                },
                request_air: keys.request_air,
                stand_down: if keys.stand_down {
                    d.0.selected
                } else {
                    None
                },
            },
        )
    }
}

/// The menu's tool commands.
#[derive(Debug, Clone, Copy, PartialEq, Eq, Structural)]
pub enum ToolCommand {
    Arm(OrderKind),
    /// Stand both tools down.
    Cancel,
    /// Toggle the ignition tool.
    ArmIgnition,
    NextUnit,
}

/// Which dock tab a command brings forward.
#[derive(Debug, Clone, Copy, PartialEq, Eq, Structural)]
pub enum Focus {
    Stay,
    Units,
    Fire,
}

/// A menu command applied to the two tools.
pub open spec fn commanded<P>(
    v: ToolView<P>,
    mode: EditMode,
    c: ToolCommand,
    roster: Seq<RosterUnit>,
) -> (ToolView<P>, EditMode, Focus) {
    match c {
        ToolCommand::Arm(k) => (toggled(v, k), EditMode::Off, Focus::Units),
        ToolCommand::Cancel => (disarmed(v), EditMode::Off, Focus::Stay),
        ToolCommand::ArmIgnition => if mode == EditMode::Place {
            (disarmed(v), EditMode::Off, Focus::Stay)
        } else {
            (disarmed(v), EditMode::Place, Focus::Fire)
        },
        ToolCommand::NextUnit => (
            ToolView { selected: next_unit(v.selected, assignable_flags(roster)), ..v },
            mode,
            Focus::Units,
        ),
    }
}

/// An order, with where it is for.
#[derive(Debug, Clone, Copy, PartialEq, Eq, Structural)]
pub enum Order<P> {
    Attack(P),
    Drop(P),
    Line(P, P),
}

/// What a click on the ground came to.
#[derive(Debug, Clone, Copy, PartialEq, Eq, Structural)]
pub enum Placement<P> {
    /// Not an order click: nothing armed, no click, or the cursor is off
    /// the ground.
    Ignored,
    /// Refused before reaching the unit; the tool says why.
    Refused,
    /// The first end of a line is anchored; the order waits for the second.
    LineStarted,
    /// Give this unit this order.
    Assign(usize, Order<P>),
}

/// A click while an order is armed. `reason` is the preview's verdict on the
/// hovered point for the selected unit and order — why it would achieve
/// nothing there, if it would not.
pub open spec fn placed<P>(v: ToolView<P>, clicked: bool, reason: Option<Seq<char>>) -> (
    ToolView<P>,
    Placement<P>,
) {
    if v.armed.is_none() || !clicked {
        (v, Placement::Ignored)
    } else {
        match v.hover {
            None => (v, Placement::Ignored),
            Some((p, _)) => {
                let v1 = ToolView { click_consumed: true, ..v };
                match v1.selected {
                    None => (
                        ToolView { refusal: Some("Select a unit first."@), ..v1 },
                        Placement::Refused,
                    ),
                    Some(id) => {
                        let v2 = ToolView { preview_reason: reason, ..v1 };
                        if reason.is_some() {
                            (ToolView { refusal: reason, ..v2 }, Placement::Refused)
                        } else {
                            match v2.armed {
                                Some(OrderKind::Attack) => (
                                    v2,
                                    Placement::Assign(id, Order::Attack(p)),
                                ),
                                Some(OrderKind::Drop) => (v2, Placement::Assign(id, Order::Drop(p))),
                                _ => match v2.line_from {
                                    None => (
                                        ToolView { line_from: Some(p), refusal: None, ..v2 },
                                        Placement::LineStarted,
                                    ),
                                    Some(from) => (
                                        ToolView { line_from: None, ..v2 },
                                        Placement::Assign(id, Order::Line(from, p)),
                                    ),
                                },
                            }
                        }
                    },
                }
            },
        }
    }
}

/// The confirmation the panel shows for an accepted order; `at` is where,
/// as the panel prints coordinates.
pub open spec fn confirmation_words(
    callsign: Seq<char>,
    k: OrderKind,
    u: UnitKind,
    at: Seq<char>,
    playing: bool,
) -> Seq<char> {
    callsign + ": "@ + kind_label_for(k, u) + " ordered at "@ + at + " m."@ + (if playing {
        ""@
    } else {
        " Press Play to execute."@
    })
}

/// See [`confirmation_words`].
pub fn confirmation_text(callsign: &str, k: OrderKind, u: UnitKind, at: &str, playing: bool) -> (r:
    String)
    ensures
        r@ == confirmation_words(callsign@, k, u, at@, playing),
{
    let mut s = String::from_str(callsign);
    s.append(": ");
    s.append(k.label_for(u));
    s.append(" ordered at ");
    s.append(at);
    s.append(" m.");
    if !playing {
        s.append(" Press Play to execute.");
    }
    proof {
        reveal_strlit("");
    }
    assert(s@ =~= confirmation_words(callsign@, k, u, at@, playing));
    s
}

/// The words on the status strip while a left-click is armed.
pub open spec fn hint_words(placing: bool, order: Option<OrderKind>, line_started: bool) -> Option<
    Seq<char>,
> {
    if placing {
        Some("▶ click to light a fire"@)
    } else {
        match order {
            Some(OrderKind::Line) => if line_started {
                Some("▶ click where the line ends"@)
            } else {
                Some("▶ click where the line starts"@)
            },
            Some(OrderKind::Attack) => Some("▶ click to order: attack here"@),
            Some(OrderKind::Drop) => Some("▶ click to order: drop here"@),
            None => None,
        }
    }
}

/// What an armed left-click will do, for the status strip.
pub fn armed_hint(placing: bool, order: Option<OrderKind>, line_started: bool) -> (r: Option<String>)
    ensures
        text_view(r) == hint_words(placing, order, line_started),
{
    let s = if placing {
        "▶ click to light a fire"
    } else {
        match order {
            Some(OrderKind::Line) => if line_started {
                "▶ click where the line ends"
            } else {
                "▶ click where the line starts"
            },
            Some(OrderKind::Attack) => "▶ click to order: attack here",
            Some(OrderKind::Drop) => "▶ click to order: drop here",
            None => {
                return None;
            },
        }
    };
    Some(String::from_str(s))
}

/// An order's row in the Orders menu.
pub struct MenuEntry {
    pub enabled: bool,
    pub label: String,
    /// Its shortcut key.
    pub key: &'static str,
    /// What hovering it says: why it is greyed out, or what comes next.
    pub hint: &'static str,
}

pub open spec fn entry_key(k: OrderKind) -> Seq<char> {
    match k {
        OrderKind::Attack => "A"@,
        OrderKind::Line => "L"@,
        OrderKind::Drop => "D"@,
    }
}

pub open spec fn entry_enabled(k: OrderKind, unit: Option<UnitKind>) -> bool {
    match unit {
        Some(u) => may_take(k, u),
        None => false,
    }
}

pub open spec fn entry_hint(k: OrderKind, unit: Option<UnitKind>) -> Seq<char> {
    if unit is None {
        "Select a unit first."@
    } else if !entry_enabled(k, unit) {
        "This unit cannot take that order."@
    } else {
        "Then click the ground to place it."@
    }
}

pub open spec fn entry_label(k: OrderKind, armed: Option<OrderKind>) -> Seq<char> {
    if armed == Some(k) {
        "▶ "@ + kind_label(k)
    } else {
        kind_label(k)
    }
}

/// The Orders menu row for `k`, with the selected unit's kind and the order
/// armed now. A row the unit cannot take is greyed out with the reason, not
/// hidden.
pub fn menu_entry(k: OrderKind, unit: Option<UnitKind>, armed: Option<OrderKind>) -> (r: MenuEntry)
    ensures
        r.enabled == entry_enabled(k, unit),
        r.label@ == entry_label(k, armed),
        r.key@ == entry_key(k),
        r.hint@ == entry_hint(k, unit),
{
    let enabled = match unit {
        Some(u) => k.allowed_for(u),
        None => false,
    };
    let key = match k {
        OrderKind::Attack => "A",
        OrderKind::Line => "L",
        OrderKind::Drop => "D",
    };
    let hint = if unit.is_none() {
        "Select a unit first."
    } else if !enabled {
        "This unit cannot take that order."
    } else {
        "Then click the ground to place it."
    };
    let is_armed = match armed {
        Some(a) => a == k,
        None => false,
    };
    let label = if is_armed {
        let mut s = String::from_str("▶ ");
        s.append(k.label());
        s
    } else {
        String::from_str(k.label())
    };
    MenuEntry { enabled, label, key, hint }
}

impl<P: Copy> OrderTool<P> {
    /// Nothing selected, nothing armed.
    pub fn new() -> (r: OrderTool<P>)
        ensures
            r@ == (ToolView::<P> {
                selected: None,
                armed: None,
                hover: None,
                line_from: None,
                refusal: None,
                confirmation: None,
                click_consumed: false,
                preview_route: Seq::empty(),
                preview_road: None,
                preview_reason: None,
                preview_key: None,
            }),
    {
        OrderTool {
            selected: None,
            armed: None,
            hover: None,
            line_from: None,
            refusal: None,
            confirmation: None,
            click_consumed: false,
            preview_route: Vec::new(),
            preview_road: None,
            preview_reason: None,
            preview_key: None,
        }
    }

    pub fn is_armed(&self) -> (r: bool)
        ensures
            r == self.armed.is_some(),
    {
        self.armed.is_some()
    }

    /// See [`disarmed`].
    pub fn disarm(&mut self)
        ensures
            final(self)@ == disarmed(old(self)@),
    {
        self.armed = None;
        self.hover = None;
        self.line_from = None;
        self.preview_route.clear();
        self.preview_road = None;
        self.preview_reason = None;
        self.preview_key = None;
    }

    /// See [`toggled`].
    pub fn toggle(&mut self, kind: OrderKind)
        ensures
            final(self)@ == toggled(old(self)@, kind),
    {
        let same = match self.armed {
            Some(k) => k == kind,
            None => false,
        };
        if same {
            self.disarm();
        } else {
            self.armed = Some(kind);
            self.line_from = None;
            self.refusal = None;
            self.confirmation = None;
        }
    }

    fn reselect(&mut self, id: Option<usize>)
        ensures
            final(self)@ == reselected(old(self)@, id),
    {
        self.disarm();
        self.selected = id;
        self.refusal = None;
        self.confirmation = None;
    }

    /// See [`synced`]; `changed` says whether the map's selection changed
    /// this frame.
    pub fn sync_selection(&mut self, target: Option<Target>, changed: bool)
        ensures
            final(self)@ == synced(old(self)@, target, changed),
    {
        let id = match target {
            Some(Target::Unit(id)) => Some(id),
            _ => None,
        };
        let differs = match (self.selected, id) {
            (Some(a), Some(b)) => a != b,
            (None, None) => false,
            _ => true,
        };
        if changed && differs {
            self.reselect(id);
        }
    }

    /// A row clicked in the roster: a new selection cannot inherit an order,
    /// a half-placed line or a message from the old one.
    pub fn select_from_roster(&mut self, id: Option<usize>)
        ensures
            final(self)@ == (if old(self).selected != id {
                reselected(old(self)@, id)
            } else {
                old(self)@
            }),
    {
        let differs = match (self.selected, id) {
            (Some(a), Some(b)) => a != b,
            (None, None) => false,
            _ => true,
        };
        if differs {
            self.reselect(id);
        }
    }

    /// A restart drops the selection, any half-placed order and the messages
    /// about a fire that no longer exists.
    pub fn restart(&mut self)
        ensures
            final(self)@ == (ToolView {
                selected: None,
                refusal: None,
                confirmation: None,
                ..disarmed(old(self)@)
            }),
            final(self)@.selected.is_none(),
    {
        self.disarm();
        self.selected = None;
        self.refusal = None;
        self.confirmation = None;
    }

    /// Start of a frame's hover tracking. A fresh press clears the consumed
    /// click; with nothing armed, or the pointer over a panel, there is no
    /// hover and nothing more to do (`false`).
    pub fn hover_gate(&mut self, just_pressed: bool, pointer_over_ui: bool) -> (go: bool)
        ensures
            go == (old(self).armed.is_some() && !pointer_over_ui),
            final(self)@ == (ToolView {
                click_consumed: if just_pressed {
                    false
                } else {
                    old(self).click_consumed
                },
                hover: if go {
                    old(self).hover
                } else {
                    None
                },
                ..old(self)@
            }),
    {
        if just_pressed {
            self.click_consumed = false;
        }
        if self.armed.is_none() || pointer_over_ui {
            self.hover = None;
            return false;
        }
        true
    }

    /// Whether the route preview has to be recomputed for `key`: it was
    /// computed for something else, or there is nothing to key it on.
    pub fn preview_stale(&self, key: Option<PreviewKey>) -> (r: bool)
        ensures
            r == (key.is_none() || key != self.preview_key),
    {
        match (key, self.preview_key) {
            (Some(a), Some(b)) => a != b,
            _ => true,
        }
    }

    /// See [`keys_after`]; `ignition` is the ignition tool's mode and
    /// `roster` every unit, by id.
    pub fn keys(
        &mut self,
        ignition: &mut EditMode,
        keys: OrderKeys,
        typing: bool,
        roster: &Vec<RosterUnit>,
    ) -> (out: KeyOutcome)
        ensures
            (final(self)@, *final(ignition), out) == keys_after(
                old(self)@,
                *old(ignition),
                keys,
                typing,
                roster@,
            ),
    {
        if typing {
            return KeyOutcome { focus_units: false, inspect: None, request_air: false, stand_down: None };
        }
        if keys.escape {
            self.disarm();
        }
        if *ignition != EditMode::Off && self.armed.is_some() {
            self.disarm();
        }
        let mut inspect: Option<Option<Target>> = None;
        let mut focus = false;
        if keys.tab {
            focus = true;
            let n = roster.len();
            let mut flags: Vec<bool> = Vec::new();
            let mut i: usize = 0;
            while i < n
                invariant
                    n == roster@.len(),
                    i <= n,
                    flags@ == assignable_flags(roster@).take(i as int),
                decreases n - i,
            {
                flags.push(roster[i].assignable);
                proof {
                    assert(assignable_flags(roster@).take(i + 1) =~= assignable_flags(roster@).take(
                        i as int,
                    ).push(roster@[i as int].assignable));
                }
                i = i + 1;
            }
            assert(flags@ =~= assignable_flags(roster@));
            let next = next_assignable(self.selected, &flags);
            self.disarm();
            self.selected = next;
            inspect = Some(
                match next {
                    Some(i) => Some(Target::Unit(i)),
                    None => None,
                },
            );
        }
        if self.arm_by_key(ignition, OrderKind::Attack, keys.attack, roster) {
            focus = true;
        }
        if self.arm_by_key(ignition, OrderKind::Line, keys.line, roster) {
            focus = true;
        }
        if self.arm_by_key(ignition, OrderKind::Drop, keys.drop, roster) {
            focus = true;
        }
        let stand_down = if keys.stand_down {
            self.selected
        } else {
            None
        };
        KeyOutcome { focus_units: focus, inspect, request_air: keys.request_air, stand_down }
    }

    fn arm_by_key(
        &mut self,
        ignition: &mut EditMode,
        kind: OrderKind,
        pressed: bool,
        roster: &Vec<RosterUnit>,
    ) -> (armed: bool)
        ensures
            (final(self)@, *final(ignition), armed) == armed_by_key(
                old(self)@,
                *old(ignition),
                kind,
                pressed,
                roster@,
            ),
    {
        if !pressed {
            return false;
        }
        let ok = match self.selected {
            Some(id) => id < roster.len() && kind.allowed_for(roster[id].kind) && roster[id].assignable,
            None => false,
        };
        if ok {
            *ignition = EditMode::Off;
            self.toggle(kind);
        }
        ok
    }

    /// See [`commanded`].
    pub fn command(&mut self, ignition: &mut EditMode, c: ToolCommand, roster: &Vec<RosterUnit>) -> (f:
        Focus)
        ensures
            (final(self)@, *final(ignition), f) == commanded(old(self)@, *old(ignition), c, roster@),
    {
        match c {
            ToolCommand::Arm(k) => {
                *ignition = EditMode::Off;
                self.toggle(k);
                Focus::Units
            },
            ToolCommand::Cancel => {
                *ignition = EditMode::Off;
                self.disarm();
                Focus::Stay
            },
            ToolCommand::ArmIgnition => {
                self.disarm();
                if *ignition == EditMode::Place {
                    *ignition = EditMode::Off;
                    Focus::Stay
                } else {
                    *ignition = EditMode::Place;
                    Focus::Fire
                }
            },
            ToolCommand::NextUnit => {
                let n = roster.len();
                let mut flags: Vec<bool> = Vec::new();
                let mut i: usize = 0;
                while i < n
                    invariant
                        n == roster@.len(),
                        i <= n,
                        flags@ == assignable_flags(roster@).take(i as int),
                    decreases n - i,
                {
                    flags.push(roster[i].assignable);
                    proof {
                        assert(assignable_flags(roster@).take(i + 1) =~= assignable_flags(
                            roster@,
                        ).take(i as int).push(roster@[i as int].assignable));
                    }
                    i = i + 1;
                }
                assert(flags@ =~= assignable_flags(roster@));
                self.selected = next_assignable(self.selected, &flags);
                Focus::Units
            },
        }
    }

    /// See [`placed`]; `reason` is the preview's verdict for the hovered
    /// point, the selected unit and the armed order.
    pub fn place(&mut self, clicked: bool, reason: Option<&'static str>) -> (r: Placement<P>)
        ensures
            (final(self)@, r) == placed(old(self)@, clicked, reason_view(reason)),
    {
        if self.armed.is_none() || !clicked {
            return Placement::Ignored;
        }
        let p = match self.hover {
            None => {
                return Placement::Ignored;
            },
            Some((p, _)) => p,
        };
        self.click_consumed = true;
        let id = match self.selected {
            None => {
                self.refusal = Some(String::from_str("Select a unit first."));
                return Placement::Refused;
            },
            Some(id) => id,
        };
        self.preview_reason = reason;
        if let Some(why) = reason {
            self.refusal = Some(String::from_str(why));
            return Placement::Refused;
        }
        match self.armed {
            Some(OrderKind::Attack) => Placement::Assign(id, Order::Attack(p)),
            Some(OrderKind::Drop) => Placement::Assign(id, Order::Drop(p)),
            _ => {
                let from = self.line_from;
                self.line_from = None;
                match from {
                    None => {
                        self.line_from = Some(p);
                        self.refusal = None;
                        Placement::LineStarted
                    },
                    Some(from) => Placement::Assign(id, Order::Line(from, p)),
                }
            },
        }
    }

    /// The unit took the order: the tool stands down and says so.
    pub fn accepted(&mut self, confirmation: String)
        ensures
            final(self)@ == (ToolView {
                confirmation: Some(confirmation@),
                ..disarmed(ToolView { refusal: None, ..old(self)@ })
            }),
    {
        self.refusal = None;
        self.confirmation = Some(confirmation);
        self.disarm();
    }

    /// The unit refused the order; the tool stays armed and says why.
    pub fn refused(&mut self, callsign: &str, why: &str)
        ensures
            final(self)@ == (ToolView { refusal: Some(callsign@ + ": "@ + why@), ..old(self)@ }),
    {
        let mut s = String::from_str(callsign);
        s.append(": ");
        s.append(why);
        self.refusal = Some(s);
    }
}

/// What is known about an order's target, as far as the preview looked:
/// each check is only read once every check before it has passed.
#[derive(Debug, Clone, Copy, PartialEq, Eq, Structural)]
pub struct TargetChecks {
    /// A unit is selected, it can take an order now, an order is armed, and
    /// the unit may take that order.
    pub unit_ready: bool,
    /// The point lies inside the scenario.
    pub inside: bool,
    /// The unit flies: it needs no road.
    pub air: bool,
    /// There is a road or path from the unit to near the point.
    pub connected: bool,
    /// The unit is an engine, which works only within hose reach of a road.
    pub engine: bool,
    /// The road reached is within hose reach of the point.
    pub in_reach: bool,
    /// A route to it exists that the fire does not block.
    pub approach: bool,
    /// There is unburnt, suppressible fuel within the unit's reach.
    pub fuel: bool,
}

/// Why an order at a point would achieve nothing, checked in order: the
/// unit, the map, the road network (for ground units), the hose reach (for
/// engines), the approach, and finally the fuel; `None` when it would work.
pub open spec fn target_verdict(c: TargetChecks) -> Option<Seq<char>> {
    if !c.unit_ready {
        Some("Select an available unit and an order first."@)
    } else if !c.inside {
        Some("Target is outside the scenario."@)
    } else if !c.air && !c.connected {
        Some("No connected road or path. Choose another target or unit."@)
    } else if !c.air && c.engine && !c.in_reach {
        Some("Outside hose reach. Target inside the road coverage ring."@)
    } else if !c.air && !c.approach {
        Some("Approach blocked by fire. Choose another target or request aircraft."@)
    } else if !c.fuel {
        Some("No suppressible fuel here. Choose unburnt fuel near the fire edge."@)
    } else {
        None
    }
}

/// See [`target_verdict`]: the reason the cursor ring turns red and a click
/// is refused.
pub fn target_reason(c: TargetChecks) -> (r: Option<&'static str>)
    ensures
        reason_view(r) == target_verdict(c),
{
    if !c.unit_ready {
        Some("Select an available unit and an order first.")
    } else if !c.inside {
        Some("Target is outside the scenario.")
    } else if !c.air && !c.connected {
        Some("No connected road or path. Choose another target or unit.")
    } else if !c.air && c.engine && !c.in_reach {
        Some("Outside hose reach. Target inside the road coverage ring.")
    } else if !c.air && !c.approach {
        Some("Approach blocked by fire. Choose another target or request aircraft.")
    } else if !c.fuel {
        Some("No suppressible fuel here. Choose unburnt fuel near the fire edge.")
    } else {
        None
    }
}

/// What the preview measured of the ground, for a unit and an order already
/// known to be ready.
#[derive(Debug, Clone, Copy, PartialEq, Eq, Structural)]
pub struct GroundChecks {
    /// The point lies inside the scenario.
    pub inside: bool,
    /// There is a road or path from the unit to near the point.
    pub connected: bool,
    /// The road reached is within hose reach of the point.
    pub in_reach: bool,
    /// A route to it exists that the fire does not block.
    pub approach: bool,
    /// There is unburnt, suppressible fuel within the unit's reach.
    pub fuel: bool,
}

/// The full checks for `order` by the unit `selected` of `roster`: the unit
/// is ready when it exists, can be ordered now and may take that order;
/// whether it flies, and whether it is an engine, is its kind's.
pub open spec fn checks_for(
    selected: Option<usize>,
    order: Option<OrderKind>,
    roster: Seq<RosterUnit>,
    g: GroundChecks,
) -> TargetChecks {
    let ready = match order {
        Some(k) => can_arm(selected, roster, k),
        None => false,
    };
    let kind = match selected {
        Some(id) => if id < roster.len() {
            Some(roster[id as int].kind)
        } else {
            None
        },
        None => None,
    };
    TargetChecks {
        unit_ready: ready,
        inside: g.inside,
        air: kind == Some(UnitKind::AirTanker),
        connected: g.connected,
        engine: kind == Some(UnitKind::Engine),
        in_reach: g.in_reach,
        approach: g.approach,
        fuel: g.fuel,
    }
}

/// See [`target_verdict`], with the unit's readiness and kind read from the
/// roster. A target that passes has a selected unit on the roster that can
/// be ordered now and may take the armed order, and lies inside the
/// scenario.
pub fn order_target_reason(
    selected: Option<usize>,
    order: Option<OrderKind>,
    roster: &Vec<RosterUnit>,
    g: GroundChecks,
) -> (r: Option<&'static str>)
    ensures
        reason_view(r) == target_verdict(checks_for(selected, order, roster@, g)),
        r is None ==> {
            &&& selected is Some
            &&& order is Some
            &&& selected.unwrap() < roster@.len()
            &&& roster@[selected.unwrap() as int].assignable
            &&& may_take(order.unwrap(), roster@[selected.unwrap() as int].kind)
            &&& g.inside
        },
{
    let (ready, air, engine) = match selected {
        Some(id) => if id < roster.len() {
            let u = roster[id];
            let ready = match order {
                Some(k) => u.assignable && k.allowed_for(u.kind),
                None => false,
            };
            (ready, u.kind.is_air(), u.kind == UnitKind::Engine)
        } else {
            (false, false, false)
        },
        None => (false, false, false),
    };
    target_reason(
        TargetChecks {
            unit_ready: ready,
            inside: g.inside,
            air,
            connected: g.connected,
            engine,
            in_reach: g.in_reach,
            approach: g.approach,
            fuel: g.fuel,
        },
    )
}

/// What a unit is doing, in one line: its state (or, inbound, how many
/// minutes out it is), then what its orders have it doing. `line_progress`
/// is a line order's metres cut and metres in all, as printed.
pub open spec fn status_words(
    state: Seq<char>,
    inbound_minutes: Option<Seq<char>>,
    task: TaskKind,
    kind: UnitKind,
    line_progress: Seq<char>,
) -> Seq<char> {
    (match inbound_minutes {
        Some(m) => "inbound, "@ + m + " min"@,
        None => state,
    }) + match task {
        TaskKind::Attack => if kind == UnitKind::HandCrew {
            " · preparing defensive line"@
        } else {
            " · road suppression"@
        },
        TaskKind::Line => " · line "@ + line_progress + " m"@,
        TaskKind::Drop => " · drop run"@,
        TaskKind::Return => " · returning"@,
        TaskKind::Hold => ""@,
    }
}

/// See [`status_words`].
pub fn status_line(
    state: &str,
    inbound_minutes: Option<&str>,
    task: TaskKind,
    kind: UnitKind,
    line_progress: &str,
) -> (r: String)
    ensures
        r@ == status_words(
            state@,
            match inbound_minutes {
                Some(m) => Some(m@),
                None => None,
            },
            task,
            kind,
            line_progress@,
        ),
{
    let mut s = match inbound_minutes {
        Some(m) => {
            let mut t = String::from_str("inbound, ");
            t.append(m);
            t.append(" min");
            t
        },
        None => String::from_str(state),
    };
    match task {
        TaskKind::Attack => if kind == UnitKind::HandCrew {
            s.append(" · preparing defensive line");
        } else {
            s.append(" · road suppression");
        },
        TaskKind::Line => {
            s.append(" · line ");
            s.append(line_progress);
            s.append(" m");
        },
        TaskKind::Drop => s.append(" · drop run"),
        TaskKind::Return => s.append(" · returning"),
        TaskKind::Hold => {},
    }
    proof {
        reveal_strlit("");
    }
    assert(s@ =~= status_words(
        state@,
        match inbound_minutes {
            Some(m) => Some(m@),
            None => None,
        },
        task,
        kind,
        line_progress@,
    ));
    s
}

/// Left-click has at most one owner: the order keys leave the ignition tool
/// placing only with no order armed, whatever the state before, and no menu
/// command arms both.
pub proof fn left_click_has_one_owner<P>(
    v: ToolView<P>,
    mode: EditMode,
    keys: OrderKeys,
    c: ToolCommand,
    roster: Seq<RosterUnit>,
)
    ensures
        ({
            let (w, m, _) = keys_after(v, mode, keys, false, roster);
            !(m == EditMode::Place && w.armed.is_some())
        }),
        ({
            let (w, m, _) = commanded(v, mode, c, roster);
            !(mode == EditMode::Place && v.armed.is_some()) ==> !(m == EditMode::Place
                && w.armed.is_some())
        }),
{
}

/// A hand line takes two clicks: the first anchors where it starts, the
/// second orders the line from there to where it ends.
pub proof fn a_line_takes_two_clicks<P>(v: ToolView<P>, id: usize, start: P, end: P)
    requires
        v.armed == Some(OrderKind::Line),
        v.selected == Some(id),
        v.line_from.is_none(),
        v.hover matches Some((p, _)) && p == start,
    ensures
        ({
            let (w, first) = placed(v, true, None);
            &&& first == Placement::<P>::LineStarted
            &&& w.line_from == Some(start)
            &&& w.armed == Some(OrderKind::Line)
            &&& placed(ToolView { hover: Some((end, true)), ..w }, true, None).1 == Placement::Assign(
                id,
                Order::Line(start, end),
            )
        }),
{
}

} // verus!
