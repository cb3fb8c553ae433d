//! The per-run agent history: diffing the live model against the last
//! snapshot of the fields worth watching, one event per thing that changed.
//!
//! Only discrete things are watched — status, the winning action of an
//! authored decision, order and warning receipt, travel state, and a unit's
//! state, order and drop count. Continuous quantities change on every tick
//! and would flood the log with noise.
use vstd::prelude::*;
use crate::model::{ActionKind, Status, Subject, Task, TravelState, UnitState};

verus! {

/// What is watched of a household.
#[derive(Debug, Clone, Copy, PartialEq, Eq, Structural)]
pub struct HouseholdSnap {
    pub status: Status,
    pub ordered: bool,
    pub warning_received: bool,
    /// The action its authored behaviour last decided, when it runs one.
    pub action: Option<ActionKind>,
    /// The profile that behaviour belongs to, by its place in the caller's
    /// list of profiles (which carries the profile's id and name).
    pub profile: Option<usize>,
}

/// What is watched of a person.
#[derive(Debug, Clone, Copy, PartialEq, Eq, Structural)]
pub struct PersonSnap {
    pub status: Status,
    pub away: bool,
    pub action: Option<ActionKind>,
    pub profile: Option<usize>,
}

/// What is known of a group on the move.
#[derive(Debug, Clone, Copy, PartialEq, Eq, Structural)]
pub struct TravellerInfo {
    pub state: TravelState,
    pub household: usize,
    pub car: bool,
    pub members: usize,
    /// One person caught away from home, rather than a household.
    pub solo: bool,
    pub first_member: Option<usize>,
}

/// What is watched of a suppression unit.
#[derive(Debug, Clone, Copy, PartialEq, Eq, Structural)]
pub struct UnitSnap {
    pub state: UnitState,
    pub task: Task,
    pub drops: u32,
}

/// One thing that changed, filed under who it happened to.
#[derive(Debug, Clone, Copy, PartialEq, Eq, Structural)]
pub enum Event {
    Status { who: Subject, from: Status, to: Status },
    OrderIssued { household: usize },
    WarningReceived { household: usize },
    /// A new winning action, with the profile whose behaviour decided it.
    Decision { who: Subject, action: ActionKind, profile: Option<usize> },
    EvacuationOrder { households: usize },
    Casualties { households: usize },
    Separation { person: usize, away: bool },
    Departed { who: Subject, household: usize, car: bool, members: usize },
    TravelState { traveller: usize, from_travel: TravelState, to_travel: TravelState },
    UnitState { unit: usize, from_state: UnitState, to_state: UnitState },
    UnitTask { unit: usize, task: Task },
    DropCompleted { unit: usize, total_drops: u32 },
}

pub open spec fn decision_events(
    who: Subject,
    prev: Option<ActionKind>,
    live: Option<ActionKind>,
    profile: Option<usize>,
) -> Seq<Event> {
    match live {
        Some(a) => if prev != Some(a) {
            seq![Event::Decision { who, action: a, profile }]
        } else {
            seq![]
        },
        None => seq![],
    }
}

pub open spec fn kept_action(prev: Option<ActionKind>, live: Option<ActionKind>) -> Option<ActionKind> {
    match live {
        Some(a) => Some(a),
        None => prev,
    }
}

/// What changed for household `i`, in the order the log records it.
pub open spec fn household_events(i: usize, prev: HouseholdSnap, live: HouseholdSnap) -> Seq<Event> {
    let who = Subject::Household(i);
    (if prev.status != live.status {
        seq![Event::Status { who, from: prev.status, to: live.status }]
    } else {
        seq![]
    }) + (if !prev.ordered && live.ordered {
        seq![Event::OrderIssued { household: i }]
    } else {
        seq![]
    }) + (if !prev.warning_received && live.warning_received {
        seq![Event::WarningReceived { household: i }]
    } else {
        seq![]
    }) + decision_events(who, prev.action, live.action, live.profile)
}

/// The household's snapshot once its changes are recorded. An order and a
/// warning, once received, stay received.
pub open spec fn household_after(prev: HouseholdSnap, live: HouseholdSnap) -> HouseholdSnap {
    HouseholdSnap {
        status: live.status,
        ordered: prev.ordered || live.ordered,
        warning_received: prev.warning_received || live.warning_received,
        action: kept_action(prev.action, live.action),
        profile: live.profile,
    }
}

pub open spec fn household_events_upto(prev: Seq<HouseholdSnap>, live: Seq<HouseholdSnap>, n: int) -> Seq<Event>
    decreases n,
{
    if n <= 0 {
        seq![]
    } else {
        household_events_upto(prev, live, n - 1) + (if n - 1 < prev.len() {
            household_events((n - 1) as usize, prev[n - 1], live[n - 1])
        } else {
            seq![]
        })
    }
}

pub open spec fn orders_upto(prev: Seq<HouseholdSnap>, live: Seq<HouseholdSnap>, n: int) -> nat
    decreases n,
{
    if n <= 0 {
        0
    } else {
        orders_upto(prev, live, n - 1) + (if n - 1 < prev.len() && !prev[n - 1].ordered && live[n
            - 1].ordered {
            1nat
        } else {
            0nat
        })
    }
}

pub open spec fn casualties_upto(prev: Seq<HouseholdSnap>, live: Seq<HouseholdSnap>, n: int) -> nat
    decreases n,
{
    if n <= 0 {
        0
    } else {
        casualties_upto(prev, live, n - 1) + (if n - 1 < prev.len() && prev[n - 1].status
            != live[n - 1].status && live[n - 1].status == Status::Casualty {
            1nat
        } else {
            0nat
        })
    }
}

/// Everything a round over the households records: each household's own
/// events, then how many were newly ordered out and how many were lost, when
/// any were.
pub open spec fn household_round(prev: Seq<HouseholdSnap>, live: Seq<HouseholdSnap>) -> Seq<Event> {
    let n = live.len() as int;
    let orders = orders_upto(prev, live, n);
    let lost = casualties_upto(prev, live, n);
    household_events_upto(prev, live, n) + (if orders > 0 {
        seq![Event::EvacuationOrder { households: orders as usize }]
    } else {
        seq![]
    }) + (if lost > 0 {
        seq![Event::Casualties { households: lost as usize }]
    } else {
        seq![]
    })
}

/// Every household seen in both snapshots moves to its state after the round.
pub open spec fn households_after(prev: Seq<HouseholdSnap>, live: Seq<HouseholdSnap>) -> Seq<HouseholdSnap> {
    Seq::new(
        prev.len(),
        |i: int|
            if i < live.len() {
                household_after(prev[i], live[i])
            } else {
                prev[i]
            },
    )
}

/// What changed for person `i`.
pub open spec fn person_events(i: usize, prev: PersonSnap, live: PersonSnap) -> Seq<Event> {
    let who = Subject::Person(i);
    (if prev.status != live.status {
        seq![Event::Status { who, from: prev.status, to: live.status }]
    } else {
        seq![]
    }) + (if prev.away != live.away {
        seq![Event::Separation { person: i, away: live.away }]
    } else {
        seq![]
    }) + decision_events(who, prev.action, live.action, live.profile)
}

pub open spec fn person_after(prev: PersonSnap, live: PersonSnap) -> PersonSnap {
    PersonSnap {
        status: live.status,
        away: live.away,
        action: kept_action(prev.action, live.action),
        profile: live.profile,
    }
}

pub open spec fn person_events_upto(prev: Seq<PersonSnap>, live: Seq<PersonSnap>, n: int) -> Seq<Event>
    decreases n,
{
    if n <= 0 {
        seq![]
    } else {
        person_events_upto(prev, live, n - 1) + (if n - 1 < prev.len() {
            person_events((n - 1) as usize, prev[n - 1], live[n - 1])
        } else {
            seq![]
        })
    }
}

pub open spec fn people_after(prev: Seq<PersonSnap>, live: Seq<PersonSnap>) -> Seq<PersonSnap> {
    Seq::new(
        prev.len(),
        |i: int|
            if i < live.len() {
                person_after(prev[i], live[i])
            } else {
                prev[i]
            },
    )
}

/// What changed for unit `i`.
pub open spec fn unit_events(i: usize, prev: UnitSnap, live: UnitSnap) -> Seq<Event> {
    (if prev.state != live.state {
        seq![Event::UnitState { unit: i, from_state: prev.state, to_state: live.state }]
    } else {
        seq![]
    }) + (if prev.task != live.task {
        seq![Event::UnitTask { unit: i, task: live.task }]
    } else {
        seq![]
    }) + (if prev.drops != live.drops {
        seq![Event::DropCompleted { unit: i, total_drops: live.drops }]
    } else {
        seq![]
    })
}

pub open spec fn unit_events_upto(prev: Seq<UnitSnap>, live: Seq<UnitSnap>, n: int) -> Seq<Event>
    decreases n,
{
    if n <= 0 {
        seq![]
    } else {
        unit_events_upto(prev, live, n - 1) + (if n - 1 < prev.len() {
            unit_events((n - 1) as usize, prev[n - 1], live[n - 1])
        } else {
            seq![]
        })
    }
}

pub open spec fn units_after(prev: Seq<UnitSnap>, live: Seq<UnitSnap>) -> Seq<UnitSnap> {
    Seq::new(prev.len(), |i: int| if i < live.len() { live[i] } else { prev[i] })
}

/// The departure of traveller `idx`: filed under the traveller itself, and
/// under whoever is in it — the lone person, or the household.
pub open spec fn departure_events(idx: usize, t: TravellerInfo) -> Seq<Event> {
    let here = Event::Departed { who: Subject::Traveller(idx), household: t.household, car: t.car, members: t.members };
    if t.solo {
        match t.first_member {
            Some(pid) => seq![here, Event::Departed { who: Subject::Person(pid), household: t.household, car: t.car, members: t.members }],
            None => seq![here],
        }
    } else {
        seq![here, Event::Departed { who: Subject::Household(t.household), household: t.household, car: t.car, members: t.members }]
    }
}

pub open spec fn departures_from(live: Seq<TravellerInfo>, start: int) -> Seq<Event>
    decreases live.len() - start,
{
    if start >= live.len() || start < 0 {
        seq![]
    } else {
        departure_events(start as usize, live[start]) + departures_from(live, start + 1)
    }
}

pub open spec fn travel_events_upto(states: Seq<TravelState>, live: Seq<TravellerInfo>, n: int) -> Seq<Event>
    decreases n,
{
    if n <= 0 {
        seq![]
    } else {
        travel_events_upto(states, live, n - 1) + (if states[n - 1] != live[n - 1].state {
            seq![Event::TravelState { traveller: (n - 1) as usize, from_travel: states[n - 1], to_travel: live[n - 1].state }]
        } else {
            seq![]
        })
    }
}

/// Travellers only ever get appended, so the snapshot grows to match: every
/// new one departs, then each known one whose state moved reports it.
pub open spec fn traveller_round(prev: Seq<TravelState>, live: Seq<TravellerInfo>) -> Seq<Event> {
    if prev.len() >= live.len() {
        travel_events_upto(prev, live, live.len() as int)
    } else {
        departures_from(live, prev.len() as int) + travel_events_upto(
            prev + Seq::new((live.len() - prev.len()) as nat, |i: int| live[prev.len() + i].state),
            live,
            live.len() as int,
        )
    }
}

pub open spec fn travellers_after(prev: Seq<TravelState>, live: Seq<TravellerInfo>) -> Seq<TravelState> {
    if prev.len() >= live.len() {
        Seq::new(prev.len(), |i: int| if i < live.len() { live[i].state } else { prev[i] })
    } else {
        Seq::new(live.len(), |i: int| live[i].state)
    }
}

fn push_decision(
    who: Subject,
    prev: Option<ActionKind>,
    live: Option<ActionKind>,
    profile: Option<usize>,
    out: &mut Vec<Event>,
)
    ensures
        final(out)@ == old(out)@ + decision_events(who, prev, live, profile),
{
    match live {
        Some(a) => {
            if prev != Some(a) {
                out.push(Event::Decision { who, action: a, profile });
                assert(final(out)@ =~= old(out)@ + seq![Event::Decision { who, action: a, profile }]);
            } else {
                assert(final(out)@ =~= old(out)@ + Seq::<Event>::empty());
            }
        },
        None => {
            assert(final(out)@ =~= old(out)@ + Seq::<Event>::empty());
        },
    }
}

fn push_if(cond: bool, e: Event, out: &mut Vec<Event>)
    ensures
        final(out)@ == old(out)@ + (if cond { seq![e] } else { seq![] }),
{
    if cond {
        out.push(e);
        assert(final(out)@ =~= old(out)@ + seq![e]);
    } else {
        assert(final(out)@ =~= old(out)@ + Seq::<Event>::empty());
    }
}

fn household_step(i: usize, p: HouseholdSnap, h: HouseholdSnap, out: &mut Vec<Event>) -> (r: HouseholdSnap)
    ensures
        final(out)@ == old(out)@ + household_events(i, p, h),
        r == household_after(p, h),
{
    let ghost o = out@;
    let who = Subject::Household(i);
    push_if(p.status != h.status, Event::Status { who, from: p.status, to: h.status }, out);
    let ghost o1 = out@;
    push_if(!p.ordered && h.ordered, Event::OrderIssued { household: i }, out);
    let ghost o2 = out@;
    push_if(!p.warning_received && h.warning_received, Event::WarningReceived { household: i }, out);
    let ghost o3 = out@;
    push_decision(who, p.action, h.action, h.profile, out);
    proof {
        let a = (if p.status != h.status {
            seq![Event::Status { who, from: p.status, to: h.status }]
        } else {
            seq![]
        });
        let b = (if !p.ordered && h.ordered {
            seq![Event::OrderIssued { household: i }]
        } else {
            seq![]
        });
        let c = (if !p.warning_received && h.warning_received {
            seq![Event::WarningReceived { household: i }]
        } else {
            seq![]
        });
        let d = decision_events(who, p.action, h.action, h.profile);
        assert(out@ =~= o + (a + b + c + d));
    }
    let action = match h.action {
        Some(a) => Some(a),
        None => p.action,
    };
    HouseholdSnap {
        status: h.status,
        ordered: p.ordered || h.ordered,
        warning_received: p.warning_received || h.warning_received,
        action,
        profile: h.profile,
    }
}

/// Diff the households against their snapshot: append one event per change
/// to `out` (see [`household_round`]) and bring the snapshot up to date.
pub fn observe_households(prev: &mut Vec<HouseholdSnap>, live: &Vec<HouseholdSnap>, out: &mut Vec<Event>)
    ensures
        final(out)@ == old(out)@ + household_round(old(prev)@, live@),
        final(prev)@ == households_after(old(prev)@, live@),
{
    let ghost p0 = prev@;
    let ghost o0 = out@;
    let ghost l = live@;
    let mut orders: usize = 0;
    let mut lost: usize = 0;
    let mut i: usize = 0;
    while i < live.len()
        invariant
            l == live@,
            i <= l.len(),
            prev@.len() == p0.len(),
            forall|j: int| 0 <= j < prev@.len() ==> #[trigger] prev@[j] == (if j < i && j < l.len() {
                household_after(p0[j], l[j])
            } else {
                p0[j]
            }),
            out@ == o0 + household_events_upto(p0, l, i as int),
            orders == orders_upto(p0, l, i as int),
            lost == casualties_upto(p0, l, i as int),
            orders <= i,
            lost <= i,
        decreases live.len() - i,
    {
        let ghost before = out@;
        if i < prev.len() {
            let h = live[i];
            let p = prev[i];
            if p.status != h.status && h.status == Status::Casualty {
                lost = lost + 1;
            }
            if !p.ordered && h.ordered {
                orders = orders + 1;
            }
            let next = household_step(i, p, h, out);
            prev.set(i, next);
        }
        proof {
            assert(out@ =~= o0 + household_events_upto(p0, l, i + 1));
        }
        i = i + 1;
    }
    let ghost mid = out@;
    push_if(orders > 0, Event::EvacuationOrder { households: orders }, out);
    push_if(lost > 0, Event::Casualties { households: lost }, out);
    proof {
        assert(prev@ =~= households_after(p0, l));
        assert(out@ =~= o0 + household_round(p0, l));
    }
}

fn person_step(i: usize, p: PersonSnap, h: PersonSnap, out: &mut Vec<Event>) -> (r: PersonSnap)
    ensures
        final(out)@ == old(out)@ + person_events(i, p, h),
        r == person_after(p, h),
{
    let ghost o = out@;
    let who = Subject::Person(i);
    push_if(p.status != h.status, Event::Status { who, from: p.status, to: h.status }, out);
    push_if(p.away != h.away, Event::Separation { person: i, away: h.away }, out);
    push_decision(who, p.action, h.action, h.profile, out);
    proof {
        let a = (if p.status != h.status {
            seq![Event::Status { who, from: p.status, to: h.status }]
        } else {
            seq![]
        });
        let b = (if p.away != h.away {
            seq![Event::Separation { person: i, away: h.away }]
        } else {
            seq![]
        });
        let d = decision_events(who, p.action, h.action, h.profile);
        assert(out@ =~= o + (a + b + d));
    }
    let action = match h.action {
        Some(a) => Some(a),
        None => p.action,
    };
    PersonSnap { status: h.status, away: h.away, action, profile: h.profile }
}

/// Diff the people against their snapshot: status, separation from their
/// household, and their own decisions.
pub fn observe_people(prev: &mut Vec<PersonSnap>, live: &Vec<PersonSnap>, out: &mut Vec<Event>)
    ensures
        final(out)@ == old(out)@ + person_events_upto(old(prev)@, live@, live@.len() as int),
        final(prev)@ == people_after(old(prev)@, live@),
{
    let ghost p0 = prev@;
    let ghost o0 = out@;
    let ghost l = live@;
    let mut i: usize = 0;
    while i < live.len()
        invariant
            l == live@,
            i <= l.len(),
            prev@.len() == p0.len(),
            forall|j: int| 0 <= j < prev@.len() ==> #[trigger] prev@[j] == (if j < i && j < l.len() {
                person_after(p0[j], l[j])
            } else {
                p0[j]
            }),
            out@ == o0 + person_events_upto(p0, l, i as int),
        decreases live.len() - i,
    {
        if i < prev.len() {
            let next = person_step(i, prev[i], live[i], out);
            prev.set(i, next);
        }
        proof {
            assert(out@ =~= o0 + person_events_upto(p0, l, i + 1));
        }
        i = i + 1;
    }
    proof {
        assert(prev@ =~= people_after(p0, l));
    }
}

fn unit_step(i: usize, p: UnitSnap, u: UnitSnap, out: &mut Vec<Event>)
    ensures
        final(out)@ == old(out)@ + unit_events(i, p, u),
{
    let ghost o = out@;
    push_if(p.state != u.state, Event::UnitState { unit: i, from_state: p.state, to_state: u.state }, out);
    push_if(p.task != u.task, Event::UnitTask { unit: i, task: u.task }, out);
    push_if(p.drops != u.drops, Event::DropCompleted { unit: i, total_drops: u.drops }, out);
    proof {
        let a = (if p.state != u.state {
            seq![Event::UnitState { unit: i, from_state: p.state, to_state: u.state }]
        } else {
            seq![]
        });
        let b = (if p.task != u.task {
            seq![Event::UnitTask { unit: i, task: u.task }]
        } else {
            seq![]
        });
        let c = (if p.drops != u.drops {
            seq![Event::DropCompleted { unit: i, total_drops: u.drops }]
        } else {
            seq![]
        });
        assert(out@ =~= o + (a + b + c));
    }
}

/// Diff the units against their snapshot: state, order and drop count.
pub fn observe_units(prev: &mut Vec<UnitSnap>, live: &Vec<UnitSnap>, out: &mut Vec<Event>)
    ensures
        final(out)@ == old(out)@ + unit_events_upto(old(prev)@, live@, live@.len() as int),
        final(prev)@ == units_after(old(prev)@, live@),
{
    let ghost p0 = prev@;
    let ghost o0 = out@;
    let ghost l = live@;
    let mut i: usize = 0;
    while i < live.len()
        invariant
            l == live@,
            i <= l.len(),
            prev@.len() == p0.len(),
            forall|j: int| 0 <= j < prev@.len() ==> #[trigger] prev@[j] == (if j < i && j < l.len() {
                l[j]
            } else {
                p0[j]
            }),
            out@ == o0 + unit_events_upto(p0, l, i as int),
        decreases live.len() - i,
    {
        if i < prev.len() {
            unit_step(i, prev[i], live[i], out);
            prev.set(i, live[i]);
        }
        proof {
            assert(out@ =~= o0 + unit_events_upto(p0, l, i + 1));
        }
        i = i + 1;
    }
    proof {
        assert(prev@ =~= units_after(p0, l));
    }
}

fn departure_step(idx: usize, t: TravellerInfo, out: &mut Vec<Event>)
    ensures
        final(out)@ == old(out)@ + departure_events(idx, t),
{
    let here = Event::Departed { who: Subject::Traveller(idx), household: t.household, car: t.car, members: t.members };
    out.push(here);
    if t.solo {
        match t.first_member {
            Some(pid) => {
                out.push(Event::Departed { who: Subject::Person(pid), household: t.household, car: t.car, members: t.members });
            },
            None => {},
        }
    } else {
        out.push(Event::Departed { who: Subject::Household(t.household), household: t.household, car: t.car, members: t.members });
    }
    assert(final(out)@ =~= old(out)@ + departure_events(idx, t));
}

/// Diff the travellers: each one new since the last round departs (its
/// snapshot is appended), then each whose state moved reports the move.
pub fn observe_travellers(prev: &mut Vec<TravelState>, live: &Vec<TravellerInfo>, out: &mut Vec<Event>)
    ensures
        final(out)@ == old(out)@ + traveller_round(old(prev)@, live@),
        final(prev)@ == travellers_after(old(prev)@, live@),
{
    let ghost p0 = prev@;
    let ghost o0 = out@;
    let ghost l = live@;
    let ghost grown = if p0.len() >= l.len() {
        p0
    } else {
        p0 + Seq::new((l.len() - p0.len()) as nat, |i: int| l[p0.len() + i].state)
    };
    while prev.len() < live.len()
        invariant
            l == live@,
            p0.len() <= prev@.len(),
            prev@.len() <= l.len() || prev@ == p0,
            prev@.len() > p0.len() ==> prev@.len() <= l.len(),
            forall|j: int| 0 <= j < p0.len() ==> #[trigger] prev@[j] == p0[j],
            forall|j: int| p0.len() <= j < prev@.len() ==> #[trigger] prev@[j] == l[j].state,
            p0.len() < l.len() ==> out@ + departures_from(l, prev@.len() as int) == o0 + departures_from(l, p0.len() as int),
            p0.len() >= l.len() ==> out@ == o0,
        decreases live.len() - prev.len(),
    {
        let idx = prev.len();
        let t = live[idx];
        let ghost before = out@;
        departure_step(idx, t, out);
        prev.push(t.state);
        proof {
            assert(departures_from(l, idx as int) == departure_events(idx, t) + departures_from(l, idx + 1));
            assert(out@ + departures_from(l, idx + 1) =~= before + departures_from(l, idx as int));
        }
    }
    proof {
        if p0.len() < l.len() {
            assert(prev@.len() == l.len());
            assert(departures_from(l, l.len() as int) == Seq::<Event>::empty());
            assert(out@ =~= o0 + departures_from(l, p0.len() as int));
            assert(prev@ =~= grown);
        } else {
            assert(prev@ =~= grown);
        }
    }
    let ghost mid = out@;
    let mut i: usize = 0;
    while i < live.len()
        invariant
            l == live@,
            i <= l.len(),
            prev@.len() == grown.len(),
            grown.len() >= l.len(),
            forall|j: int| 0 <= j < prev@.len() ==> #[trigger] prev@[j] == (if j < i {
                l[j].state
            } else {
                grown[j]
            }),
            out@ == mid + travel_events_upto(grown, l, i as int),
        decreases live.len() - i,
    {
        let s = live[i].state;
        if prev[i] != s {
            out.push(Event::TravelState { traveller: i, from_travel: prev[i], to_travel: s });
            prev.set(i, s);
        }
        proof {
            assert(out@ =~= mid + travel_events_upto(grown, l, i + 1));
        }
        i = i + 1;
    }
    proof {
        assert(prev@ =~= travellers_after(p0, l));
        assert(out@ =~= o0 + traveller_round(p0, l));
    }
}

/// Observing a household twice without it changing records nothing the
/// second time: the snapshot after a round already agrees with the state.
pub proof fn household_diff_is_idempotent(i: usize, prev: HouseholdSnap, live: HouseholdSnap)
    ensures
        household_events(i, household_after(prev, live), live) == Seq::<Event>::empty(),
{
    assert(household_events(i, household_after(prev, live), live) =~= Seq::<Event>::empty());
}

/// The same for a person.
pub proof fn person_diff_is_idempotent(i: usize, prev: PersonSnap, live: PersonSnap)
    ensures
        person_events(i, person_after(prev, live), live) == Seq::<Event>::empty(),
{
    assert(person_events(i, person_after(prev, live), live) =~= Seq::<Event>::empty());
}

/// The same for a unit.
pub proof fn unit_diff_is_idempotent(i: usize, live: UnitSnap)
    ensures
        unit_events(i, live, live) == Seq::<Event>::empty(),
{
    assert(unit_events(i, live, live) =~= Seq::<Event>::empty());
}

/// Nothing that did not change is ever recorded: a household whose watched
/// fields are all as they were produces no event.
pub proof fn unchanged_household_is_silent(i: usize, h: HouseholdSnap)
    ensures
        household_events(i, h, h) == Seq::<Event>::empty(),
{
    assert(household_events(i, h, h) =~= Seq::<Event>::empty());
}

proof fn lemma_households_quiet(prev: Seq<HouseholdSnap>, live: Seq<HouseholdSnap>, n: int)
    requires
        prev.len() == live.len(),
        0 <= n <= live.len(),
    ensures
        household_events_upto(households_after(prev, live), live, n) == Seq::<Event>::empty(),
        orders_upto(households_after(prev, live), live, n) == 0,
        casualties_upto(households_after(prev, live), live, n) == 0,
    decreases n,
{
    if n > 0 {
        lemma_households_quiet(prev, live, n - 1);
        let after = households_after(prev, live);
        household_diff_is_idempotent((n - 1) as usize, prev[n - 1], live[n - 1]);
        assert(after[n - 1] == household_after(prev[n - 1], live[n - 1]));
        assert(household_events_upto(after, live, n) =~= Seq::<Event>::empty());
    }
}

proof fn lemma_people_quiet(prev: Seq<PersonSnap>, live: Seq<PersonSnap>, n: int)
    requires
        prev.len() == live.len(),
        0 <= n <= live.len(),
    ensures
        person_events_upto(people_after(prev, live), live, n) == Seq::<Event>::empty(),
    decreases n,
{
    if n > 0 {
        lemma_people_quiet(prev, live, n - 1);
        let after = people_after(prev, live);
        person_diff_is_idempotent((n - 1) as usize, prev[n - 1], live[n - 1]);
        assert(after[n - 1] == person_after(prev[n - 1], live[n - 1]));
        assert(person_events_upto(after, live, n) =~= Seq::<Event>::empty());
    }
}

proof fn lemma_units_quiet(prev: Seq<UnitSnap>, live: Seq<UnitSnap>, n: int)
    requires
        prev.len() == live.len(),
        0 <= n <= live.len(),
    ensures
        unit_events_upto(units_after(prev, live), live, n) == Seq::<Event>::empty(),
    decreases n,
{
    if n > 0 {
        lemma_units_quiet(prev, live, n - 1);
        let after = units_after(prev, live);
        unit_diff_is_idempotent((n - 1) as usize, live[n - 1]);
        assert(after[n - 1] == live[n - 1]);
        assert(unit_events_upto(after, live, n) =~= Seq::<Event>::empty());
    }
}

proof fn lemma_travel_quiet(states: Seq<TravelState>, live: Seq<TravellerInfo>, n: int)
    requires
        states.len() >= live.len(),
        0 <= n <= live.len(),
        forall|i: int| 0 <= i < live.len() ==> states[i] == live[i].state,
    ensures
        travel_events_upto(states, live, n) == Seq::<Event>::empty(),
    decreases n,
{
    if n > 0 {
        lemma_travel_quiet(states, live, n - 1);
        assert(travel_events_upto(states, live, n) =~= Seq::<Event>::empty());
    }
}

/// Observing the same agents twice records nothing the second time: once a
/// round has brought the snapshots up to date, a round over an unchanged
/// model adds no event for any household, person, group or unit (the
/// household, person and unit snapshots cover the same agents as the model).
pub proof fn second_look_records_nothing(
    hp: Seq<HouseholdSnap>,
    hl: Seq<HouseholdSnap>,
    pp: Seq<PersonSnap>,
    pl: Seq<PersonSnap>,
    up: Seq<UnitSnap>,
    ul: Seq<UnitSnap>,
    tp: Seq<TravelState>,
    tl: Seq<TravellerInfo>,
)
    requires
        hp.len() == hl.len(),
        pp.len() == pl.len(),
        up.len() == ul.len(),
    ensures
        household_round(households_after(hp, hl), hl) == Seq::<Event>::empty(),
        person_events_upto(people_after(pp, pl), pl, pl.len() as int) == Seq::<Event>::empty(),
        unit_events_upto(units_after(up, ul), ul, ul.len() as int) == Seq::<Event>::empty(),
        traveller_round(travellers_after(tp, tl), tl) == Seq::<Event>::empty(),
{
    lemma_households_quiet(hp, hl, hl.len() as int);
    assert(household_round(households_after(hp, hl), hl) =~= Seq::<Event>::empty());
    lemma_people_quiet(pp, pl, pl.len() as int);
    lemma_units_quiet(up, ul, ul.len() as int);
    lemma_travel_quiet(travellers_after(tp, tl), tl, tl.len() as int);
}

/// What a unit's events say is what it has now: a changed order is recorded
/// with the order the unit has been given (never the one it left), a change
/// of state from the old state to the new, and a completed drop with the new
/// total; nothing is recorded of what did not change.
pub proof fn unit_events_report_the_change(i: usize, prev: UnitSnap, live: UnitSnap)
    ensures
        prev.task != live.task ==> unit_events(i, prev, live).contains(Event::UnitTask { unit: i, task: live.task }),
        prev.state != live.state ==> unit_events(i, prev, live).contains(
            Event::UnitState { unit: i, from_state: prev.state, to_state: live.state },
        ),
        prev.drops != live.drops ==> unit_events(i, prev, live).contains(
            Event::DropCompleted { unit: i, total_drops: live.drops },
        ),
        forall|k: int|
            0 <= k < unit_events(i, prev, live).len() ==> match #[trigger] unit_events(i, prev, live)[k] {
                Event::UnitTask { unit, task } => unit == i && task == live.task && prev.task != live.task,
                Event::UnitState { unit, from_state, to_state } => unit == i && from_state == prev.state
                    && to_state == live.state && prev.state != live.state,
                Event::DropCompleted { unit, total_drops } => unit == i && total_drops == live.drops
                    && prev.drops != live.drops,
                _ => false,
            },
{
    let a = if prev.state != live.state {
        seq![Event::UnitState { unit: i, from_state: prev.state, to_state: live.state }]
    } else {
        seq![]
    };
    let b = if prev.task != live.task {
        seq![Event::UnitTask { unit: i, task: live.task }]
    } else {
        seq![]
    };
    let c = if prev.drops != live.drops {
        seq![Event::DropCompleted { unit: i, total_drops: live.drops }]
    } else {
        seq![]
    };
    let es = unit_events(i, prev, live);
    assert(es == a + b + c);
    if prev.task != live.task {
        assert(es[a.len() as int] == Event::UnitTask { unit: i, task: live.task });
    }
    if prev.state != live.state {
        assert(es[0] == Event::UnitState { unit: i, from_state: prev.state, to_state: live.state });
    }
    if prev.drops != live.drops {
        assert(es[(a.len() + b.len()) as int] == Event::DropCompleted { unit: i, total_drops: live.drops });
    }
}

/// The same of a household: a change of status is recorded from the old
/// status to the new, a decision with the action just taken, and an order
/// or a warning only on the tick it first arrives.
pub proof fn household_events_report_the_change(i: usize, prev: HouseholdSnap, live: HouseholdSnap)
    ensures
        prev.status != live.status ==> household_events(i, prev, live).contains(
            Event::Status { who: Subject::Household(i), from: prev.status, to: live.status },
        ),
        forall|k: int|
            0 <= k < household_events(i, prev, live).len() ==> match #[trigger] household_events(i, prev, live)[k] {
                Event::Status { who, from, to } => who == Subject::Household(i) && from == prev.status && to
                    == live.status && prev.status != live.status,
                Event::OrderIssued { household } => household == i && !prev.ordered && live.ordered,
                Event::WarningReceived { household } => household == i && !prev.warning_received
                    && live.warning_received,
                Event::Decision { who, action, profile } => who == Subject::Household(i) && live.action
                    == Some(action) && prev.action != Some(action) && profile == live.profile,
                _ => false,
            },
{
    let who = Subject::Household(i);
    let a = if prev.status != live.status {
        seq![Event::Status { who, from: prev.status, to: live.status }]
    } else {
        seq![]
    };
    let b = if !prev.ordered && live.ordered {
        seq![Event::OrderIssued { household: i }]
    } else {
        seq![]
    };
    let c = if !prev.warning_received && live.warning_received {
        seq![Event::WarningReceived { household: i }]
    } else {
        seq![]
    };
    let d = decision_events(who, prev.action, live.action, live.profile);
    let es = household_events(i, prev, live);
    assert(es == a + b + c + d);
    if prev.status != live.status {
        assert(es[0] == Event::Status { who, from: prev.status, to: live.status });
    }
}

/// The same of a person: a status change from old to new, a separation with
/// where the person is now, a decision with the action just taken.
pub proof fn person_events_report_the_change(i: usize, prev: PersonSnap, live: PersonSnap)
    ensures
        prev.away != live.away ==> person_events(i, prev, live).contains(
            Event::Separation { person: i, away: live.away },
        ),
        forall|k: int|
            0 <= k < person_events(i, prev, live).len() ==> match #[trigger] person_events(i, prev, live)[k] {
                Event::Status { who, from, to } => who == Subject::Person(i) && from == prev.status && to
                    == live.status && prev.status != live.status,
                Event::Separation { person, away } => person == i && away == live.away && prev.away
                    != live.away,
                Event::Decision { who, action, profile } => who == Subject::Person(i) && live.action == Some(
                    action,
                ) && prev.action != Some(action) && profile == live.profile,
                _ => false,
            },
{
    let who = Subject::Person(i);
    let a = if prev.status != live.status {
        seq![Event::Status { who, from: prev.status, to: live.status }]
    } else {
        seq![]
    };
    let b = if prev.away != live.away {
        seq![Event::Separation { person: i, away: live.away }]
    } else {
        seq![]
    };
    let d = decision_events(who, prev.action, live.action, live.profile);
    let es = person_events(i, prev, live);
    assert(es == a + b + d);
    if prev.away != live.away {
        assert(es[a.len() as int] == Event::Separation { person: i, away: live.away });
    }
}

pub open spec fn travel_move_ok(states: Seq<TravelState>, live: Seq<TravellerInfo>, n: int, e: Event) -> bool {
    match e {
        Event::TravelState { traveller, from_travel, to_travel } => traveller < n && from_travel
            == states[traveller as int] && to_travel == live[traveller as int].state && from_travel != to_travel,
        _ => false,
    }
}

/// A group's move is recorded from the state it had to the state it has
/// now, once for each group whose state moved, and for no other group.
pub proof fn travel_moves_read_from_old_to_new(states: Seq<TravelState>, live: Seq<TravellerInfo>, n: int)
    requires
        0 <= n <= states.len(),
        n <= live.len(),
        n <= usize::MAX + 1,
    ensures
        forall|k: int|
            0 <= k < travel_events_upto(states, live, n).len() ==> travel_move_ok(
                states,
                live,
                n,
                #[trigger] travel_events_upto(states, live, n)[k],
            ),
        forall|j: int|
            0 <= j < n && states[j] != live[j].state ==> travel_events_upto(states, live, n).contains(
                Event::TravelState { traveller: j as usize, from_travel: states[j], to_travel: live[j].state },
            ),
    decreases n,
{
    if n > 0 {
        travel_moves_read_from_old_to_new(states, live, n - 1);
        let before = travel_events_upto(states, live, n - 1);
        let e = Event::TravelState {
            traveller: (n - 1) as usize,
            from_travel: states[n - 1],
            to_travel: live[n - 1].state,
        };
        let tail = if states[n - 1] != live[n - 1].state {
            seq![e]
        } else {
            seq![]
        };
        let all = travel_events_upto(states, live, n);
        assert(all == before + tail);
        assert forall|k: int| 0 <= k < all.len() implies travel_move_ok(states, live, n, #[trigger] all[k]) by {
            if k < before.len() {
                assert(all[k] == before[k]);
                assert(travel_move_ok(states, live, n - 1, before[k]));
            } else {
                assert(all[k] == e);
            }
        }
        assert forall|j: int|
            0 <= j < n && states[j] != live[j].state implies all.contains(
                Event::TravelState { traveller: j as usize, from_travel: states[j], to_travel: live[j].state },
            ) by {
            let ej = Event::TravelState { traveller: j as usize, from_travel: states[j], to_travel: live[j].state };
            if j < n - 1 {
                let m = choose|m: int| 0 <= m < before.len() && before[m] == ej;
                assert(all[m] == ej);
            } else {
                assert(all[before.len() as int] == ej);
            }
        }
    }
}

/// A departure is filed under the group itself and under whoever is in it:
/// the one person who left alone, or the household; each record carries the
/// group's household, whether it took a car, and how many are in it.
pub proof fn departures_name_who_left(idx: usize, t: TravellerInfo)
    ensures
        departure_events(idx, t).len() >= 1,
        departure_events(idx, t)[0] == (Event::Departed {
            who: Subject::Traveller(idx),
            household: t.household,
            car: t.car,
            members: t.members,
        }),
        !t.solo ==> departure_events(idx, t) == seq![
            Event::Departed { who: Subject::Traveller(idx), household: t.household, car: t.car, members: t.members },
            Event::Departed { who: Subject::Household(t.household), household: t.household, car: t.car, members: t.members },
        ],
        t.solo && t.first_member is Some ==> departure_events(idx, t)[1] == (Event::Departed {
            who: Subject::Person(t.first_member.unwrap()),
            household: t.household,
            car: t.car,
            members: t.members,
        }),
{
}

pub open spec fn is_order(e: Event) -> bool {
    e is OrderIssued
}

pub open spec fn is_loss(e: Event) -> bool {
    e matches Event::Status { to, .. } && to == Status::Casualty
}

proof fn lemma_filter_one(e: Event, pred: spec_fn(Event) -> bool)
    ensures
        seq![e].filter(pred).len() == (if pred(e) {
            1int
        } else {
            0int
        }),
{
    Seq::<Event>::empty().lemma_filter_push(e, pred);
    assert(Seq::<Event>::empty().push(e) =~= seq![e]);
    assert(Seq::<Event>::empty().filter(pred) =~= Seq::<Event>::empty());
}

proof fn lemma_household_counts(i: usize, p: HouseholdSnap, l: HouseholdSnap)
    ensures
        household_events(i, p, l).filter(|e: Event| is_order(e)).len() == (if !p.ordered && l.ordered {
            1int
        } else {
            0int
        }),
        household_events(i, p, l).filter(|e: Event| is_loss(e)).len() == (if p.status != l.status
            && l.status == Status::Casualty {
            1int
        } else {
            0int
        }),
{
    let who = Subject::Household(i);
    let a = if p.status != l.status {
        seq![Event::Status { who, from: p.status, to: l.status }]
    } else {
        seq![]
    };
    let b = if !p.ordered && l.ordered {
        seq![Event::OrderIssued { household: i }]
    } else {
        seq![]
    };
    let c = if !p.warning_received && l.warning_received {
        seq![Event::WarningReceived { household: i }]
    } else {
        seq![]
    };
    let d = decision_events(who, p.action, l.action, l.profile);
    assert(household_events(i, p, l) == a + b + c + d);
    let po = |e: Event| is_order(e);
    let pl = |e: Event| is_loss(e);
    Seq::filter_distributes_over_add(a + b + c, d, po);
    Seq::filter_distributes_over_add(a + b, c, po);
    Seq::filter_distributes_over_add(a, b, po);
    Seq::filter_distributes_over_add(a + b + c, d, pl);
    Seq::filter_distributes_over_add(a + b, c, pl);
    Seq::filter_distributes_over_add(a, b, pl);
    assert(Seq::<Event>::empty().filter(po) =~= Seq::<Event>::empty());
    assert(Seq::<Event>::empty().filter(pl) =~= Seq::<Event>::empty());
    if p.status != l.status {
        lemma_filter_one(Event::Status { who, from: p.status, to: l.status }, po);
        lemma_filter_one(Event::Status { who, from: p.status, to: l.status }, pl);
    }
    if !p.ordered && l.ordered {
        lemma_filter_one(Event::OrderIssued { household: i }, po);
        lemma_filter_one(Event::OrderIssued { household: i }, pl);
    }
    if !p.warning_received && l.warning_received {
        lemma_filter_one(Event::WarningReceived { household: i }, po);
        lemma_filter_one(Event::WarningReceived { household: i }, pl);
    }
    match l.action {
        Some(x) => if p.action != Some(x) {
            lemma_filter_one(Event::Decision { who, action: x, profile: l.profile }, po);
            lemma_filter_one(Event::Decision { who, action: x, profile: l.profile }, pl);
        },
        None => {},
    }
}

/// The round's counts agree with its events: the number of households the
/// evacuation order reached this round is the number of order events
/// recorded for households, and the number lost is the number of status
/// events into casualty.
pub proof fn round_counts_match_the_events(prev: Seq<HouseholdSnap>, live: Seq<HouseholdSnap>, n: int)
    requires
        0 <= n <= live.len(),
        n <= usize::MAX + 1,
    ensures
        orders_upto(prev, live, n) == household_events_upto(prev, live, n).filter(|e: Event| is_order(e)).len(),
        casualties_upto(prev, live, n) == household_events_upto(prev, live, n).filter(|e: Event| is_loss(e)).len(),
    decreases n,
{
    let po = |e: Event| is_order(e);
    let pl = |e: Event| is_loss(e);
    if n <= 0 {
        assert(household_events_upto(prev, live, n) =~= Seq::<Event>::empty());
        assert(Seq::<Event>::empty().filter(po) =~= Seq::<Event>::empty());
        assert(Seq::<Event>::empty().filter(pl) =~= Seq::<Event>::empty());
    } else {
        round_counts_match_the_events(prev, live, n - 1);
        let before = household_events_upto(prev, live, n - 1);
        let tail = if n - 1 < prev.len() {
            household_events((n - 1) as usize, prev[n - 1], live[n - 1])
        } else {
            seq![]
        };
        assert(household_events_upto(prev, live, n) == before + tail);
        Seq::filter_distributes_over_add(before, tail, po);
        Seq::filter_distributes_over_add(before, tail, pl);
        if n - 1 < prev.len() {
            lemma_household_counts((n - 1) as usize, prev[n - 1], live[n - 1]);
        } else {
            assert(Seq::<Event>::empty().filter(po) =~= Seq::<Event>::empty());
            assert(Seq::<Event>::empty().filter(pl) =~= Seq::<Event>::empty());
        }
    }
}

} // verus!
