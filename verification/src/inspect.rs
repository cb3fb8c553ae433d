//! Click-to-inspect: what can be selected, how a selection is named, and the
//! selection an unattended run asks to watch.
use vstd::prelude::*;
use crate::changes::TravellerInfo;
use crate::model::{Intent, Status, Subject, TravelState};
use crate::recall::{SubjectKind, SubjectRef};
use crate::text::{decimal, decimal_string, parsed_usize, parse_usize, split_first, split_once, str_eq, trim, trimmed};

verus! {

/// Something on the map the inspector can show.
#[derive(Debug, Clone, Copy, PartialEq, Eq, Structural)]
pub enum Target {
    Household(usize),
    Person(usize),
    /// A group on the move: followed as a group, whether it is in a car or
    /// has left it and gone on on foot.
    Traveller(usize),
    /// An engine, hand crew or air tanker.
    Unit(usize),
}

/// What is selected, and what an unattended run pinned.
pub struct Selected {
    target: Option<Target>,
    /// A selection asked for at start-up, restored after a restart. Only ever
    /// set by [`Selected::watching`].
    pinned: Option<Target>,
}

/// The target a watch request such as `household:12` names. Without a `:`
/// the whole request is the kind and the id is `0`; an id that does not
/// parse is `0` too.
pub open spec fn watched(spec: Seq<char>) -> Option<Target> {
    let (kind, id) = match split_first(spec, ':') {
        Some((k, i)) => (k, i),
        None => (spec, "0"@),
    };
    let n: usize = match parsed_usize(trimmed(id)) {
        Some(v) => v as usize,
        None => 0,
    };
    let k = trimmed(kind);
    if k == "household"@ || k == "hh"@ {
        Some(Target::Household(n))
    } else if k == "person"@ {
        Some(Target::Person(n))
    } else if k == "unit"@ {
        Some(Target::Unit(n))
    } else {
        None
    }
}

/// See [`watched`].
pub fn watch_target(spec: &str) -> (r: Option<Target>)
    ensures
        r == watched(spec@),
{
    proof {
        reveal_strlit("0");
    }
    let (kind, id) = match split_once(spec, ':') {
        Some((k, i)) => (k, i),
        None => (spec, "0"),
    };
    let n: usize = match parse_usize(trim(id)) {
        Some(v) => v,
        None => 0,
    };
    let k = trim(kind);
    if str_eq(k, "household") || str_eq(k, "hh") {
        Some(Target::Household(n))
    } else if str_eq(k, "person") {
        Some(Target::Person(n))
    } else if str_eq(k, "unit") {
        Some(Target::Unit(n))
    } else {
        None
    }
}

impl Selected {
    pub closed spec fn current(&self) -> Option<Target> {
        self.target
    }

    pub closed spec fn pinned_target(&self) -> Option<Target> {
        self.pinned
    }

    /// What is selected now.
    pub fn target(&self) -> (r: Option<Target>)
        ensures
            r == self.current(),
    {
        self.target
    }

    /// Select something else, or nothing; what is pinned stays pinned.
    pub fn select(&mut self, target: Option<Target>)
        ensures
            final(self).current() == target,
            final(self).pinned_target() == old(self).pinned_target(),
    {
        self.target = target;
    }

    /// Nothing selected and nothing pinned.
    pub fn new() -> (r: Selected)
        ensures
            r.current().is_none(),
            r.pinned_target().is_none(),
    {
        Selected { target: None, pinned: None }
    }

    /// The selection a watch request asks for, pinned so that it survives a
    /// restart; no request selects nothing.
    pub fn watching(spec: Option<&str>) -> (r: Selected)
        ensures
            r.current() == match spec {
                Some(s) => watched(s@),
                None => None,
            },
            r.pinned_target() == r.current(),
    {
        let target = match spec {
            Some(s) => watch_target(s),
            None => None,
        };
        Selected { target, pinned: target }
    }

    /// After a restart only a pinned selection survives: a traveller's index
    /// names a slot in a list that was rebuilt.
    pub fn restart(&mut self)
        ensures
            final(self).current() == old(self).pinned_target(),
            final(self).pinned_target() == old(self).pinned_target(),
    {
        self.target = self.pinned;
    }
}

pub open spec fn title_words(target: Target) -> Seq<char> {
    match target {
        Target::Household(id) => "Household #"@ + decimal(id as nat),
        Target::Person(id) => "Person #"@ + decimal(id as nat),
        Target::Traveller(_) => "On the move"@,
        Target::Unit(id) => "Unit #"@ + decimal(id as nat),
    }
}

/// The inspector window's title.
pub fn title(target: Target) -> (r: String)
    ensures
        r@ == title_words(target),
{
    let (prefix, id) = match target {
        Target::Household(id) => ("Household #", id),
        Target::Person(id) => ("Person #", id),
        Target::Traveller(_) => {
            return String::from_str("On the move");
        },
        Target::Unit(id) => ("Unit #", id),
    };
    let mut s = String::from_str(prefix);
    let d = decimal_string(id as u64);
    s.append(d.as_str());
    s
}

/// `n` below a hundred, in two digits.
pub open spec fn two_digits(n: nat) -> Seq<char> {
    if n < 10 {
        seq!['0'] + decimal(n)
    } else {
        decimal(n)
    }
}

/// Whole seconds as minutes and seconds, negative times as zero.
pub open spec fn mmss_words(s: int) -> Seq<char> {
    let t: nat = if s < 0 {
        0
    } else {
        s as nat
    };
    decimal(t / 60) + ":"@ + two_digits(t % 60)
}

/// `m:ss`, the history list's clock.
pub fn mmss(s: i64) -> (r: String)
    ensures
        r@ == mmss_words(s as int),
{
    let t: u64 = if s < 0 {
        0
    } else {
        s as u64
    };
    let mut out = decimal_string(t / 60);
    out.append(":");
    if t % 60 < 10 {
        out.append("0");
    }
    let d = decimal_string(t % 60);
    out.append(d.as_str());
    proof {
        reveal_strlit(":");
        reveal_strlit("0");
    }
    out
}

/// Whose row of the event log a target's history is.
pub open spec fn subject_for(target: Target) -> Subject {
    match target {
        Target::Household(id) => Subject::Household(id),
        Target::Person(id) => Subject::Person(id),
        Target::Traveller(i) => Subject::Traveller(i),
        Target::Unit(id) => Subject::Unit(id),
    }
}

/// See [`subject_for`].
pub fn subject_of(target: Target) -> (r: Subject)
    ensures
        r == subject_for(target),
{
    match target {
        Target::Household(id) => Subject::Household(id),
        Target::Person(id) => Subject::Person(id),
        Target::Traveller(i) => Subject::Traveller(i),
        Target::Unit(id) => Subject::Unit(id),
    }
}

/// Who answers when a target is interviewed. A vehicle is not a person: it
/// resolves to whoever is in it, the household it belongs to or the one
/// person who left on their own; `traveller` is what the model has at the
/// target's index, if anything.
pub open spec fn interviewee(target: Target, traveller: Option<TravellerInfo>) -> Option<SubjectRef> {
    match target {
        Target::Household(id) => Some(SubjectRef { kind: SubjectKind::Household, id: id as i64 }),
        Target::Person(id) => Some(SubjectRef { kind: SubjectKind::Person, id: id as i64 }),
        Target::Unit(id) => Some(SubjectRef { kind: SubjectKind::Unit, id: id as i64 }),
        Target::Traveller(_) => match traveller {
            None => None,
            Some(t) => if t.solo {
                match t.first_member {
                    Some(p) => Some(SubjectRef { kind: SubjectKind::Person, id: p as i64 }),
                    None => None,
                }
            } else {
                Some(SubjectRef { kind: SubjectKind::Household, id: t.household as i64 })
            },
        },
    }
}

/// See [`interviewee`].
pub fn interview_subject(target: Target, traveller: Option<TravellerInfo>) -> (r: Option<SubjectRef>)
    ensures
        r == interviewee(target, traveller),
{
    match target {
        Target::Household(id) => Some(SubjectRef { kind: SubjectKind::Household, id: id as i64 }),
        Target::Person(id) => Some(SubjectRef { kind: SubjectKind::Person, id: id as i64 }),
        Target::Unit(id) => Some(SubjectRef { kind: SubjectKind::Unit, id: id as i64 }),
        Target::Traveller(_) => match traveller {
            None => None,
            Some(t) => if t.solo {
                match t.first_member {
                    Some(p) => Some(SubjectRef { kind: SubjectKind::Person, id: p as i64 }),
                    None => None,
                }
            } else {
                Some(SubjectRef { kind: SubjectKind::Household, id: t.household as i64 })
            },
        },
    }
}

/// A household is picked at its building while anyone is left in it.
pub fn household_pickable(status: Status) -> (r: bool)
    ensures
        r == (status != Status::Evacuated),
{
    status != Status::Evacuated
}

/// A person has a figure of their own on the map while out of the house —
/// evacuating or trapped — and not riding in a car that is still moving;
/// `riding` is their group's mode (car or not) and state, if they have one.
pub open spec fn person_drawn(status: Status, riding: Option<(bool, TravelState)>) -> bool {
    let in_vehicle = match riding {
        Some((car, state)) => car && state != TravelState::Cutoff,
        None => false,
    };
    (status == Status::Evacuating || status == Status::Trapped) && !in_vehicle
}

/// See [`person_drawn`].
pub fn person_pickable(status: Status, riding: Option<(bool, TravelState)>) -> (r: bool)
    ensures
        r == person_drawn(status, riding),
{
    let in_vehicle = match riding {
        Some((car, state)) => car && state != TravelState::Cutoff,
        None => false,
    };
    (status == Status::Evacuating || status == Status::Trapped) && !in_vehicle
}

/// A car is drawn, and so picked, while it is actually on the move.
pub fn traveller_pickable(state: TravelState, car: bool) -> (r: bool)
    ensures
        r == ((state == TravelState::Approaching || state == TravelState::OnNetwork) && car),
{
    (state == TravelState::Approaching || state == TravelState::OnNetwork) && car
}

/// Where an evacuation order stands for a household: received, on its way
/// to it, or never given.
pub open spec fn order_state_words(ordered: bool, warning_received: bool) -> Seq<char> {
    if warning_received {
        "yes"@
    } else if ordered {
        "in transit"@
    } else {
        "—"@
    }
}

/// See [`order_state_words`].
pub fn order_received(ordered: bool, warning_received: bool) -> (r: &'static str)
    ensures
        r@ == order_state_words(ordered, warning_received),
{
    if warning_received {
        "yes"
    } else if ordered {
        "in transit"
    } else {
        "—"
    }
}

pub open spec fn intent_words_here(i: Intent) -> Seq<char> {
    match i {
        Intent::LeaveEarly => "leave early"@,
        Intent::WaitAndSee => "wait and see"@,
        Intent::StayDefend => "stay and defend"@,
    }
}

/// The inspector's words for what a household said it would do.
pub fn intent_label(i: Intent) -> (r: &'static str)
    ensures
        r@ == intent_words_here(i),
{
    match i {
        Intent::LeaveEarly => "leave early",
        Intent::WaitAndSee => "wait and see",
        Intent::StayDefend => "stay and defend",
    }
}

/// How many of the newest history entries the inspector lists.
pub const HISTORY_SHOWN: usize = 40;

/// The history section's heading, and the note on what is left out: all
/// but the newest [`HISTORY_SHOWN`] events, when there are more.
pub open spec fn history_words(n: nat) -> (Seq<char>, Option<Seq<char>>) {
    (
        "History ("@ + decimal(n) + ")"@,
        if n > HISTORY_SHOWN {
            Some("… "@ + decimal((n - HISTORY_SHOWN) as nat) + " earlier"@)
        } else {
            None
        },
    )
}

/// See [`history_words`]; also the index of the first event listed.
pub fn history_heading(n: usize) -> (r: (String, Option<String>, usize))
    ensures
        (r.0@, match r.1 {
            Some(s) => Some(s@),
            None => None,
        }) == history_words(n as nat),
        r.2 == if n > HISTORY_SHOWN {
            n - HISTORY_SHOWN
        } else {
            0
        },
{
    let mut head = String::from_str("History (");
    let d = decimal_string(n as u64);
    head.append(d.as_str());
    head.append(")");
    let skip: usize = if n > HISTORY_SHOWN {
        n - HISTORY_SHOWN
    } else {
        0
    };
    let note = if skip > 0 {
        let mut s = String::from_str("… ");
        let k = decimal_string(skip as u64);
        s.append(k.as_str());
        s.append(" earlier");
        Some(s)
    } else {
        None
    };
    (head, note, skip)
}

} // verus!
