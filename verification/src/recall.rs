//! What an interviewed agent knows, said the way they would say it.
//!
//! The event log stores `status: normal -> warned`, which is right for a log
//! and useless as a memory: handed that, a language model repeats the jargon.
//! Every kind of event an agent could have lived through has an in-character
//! reading here, and the ones that are the model talking to itself — a
//! commander's order the household has not heard yet, an event this version
//! does not know — are dropped rather than guessed at.
use vstd::prelude::*;
use crate::model::{Intent, Status, TaskKind, UnitKind, WarningChannel};
use crate::text::{
    decimal, decimal_string, lemma_occurs_in_itself, lemma_occurs_in_joined, occurs, occurs_at, signed_decimal,
    signed_decimal_string, str_eq,
};

verus! {

/// The three kinds of agent that can be interviewed.
#[derive(Debug, Clone, Copy, PartialEq, Eq, Structural)]
pub enum SubjectKind {
    Household,
    Person,
    Unit,
}

/// The fields of a logged event's detail that a recollection reads. A field
/// is `None` when the detail does not carry it with the expected type.
pub struct Detail {
    pub from: Option<String>,
    pub to: Option<String>,
    pub members: Option<u64>,
    pub away: Option<bool>,
    pub mode: Option<String>,
    pub note: Option<String>,
    pub task: Option<String>,
    pub action: Option<String>,
    pub total_drops: Option<u64>,
    pub households: Option<u64>,
}

pub struct DetailView {
    pub from: Option<Seq<char>>,
    pub to: Option<Seq<char>>,
    pub members: Option<u64>,
    pub away: Option<bool>,
    pub mode: Option<Seq<char>>,
    pub note: Option<Seq<char>>,
    pub task: Option<Seq<char>>,
    pub action: Option<Seq<char>>,
    pub total_drops: Option<u64>,
    pub households: Option<u64>,
}

pub open spec fn text_view(o: Option<String>) -> Option<Seq<char>> {
    match o {
        Some(s) => Some(s@),
        None => None,
    }
}

impl View for Detail {
    type V = DetailView;

    open spec fn view(&self) -> DetailView {
        DetailView {
            from: text_view(self.from),
            to: text_view(self.to),
            members: self.members,
            away: self.away,
            mode: text_view(self.mode),
            note: text_view(self.note),
            task: text_view(self.task),
            action: text_view(self.action),
            total_drops: self.total_drops,
            households: self.households,
        }
    }
}

pub open spec fn or_text(o: Option<Seq<char>>, default: Seq<char>) -> Seq<char> {
    match o {
        Some(s) => s,
        None => default,
    }
}

pub open spec fn status_memory(to: Seq<char>) -> Option<Seq<char>> {
    if to == "warned"@ {
        Some("you realised something was going on"@)
    } else if to == "preparing"@ {
        Some("you started getting ready to leave"@)
    } else if to == "evacuating"@ {
        Some("you left"@)
    } else if to == "evacuated / safe"@ {
        Some("you got clear"@)
    } else if to == "defending"@ {
        Some("you decided to stay and hold the house"@)
    } else if to == "trapped"@ {
        Some("the way out was cut and you had to shelter"@)
    } else if to == "casualty"@ {
        Some("it went badly wrong for you"@)
    } else {
        None
    }
}

pub open spec fn departure_memory(mode: Seq<char>, members: u64) -> Seq<char> {
    if mode == "car"@ {
        if members == 1 {
            "you got in the car and went"@
        } else {
            "all "@ + decimal(members as nat) + " of you got in the car and went"@
        }
    } else {
        if members == 1 {
            "you set off on foot"@
        } else {
            "the "@ + decimal(members as nat) + " of you set off on foot"@
        }
    }
}

pub open spec fn travel_memory(to: Seq<char>) -> Option<Seq<char>> {
    if to == "abandoned the car"@ {
        Some("you had to leave the car and go on foot"@)
    } else if to == "blocked"@ {
        Some("the road ahead was blocked"@)
    } else if to == "safe"@ {
        Some("you reached somewhere safe"@)
    } else {
        None
    }
}

pub open spec fn unit_state_base(to: Seq<char>) -> Option<Seq<char>> {
    if to == "responding"@ {
        Some("you were sent out"@)
    } else if to == "working"@ {
        Some("you got to work"@)
    } else if to == "refilling"@ {
        Some("you broke off to take on water"@)
    } else if to == "withdrawing"@ {
        Some("you pulled back"@)
    } else if to == "staged"@ {
        Some("you were back at staging"@)
    } else if to == "inbound"@ {
        Some("you were called in and started the run"@)
    } else {
        None
    }
}

pub open spec fn unit_task_memory(task: Option<Seq<char>>) -> Option<Seq<char>> {
    match task {
        Some(t) => if t == "attack"@ {
            Some("you were ordered onto the fire edge"@)
        } else if t == "line"@ {
            Some("you were ordered to cut a line"@)
        } else if t == "drop"@ {
            Some("you were given a drop to make"@)
        } else if t == "return"@ {
            Some("you were ordered back to staging"@)
        } else if t == "hold"@ {
            Some("you were told to stand by"@)
        } else {
            None
        },
        None => None,
    }
}

/// One logged event as the agent would remember it, or `None` for the ones
/// they could not remember: an order still on its way to them, another kind
/// of agent's event, or an event or state this version does not know.
pub open spec fn recollection_of(kind: SubjectKind, event: Seq<char>, d: DetailView) -> Option<Seq<char>> {
    let to = or_text(d.to, ""@);
    if event == "status"@ {
        status_memory(to)
    } else if event == "warning_received"@ {
        Some("the evacuation order reached you"@)
    } else if event == "order_issued"@ {
        None
    } else if event == "separation"@ {
        if d.away == Some(true) {
            Some("you found yourself away from the others"@)
        } else {
            Some("you got back to your family"@)
        }
    } else if event == "departed"@ {
        Some(
            departure_memory(
                or_text(d.mode, "foot"@),
                match d.members {
                    Some(m) => m,
                    None => 0,
                },
            ),
        )
    } else if event == "travel_state"@ {
        travel_memory(to)
    } else if event == "unit_state"@ {
        if kind != SubjectKind::Unit {
            None
        } else {
            match unit_state_base(to) {
                Some(base) => {
                    let note = or_text(d.note, ""@);
                    if note.len() == 0 {
                        Some(base)
                    } else {
                        Some(base + " — "@ + note)
                    }
                },
                None => None,
            }
        }
    } else if event == "unit_task"@ {
        if kind != SubjectKind::Unit {
            None
        } else {
            unit_task_memory(d.task)
        }
    } else if event == "drop_completed"@ {
        if kind != SubjectKind::Unit {
            None
        } else {
            Some("you put a load down"@)
        }
    } else if event == "decision"@ {
        Some("you made up your mind: "@ + or_text(d.action, ""@))
    } else {
        None
    }
}

fn owned(s: &str) -> (r: Option<String>)
    ensures
        r is Some,
        r.unwrap()@ == s@,
{
    Some(String::from_str(s))
}

/// The text in `o`, or `default` when there is none.
pub fn text_or<'a>(o: &'a Option<String>, default: &'a str) -> (r: &'a str)
    ensures
        r@ == or_text(text_view(*o), default@),
{
    match o {
        Some(s) => s.as_str(),
        None => default,
    }
}

fn status_recollection(to: &str) -> (r: Option<String>)
    ensures
        text_view(r) == status_memory(to@),
{
    if str_eq(to, "warned") {
        owned("you realised something was going on")
    } else if str_eq(to, "preparing") {
        owned("you started getting ready to leave")
    } else if str_eq(to, "evacuating") {
        owned("you left")
    } else if str_eq(to, "evacuated / safe") {
        owned("you got clear")
    } else if str_eq(to, "defending") {
        owned("you decided to stay and hold the house")
    } else if str_eq(to, "trapped") {
        owned("the way out was cut and you had to shelter")
    } else if str_eq(to, "casualty") {
        owned("it went badly wrong for you")
    } else {
        None
    }
}

fn departure_recollection(mode: &str, members: u64) -> (r: String)
    ensures
        r@ == departure_memory(mode@, members),
{
    if str_eq(mode, "car") {
        if members == 1 {
            String::from_str("you got in the car and went")
        } else {
            let mut s = String::from_str("all ");
            let n = decimal_string(members);
            s.append(n.as_str());
            s.append(" of you got in the car and went");
            s
        }
    } else {
        if members == 1 {
            String::from_str("you set off on foot")
        } else {
            let mut s = String::from_str("the ");
            let n = decimal_string(members);
            s.append(n.as_str());
            s.append(" of you set off on foot");
            s
        }
    }
}

fn travel_recollection(to: &str) -> (r: Option<String>)
    ensures
        text_view(r) == travel_memory(to@),
{
    if str_eq(to, "abandoned the car") {
        owned("you had to leave the car and go on foot")
    } else if str_eq(to, "blocked") {
        owned("the road ahead was blocked")
    } else if str_eq(to, "safe") {
        owned("you reached somewhere safe")
    } else {
        None
    }
}

fn unit_state_recollection(to: &str, note: &str) -> (r: Option<String>)
    ensures
        text_view(r) == (match unit_state_base(to@) {
            Some(base) => if note@.len() == 0 {
                Some(base)
            } else {
                Some(base + " — "@ + note@)
            },
            None => None,
        }),
{
    let base: &str = if str_eq(to, "responding") {
        "you were sent out"
    } else if str_eq(to, "working") {
        "you got to work"
    } else if str_eq(to, "refilling") {
        "you broke off to take on water"
    } else if str_eq(to, "withdrawing") {
        "you pulled back"
    } else if str_eq(to, "staged") {
        "you were back at staging"
    } else if str_eq(to, "inbound") {
        "you were called in and started the run"
    } else {
        return None;
    };
    let mut s = String::from_str(base);
    if note.unicode_len() > 0 {
        s.append(" — ");
        s.append(note);
    }
    Some(s)
}

fn unit_task_recollection(task: &Option<String>) -> (r: Option<String>)
    ensures
        text_view(r) == unit_task_memory(text_view(*task)),
{
    match task {
        Some(t) => {
            let t = t.as_str();
            if str_eq(t, "attack") {
                owned("you were ordered onto the fire edge")
            } else if str_eq(t, "line") {
                owned("you were ordered to cut a line")
            } else if str_eq(t, "drop") {
                owned("you were given a drop to make")
            } else if str_eq(t, "return") {
                owned("you were ordered back to staging")
            } else if str_eq(t, "hold") {
                owned("you were told to stand by")
            } else {
                None
            }
        },
        None => None,
    }
}

/// See [`recollection_of`].
pub fn recollection(kind: SubjectKind, event: &str, d: &Detail) -> (r: Option<String>)
    ensures
        text_view(r) == recollection_of(kind, event@, d@),
{
    let to = text_or(&d.to, "");
    if str_eq(event, "status") {
        status_recollection(to)
    } else if str_eq(event, "warning_received") {
        owned("the evacuation order reached you")
    } else if str_eq(event, "order_issued") {
        None
    } else if str_eq(event, "separation") {
        if d.away == Some(true) {
            owned("you found yourself away from the others")
        } else {
            owned("you got back to your family")
        }
    } else if str_eq(event, "departed") {
        let members = match d.members {
            Some(m) => m,
            None => 0,
        };
        Some(departure_recollection(text_or(&d.mode, "foot"), members))
    } else if str_eq(event, "travel_state") {
        travel_recollection(to)
    } else if str_eq(event, "unit_state") {
        if kind != SubjectKind::Unit {
            None
        } else {
            unit_state_recollection(to, text_or(&d.note, ""))
        }
    } else if str_eq(event, "unit_task") {
        if kind != SubjectKind::Unit {
            None
        } else {
            unit_task_recollection(&d.task)
        }
    } else if str_eq(event, "drop_completed") {
        if kind != SubjectKind::Unit {
            None
        } else {
            owned("you put a load down")
        }
    } else if str_eq(event, "decision") {
        let mut s = String::from_str("you made up your mind: ");
        s.append(text_or(&d.action, ""));
        Some(s)
    } else {
        None
    }
}

/// A commander's order is not a memory until it arrives: the household knows
/// nothing of `order_issued`, whatever its detail says, and always remembers
/// the warning reaching it.
pub proof fn orders_are_remembered_on_arrival(kind: SubjectKind, d: DetailView)
    ensures
        recollection_of(kind, "order_issued"@, d).is_none(),
        recollection_of(kind, "warning_received"@, d).is_some(),
{
    reveal_strlit("order_issued");
    reveal_strlit("status");
    reveal_strlit("warning_received");
    assert("order_issued"@.len() == 12);
    assert("status"@.len() == 6);
    assert("warning_received"@.len() == 16);
    assert("order_issued"@ != "status"@);
    assert("order_issued"@ != "warning_received"@);
    assert("warning_received"@ != "status"@);
}

/// Being separated is remembered by where the person ended up: away from
/// the others when the event says they are away, back with the family
/// otherwise, and the two memories are different words.
pub proof fn separation_is_remembered_by_where_one_ended_up(kind: SubjectKind, d: DetailView)
    ensures
        d.away == Some(true) ==> recollection_of(kind, "separation"@, d) == Some(
            "you found yourself away from the others"@,
        ),
        d.away != Some(true) ==> recollection_of(kind, "separation"@, d) == Some("you got back to your family"@),
        "you found yourself away from the others"@ != "you got back to your family"@,
{
    reveal_strlit("separation");
    reveal_strlit("order_issued");
    reveal_strlit("status");
    reveal_strlit("warning_received");
    reveal_strlit("you found yourself away from the others");
    reveal_strlit("you got back to your family");
    assert("separation"@.len() == 10);
    assert("order_issued"@.len() == 12);
    assert("status"@.len() == 6);
    assert("warning_received"@.len() == 16);
    assert("separation"@ != "status"@);
    assert("separation"@ != "order_issued"@);
    assert("separation"@ != "warning_received"@);
    assert("you found yourself away from the others"@.len() != "you got back to your family"@.len());
}

/// A change of state is remembered by where the agent ended up, never by
/// where it came from: two details that agree on the new state (and, for a
/// unit, on the note) give the same memory of a status change, a change on
/// the road or a unit's change of state.
pub proof fn memories_follow_where_one_ended_up(kind: SubjectKind, d1: DetailView, d2: DetailView)
    ensures
        d1.to == d2.to ==> recollection_of(kind, "status"@, d1) == recollection_of(kind, "status"@, d2),
        d1.to == d2.to ==> recollection_of(kind, "travel_state"@, d1) == recollection_of(
            kind,
            "travel_state"@,
            d2,
        ),
        d1.to == d2.to && d1.note == d2.note ==> recollection_of(kind, "unit_state"@, d1)
            == recollection_of(kind, "unit_state"@, d2),
{
    reveal_strlit("status");
    reveal_strlit("warning_received");
    reveal_strlit("order_issued");
    reveal_strlit("separation");
    reveal_strlit("departed");
    reveal_strlit("travel_state");
    reveal_strlit("unit_state");
    assert("status"@.len() == 6);
    assert("warning_received"@.len() == 16);
    assert("order_issued"@.len() == 12);
    assert("separation"@.len() == 10);
    assert("departed"@.len() == 8);
    assert("travel_state"@.len() == 12);
    assert("unit_state"@.len() == 10);
    assert("travel_state"@[0] != "order_issued"@[0]);
    assert("unit_state"@[0] != "separation"@[0]);
}

/// What happens to a unit is the unit's own memory: a household or a person
/// remembers no unit's change of state, order or drop, and a unit always
/// remembers putting a load down.
pub proof fn unit_events_are_the_units_own(kind: SubjectKind, d: DetailView)
    ensures
        kind != SubjectKind::Unit ==> recollection_of(kind, "unit_state"@, d).is_none(),
        kind != SubjectKind::Unit ==> recollection_of(kind, "unit_task"@, d).is_none(),
        kind != SubjectKind::Unit ==> recollection_of(kind, "drop_completed"@, d).is_none(),
        kind == SubjectKind::Unit ==> recollection_of(kind, "drop_completed"@, d).is_some(),
{
    reveal_strlit("status");
    reveal_strlit("warning_received");
    reveal_strlit("order_issued");
    reveal_strlit("separation");
    reveal_strlit("departed");
    reveal_strlit("travel_state");
    reveal_strlit("unit_state");
    reveal_strlit("unit_task");
    reveal_strlit("drop_completed");
    assert("status"@.len() == 6);
    assert("warning_received"@.len() == 16);
    assert("order_issued"@.len() == 12);
    assert("separation"@.len() == 10);
    assert("departed"@.len() == 8);
    assert("travel_state"@.len() == 12);
    assert("unit_state"@.len() == 10);
    assert("unit_task"@.len() == 9);
    assert("drop_completed"@.len() == 14);
    assert("unit_state"@[0] != "separation"@[0]);
    assert("unit_state"@[0] != "travel_state"@[0]);
    assert("unit_state"@[0] != "order_issued"@[0]);
    assert("drop_completed"@[0] != "unit_state"@[0]);
}

/// Different states are remembered differently: when two status changes
/// are both remembered and the memories agree, the agent ended up in the
/// same state both times.
pub proof fn states_are_told_apart(kind: SubjectKind, d1: DetailView, d2: DetailView)
    ensures
        recollection_of(kind, "status"@, d1) is Some && recollection_of(kind, "status"@, d1)
            == recollection_of(kind, "status"@, d2) ==> d1.to == d2.to,
{
    reveal_strlit("status");
    reveal_strlit("you realised something was going on");
    reveal_strlit("you started getting ready to leave");
    reveal_strlit("you left");
    reveal_strlit("you got clear");
    reveal_strlit("you decided to stay and hold the house");
    reveal_strlit("the way out was cut and you had to shelter");
    reveal_strlit("it went badly wrong for you");
    assert("you realised something was going on"@.len() == 35);
    assert("you started getting ready to leave"@.len() == 34);
    assert("you left"@.len() == 8);
    assert("you got clear"@.len() == 13);
    assert("you decided to stay and hold the house"@.len() == 38);
    assert("the way out was cut and you had to shelter"@.len() == 42);
    assert("it went badly wrong for you"@.len() == 27);
    reveal_strlit("warned");
    reveal_strlit("preparing");
    reveal_strlit("evacuating");
    reveal_strlit("evacuated / safe");
    reveal_strlit("defending");
    reveal_strlit("trapped");
    reveal_strlit("casualty");
    assert("warned"@.len() == 6);
    assert("preparing"@.len() == 9);
    assert("evacuating"@.len() == 10);
    assert("evacuated / safe"@.len() == 16);
    assert("defending"@.len() == 9);
    assert("trapped"@.len() == 7);
    assert("casualty"@.len() == 8);
    reveal_strlit("");
    assert(""@.len() == 0);
    assert(status_memory(""@).is_none());
}

proof fn lemma_word_at(s: Seq<char>, word: Seq<char>, at: int)
    requires
        0 <= at,
        at + word.len() <= s.len(),
        forall|k: int| 0 <= k < word.len() ==> s[at + k] == word[k],
    ensures
        occurs(s, word),
{
    assert(s.subrange(at, at + word.len()) =~= word);
    assert(occurs_at(s, word, at));
}

/// Leaving is remembered by how and with how many: a household that drove
/// off remembers the car, one that walked (or whose mode is not known)
/// remembers going on foot, and more than one member are remembered by
/// their number.
pub proof fn departures_say_how_and_how_many(kind: SubjectKind, d: DetailView)
    ensures
        recollection_of(kind, "departed"@, d) is Some,
        d.mode == Some("car"@) ==> occurs(recollection_of(kind, "departed"@, d).unwrap(), "car"@),
        d.mode != Some("car"@) ==> occurs(recollection_of(kind, "departed"@, d).unwrap(), "foot"@),
        (d.members matches Some(n) && n != 1) ==> occurs(
            recollection_of(kind, "departed"@, d).unwrap(),
            decimal(d.members.unwrap() as nat),
        ),
{
    reveal_strlit("status");
    reveal_strlit("warning_received");
    reveal_strlit("order_issued");
    reveal_strlit("separation");
    reveal_strlit("departed");
    assert("status"@.len() == 6);
    assert("warning_received"@.len() == 16);
    assert("order_issued"@.len() == 12);
    assert("separation"@.len() == 10);
    assert("departed"@.len() == 8);
    reveal_strlit("car");
    reveal_strlit("foot");
    reveal_strlit("you got in the car and went");
    reveal_strlit(" of you got in the car and went");
    reveal_strlit("you set off on foot");
    reveal_strlit(" of you set off on foot");
    reveal_strlit("all ");
    reveal_strlit("the ");
    assert("car"@.len() == 3);
    assert("foot"@.len() == 4);
    assert("you got in the car and went"@.len() == 27);
    assert(" of you got in the car and went"@.len() == 31);
    assert("you set off on foot"@.len() == 19);
    assert(" of you set off on foot"@.len() == 23);
    lemma_word_at("you got in the car and went"@, "car"@, 15);
    lemma_word_at(" of you got in the car and went"@, "car"@, 19);
    lemma_word_at("you set off on foot"@, "foot"@, 15);
    lemma_word_at(" of you set off on foot"@, "foot"@, 19);
    let mode = or_text(d.mode, "foot"@);
    let n: u64 = match d.members {
        Some(m) => m,
        None => 0,
    };
    let dec = decimal(n as nat);
    lemma_occurs_in_itself(dec);
    lemma_occurs_in_joined("all "@, dec, dec);
    lemma_occurs_in_joined("all "@ + dec, " of you got in the car and went"@, dec);
    lemma_occurs_in_joined("all "@ + dec, " of you got in the car and went"@, "car"@);
    lemma_occurs_in_joined("the "@, dec, dec);
    lemma_occurs_in_joined("the "@ + dec, " of you set off on foot"@, dec);
    lemma_occurs_in_joined("the "@ + dec, " of you set off on foot"@, "foot"@);
    assert(recollection_of(kind, "departed"@, d) == Some(departure_memory(mode, n)));
    if d.mode != Some("car"@) {
        assert(mode != "car"@);
    }
}

pub open spec fn situation_words(s: Status) -> Seq<char> {
    match s {
        Status::Normal => "going about your day, as far as you are concerned"@,
        Status::Warned => "aware something is happening, and not yet doing anything about it"@,
        Status::Preparing => "getting ready to go"@,
        Status::Evacuating => "on your way out"@,
        Status::Evacuated => "out, somewhere safe"@,
        Status::Defending => "staying, and trying to protect the house"@,
        Status::Trapped => "cut off — the way out is gone and you are sheltering where you are"@,
        Status::Casualty => "badly hurt; it went wrong"@,
    }
}

/// A status, said the way the person in it would say it.
pub fn situation(s: Status) -> (r: &'static str)
    ensures
        r@ == situation_words(s),
{
    match s {
        Status::Normal => "going about your day, as far as you are concerned",
        Status::Warned => "aware something is happening, and not yet doing anything about it",
        Status::Preparing => "getting ready to go",
        Status::Evacuating => "on your way out",
        Status::Evacuated => "out, somewhere safe",
        Status::Defending => "staying, and trying to protect the house",
        Status::Trapped => "cut off — the way out is gone and you are sheltering where you are",
        Status::Casualty => "badly hurt; it went wrong",
    }
}

pub open spec fn intent_memory(i: Intent) -> Seq<char> {
    match i {
        Intent::LeaveEarly => "go at the first credible warning, without waiting to be told twice"@,
        Intent::WaitAndSee => "wait and see how it develops before doing anything drastic"@,
        Intent::StayDefend => "stay and defend the property"@,
    }
}

/// What a household always said it would do, in its own words.
pub fn intent_phrase(i: Intent) -> (r: &'static str)
    ensures
        r@ == intent_memory(i),
{
    match i {
        Intent::LeaveEarly => "go at the first credible warning, without waiting to be told twice",
        Intent::WaitAndSee => "wait and see how it develops before doing anything drastic",
        Intent::StayDefend => "stay and defend the property",
    }
}

pub open spec fn channel_memory(c: WarningChannel) -> Seq<char> {
    match c {
        WarningChannel::MobileAlert => "an alert on your phone, straight away"@,
        WarningChannel::Neighbour => "a neighbour knocking, once it got round"@,
        WarningChannel::Siren => "the siren in the town, if the wind carried it"@,
        WarningChannel::SelfObserved => "your own eyes and nose, and nothing else"@,
        WarningChannel::Nothing => "nobody would tell you; you would have to notice yourself"@,
    }
}

/// How a household would hear of a warning, in its own words.
pub fn channel_phrase(c: WarningChannel) -> (r: &'static str)
    ensures
        r@ == channel_memory(c),
{
    match c {
        WarningChannel::MobileAlert => "an alert on your phone, straight away",
        WarningChannel::Neighbour => "a neighbour knocking, once it got round",
        WarningChannel::Siren => "the siren in the town, if the wind carried it",
        WarningChannel::SelfObserved => "your own eyes and nose, and nothing else",
        WarningChannel::Nothing => "nobody would tell you; you would have to notice yourself",
    }
}

pub open spec fn crew_words(k: UnitKind) -> Seq<char> {
    match k {
        UnitKind::HandCrew => "a hand crew, on foot, cutting line with tools"@,
        UnitKind::Engine => "a water tender — an autobotte, roads only, with a hose"@,
        UnitKind::AirTanker => "an air tanker, working from the air"@,
    }
}

/// What a crew is, as it would describe itself.
pub fn crew_phrase(k: UnitKind) -> (r: &'static str)
    ensures
        r@ == crew_words(k),
{
    match k {
        UnitKind::HandCrew => "a hand crew, on foot, cutting line with tools",
        UnitKind::Engine => "a water tender — an autobotte, roads only, with a hose",
        UnitKind::AirTanker => "an air tanker, working from the air",
    }
}

pub open spec fn orders_words(t: TaskKind) -> Seq<char> {
    match t {
        TaskKind::Hold => "stand by where you are"@,
        TaskKind::Return => "return to staging"@,
        TaskKind::Attack => "work the fire edge where you were sent"@,
        TaskKind::Drop => "put a load on the point you were given"@,
        TaskKind::Line => "cut a break on the alignment you were given"@,
    }
}

/// A crew's orders, as it would state them.
pub fn orders_phrase(t: TaskKind) -> (r: &'static str)
    ensures
        r@ == orders_words(t),
{
    match t {
        TaskKind::Hold => "stand by where you are",
        TaskKind::Return => "return to staging",
        TaskKind::Attack => "work the fire edge where you were sent",
        TaskKind::Drop => "put a load on the point you were given",
        TaskKind::Line => "cut a break on the alignment you were given",
    }
}

/// `ages` in decimal, separated by ", ".
pub open spec fn joined_ages(ages: Seq<u32>) -> Seq<char>
    decreases ages.len(),
{
    if ages.len() == 0 {
        seq![]
    } else if ages.len() == 1 {
        decimal(ages[0] as nat)
    } else {
        joined_ages(ages.drop_last()) + ", "@ + decimal(ages.last() as nat)
    }
}

pub open spec fn vehicles_words(vehicles: u64) -> Seq<char> {
    if vehicles == 0 {
        ", and no car"@
    } else if vehicles == 1 {
        ", one car"@
    } else {
        ", "@ + decimal(vehicles as nat) + " cars"@
    }
}

/// "How many of you, how old, and what you could drive away in."
pub open spec fn household_words(members: u64, ages: Seq<u32>, vehicles: u64) -> Seq<char> {
    decimal(members as nat) + " of you"@ + (if ages.len() == 0 {
        seq![]
    } else {
        " (ages "@ + joined_ages(ages) + ")"@
    }) + vehicles_words(vehicles)
}

fn joined(ages: &Vec<u32>) -> (r: String)
    ensures
        r@ == joined_ages(ages@),
{
    let mut s = String::new();
    let mut i: usize = 0;
    while i < ages.len()
        invariant
            i <= ages@.len(),
            s@ == joined_ages(ages@.take(i as int)),
        decreases ages.len() - i,
    {
        proof {
            assert(ages@.take(i + 1).drop_last() =~= ages@.take(i as int));
        }
        if i > 0 {
            s.append(", ");
        }
        let d = decimal_string(ages[i] as u64);
        s.append(d.as_str());
        proof {
            if i == 0 {
                assert(s@ =~= joined_ages(ages@.take(1)));
            } else {
                assert(s@ =~= joined_ages(ages@.take(i + 1)));
            }
        }
        i = i + 1;
    }
    assert(ages@.take(ages@.len() as int) =~= ages@);
    s
}

/// The "Your household" fact: how many, their ages, and the cars.
pub fn household_line(members: u64, ages: &Vec<u32>, vehicles: u64) -> (r: String)
    ensures
        r@ == household_words(members, ages@, vehicles),
{
    let mut s = decimal_string(members);
    s.append(" of you");
    if ages.len() > 0 {
        s.append(" (ages ");
        let j = joined(ages);
        s.append(j.as_str());
        s.append(")");
    }
    if vehicles == 0 {
        s.append(", and no car");
    } else if vehicles == 1 {
        s.append(", one car");
    } else {
        s.append(", ");
        let d = decimal_string(vehicles);
        s.append(d.as_str());
        s.append(" cars");
    }
    s
}

pub open spec fn family_words(others: u64) -> Seq<char> {
    if others == 0 {
        "you live alone; there is nobody at the house"@
    } else if others == 1 {
        "there is one other person at your house"@
    } else {
        "there are "@ + decimal(others as nat) + " others at your house"@
    }
}

/// For someone away from home: who is still at the house, given the size of
/// their household (themselves included).
pub fn family_line(household_size: u64) -> (r: String)
    ensures
        r@ == family_words(if household_size == 0 { 0 } else { (household_size - 1) as u64 }),
{
    let others = if household_size == 0 {
        0
    } else {
        household_size - 1
    };
    if others == 0 {
        String::from_str("you live alone; there is nobody at the house")
    } else if others == 1 {
        String::from_str("there is one other person at your house")
    } else {
        let mut s = String::from_str("there are ");
        let d = decimal_string(others);
        s.append(d.as_str());
        s.append(" others at your house");
        s
    }
}

pub open spec fn elapsed_words(s: int) -> Seq<char> {
    if s < 90 {
        signed_decimal(s) + " s"@
    } else {
        decimal((s / 60) as nat) + " min"@
    }
}

/// Simulated seconds as a span, for "said 12 min ago": seconds under a
/// minute and a half, whole minutes after.
pub fn elapsed(s: i64) -> (r: String)
    ensures
        r@ == elapsed_words(s as int),
{
    if s < 90 {
        let mut t = signed_decimal_string(s);
        t.append(" s");
        t
    } else {
        let mut t = decimal_string((s / 60) as u64);
        t.append(" min");
        t
    }
}

/// Who is being interviewed.
#[derive(Debug, Clone, Copy, PartialEq, Eq, Structural)]
pub struct SubjectRef {
    pub kind: SubjectKind,
    pub id: i64,
}

pub open spec fn label_words(subject: SubjectRef, callsign: Option<Seq<char>>) -> Seq<char> {
    match subject.kind {
        SubjectKind::Household => "Household #"@ + signed_decimal(subject.id as int),
        SubjectKind::Person => "Person #"@ + signed_decimal(subject.id as int),
        SubjectKind::Unit => match callsign {
            Some(c) => c,
            None => "Unit #"@ + signed_decimal(subject.id as int),
        },
    }
}

/// A short identification for the window title and the menu: a unit by its
/// callsign when the roster has it.
pub fn label(subject: SubjectRef, callsign: Option<&str>) -> (r: String)
    ensures
        r@ == label_words(
            subject,
            match callsign {
                Some(c) => Some(c@),
                None => None,
            },
        ),
{
    let prefix = match subject.kind {
        SubjectKind::Household => "Household #",
        SubjectKind::Person => "Person #",
        SubjectKind::Unit => match callsign {
            Some(c) => {
                return String::from_str(c);
            },
            None => "Unit #",
        },
    };
    let mut s = String::from_str(prefix);
    let d = signed_decimal_string(subject.id);
    s.append(d.as_str());
    s
}

} // verus!
