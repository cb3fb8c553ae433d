//! One short, human line per logged event: the inspector's history list and
//! the control API's `summary` field.
use vstd::prelude::*;
use crate::recall::{or_text, text_or, Detail, DetailView};
use crate::text::{decimal, decimal_string, lemma_occurs_in_itself, lemma_occurs_in_joined, occurs, str_eq};

verus! {

/// A text field of the detail, `?` when it is missing.
pub open spec fn field(o: Option<Seq<char>>) -> Seq<char> {
    or_text(o, "?"@)
}

pub open spec fn count(o: Option<u64>) -> Seq<char> {
    decimal(
        match o {
            Some(n) => n as nat,
            None => 0,
        },
    )
}

/// The line for an event of kind `kind`. The three kinds whose line quotes
/// a measured quantity — a decision's priority, an ignition's radius, the
/// weather — are `None` here and worded by the caller, which holds the
/// numbers; an unknown kind is its own line.
pub open spec fn summary_of(kind: Seq<char>, d: DetailView) -> Option<Seq<char>> {
    if kind == "status"@ {
        Some("status: "@ + field(d.from) + " -> "@ + field(d.to))
    } else if kind == "order_issued"@ {
        Some("evacuation order issued"@)
    } else if kind == "warning_received"@ {
        Some("warning received"@)
    } else if kind == "separation"@ {
        if d.away == Some(true) {
            Some("separated from household"@)
        } else {
            Some("reunited with household"@)
        }
    } else if kind == "decision"@ || kind == "ignition"@ || kind == "weather_changed"@ {
        None
    } else if kind == "departed"@ {
        Some("departed on foot/by car ("@ + count(d.members) + " member(s))"@)
    } else if kind == "travel_state"@ {
        Some("travel: "@ + field(d.from) + " -> "@ + field(d.to))
    } else if kind == "unit_state"@ {
        let note = field(d.note);
        if note != "?"@ && note.len() > 0 {
            Some("unit: "@ + field(d.from) + " -> "@ + field(d.to) + " ("@ + note + ")"@)
        } else {
            Some("unit: "@ + field(d.from) + " -> "@ + field(d.to))
        }
    } else if kind == "unit_task"@ {
        Some("tasked: "@ + field(d.task))
    } else if kind == "drop_completed"@ {
        Some("drop completed (#"@ + count(d.total_drops) + ")"@)
    } else if kind == "run_started"@ {
        Some("run started"@)
    } else if kind == "evacuation_order"@ {
        Some("evacuation order reached "@ + count(d.households) + " household(s)"@)
    } else if kind == "casualties"@ {
        Some(count(d.households) + " household(s) lost"@)
    } else {
        Some(kind)
    }
}

fn count_text(o: Option<u64>) -> (r: String)
    ensures
        r@ == count(o),
{
    decimal_string(
        match o {
            Some(n) => n,
            None => 0,
        },
    )
}

fn transition(prefix: &str, d: &Detail) -> (r: String)
    ensures
        r@ == prefix@ + field(d@.from) + " -> "@ + field(d@.to),
{
    let mut s = String::from_str(prefix);
    s.append(text_or(&d.from, "?"));
    s.append(" -> ");
    s.append(text_or(&d.to, "?"));
    s
}

/// See [`summary_of`].
pub fn summarize(kind: &str, d: &Detail) -> (r: Option<String>)
    ensures
        match r {
            Some(s) => summary_of(kind@, d@) == Some(s@),
            None => summary_of(kind@, d@).is_none(),
        },
{
    if str_eq(kind, "status") {
        Some(transition("status: ", d))
    } else if str_eq(kind, "order_issued") {
        Some(String::from_str("evacuation order issued"))
    } else if str_eq(kind, "warning_received") {
        Some(String::from_str("warning received"))
    } else if str_eq(kind, "separation") {
        if d.away == Some(true) {
            Some(String::from_str("separated from household"))
        } else {
            Some(String::from_str("reunited with household"))
        }
    } else if str_eq(kind, "decision") || str_eq(kind, "ignition") || str_eq(kind, "weather_changed") {
        None
    } else if str_eq(kind, "departed") {
        let mut s = String::from_str("departed on foot/by car (");
        let n = count_text(d.members);
        s.append(n.as_str());
        s.append(" member(s))");
        Some(s)
    } else if str_eq(kind, "travel_state") {
        Some(transition("travel: ", d))
    } else if str_eq(kind, "unit_state") {
        let note = text_or(&d.note, "?");
        let mut s = transition("unit: ", d);
        if !str_eq(note, "?") && note.unicode_len() > 0 {
            s.append(" (");
            s.append(note);
            s.append(")");
        }
        Some(s)
    } else if str_eq(kind, "unit_task") {
        let mut s = String::from_str("tasked: ");
        s.append(text_or(&d.task, "?"));
        Some(s)
    } else if str_eq(kind, "drop_completed") {
        let mut s = String::from_str("drop completed (#");
        let n = count_text(d.total_drops);
        s.append(n.as_str());
        s.append(")");
        Some(s)
    } else if str_eq(kind, "run_started") {
        Some(String::from_str("run started"))
    } else if str_eq(kind, "evacuation_order") {
        let mut s = String::from_str("evacuation order reached ");
        let n = count_text(d.households);
        s.append(n.as_str());
        s.append(" household(s)");
        Some(s)
    } else if str_eq(kind, "casualties") {
        let mut s = count_text(d.households);
        s.append(" household(s) lost");
        Some(s)
    } else {
        Some(String::from_str(kind))
    }
}

/// A transition reads from the old value to the new one. A status line and
/// a travel line are their eight-character prefix followed by the old value
/// (`?` when missing), ` -> `, and the new value at the very end; the two
/// kinds differ only in the prefix.
pub proof fn transitions_read_from_old_to_new(d: DetailView)
    ensures
        ({
            let from = field(d.from);
            let to = field(d.to);
            let status = summary_of("status"@, d);
            let travel = summary_of("travel_state"@, d);
            &&& status is Some && travel is Some
            &&& status.unwrap().take(8) == "status: "@
            &&& travel.unwrap().take(8) == "travel: "@
            &&& forall|line: Seq<char>|
                (line == status.unwrap() || line == travel.unwrap()) ==> {
                    &&& line.len() == 8 + from.len() + 4 + to.len()
                    &&& line.subrange(8, 8 + from.len() as int) == from
                    &&& line.subrange(8 + from.len() as int, 12 + from.len() as int) == " -> "@
                    &&& line.subrange(line.len() - to.len(), line.len() as int) == to
                }
            &&& status.unwrap().skip(8) == travel.unwrap().skip(8)
        }),
{
    reveal_strlit("status");
    reveal_strlit("order_issued");
    reveal_strlit("warning_received");
    reveal_strlit("separation");
    reveal_strlit("decision");
    reveal_strlit("ignition");
    reveal_strlit("weather_changed");
    reveal_strlit("departed");
    reveal_strlit("travel_state");
    reveal_strlit("status: ");
    reveal_strlit("travel: ");
    reveal_strlit(" -> ");
    assert("status"@.len() == 6);
    assert("order_issued"@.len() == 12);
    assert("warning_received"@.len() == 16);
    assert("separation"@.len() == 10);
    assert("decision"@.len() == 8);
    assert("ignition"@.len() == 8);
    assert("weather_changed"@.len() == 15);
    assert("departed"@.len() == 8);
    assert("travel_state"@.len() == 12);
    assert("travel_state"@[0] != "order_issued"@[0]);
    assert("status: "@.len() == 8);
    assert("travel: "@.len() == 8);
    assert(" -> "@.len() == 4);
    let from = field(d.from);
    let to = field(d.to);
    let sl = "status: "@ + from + " -> "@ + to;
    let tl = "travel: "@ + from + " -> "@ + to;
    assert(summary_of("status"@, d) == Some(sl));
    assert(summary_of("travel_state"@, d) == Some(tl));
    assert(sl.take(8) =~= "status: "@);
    assert(tl.take(8) =~= "travel: "@);
    let f = from.len() as int;
    assert(sl.subrange(8, 8 + f) =~= from);
    assert(tl.subrange(8, 8 + f) =~= from);
    assert(sl.subrange(8 + f, 12 + f) =~= " -> "@);
    assert(tl.subrange(8 + f, 12 + f) =~= " -> "@);
    assert(sl.subrange(sl.len() - to.len(), sl.len() as int) =~= to);
    assert(tl.subrange(tl.len() - to.len(), tl.len() as int) =~= to);
    assert(sl.skip(8) =~= tl.skip(8));
}

/// Only the three kinds whose line quotes a measured quantity are left to
/// the caller; every other kind, known or not, has its line here, and a kind
/// this version does not know is its own line.
pub proof fn only_measured_kinds_are_left_to_the_caller(kind: Seq<char>, d: DetailView)
    ensures
        summary_of(kind, d).is_none() <==> (kind == "decision"@ || kind == "ignition"@ || kind
            == "weather_changed"@),
        kind != "status"@ && kind != "order_issued"@ && kind != "warning_received"@ && kind
            != "separation"@ && kind != "decision"@ && kind != "ignition"@ && kind != "weather_changed"@
            && kind != "departed"@ && kind != "travel_state"@ && kind != "unit_state"@ && kind
            != "unit_task"@ && kind != "drop_completed"@ && kind != "run_started"@ && kind
            != "evacuation_order"@ && kind != "casualties"@ ==> summary_of(kind, d) == Some(kind),
{
    reveal_strlit("status");
    reveal_strlit("order_issued");
    reveal_strlit("warning_received");
    reveal_strlit("separation");
    reveal_strlit("decision");
    reveal_strlit("ignition");
    reveal_strlit("weather_changed");
    assert("status"@.len() == 6);
    assert("order_issued"@.len() == 12);
    assert("warning_received"@.len() == 16);
    assert("separation"@.len() == 10);
    assert("decision"@.len() == 8);
    assert("ignition"@.len() == 8);
    assert("weather_changed"@.len() == 15);
}

/// Being separated is summarised by where the person ended up: separated
/// when the event says they are away, reunited otherwise.
pub proof fn separation_lines_follow_where_one_ended_up(d: DetailView)
    ensures
        d.away == Some(true) ==> summary_of("separation"@, d) == Some("separated from household"@),
        d.away != Some(true) ==> summary_of("separation"@, d) == Some("reunited with household"@),
        "separated from household"@ != "reunited with household"@,
{
    reveal_strlit("status");
    reveal_strlit("order_issued");
    reveal_strlit("warning_received");
    reveal_strlit("separation");
    reveal_strlit("separated from household");
    reveal_strlit("reunited with household");
    assert("status"@.len() == 6);
    assert("order_issued"@.len() == 12);
    assert("warning_received"@.len() == 16);
    assert("separation"@.len() == 10);
    assert("separated from household"@.len() != "reunited with household"@.len());
}

/// A unit's line reads from its old state to its new one as well: `unit: `,
/// the old state, ` -> `, the new state; a note that is there and says
/// something follows in brackets at the end, and without one the line ends
/// with the new state.
pub proof fn unit_lines_read_from_old_to_new(d: DetailView)
    ensures
        ({
            let from = field(d.from);
            let to = field(d.to);
            let note = field(d.note);
            let line = summary_of("unit_state"@, d);
            let f = from.len() as int;
            let t = to.len() as int;
            &&& line is Some
            &&& line.unwrap().take(6) == "unit: "@
            &&& line.unwrap().subrange(6, 6 + f) == from
            &&& line.unwrap().subrange(6 + f, 10 + f) == " -> "@
            &&& line.unwrap().subrange(10 + f, 10 + f + t) == to
            &&& (note == "?"@ || note.len() == 0) ==> line.unwrap().len() == 10 + f + t
            &&& (note != "?"@ && note.len() > 0) ==> {
                &&& line.unwrap().len() == 13 + f + t + note.len()
                &&& line.unwrap().subrange(10 + f + t, 12 + f + t) == " ("@
                &&& line.unwrap().subrange(12 + f + t, 12 + f + t + note.len()) == note
                &&& line.unwrap().last() == ')'
            }
        }),
{
    reveal_strlit("status");
    reveal_strlit("order_issued");
    reveal_strlit("warning_received");
    reveal_strlit("separation");
    reveal_strlit("decision");
    reveal_strlit("ignition");
    reveal_strlit("weather_changed");
    reveal_strlit("departed");
    reveal_strlit("travel_state");
    reveal_strlit("unit_state");
    reveal_strlit("unit: ");
    reveal_strlit(" -> ");
    reveal_strlit(" (");
    reveal_strlit(")");
    assert("status"@.len() == 6);
    assert("order_issued"@.len() == 12);
    assert("warning_received"@.len() == 16);
    assert("separation"@.len() == 10);
    assert("decision"@.len() == 8);
    assert("ignition"@.len() == 8);
    assert("weather_changed"@.len() == 15);
    assert("departed"@.len() == 8);
    assert("travel_state"@.len() == 12);
    assert("unit_state"@.len() == 10);
    assert("unit_state"@[0] != "separation"@[0]);
    assert("unit_state"@[0] != "travel_state"@[0]);
    assert("unit: "@.len() == 6);
    assert(" -> "@.len() == 4);
    let from = field(d.from);
    let to = field(d.to);
    let note = field(d.note);
    let f = from.len() as int;
    let t = to.len() as int;
    let base = "unit: "@ + from + " -> "@ + to;
    assert(base.take(6) =~= "unit: "@);
    assert(base.subrange(6, 6 + f) =~= from);
    assert(base.subrange(6 + f, 10 + f) =~= " -> "@);
    assert(base.subrange(10 + f, 10 + f + t) =~= to);
    if note != "?"@ && note.len() > 0 {
        let line = base + " ("@ + note + ")"@;
        assert(summary_of("unit_state"@, d) == Some(line));
        assert(line.take(6) =~= "unit: "@);
        assert(line.subrange(6, 6 + f) =~= from);
        assert(line.subrange(6 + f, 10 + f) =~= " -> "@);
        assert(line.subrange(10 + f, 10 + f + t) =~= to);
        assert(line.subrange(10 + f + t, 12 + f + t) =~= " ("@);
        assert(line.subrange(12 + f + t, 12 + f + t + note.len()) =~= note);
    } else {
        assert(summary_of("unit_state"@, d) == Some(base));
    }
}

/// A line about a number quotes it: how many left together, which drop a
/// unit has just made, how many households an order reached or were lost.
pub proof fn lines_quote_their_numbers(d: DetailView)
    ensures
        summary_of("departed"@, d) is Some && occurs(summary_of("departed"@, d).unwrap(), count(d.members)),
        summary_of("drop_completed"@, d) is Some && occurs(
            summary_of("drop_completed"@, d).unwrap(),
            count(d.total_drops),
        ),
        summary_of("evacuation_order"@, d) is Some && occurs(
            summary_of("evacuation_order"@, d).unwrap(),
            count(d.households),
        ),
        summary_of("casualties"@, d) is Some && occurs(summary_of("casualties"@, d).unwrap(), count(d.households)),
{
    reveal_strlit("status");
    reveal_strlit("order_issued");
    reveal_strlit("warning_received");
    reveal_strlit("separation");
    reveal_strlit("decision");
    reveal_strlit("ignition");
    reveal_strlit("weather_changed");
    reveal_strlit("departed");
    reveal_strlit("travel_state");
    reveal_strlit("unit_state");
    reveal_strlit("unit_task");
    reveal_strlit("drop_completed");
    reveal_strlit("run_started");
    reveal_strlit("evacuation_order");
    reveal_strlit("casualties");
    assert("status"@.len() == 6);
    assert("order_issued"@.len() == 12);
    assert("warning_received"@.len() == 16);
    assert("separation"@.len() == 10);
    assert("decision"@.len() == 8);
    assert("ignition"@.len() == 8);
    assert("weather_changed"@.len() == 15);
    assert("departed"@.len() == 8);
    assert("travel_state"@.len() == 12);
    assert("unit_state"@.len() == 10);
    assert("unit_task"@.len() == 9);
    assert("drop_completed"@.len() == 14);
    assert("run_started"@.len() == 11);
    assert("evacuation_order"@.len() == 16);
    assert("casualties"@.len() == 10);
    assert("departed"@[2] != "decision"@[2]);
    assert("departed"@[0] != "ignition"@[0]);
    assert("evacuation_order"@[0] != "warning_received"@[0]);
    assert("casualties"@[0] != "separation"@[0]);
    assert("casualties"@[0] != "unit_state"@[0]);
    let m = count(d.members);
    let t = count(d.total_drops);
    let h = count(d.households);
    lemma_occurs_in_itself(m);
    lemma_occurs_in_itself(t);
    lemma_occurs_in_itself(h);
    lemma_occurs_in_joined("departed on foot/by car ("@, m, m);
    lemma_occurs_in_joined("departed on foot/by car ("@ + m, " member(s))"@, m);
    lemma_occurs_in_joined("drop completed (#"@, t, t);
    lemma_occurs_in_joined("drop completed (#"@ + t, ")"@, t);
    lemma_occurs_in_joined("evacuation order reached "@, h, h);
    lemma_occurs_in_joined("evacuation order reached "@ + h, " household(s)"@, h);
    lemma_occurs_in_joined(h, " household(s) lost"@, h);
}

} // verus!
