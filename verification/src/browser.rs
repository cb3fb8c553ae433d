//! The entities browser: a searchable, filterable roster of everything the
//! inspector can show, built from the model rather than from what is drawn,
//! so nothing in it is unreachable.
use vstd::prelude::*;
use crate::changes::TravellerInfo;
use crate::inspect::Target;
use crate::model::{status_text, status_words, travel_state_text, travel_words, Status};
use crate::text::{
    contains, decimal, decimal_string, lemma_occurs_in_itself, occurs, occurs_at, trim, trimmed,
};

verus! {

/// What `str::to_lowercase` makes of a string: its lower-case form under
/// Unicode's case mappings.
pub uninterp spec fn lowercased(s: Seq<char>) -> Seq<char>;

/// `str::to_lowercase`. Its result is named [`lowercased`] and depends on
/// the argument alone; the Unicode case tables it follows are not restated.
#[verifier::external_body]
fn lowercase(s: &str) -> (r: String)
    ensures
        r@ == lowercased(s@),
{
    s.to_lowercase()
}

/// The search box's text as the roster matches it: trimmed, in lower case.
pub fn normalized_query(search: &str) -> (q: String)
    ensures
        q@ == lowercased(trimmed(search@)),
{
    lowercase(trim(search))
}

/// A suppression unit as the roster lists it.
pub struct UnitRow {
    pub id: usize,
    pub callsign: String,
    /// The roster's words for what it is and what it is doing.
    pub kind_label: String,
    pub state_label: String,
    /// Its one-line status, for the row.
    pub status_line: String,
}

/// Which kinds of entity the roster lists.
#[derive(Debug, Clone, Copy, PartialEq, Eq, Structural)]
pub struct Shown {
    pub households: bool,
    /// Off by default: people are most of the roster, and the household they
    /// belong to is usually the more useful thing to browse.
    pub people: bool,
    pub travellers: bool,
    pub units: bool,
}

impl Default for Shown {
    fn default() -> (r: Shown)
        ensures
            r == (Shown { households: true, people: false, travellers: true, units: true }),
    {
        Shown { households: true, people: false, travellers: true, units: true }
    }
}

/// A household or a person matches an empty query, and a query that occurs
/// in its id or its status.
pub open spec fn agent_matches(id: usize, status: Status, q: Seq<char>) -> bool {
    q.len() == 0 || occurs(decimal(id as nat), q) || occurs(status_words(status), q)
}

/// A group on the move also matches its household's id, its state, and
/// `car` or `foot`.
pub open spec fn traveller_matches(i: usize, t: TravellerInfo, q: Seq<char>) -> bool {
    q.len() == 0 || occurs(decimal(i as nat), q) || occurs(decimal(t.household as nat), q) || occurs(
        travel_words(t.state),
        q,
    ) || (t.car && occurs("car"@, q)) || (!t.car && occurs("foot"@, q))
}

/// A unit matches by its callsign in lower case, its kind or its state.
pub open spec fn unit_matches(u: UnitRow, q: Seq<char>) -> bool {
    q.len() == 0 || occurs(lowercased(u.callsign@), q) || occurs(u.kind_label@, q) || occurs(
        u.state_label@,
        q,
    )
}

fn agent_match(id: usize, status: Status, q: &str) -> (r: bool)
    ensures
        r == agent_matches(id, status, q@),
{
    if q.unicode_len() == 0 {
        return true;
    }
    let d = decimal_string(id as u64);
    contains(d.as_str(), q) || contains(status_text(status), q)
}

fn traveller_match(i: usize, t: TravellerInfo, q: &str) -> (r: bool)
    ensures
        r == traveller_matches(i, t, q@),
{
    if q.unicode_len() == 0 {
        return true;
    }
    let d = decimal_string(i as u64);
    let h = decimal_string(t.household as u64);
    contains(d.as_str(), q) || contains(h.as_str(), q) || contains(travel_state_text(t.state), q) || (
    t.car && contains("car", q)) || (!t.car && contains("foot", q))
}

fn unit_match(u: &UnitRow, q: &str) -> (r: bool)
    ensures
        r == unit_matches(*u, q@),
{
    if q.unicode_len() == 0 {
        return true;
    }
    let c = lowercase(u.callsign.as_str());
    contains(c.as_str(), q) || contains(u.kind_label.as_str(), q) || contains(u.state_label.as_str(), q)
}

pub open spec fn household_rows(hs: Seq<(usize, Status)>, q: Seq<char>) -> Seq<Target>
    decreases hs.len(),
{
    if hs.len() == 0 {
        seq![]
    } else {
        household_rows(hs.drop_last(), q) + if agent_matches(hs.last().0, hs.last().1, q) {
            seq![Target::Household(hs.last().0)]
        } else {
            seq![]
        }
    }
}

pub open spec fn person_rows(ps: Seq<(usize, Status)>, q: Seq<char>) -> Seq<Target>
    decreases ps.len(),
{
    if ps.len() == 0 {
        seq![]
    } else {
        person_rows(ps.drop_last(), q) + if agent_matches(ps.last().0, ps.last().1, q) {
            seq![Target::Person(ps.last().0)]
        } else {
            seq![]
        }
    }
}

pub open spec fn traveller_rows(ts: Seq<TravellerInfo>, q: Seq<char>) -> Seq<Target>
    decreases ts.len(),
{
    if ts.len() == 0 {
        seq![]
    } else {
        let i = (ts.len() - 1) as usize;
        traveller_rows(ts.drop_last(), q) + if traveller_matches(i, ts.last(), q) {
            seq![Target::Traveller(i)]
        } else {
            seq![]
        }
    }
}

pub open spec fn unit_rows(us: Seq<UnitRow>, q: Seq<char>) -> Seq<Target>
    decreases us.len(),
{
    if us.len() == 0 {
        seq![]
    } else {
        unit_rows(us.drop_last(), q) + if unit_matches(us.last(), q) {
            seq![Target::Unit(us.last().id)]
        } else {
            seq![]
        }
    }
}

/// The filtered roster: households, people, groups on the move and units,
/// each kind in its own order and only when shown; `q` is the normalized
/// query.
pub open spec fn roster_rows(
    q: Seq<char>,
    shown: Shown,
    households: Seq<(usize, Status)>,
    people: Seq<(usize, Status)>,
    travellers: Seq<TravellerInfo>,
    units: Seq<UnitRow>,
) -> Seq<Target> {
    (if shown.households {
        household_rows(households, q)
    } else {
        seq![]
    }) + (if shown.people {
        person_rows(people, q)
    } else {
        seq![]
    }) + (if shown.travellers {
        traveller_rows(travellers, q)
    } else {
        seq![]
    }) + (if shown.units {
        unit_rows(units, q)
    } else {
        seq![]
    })
}

fn add_agents(out: &mut Vec<Target>, xs: &Vec<(usize, Status)>, q: &str, people: bool)
    ensures
        final(out)@ == old(out)@ + if people {
            person_rows(xs@, q@)
        } else {
            household_rows(xs@, q@)
        },
{
    let n = xs.len();
    let ghost start = out@;
    let mut i: usize = 0;
    while i < n
        invariant
            n == xs@.len(),
            i <= n,
            out@ == start + if people {
                person_rows(xs@.take(i as int), q@)
            } else {
                household_rows(xs@.take(i as int), q@)
            },
        decreases n - i,
    {
        let (id, status) = xs[i];
        proof {
            assert(xs@.take(i + 1).drop_last() =~= xs@.take(i as int));
            assert(xs@.take(i + 1).last() == (id, status));
        }
        if agent_match(id, status, q) {
            if people {
                out.push(Target::Person(id));
            } else {
                out.push(Target::Household(id));
            }
        }
        proof {
            if people {
                assert(out@ =~= start + person_rows(xs@.take(i + 1), q@));
            } else {
                assert(out@ =~= start + household_rows(xs@.take(i + 1), q@));
            }
        }
        i = i + 1;
    }
    assert(xs@.take(n as int) =~= xs@);
}

fn add_travellers(out: &mut Vec<Target>, ts: &Vec<TravellerInfo>, q: &str)
    ensures
        final(out)@ == old(out)@ + traveller_rows(ts@, q@),
{
    let n = ts.len();
    let ghost start = out@;
    let mut i: usize = 0;
    while i < n
        invariant
            n == ts@.len(),
            i <= n,
            out@ == start + traveller_rows(ts@.take(i as int), q@),
        decreases n - i,
    {
        let t = ts[i];
        proof {
            assert(ts@.take(i + 1).drop_last() =~= ts@.take(i as int));
            assert(ts@.take(i + 1).last() == t);
        }
        if traveller_match(i, t, q) {
            out.push(Target::Traveller(i));
        }
        proof {
            assert(out@ =~= start + traveller_rows(ts@.take(i + 1), q@));
        }
        i = i + 1;
    }
    assert(ts@.take(n as int) =~= ts@);
}

fn add_units(out: &mut Vec<Target>, us: &Vec<UnitRow>, q: &str)
    ensures
        final(out)@ == old(out)@ + unit_rows(us@, q@),
{
    let n = us.len();
    let ghost start = out@;
    let mut i: usize = 0;
    while i < n
        invariant
            n == us@.len(),
            i <= n,
            out@ == start + unit_rows(us@.take(i as int), q@),
        decreases n - i,
    {
        let u = &us[i];
        proof {
            assert(us@.take(i + 1).drop_last() =~= us@.take(i as int));
            assert(us@.take(i + 1).last() == *u);
        }
        if unit_match(u, q) {
            out.push(Target::Unit(u.id));
        }
        proof {
            assert(out@ =~= start + unit_rows(us@.take(i + 1), q@));
        }
        i = i + 1;
    }
    assert(us@.take(n as int) =~= us@);
}

/// See [`roster_rows`]; `q` is the normalized query.
pub fn build_rows(
    q: &str,
    shown: Shown,
    households: &Vec<(usize, Status)>,
    people: &Vec<(usize, Status)>,
    travellers: &Vec<TravellerInfo>,
    units: &Vec<UnitRow>,
) -> (r: Vec<Target>)
    ensures
        r@ == roster_rows(q@, shown, households@, people@, travellers@, units@),
{
    let mut rows: Vec<Target> = Vec::new();
    if shown.households {
        add_agents(&mut rows, households, q, false);
    }
    if shown.people {
        add_agents(&mut rows, people, q, true);
    }
    if shown.travellers {
        add_travellers(&mut rows, travellers, q);
    }
    if shown.units {
        add_units(&mut rows, units, q);
    }
    assert(rows@ =~= roster_rows(q@, shown, households@, people@, travellers@, units@));
    rows
}

/// The roster for what is typed in the search box: see [`normalized_query`]
/// and [`roster_rows`].
pub fn roster(
    search: &str,
    shown: Shown,
    households: &Vec<(usize, Status)>,
    people: &Vec<(usize, Status)>,
    travellers: &Vec<TravellerInfo>,
    units: &Vec<UnitRow>,
) -> (r: Vec<Target>)
    ensures
        r@ == roster_rows(
            lowercased(trimmed(search@)),
            shown,
            households@,
            people@,
            travellers@,
            units@,
        ),
{
    let q = normalized_query(search);
    build_rows(q.as_str(), shown, households, people, travellers, units)
}

/// What the `B` and `/` keys ask of the dock.
#[derive(Debug, Clone, Copy, PartialEq, Eq, Structural)]
pub enum BrowserKey {
    Nothing,
    /// Put the dock away.
    Hide,
    /// Bring the entities tab forward with the cursor in the search box.
    Search,
}

/// `B` toggles the entities tab; `/` (without shift) always brings it
/// forward to search. Neither acts while a widget takes keystrokes.
pub open spec fn browser_key_after(typing: bool, b: bool, slash: bool, shift: bool, showing: bool) -> BrowserKey {
    if typing {
        BrowserKey::Nothing
    } else if slash && !shift {
        BrowserKey::Search
    } else if b {
        if showing {
            BrowserKey::Hide
        } else {
            BrowserKey::Search
        }
    } else {
        BrowserKey::Nothing
    }
}

/// See [`browser_key_after`]; `showing` says whether the entities tab is
/// the visible one.
pub fn browser_key(typing: bool, b: bool, slash: bool, shift: bool, showing: bool) -> (r: BrowserKey)
    ensures
        r == browser_key_after(typing, b, slash, shift, showing),
{
    if typing {
        return BrowserKey::Nothing;
    }
    let mut r = BrowserKey::Nothing;
    if b {
        r = if showing {
            BrowserKey::Hide
        } else {
            BrowserKey::Search
        };
    }
    if slash && !shift {
        r = BrowserKey::Search;
    }
    r
}

/// The row for a household, `None` when the model no longer has it.
pub open spec fn household_row_words(id: usize, status: Option<Status>) -> Seq<char> {
    "🏠 #"@ + decimal(id as nat) + match status {
        Some(s) => "  "@ + status_words(s),
        None => "  (gone)"@,
    }
}

/// See [`household_row_words`].
pub fn household_label(id: usize, status: Option<Status>) -> (r: String)
    ensures
        r@ == household_row_words(id, status),
{
    let mut s = String::from_str("🏠 #");
    let d = decimal_string(id as u64);
    s.append(d.as_str());
    match status {
        Some(st) => {
            s.append("  ");
            s.append(status_text(st));
        },
        None => s.append("  (gone)"),
    }
    s
}

/// The row for a person, with their age.
pub open spec fn person_row_words(id: usize, person: Option<(Status, u32)>) -> Seq<char> {
    "🚶 #"@ + decimal(id as nat) + match person {
        Some((s, age)) => "  "@ + status_words(s) + ", age "@ + decimal(age as nat),
        None => "  (gone)"@,
    }
}

/// See [`person_row_words`].
pub fn person_label(id: usize, person: Option<(Status, u32)>) -> (r: String)
    ensures
        r@ == person_row_words(id, person),
{
    let mut s = String::from_str("🚶 #");
    let d = decimal_string(id as u64);
    s.append(d.as_str());
    match person {
        Some((st, age)) => {
            s.append("  ");
            s.append(status_text(st));
            s.append(", age ");
            let a = decimal_string(age as u64);
            s.append(a.as_str());
        },
        None => s.append("  (gone)"),
    }
    s
}

/// The row for a group on the move: one person on their own, or a
/// household, and where it is.
pub open spec fn traveller_row_words(t: Option<TravellerInfo>) -> Seq<char> {
    match t {
        Some(t) => "🚗 "@ + (if t.solo {
            "solo"@
        } else {
            "household #"@ + decimal(t.household as nat)
        }) + "  "@ + travel_words(t.state),
        None => "🚗 (gone)"@,
    }
}

/// See [`traveller_row_words`].
pub fn traveller_label(t: Option<TravellerInfo>) -> (r: String)
    ensures
        r@ == traveller_row_words(t),
{
    match t {
        Some(t) => {
            let mut s = String::from_str("🚗 ");
            if t.solo {
                s.append("solo");
            } else {
                s.append("household #");
                let d = decimal_string(t.household as u64);
                s.append(d.as_str());
            }
            s.append("  ");
            s.append(travel_state_text(t.state));
            s
        },
        None => String::from_str("🚗 (gone)"),
    }
}

/// The row for a unit: its callsign and its status line.
pub open spec fn unit_row_words(id: usize, unit: Option<(Seq<char>, Seq<char>)>) -> Seq<char> {
    match unit {
        Some((callsign, status)) => "🚒 "@ + callsign + "  "@ + status,
        None => "🚒 #"@ + decimal(id as nat) + "  (gone)"@,
    }
}

/// See [`unit_row_words`].
pub fn unit_label(id: usize, unit: Option<&UnitRow>) -> (r: String)
    ensures
        r@ == unit_row_words(
            id,
            match unit {
                Some(u) => Some((u.callsign@, u.status_line@)),
                None => None,
            },
        ),
{
    match unit {
        Some(u) => {
            let mut s = String::from_str("🚒 ");
            s.append(u.callsign.as_str());
            s.append("  ");
            s.append(u.status_line.as_str());
            s
        },
        None => {
            let mut s = String::from_str("🚒 #");
            let d = decimal_string(id as u64);
            s.append(d.as_str());
            s.append("  (gone)");
            s
        },
    }
}

/// An empty search hides nothing: with every kind shown, the roster lists
/// every household, person, group and unit.
pub proof fn empty_search_lists_everything(
    households: Seq<(usize, Status)>,
    people: Seq<(usize, Status)>,
    travellers: Seq<TravellerInfo>,
    units: Seq<UnitRow>,
)
    ensures
        household_rows(households, seq![]).len() == households.len(),
        person_rows(people, seq![]).len() == people.len(),
        traveller_rows(travellers, seq![]).len() == travellers.len(),
        unit_rows(units, seq![]).len() == units.len(),
    decreases households.len() + people.len() + travellers.len() + units.len(),
{
    if households.len() > 0 {
        empty_search_lists_everything(households.drop_last(), people, travellers, units);
    }
    if people.len() > 0 {
        empty_search_lists_everything(households, people.drop_last(), travellers, units);
    }
    if travellers.len() > 0 {
        empty_search_lists_everything(households, people, travellers.drop_last(), units);
    }
    if units.len() > 0 {
        empty_search_lists_everything(households, people, travellers, units.drop_last());
    }
}

proof fn lemma_modes_differ()
    ensures
        !occurs("car"@, "foot"@),
        !occurs("foot"@, "car"@),
{
    reveal_strlit("foot");
    reveal_strlit("car");
    assert("foot"@.len() == 4);
    assert("car"@.len() == 3);
    if occurs("foot"@, "car"@) {
        let at = choose|at: int| occurs_at("foot"@, "car"@, at);
        assert("foot"@.subrange(at, at + 3) == "car"@);
        assert(0 <= at <= 1);
        if at == 0 {
            assert("foot"@.subrange(at, at + 3)[0] == "car"@[0]);
        } else {
            assert("foot"@.subrange(at, at + 3)[0] == "car"@[0]);
        }
    }
}

/// How a group travels is searchable: a group on foot matches `foot` and a
/// group in a car matches `car`; and the other word does not match it on
/// its mode alone, only if its id, its household's id or its state holds it.
pub proof fn groups_match_the_way_they_travel(i: usize, t: TravellerInfo)
    ensures
        !t.car ==> traveller_matches(i, t, "foot"@),
        t.car ==> traveller_matches(i, t, "car"@),
        t.car && !occurs(decimal(i as nat), "foot"@) && !occurs(decimal(t.household as nat), "foot"@) && !occurs(
            travel_words(t.state),
            "foot"@,
        ) ==> !traveller_matches(i, t, "foot"@),
        !t.car && !occurs(decimal(i as nat), "car"@) && !occurs(decimal(t.household as nat), "car"@) && !occurs(
            travel_words(t.state),
            "car"@,
        ) ==> !traveller_matches(i, t, "car"@),
{
    lemma_occurs_in_itself("foot"@);
    lemma_occurs_in_itself("car"@);
    lemma_modes_differ();
    reveal_strlit("foot");
    reveal_strlit("car");
    assert("foot"@.len() == 4);
    assert("car"@.len() == 3);
}

/// A group is listed exactly when it matches: the rows for groups on the
/// move hold group `k` if and only if group `k` matches the query.
pub proof fn groups_are_listed_when_they_match(ts: Seq<TravellerInfo>, q: Seq<char>, k: int)
    requires
        0 <= k < ts.len(),
        ts.len() <= usize::MAX,
    ensures
        traveller_rows(ts, q).contains(Target::Traveller(k as usize)) <==> traveller_matches(k as usize, ts[k], q),
    decreases ts.len(),
{
    let n = ts.len();
    let last = (n - 1) as usize;
    let rest = ts.drop_last();
    let tail = if traveller_matches(last, ts.last(), q) {
        seq![Target::Traveller(last)]
    } else {
        seq![]
    };
    assert(traveller_rows(ts, q) == traveller_rows(rest, q) + tail);
    lemma_rows_below(rest, q);
    if k < n - 1 {
        groups_are_listed_when_they_match(rest, q, k);
        assert(rest[k] == ts[k]);
        if traveller_rows(ts, q).contains(Target::Traveller(k as usize)) {
            let j = choose|j: int| 0 <= j < traveller_rows(ts, q).len() && traveller_rows(ts, q)[j] == Target::Traveller(k as usize);
            if j >= traveller_rows(rest, q).len() {
                assert(tail[j - traveller_rows(rest, q).len()] == Target::Traveller(k as usize));
            } else {
                assert(traveller_rows(rest, q)[j] == Target::Traveller(k as usize));
            }
        }
        if traveller_rows(rest, q).contains(Target::Traveller(k as usize)) {
            let j = choose|j: int| 0 <= j < traveller_rows(rest, q).len() && traveller_rows(rest, q)[j] == Target::Traveller(k as usize);
            assert(traveller_rows(ts, q)[j] == Target::Traveller(k as usize));
        }
    } else {
        if traveller_matches(last, ts.last(), q) {
            assert(traveller_rows(ts, q)[traveller_rows(rest, q).len() as int] == Target::Traveller(last));
        } else {
            assert(traveller_rows(ts, q) =~= traveller_rows(rest, q));
            assert(!traveller_rows(rest, q).contains(Target::Traveller(last)));
        }
    }
}

proof fn lemma_occurs_within(hay: Seq<char>, q: Seq<char>, part: Seq<char>)
    requires
        occurs(hay, q),
        occurs(q, part),
    ensures
        occurs(hay, part),
{
    let a = choose|a: int| occurs_at(hay, q, a);
    let b = choose|b: int| occurs_at(q, part, b);
    assert forall|k: int| 0 <= k < part.len() implies hay.subrange(a + b, a + b + part.len())[k] == part[k] by {
        assert(q.subrange(b, b + part.len())[k] == part[k]);
        assert(hay.subrange(a, a + q.len())[b + k] == q[b + k]);
    }
    assert(hay.subrange(a + b, a + b + part.len()) =~= part);
    assert(occurs_at(hay, part, a + b));
}

/// Every row can be found by the words it is shown with: a household or a
/// person by its id or its status, a group by its own id, its household's
/// id or its state, a unit by its callsign, its kind or its state.
pub proof fn rows_are_found_by_their_own_words(id: usize, s: Status, i: usize, t: TravellerInfo, u: UnitRow)
    ensures
        agent_matches(id, s, decimal(id as nat)),
        agent_matches(id, s, status_words(s)),
        traveller_matches(i, t, decimal(i as nat)),
        traveller_matches(i, t, decimal(t.household as nat)),
        traveller_matches(i, t, travel_words(t.state)),
        unit_matches(u, lowercased(u.callsign@)),
        unit_matches(u, u.kind_label@),
        unit_matches(u, u.state_label@),
{
    lemma_occurs_in_itself(decimal(id as nat));
    lemma_occurs_in_itself(status_words(s));
    lemma_occurs_in_itself(decimal(i as nat));
    lemma_occurs_in_itself(decimal(t.household as nat));
    lemma_occurs_in_itself(travel_words(t.state));
    lemma_occurs_in_itself(lowercased(u.callsign@));
    lemma_occurs_in_itself(u.kind_label@);
    lemma_occurs_in_itself(u.state_label@);
}

/// Typing more narrows a search and never widens it: whatever a query
/// matches, every part of that query matches too, so a row that a longer
/// query keeps was already kept before the last keystroke.
pub proof fn narrowing_a_search_only_drops_rows(
    id: usize,
    s: Status,
    i: usize,
    t: TravellerInfo,
    u: UnitRow,
    q: Seq<char>,
    part: Seq<char>,
)
    requires
        occurs(q, part),
    ensures
        agent_matches(id, s, q) ==> agent_matches(id, s, part),
        traveller_matches(i, t, q) ==> traveller_matches(i, t, part),
        unit_matches(u, q) ==> unit_matches(u, part),
{
    if q.len() == 0 {
        let b = choose|b: int| occurs_at(q, part, b);
        assert(part.len() == 0);
    } else {
        if occurs(decimal(id as nat), q) {
            lemma_occurs_within(decimal(id as nat), q, part);
        }
        if occurs(status_words(s), q) {
            lemma_occurs_within(status_words(s), q, part);
        }
        if occurs(decimal(i as nat), q) {
            lemma_occurs_within(decimal(i as nat), q, part);
        }
        if occurs(decimal(t.household as nat), q) {
            lemma_occurs_within(decimal(t.household as nat), q, part);
        }
        if occurs(travel_words(t.state), q) {
            lemma_occurs_within(travel_words(t.state), q, part);
        }
        if occurs("car"@, q) {
            lemma_occurs_within("car"@, q, part);
        }
        if occurs("foot"@, q) {
            lemma_occurs_within("foot"@, q, part);
        }
        if occurs(lowercased(u.callsign@), q) {
            lemma_occurs_within(lowercased(u.callsign@), q, part);
        }
        if occurs(u.kind_label@, q) {
            lemma_occurs_within(u.kind_label@, q, part);
        }
        if occurs(u.state_label@, q) {
            lemma_occurs_within(u.state_label@, q, part);
        }
    }
}

spec fn below(t: Target, n: int) -> bool {
    match t {
        Target::Traveller(m) => m < n,
        _ => false,
    }
}

proof fn lemma_rows_below(ts: Seq<TravellerInfo>, q: Seq<char>)
    ensures
        forall|j: int| 0 <= j < traveller_rows(ts, q).len() ==> below(#[trigger] traveller_rows(ts, q)[j], ts.len() as int),
    decreases ts.len(),
{
    if ts.len() > 0 {
        let rest = ts.drop_last();
        lemma_rows_below(rest, q);
        let last = (ts.len() - 1) as usize;
        let tail = if traveller_matches(last, ts.last(), q) {
            seq![Target::Traveller(last)]
        } else {
            seq![]
        };
        assert(traveller_rows(ts, q) == traveller_rows(rest, q) + tail);
        assert forall|j: int| 0 <= j < traveller_rows(ts, q).len() implies below(#[trigger] traveller_rows(ts, q)[j], ts.len() as int) by {
            if j < traveller_rows(rest, q).len() {
                assert(traveller_rows(ts, q)[j] == traveller_rows(rest, q)[j]);
            }
        }
    }
}

} // verus!
