//! Everything an interviewed agent knows about itself, as facts in its own
//! words: the baked traits the population gave it and where it stands now.
//!
//! What the fire model measures (distances, shares of a scale, minutes) the
//! caller reads and hands in already placed in a band or worded as a number;
//! which facts an agent has, in what order and in what words is decided here.
use vstd::prelude::*;
use crate::model::{Intent, Status, TaskKind, UnitKind, WarningChannel};
use crate::recall::{
    channel_memory, channel_phrase, crew_phrase, crew_words, family_line, family_words, household_line,
    household_words, intent_memory, intent_phrase, orders_phrase, orders_words, situation, situation_words,
    text_view,
};
use crate::text::{decimal, decimal_string};

verus! {

/// One thing an agent knows: a heading and what it says.
pub struct Fact {
    pub title: String,
    pub text: String,
}

pub open spec fn fact_views(facts: Seq<Fact>) -> Seq<(Seq<char>, Seq<char>)> {
    Seq::new(facts.len(), |i: int| (facts[i].title@, facts[i].text@))
}

fn fact(title: &str, text: &str) -> (f: Fact)
    ensures
        f.title@ == title@,
        f.text@ == text@,
{
    Fact { title: String::from_str(title), text: String::from_str(text) }
}

fn push_fact(facts: &mut Vec<Fact>, f: Fact)
    ensures
        fact_views(final(facts)@) == fact_views(old(facts)@).push((f.title@, f.text@)),
{
    let ghost t = f.title@;
    let ghost x = f.text@;
    facts.push(f);
    assert(fact_views(facts@) =~= fact_views(old(facts)@).push((t, x)));
}

/// Where on a trait's scale an agent sits: the lower third and a bit, the
/// middle, the top (cut at 0.35 and 0.7).
#[derive(Debug, Clone, Copy, PartialEq, Eq, Structural)]
pub enum Band {
    Low,
    Mid,
    High,
}

pub open spec fn banded(b: Band, low: Seq<char>, mid: Seq<char>, high: Seq<char>) -> Seq<char> {
    match b {
        Band::Low => low,
        Band::Mid => mid,
        Band::High => high,
    }
}

fn band_text(b: Band, low: &'static str, mid: &'static str, high: &'static str) -> (r: &'static str)
    ensures
        r@ == banded(b, low@, mid@, high@),
{
    match b {
        Band::Low => low,
        Band::Mid => mid,
        Band::High => high,
    }
}

/// How far the wild fuel is from the house: under 30 m, under 120 m, or
/// further.
#[derive(Debug, Clone, Copy, PartialEq, Eq, Structural)]
pub enum FuelDistance {
    AtTheWalls,
    ShortWalk,
    BuiltUp,
}

pub open spec fn fuel_words(d: FuelDistance) -> Seq<char> {
    match d {
        FuelDistance::AtTheWalls => "the macchia comes right up to the house"@,
        FuelDistance::ShortWalk => "there is scrub and pine a short walk from the house"@,
        FuelDistance::BuiltUp => "you are in the built-up part of town, away from the brush"@,
    }
}

/// What the population baked into a home.
pub struct Home {
    pub locality: Option<String>,
    pub address: Option<String>,
    pub animals: bool,
    pub fire_before: bool,
    pub fuel: FuelDistance,
}

/// A household as its interview reads it.
pub struct HouseholdFacts {
    pub members: u64,
    /// The ages of the members the model still has.
    pub ages: Vec<u32>,
    pub vehicles: u64,
    /// Someone in it needs help to move.
    pub needs_help: bool,
    /// What the population baked into its home, when it has a record.
    pub home: Option<Home>,
    pub intent: Intent,
    pub risk_perception: Band,
    pub trust_authority: Band,
    pub channel: WarningChannel,
    /// Minutes of preparation before it could leave, as the panel prints them.
    pub prep_minutes: String,
    /// More than half an hour of them.
    pub slow_to_leave: bool,
    pub defensible_space: Band,
    pub status: Status,
    /// Minutes of preparation left, as printed, while any are.
    pub prep_left_minutes: Option<String>,
    pub ordered: bool,
    pub warning_received: bool,
}

pub open spec fn one(title: Seq<char>, text: Seq<char>) -> Seq<(Seq<char>, Seq<char>)> {
    seq![(title, text)]
}

pub open spec fn when(cond: bool, title: Seq<char>, text: Seq<char>) -> Seq<(Seq<char>, Seq<char>)> {
    if cond {
        seq![(title, text)]
    } else {
        seq![]
    }
}

/// The facts of a baked home: where it is (when the record names a
/// locality), the animals, a fire before, and how close the brush is.
pub open spec fn home_facts(home: Option<(Option<Seq<char>>, Option<Seq<char>>, bool, bool, FuelDistance)>) -> Seq<
    (Seq<char>, Seq<char>),
> {
    match home {
        None => seq![],
        Some((locality, address, animals, fire_before, fuel)) => (match locality {
            Some(l) => one(
                "Home"@,
                match address {
                    Some(a) => a + ", "@ + l,
                    None => l,
                },
            ),
            None => seq![],
        }) + when(animals, "Animals"@, "you have animals to think about"@) + when(
            fire_before,
            "Before"@,
            "you have been through a fire near here before"@,
        ) + one("Where you live"@, fuel_words(fuel)),
    }
}

pub open spec fn home_view(h: Option<Home>) -> Option<(Option<Seq<char>>, Option<Seq<char>>, bool, bool, FuelDistance)> {
    match h {
        Some(h) => Some((text_view(h.locality), text_view(h.address), h.animals, h.fire_before, h.fuel)),
        None => None,
    }
}

/// Who the household is, and whether someone in it needs help.
pub open spec fn household_head(h: HouseholdFacts) -> Seq<(Seq<char>, Seq<char>)> {
    one("Your household"@, household_words(h.members, h.ages@, h.vehicles)) + when(
        h.needs_help,
        "Someone needs help to move"@,
        "one of your household cannot get out on their own"@,
    )
}

/// The household's traits: what it said it would do, how it takes a
/// warning and the authorities, how it would hear, how long it needs, and
/// the ground round the house.
pub open spec fn household_traits(h: HouseholdFacts) -> Seq<(Seq<char>, Seq<char>)> {
    one("What you always said you would do"@, intent_memory(h.intent)) + one(
        "How you take a warning"@,
        banded(
            h.risk_perception,
            "you think this kind of thing is usually overstated"@,
            "you take it seriously enough, without panicking"@,
            "you frighten easily and you know it"@,
        ),
    ) + one(
        "What you make of the authorities"@,
        banded(
            h.trust_authority,
            "you do not much trust what officials tell you"@,
            "you would take an official warning at face value"@,
            "if the authorities say go, you go"@,
        ),
    ) + one("How you would hear"@, channel_memory(h.channel)) + one(
        "Before you could actually leave"@,
        "about "@ + h.prep_minutes@ + " minutes of things you would have to do first"@ + (if h.slow_to_leave {
            " — you are slow to get moving"@
        } else {
            ""@
        }),
    ) + one(
        "Around the house"@,
        banded(
            h.defensible_space,
            "the garden is overgrown right up to the walls"@,
            "the ground round the house is reasonably clear"@,
            "you keep everything cut back and cleared"@,
        ),
    )
}

/// Where the household stands now: its situation, the preparation still to
/// do, and an order that has not reached it.
pub open spec fn household_now(h: HouseholdFacts) -> Seq<(Seq<char>, Seq<char>)> {
    one("Right now you are"@, situation_words(h.status)) + (match h.prep_left_minutes {
        Some(m) => when(
            h.status == Status::Preparing,
            "Still to do"@,
            "about "@ + m@ + " more minutes of getting ready"@,
        ),
        None => seq![],
    }) + when(
        h.ordered && !h.warning_received,
        "The order"@,
        "an evacuation order has gone out for your area, but nobody has reached you yet — you do not know about it"@,
    )
}

/// A household's facts, in the order the interview gives them.
pub open spec fn household_fact_list(h: HouseholdFacts) -> Seq<(Seq<char>, Seq<char>)> {
    household_head(h) + home_facts(home_view(h.home)) + household_traits(h) + household_now(h)
}

fn home_fact_push(facts: &mut Vec<Fact>, home: &Option<Home>)
    ensures
        fact_views(final(facts)@) == fact_views(old(facts)@) + home_facts(home_view(*home)),
{
    match home {
        None => {
            assert(fact_views(facts@) =~= fact_views(old(facts)@) + home_facts(home_view(*home)));
        },
        Some(h) => {
            match &h.locality {
                Some(l) => {
                    let text = match &h.address {
                        Some(a) => {
                            let mut s = String::from_str(a.as_str());
                            s.append(", ");
                            s.append(l.as_str());
                            s
                        },
                        None => String::from_str(l.as_str()),
                    };
                    push_fact(facts, Fact { title: String::from_str("Home"), text });
                },
                None => {},
            }
            if h.animals {
                push_fact(facts, fact("Animals", "you have animals to think about"));
            }
            if h.fire_before {
                push_fact(facts, fact("Before", "you have been through a fire near here before"));
            }
            let where_ = match h.fuel {
                FuelDistance::AtTheWalls => "the macchia comes right up to the house",
                FuelDistance::ShortWalk => "there is scrub and pine a short walk from the house",
                FuelDistance::BuiltUp => "you are in the built-up part of town, away from the brush",
            };
            push_fact(facts, fact("Where you live", where_));
            assert(fact_views(facts@) =~= fact_views(old(facts)@) + home_facts(home_view(*home)));
        },
    }
}

fn push_head(facts: &mut Vec<Fact>, h: &HouseholdFacts)
    ensures
        fact_views(final(facts)@) == fact_views(old(facts)@) + household_head(*h),
{
    let line = household_line(h.members, &h.ages, h.vehicles);
    push_fact(facts, Fact { title: String::from_str("Your household"), text: line });
    if h.needs_help {
        push_fact(facts, fact("Someone needs help to move", "one of your household cannot get out on their own"));
    }
    assert(fact_views(facts@) =~= fact_views(old(facts)@) + household_head(*h));
}

fn push_traits(facts: &mut Vec<Fact>, h: &HouseholdFacts)
    ensures
        fact_views(final(facts)@) == fact_views(old(facts)@) + household_traits(*h),
{
    push_fact(facts, fact("What you always said you would do", intent_phrase(h.intent)));
    push_fact(
        facts,
        fact(
            "How you take a warning",
            band_text(
                h.risk_perception,
                "you think this kind of thing is usually overstated",
                "you take it seriously enough, without panicking",
                "you frighten easily and you know it",
            ),
        ),
    );
    push_fact(
        facts,
        fact(
            "What you make of the authorities",
            band_text(
                h.trust_authority,
                "you do not much trust what officials tell you",
                "you would take an official warning at face value",
                "if the authorities say go, you go",
            ),
        ),
    );
    push_fact(facts, fact("How you would hear", channel_phrase(h.channel)));
    let mut prep = String::from_str("about ");
    prep.append(h.prep_minutes.as_str());
    prep.append(" minutes of things you would have to do first");
    if h.slow_to_leave {
        prep.append(" — you are slow to get moving");
    }
    proof {
        reveal_strlit("");
    }
    push_fact(facts, Fact { title: String::from_str("Before you could actually leave"), text: prep });
    push_fact(
        facts,
        fact(
            "Around the house",
            band_text(
                h.defensible_space,
                "the garden is overgrown right up to the walls",
                "the ground round the house is reasonably clear",
                "you keep everything cut back and cleared",
            ),
        ),
    );
    assert(fact_views(facts@) =~= fact_views(old(facts)@) + household_traits(*h));
}

fn push_now(facts: &mut Vec<Fact>, h: &HouseholdFacts)
    ensures
        fact_views(final(facts)@) == fact_views(old(facts)@) + household_now(*h),
{
    push_fact(facts, fact("Right now you are", situation(h.status)));
    match &h.prep_left_minutes {
        Some(m) => {
            if h.status == Status::Preparing {
                let mut s = String::from_str("about ");
                s.append(m.as_str());
                s.append(" more minutes of getting ready");
                push_fact(facts, Fact { title: String::from_str("Still to do"), text: s });
            }
        },
        None => {},
    }
    if h.ordered && !h.warning_received {
        push_fact(
            facts,
            fact(
                "The order",
                "an evacuation order has gone out for your area, but nobody has reached you yet — you do not know about it",
            ),
        );
    }
    assert(fact_views(facts@) =~= fact_views(old(facts)@) + household_now(*h));
}

/// See [`household_fact_list`].
pub fn household_facts(h: &HouseholdFacts) -> (r: Vec<Fact>)
    ensures
        fact_views(r@) == household_fact_list(*h),
{
    let mut facts: Vec<Fact> = Vec::new();
    push_head(&mut facts, h);
    home_fact_push(&mut facts, &h.home);
    push_traits(&mut facts, h);
    push_now(&mut facts, h);
    assert(fact_views(facts@) =~= household_fact_list(*h));
    facts
}

/// Someone away from home, as far as their household is concerned.
pub struct Family {
    /// The household's size, this person included.
    pub size: u64,
    pub status: Status,
}

/// A person as their interview reads them.
pub struct PersonFacts {
    pub age: u32,
    /// Where their family lives, when the population names it.
    pub locality: Option<String>,
    pub needs_assistance: bool,
    /// Walks slower than a metre a second.
    pub slow_walker: bool,
    pub away: bool,
    /// Their household, when the model still has it.
    pub family: Option<Family>,
    pub status: Status,
}

/// A person's facts, in the order the interview gives them.
pub open spec fn person_fact_list(p: PersonFacts) -> Seq<(Seq<char>, Seq<char>)> {
    one("You"@, decimal(p.age as nat) + " years old"@) + (match p.locality {
        Some(l) => one("Home"@, "your family lives in "@ + l@),
        None => seq![],
    }) + (if p.needs_assistance {
        one("Moving"@, "you cannot get far on your own"@)
    } else {
        when(p.slow_walker, "Moving"@, "you are slow on your feet"@)
    }) + (if p.away {
        one("Where you are"@, "you are out, away from home, and not with your family"@) + match p.family {
            Some(f) => one(
                "Your family"@,
                family_words(
                    if f.size == 0 {
                        0
                    } else {
                        (f.size - 1) as u64
                    },
                ),
            ) + one("They are"@, situation_words(f.status)),
            None => seq![],
        }
    } else {
        one("Where you are"@, "you are with your household"@)
    }) + one("Right now you are"@, situation_words(p.status))
}

/// See [`person_fact_list`].
pub fn person_facts(p: &PersonFacts) -> (r: Vec<Fact>)
    ensures
        fact_views(r@) == person_fact_list(*p),
{
    let mut facts: Vec<Fact> = Vec::new();
    let mut age = decimal_string(p.age as u64);
    age.append(" years old");
    push_fact(&mut facts, Fact { title: String::from_str("You"), text: age });
    match &p.locality {
        Some(l) => {
            let mut s = String::from_str("your family lives in ");
            s.append(l.as_str());
            push_fact(&mut facts, Fact { title: String::from_str("Home"), text: s });
        },
        None => {},
    }
    if p.needs_assistance {
        push_fact(&mut facts, fact("Moving", "you cannot get far on your own"));
    } else if p.slow_walker {
        push_fact(&mut facts, fact("Moving", "you are slow on your feet"));
    }
    if p.away {
        push_fact(&mut facts, fact("Where you are", "you are out, away from home, and not with your family"));
        match &p.family {
            Some(f) => {
                let line = family_line(f.size);
                push_fact(&mut facts, Fact { title: String::from_str("Your family"), text: line });
                push_fact(&mut facts, fact("They are", situation(f.status)));
            },
            None => {},
        }
    } else {
        push_fact(&mut facts, fact("Where you are", "you are with your household"));
    }
    push_fact(&mut facts, fact("Right now you are", situation(p.status)));
    assert(fact_views(facts@) =~= person_fact_list(*p));
    facts
}

/// Where a unit is, coarsely: within 60 m of its staging point, within
/// 300 m of the fire, or in between.
#[derive(Debug, Clone, Copy, PartialEq, Eq, Structural)]
pub enum Whereabouts {
    AtStaging,
    OnFireGround,
    OnTheRoad,
}

pub open spec fn whereabouts_words(w: Whereabouts) -> Seq<char> {
    match w {
        Whereabouts::AtStaging => "at your staging point, on the edge of the town"@,
        Whereabouts::OnFireGround => "on the fire ground"@,
        Whereabouts::OnTheRoad => "out on the road, somewhere between the town and the fire"@,
    }
}

/// What is in a unit's tank, for a unit that carries one.
pub enum Water {
    /// Two per cent or less.
    Dry,
    /// The share left, in per cent, as printed.
    Left(String),
}

/// A unit as its interview reads it.
pub struct UnitFacts {
    pub kind: UnitKind,
    /// The roster's word for what it is doing.
    pub state: String,
    pub whereabouts: Whereabouts,
    pub task: TaskKind,
    /// Its tank, if it has one.
    pub water: Option<Water>,
    /// Metres of line cut, as printed, once there are any.
    pub line_cut: Option<String>,
    pub drops: u32,
    /// Why it is not achieving anything, when it says.
    pub note: String,
}

pub open spec fn water_view(w: Option<Water>) -> Option<Option<Seq<char>>> {
    match w {
        None => None,
        Some(Water::Dry) => Some(None),
        Some(Water::Left(s)) => Some(Some(s@)),
    }
}

/// A unit's facts, in the order the interview gives them.
pub open spec fn unit_fact_list(u: UnitFacts) -> Seq<(Seq<char>, Seq<char>)> {
    one("Your crew"@, crew_words(u.kind)) + one("Right now"@, u.state@) + one(
        "Where you are"@,
        whereabouts_words(u.whereabouts),
    ) + one("Your orders"@, orders_words(u.task)) + (match water_view(u.water) {
        None => seq![],
        Some(None) => one("Water"@, "your tank is dry"@),
        Some(Some(p)) => one("Water"@, "about "@ + p + "% of your tank left"@),
    }) + (match u.line_cut {
        Some(m) => one("Line cut so far"@, m@ + " metres"@),
        None => seq![],
    }) + when(u.drops > 0, "Drops made"@, decimal(u.drops as nat)) + when(
        u.note@.len() > 0,
        "What is stopping you"@,
        u.note@,
    )
}

/// See [`unit_fact_list`].
pub fn unit_facts(u: &UnitFacts) -> (r: Vec<Fact>)
    ensures
        fact_views(r@) == unit_fact_list(*u),
{
    let mut facts: Vec<Fact> = Vec::new();
    push_fact(&mut facts, fact("Your crew", crew_phrase(u.kind)));
    push_fact(&mut facts, fact("Right now", u.state.as_str()));
    let where_ = match u.whereabouts {
        Whereabouts::AtStaging => "at your staging point, on the edge of the town",
        Whereabouts::OnFireGround => "on the fire ground",
        Whereabouts::OnTheRoad => "out on the road, somewhere between the town and the fire",
    };
    push_fact(&mut facts, fact("Where you are", where_));
    push_fact(&mut facts, fact("Your orders", orders_phrase(u.task)));
    match &u.water {
        None => {},
        Some(Water::Dry) => push_fact(&mut facts, fact("Water", "your tank is dry")),
        Some(Water::Left(p)) => {
            let mut s = String::from_str("about ");
            s.append(p.as_str());
            s.append("% of your tank left");
            push_fact(&mut facts, Fact { title: String::from_str("Water"), text: s });
        },
    }
    match &u.line_cut {
        Some(m) => {
            let mut s = String::from_str(m.as_str());
            s.append(" metres");
            push_fact(&mut facts, Fact { title: String::from_str("Line cut so far"), text: s });
        },
        None => {},
    }
    if u.drops > 0 {
        let d = decimal_string(u.drops as u64);
        push_fact(&mut facts, Fact { title: String::from_str("Drops made"), text: d });
    }
    if u.note.unicode_len() > 0 {
        push_fact(&mut facts, fact("What is stopping you", u.note.as_str()));
    }
    assert(fact_views(facts@) =~= unit_fact_list(*u));
    facts
}

/// What someone travelling perceives of the journey itself: the car or
/// their feet, and being cut off.
pub open spec fn journey_words(car: bool, cut_off: bool) -> Seq<Seq<char>> {
    seq![
        if car {
            "You are in the car, on the road out."@
        } else {
            "You are on foot, moving."@
        },
    ] + if cut_off {
        seq!["There is no way through: you are cut off."@]
    } else {
        seq![]
    }
}

/// See [`journey_words`].
pub fn journey(car: bool, cut_off: bool) -> (r: Vec<String>)
    ensures
        r@.map_values(|s: String| s@) == journey_words(car, cut_off),
{
    let mut out: Vec<String> = Vec::new();
    if car {
        out.push(String::from_str("You are in the car, on the road out."));
    } else {
        out.push(String::from_str("You are on foot, moving."));
    }
    if cut_off {
        out.push(String::from_str("There is no way through: you are cut off."));
    }
    assert(out@.map_values(|s: String| s@) =~= journey_words(car, cut_off));
    out
}

/// How far off the fire looks, from the coarse distance field the agents
/// themselves read (cut at 100 m, 400 m, 1.2 km and 4 km).
#[derive(Debug, Clone, Copy, PartialEq, Eq, Structural)]
pub enum Sight {
    RightThere,
    FewHundredMetres,
    AKilometre,
    InTheDistance,
    Nothing,
}

/// What the fire's threat does to the air here (cut at 0.1, 0.3 and 0.6).
#[derive(Debug, Clone, Copy, PartialEq, Eq, Structural)]
pub enum Air {
    Clear,
    Smell,
    Smoke,
    Heat,
}

/// How hard the wind blows (cut at 10 and 25 km/h).
#[derive(Debug, Clone, Copy, PartialEq, Eq, Structural)]
pub enum Gust {
    Light,
    Steady,
    Hard,
}

pub open spec fn toward_words(bearing: Option<Seq<char>>, uphill: bool) -> Seq<char> {
    match bearing {
        Some(b) => " to the "@ + b + (if uphill {
            ", up the slope"@
        } else {
            ""@
        }),
        None => ""@,
    }
}

pub open spec fn sight_words(sight: Sight, toward: Seq<char>) -> Seq<char> {
    match sight {
        Sight::RightThere => "The fire is right there"@ + toward + " — you can hear it."@,
        Sight::FewHundredMetres => "The fire is a few hundred metres away"@ + toward + ". You can see flame."@,
        Sight::AKilometre => "There is a column of smoke perhaps a kilometre off"@ + toward + "."@,
        Sight::InTheDistance => "You can see smoke in the distance"@ + toward + "."@,
        Sight::Nothing => "You cannot see any fire from here."@,
    }
}

pub open spec fn air_words(air: Air) -> Option<Seq<char>> {
    match air {
        Air::Heat => Some("The air here is hot and hard to breathe; ash is falling."@),
        Air::Smoke => Some("There is smoke on the ground here and it stings."@),
        Air::Smell => Some("You can smell it strongly."@),
        Air::Clear => None,
    }
}

pub open spec fn wind_words(gust: Gust, kmh: Seq<char>, from: Seq<char>) -> Option<Seq<char>> {
    match gust {
        Gust::Hard => Some("A hard wind, "@ + kmh + " km/h, blowing from the "@ + from + "."@),
        Gust::Steady => Some("A steady wind from the "@ + from + "."@),
        Gust::Light => None,
    }
}

pub open spec fn with_line(s: Seq<Seq<char>>, o: Option<Seq<char>>) -> Seq<Seq<char>> {
    match o {
        Some(x) => s.push(x),
        None => s,
    }
}

/// What an agent perceives of the fire where it stands: how far off it
/// looks (and which way, when it can tell), what the air is like, and the
/// wind. `bearing` is the compass point of the nearest burning cell and
/// `uphill` whether that cell lies up the slope; `kmh` is the wind speed as
/// printed and `from` the compass point it blows from.
pub open spec fn perception_words(
    sight: Sight,
    bearing: Option<Seq<char>>,
    uphill: bool,
    air: Air,
    gust: Gust,
    kmh: Seq<char>,
    from: Seq<char>,
) -> Seq<Seq<char>> {
    with_line(
        with_line(seq![sight_words(sight, toward_words(bearing, uphill))], air_words(air)),
        wind_words(gust, kmh, from),
    )
}

pub open spec fn string_views(v: Seq<String>) -> Seq<Seq<char>> {
    Seq::new(v.len(), |i: int| v[i]@)
}

fn push_line(lines: &mut Vec<String>, line: String)
    ensures
        string_views(final(lines)@) == string_views(old(lines)@).push(line@),
{
    let ghost l = line@;
    lines.push(line);
    assert(string_views(lines@) =~= string_views(old(lines)@).push(l));
}

/// See [`perception_words`].
pub fn perceptions(
    sight: Sight,
    bearing: Option<&str>,
    uphill: bool,
    air: Air,
    gust: Gust,
    kmh: &str,
    from: &str,
) -> (r: Vec<String>)
    ensures
        string_views(r@) == perception_words(
            sight,
            match bearing {
                Some(b) => Some(b@),
                None => None,
            },
            uphill,
            air,
            gust,
            kmh@,
            from@,
        ),
{
    let ghost bv = match bearing {
        Some(b) => Some(b@),
        None => None::<Seq<char>>,
    };
    let mut toward = String::new();
    if let Some(b) = bearing {
        toward.append(" to the ");
        toward.append(b);
        if uphill {
            toward.append(", up the slope");
        }
    }
    proof {
        reveal_strlit("");
    }
    assert(toward@ =~= toward_words(bv, uphill));
    let mut first = String::new();
    match sight {
        Sight::RightThere => {
            first.append("The fire is right there");
            first.append(toward.as_str());
            first.append(" — you can hear it.");
        },
        Sight::FewHundredMetres => {
            first.append("The fire is a few hundred metres away");
            first.append(toward.as_str());
            first.append(". You can see flame.");
        },
        Sight::AKilometre => {
            first.append("There is a column of smoke perhaps a kilometre off");
            first.append(toward.as_str());
            first.append(".");
        },
        Sight::InTheDistance => {
            first.append("You can see smoke in the distance");
            first.append(toward.as_str());
            first.append(".");
        },
        Sight::Nothing => {
            first.append("You cannot see any fire from here.");
        },
    }
    assert(first@ =~= sight_words(sight, toward_words(bv, uphill)));
    let mut out: Vec<String> = Vec::new();
    push_line(&mut out, first);
    assert(string_views(out@) =~= seq![sight_words(sight, toward_words(bv, uphill))]);
    match air {
        Air::Heat => push_line(&mut out, String::from_str("The air here is hot and hard to breathe; ash is falling.")),
        Air::Smoke => push_line(&mut out, String::from_str("There is smoke on the ground here and it stings.")),
        Air::Smell => push_line(&mut out, String::from_str("You can smell it strongly.")),
        Air::Clear => {},
    }
    match gust {
        Gust::Hard => {
            let mut w = String::from_str("A hard wind, ");
            w.append(kmh);
            w.append(" km/h, blowing from the ");
            w.append(from);
            w.append(".");
            push_line(&mut out, w);
        },
        Gust::Steady => {
            let mut w = String::from_str("A steady wind from the ");
            w.append(from);
            w.append(".");
            push_line(&mut out, w);
        },
        Gust::Light => {},
    }
    out
}

/// What the fire is doing to a household's own house, as measured at the
/// house (embers cut at 0.15, radiant heat at 0.2; being alight comes first).
#[derive(Debug, Clone, Copy, PartialEq, Eq, Structural)]
pub enum HouseExposure {
    Alight,
    Embers,
    Heat,
    Untouched,
}

/// What a household feels at home, after what it perceives of the fire: the
/// fire at the house, if it has reached it, and fear, when its cue is high
/// (above 0.6; the caller says whether it is).
pub open spec fn home_words(exposure: HouseExposure, frightened: bool) -> Seq<Seq<char>> {
    (match exposure {
        HouseExposure::Alight => seq!["Your house is alight."@],
        HouseExposure::Embers => seq!["Embers are landing around the house."@],
        HouseExposure::Heat => seq!["You can feel the heat of it on the walls of the house."@],
        HouseExposure::Untouched => seq![],
    }) + if frightened {
        seq!["You are frightened."@]
    } else {
        seq![]
    }
}

/// See [`home_words`].
pub fn home_feelings(exposure: HouseExposure, frightened: bool) -> (r: Vec<String>)
    ensures
        string_views(r@) == home_words(exposure, frightened),
{
    let mut out: Vec<String> = Vec::new();
    match exposure {
        HouseExposure::Alight => push_line(&mut out, String::from_str("Your house is alight.")),
        HouseExposure::Embers => push_line(&mut out, String::from_str("Embers are landing around the house.")),
        HouseExposure::Heat => push_line(
            &mut out,
            String::from_str("You can feel the heat of it on the walls of the house."),
        ),
        HouseExposure::Untouched => {},
    }
    if frightened {
        push_line(&mut out, String::from_str("You are frightened."));
    }
    assert(string_views(out@) =~= home_words(exposure, frightened));
    out
}

} // verus!
