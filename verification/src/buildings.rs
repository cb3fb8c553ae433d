//! The town's structures: what kind of building a footprint is, what the
//! fire has done to it, and what the inspector says about a household's home.
use vstd::prelude::*;
use crate::model::Status;
use crate::text::str_eq;

verus! {

/// What kind of thing a building is, which sets its height, its roof and
/// its palette.
#[derive(Debug, Clone, Copy, PartialEq, Eq, Structural)]
pub enum Kind {
    House,
    Apartments,
    Industrial,
    Civic,
    Shed,
}

/// A footprint's size, for the buildings whose tag says nothing: under
/// 45 m², over 420 m², or in between.
#[derive(Debug, Clone, Copy, PartialEq, Eq, Structural)]
pub enum Footprint {
    Small,
    Medium,
    Large,
}

pub open spec fn is_one_of(t: Seq<char>, words: Seq<Seq<char>>) -> bool {
    words.contains(t)
}

/// The kind a building tag names; an untagged building counts as `yes`, and
/// for a `yes` (or any tag not listed) the footprint decides: a small box is
/// a garage, a large one a block of flats.
pub open spec fn kind_of(tag: Option<Seq<char>>, size: Footprint) -> Kind {
    let t = match tag {
        Some(t) => t,
        None => "yes"@,
    };
    if is_one_of(t, seq!["house"@, "detached"@, "residential"@, "cabin"@, "bungalow"@, "villa"@]) {
        Kind::House
    } else if is_one_of(t, seq!["apartments"@, "hotel"@, "dormitory"@]) {
        Kind::Apartments
    } else if is_one_of(
        t,
        seq!["industrial"@, "warehouse"@, "commercial"@, "retail"@, "supermarket"@],
    ) {
        Kind::Industrial
    } else if is_one_of(
        t,
        seq!["church"@, "chapel"@, "school"@, "public"@, "civic"@, "hospital"@, "train_station"@],
    ) {
        Kind::Civic
    } else if is_one_of(
        t,
        seq!["roof"@, "garage"@, "garages"@, "shed"@, "hut"@, "construction"@, "ruins"@],
    ) {
        Kind::Shed
    } else {
        match size {
            Footprint::Small => Kind::Shed,
            Footprint::Large => Kind::Apartments,
            Footprint::Medium => Kind::House,
        }
    }
}

fn one_of(t: &str, words: &Vec<&'static str>) -> (r: bool)
    ensures
        r == is_one_of(t@, words@.map_values(|w: &'static str| w@)),
{
    let n = words.len();
    let ghost ws = words@.map_values(|w: &'static str| w@);
    let mut i: usize = 0;
    while i < n
        invariant
            n == words@.len(),
            ws == words@.map_values(|w: &'static str| w@),
            i <= n,
            forall|j: int| 0 <= j < i ==> ws[j] != t@,
        decreases n - i,
    {
        if str_eq(t, words[i]) {
            assert(ws[i as int] == t@);
            return true;
        }
        i = i + 1;
    }
    false
}

impl Kind {
    /// See [`kind_of`].
    pub fn of(tag: Option<&str>, size: Footprint) -> (k: Kind)
        ensures
            k == kind_of(
                match tag {
                    Some(t) => Some(t@),
                    None => None,
                },
                size,
            ),
    {
        let t = match tag {
            Some(t) => t,
            None => "yes",
        };
        let house = vec!["house", "detached", "residential", "cabin", "bungalow", "villa"];
        let flats = vec!["apartments", "hotel", "dormitory"];
        let industry = vec!["industrial", "warehouse", "commercial", "retail", "supermarket"];
        let civic = vec!["church", "chapel", "school", "public", "civic", "hospital", "train_station"];
        let shed = vec!["roof", "garage", "garages", "shed", "hut", "construction", "ruins"];
        assert(house@.map_values(|w: &'static str| w@) =~= seq![
            "house"@,
            "detached"@,
            "residential"@,
            "cabin"@,
            "bungalow"@,
            "villa"@,
        ]);
        assert(flats@.map_values(|w: &'static str| w@) =~= seq!["apartments"@, "hotel"@, "dormitory"@]);
        assert(industry@.map_values(|w: &'static str| w@) =~= seq![
            "industrial"@,
            "warehouse"@,
            "commercial"@,
            "retail"@,
            "supermarket"@,
        ]);
        assert(civic@.map_values(|w: &'static str| w@) =~= seq![
            "church"@,
            "chapel"@,
            "school"@,
            "public"@,
            "civic"@,
            "hospital"@,
            "train_station"@,
        ]);
        assert(shed@.map_values(|w: &'static str| w@) =~= seq![
            "roof"@,
            "garage"@,
            "garages"@,
            "shed"@,
            "hut"@,
            "construction"@,
            "ruins"@,
        ]);
        if one_of(t, &house) {
            Kind::House
        } else if one_of(t, &flats) {
            Kind::Apartments
        } else if one_of(t, &industry) {
            Kind::Industrial
        } else if one_of(t, &civic) {
            Kind::Civic
        } else if one_of(t, &shed) {
            Kind::Shed
        } else {
            match size {
                Footprint::Small => Kind::Shed,
                Footprint::Large => Kind::Apartments,
                Footprint::Medium => Kind::House,
            }
        }
    }

    /// Industrial halls and sheds have flat roofs; everything else is
    /// pitched.
    pub fn flat_roof(self) -> (r: bool)
        ensures
            r == (self == Kind::Industrial || self == Kind::Shed),
    {
        match self {
            Kind::Industrial | Kind::Shed => true,
            _ => false,
        }
    }
}

/// What the fire has done to a structure, as drawn.
#[derive(Debug, Clone, Copy, PartialEq, Eq, Structural)]
pub enum Damage {
    Undamaged,
    /// Taking enough heat to be worth watching, not yet alight.
    Threatened,
    Alight,
    Destroyed,
}

/// A structure's damage this frame. Catching fire is latched (`caught`):
/// a structure that caught stays alight, and burns down once it has been
/// burning long enough (`burnt_down`), whatever the front does after;
/// otherwise it is threatened while the heat on it is high (`hot`).
pub open spec fn damage_after(caught: bool, burnt_down: bool, hot: bool) -> Damage {
    if caught {
        if burnt_down {
            Damage::Destroyed
        } else {
            Damage::Alight
        }
    } else if hot {
        Damage::Threatened
    } else {
        Damage::Undamaged
    }
}

/// See [`damage_after`].
pub fn damage_state(caught: bool, burnt_down: bool, hot: bool) -> (d: Damage)
    ensures
        d == damage_after(caught, burnt_down, hot),
{
    if caught {
        if burnt_down {
            Damage::Destroyed
        } else {
            Damage::Alight
        }
    } else if hot {
        Damage::Threatened
    } else {
        Damage::Undamaged
    }
}

/// Someone is home: a resident household that is neither leaving nor gone.
pub open spec fn someone_home(statuses: Seq<Status>) -> bool {
    exists|i: int|
        0 <= i < statuses.len() && #[trigger] statuses[i] != Status::Evacuating && statuses[i]
            != Status::Evacuated
}

/// See [`someone_home`]; `statuses` are the resident households'.
pub fn occupied(statuses: &Vec<Status>) -> (r: bool)
    ensures
        r == someone_home(statuses@),
{
    let n = statuses.len();
    let mut i: usize = 0;
    while i < n
        invariant
            n == statuses@.len(),
            i <= n,
            forall|j: int|
                0 <= j < i ==> #[trigger] statuses@[j] == Status::Evacuating || statuses@[j]
                    == Status::Evacuated,
        decreases n - i,
    {
        let s = statuses[i];
        if s != Status::Evacuating && s != Status::Evacuated {
            return true;
        }
        i = i + 1;
    }
    false
}

/// Windows are lit at night in an undamaged, occupied building; damage
/// paints over the whole building, windows included.
pub fn windows_lit(d: Damage, night: bool, occupied: bool) -> (r: bool)
    ensures
        r == (d == Damage::Undamaged && night && occupied),
{
    d == Damage::Undamaged && night && occupied
}

pub open spec fn damage_words(d: Damage) -> Seq<char> {
    match d {
        Damage::Threatened => "threatened"@,
        Damage::Alight => "alight"@,
        Damage::Destroyed => "destroyed"@,
        Damage::Undamaged => "undamaged"@,
    }
}

/// A structure as the inspector looks it up: who lives there and how it is.
pub struct StructureInfo {
    pub households: Vec<u32>,
    pub drawn: Damage,
}

/// The first structure, in order, that `household` lives in.
pub open spec fn home_of(structures: Seq<StructureInfo>, household: u32, i: int) -> Option<Damage>
    decreases structures.len() - i,
{
    if i < 0 || i >= structures.len() {
        None
    } else if structures[i].households@.contains(household) {
        Some(structures[i].drawn)
    } else {
        home_of(structures, household, i + 1)
    }
}

fn lives_in(households: &Vec<u32>, id: u32) -> (r: bool)
    ensures
        r == households@.contains(id),
{
    let n = households.len();
    let mut i: usize = 0;
    while i < n
        invariant
            n == households@.len(),
            i <= n,
            forall|j: int| 0 <= j < i ==> households@[j] != id,
        decreases n - i,
    {
        if households[i] == id {
            assert(households@[i as int] == id);
            return true;
        }
        i = i + 1;
    }
    false
}

/// The damage state of the structure a household lives in, for the
/// inspector; `None` for a household whose building was too small or
/// degenerate to draw. Household ids are narrowed to 32 bits, as the
/// structures store them.
pub fn status_of(structures: &Vec<StructureInfo>, household: usize) -> (r: Option<&'static str>)
    ensures
        match home_of(structures@, household as u32, 0) {
            Some(d) => r is Some && r.unwrap()@ == damage_words(d),
            None => r is None,
        },
{
    let id = household as u32;
    let n = structures.len();
    let mut i: usize = 0;
    while i < n
        invariant
            n == structures@.len(),
            i <= n,
            id == household as u32,
            home_of(structures@, id, i as int) == home_of(structures@, id, 0),
        decreases n - i,
    {
        if lives_in(&structures[i].households, id) {
            return Some(
                match structures[i].drawn {
                    Damage::Threatened => "threatened",
                    Damage::Alight => "alight",
                    Damage::Destroyed => "destroyed",
                    Damage::Undamaged => "undamaged",
                },
            );
        }
        i = i + 1;
    }
    None
}

/// A structure that has caught fire never reads as undamaged or merely
/// threatened again: the latch only moves forward.
pub proof fn caught_fire_stays_caught(burnt_down: bool, hot: bool)
    ensures
        damage_after(true, burnt_down, hot) == Damage::Alight || damage_after(true, burnt_down, hot)
            == Damage::Destroyed,
{
}

} // verus!
