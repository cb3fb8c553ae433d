//! The local control API's own decisions: which route a request names,
//! what its query string says, what a unit-task request asks for, and the
//! queue a screenshot waits in while the view settles.
use vstd::prelude::*;
use crate::model::TaskKind;
use crate::text::{lemma_first_index, parse_usize, parsed_usize, split_first, split_once, str_eq};

verus! {

/// A route of the control API.
#[derive(Debug, Clone, Copy, PartialEq, Eq, Structural)]
pub enum Route {
    ListScenarios,
    LoadScenario,
    Status,
    HistoryRecent,
    HistorySubject,
    Households,
    People,
    Units,
    Graphs,
    Profiles,
    Play,
    Speed,
    Step,
    Restart,
    OrderEvacuation,
    Ignite,
    Weather,
    CloseRoad,
    ReopenRoads,
    BoatLift,
    UnitTask,
    SetProfile,
    ReloadBehaviour,
    Screenshot,
    NoSuchRoute,
}

pub open spec fn get_route(path: Seq<char>) -> Route {
    if path == "/scenarios"@ {
        Route::ListScenarios
    } else if path == "/status"@ {
        Route::Status
    } else if path == "/history/recent"@ {
        Route::HistoryRecent
    } else if path == "/history/subject"@ {
        Route::HistorySubject
    } else if path == "/agents/households"@ {
        Route::Households
    } else if path == "/agents/people"@ {
        Route::People
    } else if path == "/agents/units"@ {
        Route::Units
    } else if path == "/behaviour/graphs"@ {
        Route::Graphs
    } else if path == "/behaviour/profiles"@ {
        Route::Profiles
    } else {
        Route::NoSuchRoute
    }
}

pub open spec fn post_route(path: Seq<char>) -> Route {
    if path == "/control/load_scenario"@ {
        Route::LoadScenario
    } else if path == "/control/play"@ {
        Route::Play
    } else if path == "/control/speed"@ {
        Route::Speed
    } else if path == "/control/step"@ {
        Route::Step
    } else if path == "/control/restart"@ {
        Route::Restart
    } else if path == "/control/order_evacuation"@ {
        Route::OrderEvacuation
    } else if path == "/control/ignite"@ {
        Route::Ignite
    } else if path == "/control/weather"@ {
        Route::Weather
    } else if path == "/control/close_road"@ {
        Route::CloseRoad
    } else if path == "/control/reopen_roads"@ {
        Route::ReopenRoads
    } else if path == "/control/boat_lift"@ {
        Route::BoatLift
    } else if path == "/control/unit_task"@ {
        Route::UnitTask
    } else if path == "/control/set_profile"@ {
        Route::SetProfile
    } else if path == "/control/reload_behaviour"@ {
        Route::ReloadBehaviour
    } else if path == "/control/screenshot"@ {
        Route::Screenshot
    } else {
        Route::NoSuchRoute
    }
}

/// The route a method and a path name; reads are `GET`, everything that
/// changes the incident is `POST`, and any other pairing names nothing.
pub open spec fn route_of(method: Seq<char>, path: Seq<char>) -> Route {
    if method == "GET"@ {
        get_route(path)
    } else if method == "POST"@ {
        post_route(path)
    } else {
        Route::NoSuchRoute
    }
}

fn get_route_exec(path: &str) -> (r: Route)
    ensures
        r == get_route(path@),
{
    if str_eq(path, "/scenarios") {
        Route::ListScenarios
    } else if str_eq(path, "/status") {
        Route::Status
    } else if str_eq(path, "/history/recent") {
        Route::HistoryRecent
    } else if str_eq(path, "/history/subject") {
        Route::HistorySubject
    } else if str_eq(path, "/agents/households") {
        Route::Households
    } else if str_eq(path, "/agents/people") {
        Route::People
    } else if str_eq(path, "/agents/units") {
        Route::Units
    } else if str_eq(path, "/behaviour/graphs") {
        Route::Graphs
    } else if str_eq(path, "/behaviour/profiles") {
        Route::Profiles
    } else {
        Route::NoSuchRoute
    }
}

fn post_route_exec(path: &str) -> (r: Route)
    ensures
        r == post_route(path@),
{
    if str_eq(path, "/control/load_scenario") {
        Route::LoadScenario
    } else if str_eq(path, "/control/play") {
        Route::Play
    } else if str_eq(path, "/control/speed") {
        Route::Speed
    } else if str_eq(path, "/control/step") {
        Route::Step
    } else if str_eq(path, "/control/restart") {
        Route::Restart
    } else if str_eq(path, "/control/order_evacuation") {
        Route::OrderEvacuation
    } else if str_eq(path, "/control/ignite") {
        Route::Ignite
    } else if str_eq(path, "/control/weather") {
        Route::Weather
    } else if str_eq(path, "/control/close_road") {
        Route::CloseRoad
    } else if str_eq(path, "/control/reopen_roads") {
        Route::ReopenRoads
    } else if str_eq(path, "/control/boat_lift") {
        Route::BoatLift
    } else if str_eq(path, "/control/unit_task") {
        Route::UnitTask
    } else if str_eq(path, "/control/set_profile") {
        Route::SetProfile
    } else if str_eq(path, "/control/reload_behaviour") {
        Route::ReloadBehaviour
    } else if str_eq(path, "/control/screenshot") {
        Route::Screenshot
    } else {
        Route::NoSuchRoute
    }
}

/// See [`route_of`].
pub fn route(method: &str, path: &str) -> (r: Route)
    ensures
        r == route_of(method@, path@),
{
    if str_eq(method, "GET") {
        get_route_exec(path)
    } else if str_eq(method, "POST") {
        post_route_exec(path)
    } else {
        Route::NoSuchRoute
    }
}

/// Listing and loading scenarios work before any incident is running;
/// every other route, unknown ones included, needs one.
pub open spec fn route_needs_incident(r: Route) -> bool {
    r != Route::ListScenarios && r != Route::LoadScenario
}

/// See [`route_needs_incident`].
pub fn needs_incident(r: Route) -> (b: bool)
    ensures
        b == route_needs_incident(r),
{
    match r {
        Route::ListScenarios | Route::LoadScenario => false,
        _ => true,
    }
}

/// A request URL cut at its first `?` into path and query; no `?`, no query.
pub open spec fn url_parts(url: Seq<char>) -> (Seq<char>, Seq<char>) {
    match split_first(url, '?') {
        Some((p, q)) => (p, q),
        None => (url, ""@),
    }
}

/// See [`url_parts`].
pub fn split_url<'a>(url: &'a str) -> (r: (&'a str, &'a str))
    ensures
        (r.0@, r.1@) == url_parts(url@),
{
    proof {
        reveal_strlit("");
    }
    match split_once(url, '?') {
        Some((p, q)) => (p, q),
        None => (url, ""),
    }
}

/// The value of `key=value` in one `&`-separated piece of a query, when the
/// piece has an `=` and names `key`.
pub open spec fn pair_value(piece: Seq<char>, key: Seq<char>) -> Option<Seq<char>> {
    match split_first(piece, '=') {
        Some((k, v)) => if k == key {
            Some(v)
        } else {
            None
        },
        None => None,
    }
}

/// The value the first `key=value` piece of `query` gives `key`.
pub open spec fn query_value(query: Seq<char>, key: Seq<char>) -> Option<Seq<char>>
    decreases query.len(),
{
    match split_first(query, '&') {
        None => pair_value(query, key),
        Some((piece, rest)) => match pair_value(piece, key) {
            Some(v) => Some(v),
            None => if rest.len() < query.len() {
                query_value(rest, key)
            } else {
                None
            },
        },
    }
}

pub open spec fn str_opt(o: Option<&str>) -> Option<Seq<char>> {
    match o {
        Some(s) => Some(s@),
        None => None,
    }
}

fn pair_get<'a>(piece: &'a str, key: &str) -> (r: Option<&'a str>)
    ensures
        str_opt(r) == pair_value(piece@, key@),
{
    match split_once(piece, '=') {
        Some((k, v)) => if str_eq(k, key) {
            Some(v)
        } else {
            None
        },
        None => None,
    }
}

/// See [`query_value`].
pub fn query_get<'a>(query: &'a str, key: &str) -> (r: Option<&'a str>)
    ensures
        str_opt(r) == query_value(query@, key@),
    decreases query@.len(),
{
    match split_once(query, '&') {
        None => pair_get(query, key),
        Some((piece, rest)) => match pair_get(piece, key) {
            Some(v) => Some(v),
            None => if rest.unicode_len() < query.unicode_len() {
                query_get(rest, key)
            } else {
                None
            },
        },
    }
}

/// How many recent events `/history/recent` returns: the query's `limit`
/// when it parses, fifty when it does not, never more than a thousand.
pub open spec fn limit_of(query: Seq<char>) -> nat {
    let asked: nat = match query_value(query, "limit"@) {
        Some(v) => match parsed_usize(v) {
            Some(n) => n,
            None => 50,
        },
        None => 50,
    };
    if asked < 1000 {
        asked
    } else {
        1000
    }
}

/// See [`limit_of`].
pub fn recent_limit(query: &str) -> (r: usize)
    ensures
        r as nat == limit_of(query@),
{
    let asked: usize = match query_get(query, "limit") {
        Some(v) => match parse_usize(v) {
            Some(n) => n,
            None => 50,
        },
        None => 50,
    };
    if asked < 1000 {
        asked
    } else {
        1000
    }
}

/// What a unit-task request names; the `x`/`y` or line ends it carries are
/// read by the caller.
pub open spec fn requested_task(id: Option<u64>, task: Option<Seq<char>>, has_point: bool, has_ends: bool) -> Result<
    (usize, TaskKind),
    Seq<char>,
> {
    match id {
        None => Err("expected \"id\": unit index (see /agents/units)"@),
        Some(n) => {
            let t = match task {
                Some(t) => t,
                None => ""@,
            };
            if task.is_some() && t == "hold"@ {
                Ok((n as usize, TaskKind::Hold))
            } else if task.is_some() && t == "return"@ {
                Ok((n as usize, TaskKind::Return))
            } else if task.is_some() && t == "attack"@ {
                if has_point {
                    Ok((n as usize, TaskKind::Attack))
                } else {
                    Err("attack needs \"x\"/\"y\""@)
                }
            } else if task.is_some() && t == "drop"@ {
                if has_point {
                    Ok((n as usize, TaskKind::Drop))
                } else {
                    Err("drop needs \"x\"/\"y\""@)
                }
            } else if task.is_some() && t == "line"@ {
                if has_ends {
                    Ok((n as usize, TaskKind::Line))
                } else {
                    Err("line needs \"from_x\"/\"from_y\"/\"to_x\"/\"to_y\""@)
                }
            } else {
                Err("\"task\" must be one of hold, return, attack, drop, line"@)
            }
        },
    }
}

/// See [`requested_task`]: the unit and the kind of task, or the reason the
/// request is malformed (answered with status 400). `has_point` says whether
/// the body has numbers `x` and `y`, `has_ends` whether it has `from_x`,
/// `from_y`, `to_x` and `to_y`.
pub fn unit_task_request(id: Option<u64>, task: Option<&str>, has_point: bool, has_ends: bool) -> (r:
    Result<(usize, TaskKind), &'static str>)
    ensures
        match r {
            Ok(v) => requested_task(id, str_opt(task), has_point, has_ends) == Ok::<
                (usize, TaskKind),
                Seq<char>,
            >(v),
            Err(e) => requested_task(id, str_opt(task), has_point, has_ends) == Err::<
                (usize, TaskKind),
                Seq<char>,
            >(e@),
        },
{
    let n = match id {
        None => {
            return Err("expected \"id\": unit index (see /agents/units)");
        },
        Some(n) => n as usize,
    };
    let t = match task {
        Some(t) => t,
        None => {
            return Err("\"task\" must be one of hold, return, attack, drop, line");
        },
    };
    if str_eq(t, "hold") {
        Ok((n, TaskKind::Hold))
    } else if str_eq(t, "return") {
        Ok((n, TaskKind::Return))
    } else if str_eq(t, "attack") {
        if has_point {
            Ok((n, TaskKind::Attack))
        } else {
            Err("attack needs \"x\"/\"y\"")
        }
    } else if str_eq(t, "drop") {
        if has_point {
            Ok((n, TaskKind::Drop))
        } else {
            Err("drop needs \"x\"/\"y\"")
        }
    } else if str_eq(t, "line") {
        if has_ends {
            Ok((n, TaskKind::Line))
        } else {
            Err("line needs \"from_x\"/\"from_y\"/\"to_x\"/\"to_y\"")
        }
    } else {
        Err("\"task\" must be one of hold, return, attack, drop, line")
    }
}

/// Frames a screenshot waits for the camera move and the overlay rebuild to
/// reach the screen, unless the request says otherwise.
pub const SHOT_SETTLE_FRAMES: u32 = 20;

/// The settle window a screenshot request asks for: its `settle_frames`,
/// keeping its low 32 bits, or the default.
pub fn settle_frames(requested: Option<u64>) -> (r: u32)
    ensures
        r == match requested {
            Some(n) => n as u32,
            None => SHOT_SETTLE_FRAMES,
        },
{
    match requested {
        Some(n) => n as u32,
        None => SHOT_SETTLE_FRAMES,
    }
}

/// A screenshot waiting out its settle window; `T` is where it goes.
pub struct PendingShot<T> {
    shot: Option<(T, u32)>,
}

/// What a frame does with the pending screenshot.
#[derive(Debug, Clone, Copy, PartialEq, Eq, Structural)]
pub enum ShotTick<T> {
    /// Nothing is pending.
    Idle,
    /// Still settling.
    Waiting,
    /// Take it now, to this destination; the queue is empty again.
    Take(T),
}

/// One frame: a settling screenshot counts down, one that has settled is
/// handed out and leaves the queue.
pub open spec fn ticked<T>(p: Option<(T, u32)>) -> (Option<(T, u32)>, ShotTick<T>) {
    match p {
        None => (None, ShotTick::Idle),
        Some((to, settle)) => if settle > 0 {
            (Some((to, (settle - 1) as u32)), ShotTick::Waiting)
        } else {
            (None, ShotTick::Take(to))
        },
    }
}

impl<T> PendingShot<T> {
    /// What is pending, and how many frames it still waits.
    pub closed spec fn pending(&self) -> Option<(T, u32)> {
        self.shot
    }

    pub fn new() -> (r: PendingShot<T>)
        ensures
            r.pending().is_none(),
    {
        PendingShot { shot: None }
    }

    pub fn is_pending(&self) -> (r: bool)
        ensures
            r == self.pending().is_some(),
    {
        self.shot.is_some()
    }

    /// Queue a screenshot. Only one waits at a time: while one is pending
    /// the request is refused (status 409) and the queue is unchanged.
    pub fn queue(&mut self, to: T, settle: u32) -> (ok: bool)
        ensures
            ok == old(self).pending().is_none(),
            final(self).pending() == if ok {
                Some((to, settle))
            } else {
                old(self).pending()
            },
    {
        if self.shot.is_some() {
            return false;
        }
        self.shot = Some((to, settle));
        true
    }

    /// See [`ticked`].
    pub fn tick(&mut self) -> (r: ShotTick<T>)
        ensures
            (final(self).pending(), r) == ticked(old(self).pending()),
    {
        let shot = self.shot.take();
        match shot {
            None => ShotTick::Idle,
            Some((to, settle)) => if settle > 0 {
                self.shot = Some((to, settle - 1));
                ShotTick::Waiting
            } else {
                ShotTick::Take(to)
            },
        }
    }

    /// Drop whatever is pending (no window to take it from).
    pub fn clear(&mut self)
        ensures
            final(self).pending().is_none(),
    {
        self.shot = None;
    }
}

/// The state a pending screenshot is in after `n` frames.
pub open spec fn after_frames<T>(p: Option<(T, u32)>, n: nat) -> Option<(T, u32)>
    decreases n,
{
    if n == 0 {
        p
    } else {
        after_frames(ticked(p).0, (n - 1) as nat)
    }
}

/// A screenshot queued with a settle window of `settle` frames waits for
/// exactly that many frames and is taken on the next.
pub proof fn shot_waits_out_its_window<T>(to: T, settle: u32, k: nat)
    requires
        k <= settle,
    ensures
        after_frames(Some((to, settle)), k) == Some((to, (settle - k) as u32)),
        ticked(after_frames(Some((to, settle)), k)).1 == if k < settle {
            ShotTick::<T>::Waiting
        } else {
            ShotTick::Take(to)
        },
    decreases k,
{
    if k > 0 {
        shot_waits_out_its_window(to, (settle - 1) as u32, (k - 1) as nat);
    }
}

/// Every read the API serves is reached by exactly its own path: a `GET`
/// of that path names that route, and no other path names it.
pub proof fn each_read_has_its_own_path(path: Seq<char>)
    ensures
        (route_of("GET"@, path) == Route::ListScenarios) <==> path == "/scenarios"@,
        (route_of("GET"@, path) == Route::Status) <==> path == "/status"@,
        (route_of("GET"@, path) == Route::HistoryRecent) <==> path == "/history/recent"@,
        (route_of("GET"@, path) == Route::HistorySubject) <==> path == "/history/subject"@,
        (route_of("GET"@, path) == Route::Households) <==> path == "/agents/households"@,
        (route_of("GET"@, path) == Route::People) <==> path == "/agents/people"@,
        (route_of("GET"@, path) == Route::Units) <==> path == "/agents/units"@,
        (route_of("GET"@, path) == Route::Graphs) <==> path == "/behaviour/graphs"@,
        (route_of("GET"@, path) == Route::Profiles) <==> path == "/behaviour/profiles"@,
{
    reveal_strlit("GET");
    reveal_strlit("POST");
    assert("GET"@.len() == 3);
    assert("POST"@.len() == 4);
    reveal_strlit("/scenarios");
    assert("/scenarios"@.len() == 10);
    reveal_strlit("/status");
    assert("/status"@.len() == 7);
    reveal_strlit("/history/recent");
    assert("/history/recent"@.len() == 15);
    reveal_strlit("/history/subject");
    assert("/history/subject"@.len() == 16);
    reveal_strlit("/agents/households");
    assert("/agents/households"@.len() == 18);
    reveal_strlit("/agents/people");
    assert("/agents/people"@.len() == 14);
    reveal_strlit("/agents/units");
    assert("/agents/units"@.len() == 13);
    reveal_strlit("/behaviour/graphs");
    assert("/behaviour/graphs"@.len() == 17);
    reveal_strlit("/behaviour/profiles");
    assert("/behaviour/profiles"@.len() == 19);
}

/// Every change the API accepts is reached by exactly its own path: a
/// `POST` of that path names that route, and no other path names it.
pub proof fn each_change_has_its_own_path(path: Seq<char>)
    ensures
        (route_of("POST"@, path) == Route::LoadScenario) <==> path == "/control/load_scenario"@,
        (route_of("POST"@, path) == Route::Play) <==> path == "/control/play"@,
        (route_of("POST"@, path) == Route::Speed) <==> path == "/control/speed"@,
        (route_of("POST"@, path) == Route::Step) <==> path == "/control/step"@,
        (route_of("POST"@, path) == Route::Restart) <==> path == "/control/restart"@,
        (route_of("POST"@, path) == Route::OrderEvacuation) <==> path == "/control/order_evacuation"@,
        (route_of("POST"@, path) == Route::Ignite) <==> path == "/control/ignite"@,
        (route_of("POST"@, path) == Route::Weather) <==> path == "/control/weather"@,
        (route_of("POST"@, path) == Route::CloseRoad) <==> path == "/control/close_road"@,
        (route_of("POST"@, path) == Route::ReopenRoads) <==> path == "/control/reopen_roads"@,
        (route_of("POST"@, path) == Route::BoatLift) <==> path == "/control/boat_lift"@,
        (route_of("POST"@, path) == Route::UnitTask) <==> path == "/control/unit_task"@,
        (route_of("POST"@, path) == Route::SetProfile) <==> path == "/control/set_profile"@,
        (route_of("POST"@, path) == Route::ReloadBehaviour) <==> path == "/control/reload_behaviour"@,
        (route_of("POST"@, path) == Route::Screenshot) <==> path == "/control/screenshot"@,
{
    reveal_strlit("GET");
    reveal_strlit("POST");
    assert("GET"@.len() == 3);
    assert("POST"@.len() == 4);
    reveal_strlit("/control/load_scenario");
    assert("/control/load_scenario"@.len() == 22);
    reveal_strlit("/control/play");
    assert("/control/play"@.len() == 13);
    reveal_strlit("/control/speed");
    assert("/control/speed"@.len() == 14);
    reveal_strlit("/control/step");
    assert("/control/step"@.len() == 13);
    reveal_strlit("/control/restart");
    assert("/control/restart"@.len() == 16);
    reveal_strlit("/control/order_evacuation");
    assert("/control/order_evacuation"@.len() == 25);
    reveal_strlit("/control/ignite");
    assert("/control/ignite"@.len() == 15);
    reveal_strlit("/control/weather");
    assert("/control/weather"@.len() == 16);
    reveal_strlit("/control/close_road");
    assert("/control/close_road"@.len() == 19);
    reveal_strlit("/control/reopen_roads");
    assert("/control/reopen_roads"@.len() == 21);
    reveal_strlit("/control/boat_lift");
    assert("/control/boat_lift"@.len() == 18);
    reveal_strlit("/control/unit_task");
    assert("/control/unit_task"@.len() == 18);
    reveal_strlit("/control/set_profile");
    assert("/control/set_profile"@.len() == 20);
    reveal_strlit("/control/reload_behaviour");
    assert("/control/reload_behaviour"@.len() == 25);
    reveal_strlit("/control/screenshot");
    assert("/control/screenshot"@.len() == 19);
    assert("/control/play"@[9] != "/control/step"@[9]);
    assert("/control/restart"@[9] != "/control/weather"@[9]);
    assert("/control/order_evacuation"@[9] != "/control/reload_behaviour"@[9]);
    assert("/control/close_road"@[9] != "/control/screenshot"@[9]);
    assert("/control/boat_lift"@[9] != "/control/unit_task"@[9]);
}

/// A read is only ever a `GET` and a change only ever a `POST`: the same
/// path under any other method names nothing the other method serves.
pub proof fn methods_do_not_cross(method: Seq<char>, path: Seq<char>)
    ensures
        method != "GET"@ && method != "POST"@ ==> route_of(method, path) == Route::NoSuchRoute,
{
}

proof fn lemma_cut_at(a: Seq<char>, c: char, b: Seq<char>)
    requires
        !a.contains(c),
    ensures
        split_first(a + seq![c] + b, c) == Some((a, b)),
{
    let s = a + seq![c] + b;
    lemma_first_index(s, c);
    assert(s[a.len() as int] == c);
    let i = crate::text::first_index(s, c);
    if i < a.len() && i != -1 {
        assert(s[i] == a[i]);
    }
    assert(i == a.len());
    assert(s.take(i) =~= a);
    assert(s.skip(i + 1) =~= b);
}

proof fn lemma_no_cut(s: Seq<char>, c: char)
    requires
        !s.contains(c),
    ensures
        split_first(s, c).is_none(),
{
    lemma_first_index(s, c);
    let i = crate::text::first_index(s, c);
    if i != -1 {
        assert(s[i] == c);
    }
}

/// A query gives back what it says: `key=value` read for `key` is `value`,
/// alone or as the first of several pairs, and a pair that names another
/// key is passed over for the ones after it.
pub proof fn a_query_reads_back_its_pairs(
    key: Seq<char>,
    value: Seq<char>,
    other: Seq<char>,
    rest: Seq<char>,
)
    requires
        !key.contains('&'),
        !key.contains('='),
        !value.contains('&'),
        !other.contains('&'),
        !other.contains('='),
    ensures
        query_value(key + seq!['='] + value, key) == Some(value),
        query_value(key + seq!['='] + value + seq!['&'] + rest, key) == Some(value),
        other != key ==> query_value(other + seq!['='] + value + seq!['&'] + rest, key)
            == query_value(rest, key),
{
    let pair = key + seq!['='] + value;
    lemma_cut_at(key, '=', value);
    assert(pair_value(pair, key) == Some(value));
    assert(!pair.contains('&')) by {
        if pair.contains('&') {
            let j = choose|j: int| 0 <= j < pair.len() && pair[j] == '&';
            if j < key.len() {
                assert(key[j] == '&');
            } else if j > key.len() {
                assert(value[j - key.len() - 1] == '&');
            }
        }
    }
    lemma_no_cut(pair, '&');
    lemma_cut_at(pair, '&', rest);
    assert(pair + seq!['&'] + rest == key + seq!['='] + value + seq!['&'] + rest);
    let skipped = other + seq!['='] + value;
    lemma_cut_at(other, '=', value);
    assert(!skipped.contains('&')) by {
        if skipped.contains('&') {
            let j = choose|j: int| 0 <= j < skipped.len() && skipped[j] == '&';
            if j < other.len() {
                assert(other[j] == '&');
            } else if j > other.len() {
                assert(value[j - other.len() - 1] == '&');
            }
        }
    }
    lemma_cut_at(skipped, '&', rest);
    assert(skipped + seq!['&'] + rest == other + seq!['='] + value + seq!['&'] + rest);
}

/// However many events a caller asks for, `/history/recent` never returns
/// more than a thousand, and a query that asks for nothing gets fifty.
pub proof fn recent_history_is_bounded(query: Seq<char>)
    ensures
        limit_of(query) <= 1000,
        query_value(query, "limit"@).is_none() ==> limit_of(query) == 50,
{
}

} // verus!
