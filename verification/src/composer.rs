//! The behaviour composer's own bookkeeping: which tab and which kind of
//! agent it opens on, what its status strip says, how a parameter key reads,
//! which profile overrides a commit drops with their nodes, and where the
//! test bench starts.
use vstd::prelude::*;
use crate::text::{decimal, decimal_string, str_eq, trim, trimmed};

verus! {

/// `String::push`: appends `c` to the end of `s`, as std documents it.
#[verifier::external_body]
fn push_char(s: &mut String, c: char)
    ensures
        final(s)@ == old(s)@.push(c),
{
    s.push(c);
}

/// Which panel the right-hand column shows.
#[derive(Debug, Clone, Copy, PartialEq, Eq, Structural)]
pub enum RightTab {
    Inspector,
    Subtypes,
    Bench,
    /// What the selected agent's behaviour is doing right now.
    Live,
    Help,
}

impl Default for RightTab {
    fn default() -> (r: RightTab)
        ensures
            r == RightTab::Inspector,
    {
        RightTab::Inspector
    }
}

pub open spec fn tab_named(name: Option<Seq<char>>) -> RightTab {
    match name {
        Some(n) => if n == "subtypes"@ {
            RightTab::Subtypes
        } else if n == "test"@ {
            RightTab::Bench
        } else if n == "live"@ {
            RightTab::Live
        } else if n == "help"@ {
            RightTab::Help
        } else {
            RightTab::Inspector
        },
        None => RightTab::Inspector,
    }
}

/// The tab an unattended run asks the composer to open on; anything else,
/// or no request, opens the inspector.
pub fn opening_tab(name: Option<&str>) -> (r: RightTab)
    ensures
        r == tab_named(
            match name {
                Some(n) => Some(n@),
                None => None,
            },
        ),
{
    match name {
        Some(n) => if str_eq(n, "subtypes") {
            RightTab::Subtypes
        } else if str_eq(n, "test") {
            RightTab::Bench
        } else if str_eq(n, "live") {
            RightTab::Live
        } else if str_eq(n, "help") {
            RightTab::Help
        } else {
            RightTab::Inspector
        },
        None => RightTab::Inspector,
    }
}

/// Which kind of agent a behaviour is about.
#[derive(Debug, Clone, Copy, PartialEq, Eq, Structural)]
pub enum Domain {
    Household,
    SuppressionUnit,
    Person,
}

/// The everyday names an unattended run may use for a kind of agent.
pub open spec fn domain_alias(key: Seq<char>) -> Option<Domain> {
    if key == "units"@ || key == "unit"@ || key == "suppression"@ {
        Some(Domain::SuppressionUnit)
    } else if key == "civilians"@ || key == "households"@ {
        Some(Domain::Household)
    } else if key == "people"@ || key == "persons"@ || key == "separated"@ {
        Some(Domain::Person)
    } else {
        None
    }
}

/// The kind of agent a request names: by its own key (`by_key`, what the
/// behaviour library makes of it) or else by an everyday name.
pub fn requested_domain(by_key: Option<Domain>, key: &str) -> (r: Option<Domain>)
    ensures
        r == match by_key {
            Some(d) => Some(d),
            None => domain_alias(key@),
        },
{
    match by_key {
        Some(d) => Some(d),
        None => if str_eq(key, "units") || str_eq(key, "unit") || str_eq(key, "suppression") {
            Some(Domain::SuppressionUnit)
        } else if str_eq(key, "civilians") || str_eq(key, "households") {
            Some(Domain::Household)
        } else if str_eq(key, "people") || str_eq(key, "persons") || str_eq(key, "separated") {
            Some(Domain::Person)
        } else {
            None
        },
    }
}

pub open spec fn new_graph_base(d: Domain) -> Seq<char> {
    match d {
        Domain::Household => "new-behaviour"@,
        Domain::SuppressionUnit => "new-unit-policy"@,
        Domain::Person => "new-person-behaviour"@,
    }
}

/// The id a new, empty behaviour asks for in each domain, before the
/// library makes it unique.
pub fn new_graph_id(d: Domain) -> (r: &'static str)
    ensures
        r@ == new_graph_base(d),
{
    match d {
        Domain::Household => "new-behaviour",
        Domain::SuppressionUnit => "new-unit-policy",
        Domain::Person => "new-person-behaviour",
    }
}

pub open spec fn draft_words(unsaved: bool, dirty: bool) -> Seq<char> {
    match (unsaved, dirty) {
        (true, true) => "Unsaved · not applied"@,
        (true, false) => "Applied · unsaved"@,
        (false, true) => "Saved · not applied"@,
        (false, false) => "Saved · applied"@,
    }
}

/// Where the draft stands against the files on disk (`unsaved`) and the
/// running model (`dirty`).
pub fn draft_state(unsaved: bool, dirty: bool) -> (r: &'static str)
    ensures
        r@ == draft_words(unsaved, dirty),
{
    match (unsaved, dirty) {
        (true, true) => "Unsaved · not applied",
        (true, false) => "Applied · unsaved",
        (false, true) => "Saved · not applied",
        (false, false) => "Saved · applied",
    }
}

pub open spec fn apply_words(dirty: bool) -> Seq<char> {
    if dirty {
        "Apply and restart *"@
    } else {
        "Apply and restart"@
    }
}

/// The apply button, starred while the model is behind the draft.
pub fn apply_label(dirty: bool) -> (r: &'static str)
    ensures
        r@ == apply_words(dirty),
{
    if dirty {
        "Apply and restart *"
    } else {
        "Apply and restart"
    }
}

pub open spec fn blocked_words(errors: u64) -> Seq<char> {
    if errors > 0 {
        decimal(errors as nat) + " error(s)"@
    } else {
        "Library cannot be applied"@
    }
}

/// Why the apply button is greyed out: the graph's errors, or else a
/// library that cannot run as a whole.
pub fn blocked_reason(errors: u64) -> (r: String)
    ensures
        r@ == blocked_words(errors),
{
    if errors > 0 {
        let mut s = decimal_string(errors);
        s.append(" error(s)");
        s
    } else {
        String::from_str("Library cannot be applied")
    }
}

/// The validation strip's headline: valid, or how many errors; and how many
/// warnings, when there are any.
pub open spec fn tally_words(errors: u64, warnings: u64) -> (Seq<char>, Option<Seq<char>>) {
    (
        if errors == 0 {
            "✔ valid"@
        } else {
            "✖ "@ + decimal(errors as nat) + " error(s)"@
        },
        if warnings > 0 {
            Some("⚠ "@ + decimal(warnings as nat) + " warning(s)"@)
        } else {
            None
        },
    )
}

/// See [`tally_words`].
pub fn tally(errors: u64, warnings: u64) -> (r: (String, Option<String>))
    ensures
        (r.0@, match r.1 {
            Some(w) => Some(w@),
            None => None,
        }) == tally_words(errors, warnings),
{
    let head = if errors == 0 {
        String::from_str("✔ valid")
    } else {
        let mut s = String::from_str("✖ ");
        let d = decimal_string(errors);
        s.append(d.as_str());
        s.append(" error(s)");
        s
    };
    let tail = if warnings > 0 {
        let mut s = String::from_str("⚠ ");
        let d = decimal_string(warnings);
        s.append(d.as_str());
        s.append(" warning(s)");
        Some(s)
    } else {
        None
    };
    (head, tail)
}

pub open spec fn spaced(c: char) -> char {
    if c == '_' {
        ' '
    } else {
        c
    }
}

pub open spec fn capital(c: char) -> char {
    if 'a' <= c <= 'z' {
        ((c as u32) - 32) as char
    } else {
        c
    }
}

/// A parameter key as a label: underscores become spaces and a leading
/// ASCII letter becomes a capital, so `wait_and_see` reads `Wait and see`.
pub open spec fn pretty_words(key: Seq<char>) -> Seq<char> {
    Seq::new(
        key.len(),
        |i: int|
            if i == 0 {
                capital(spaced(key[i]))
            } else {
                spaced(key[i])
            },
    )
}

fn capitalised(c: char) -> (r: char)
    ensures
        r == capital(c),
{
    if 'a' <= c && c <= 'z' {
        let b = (c as u32 - 32) as u8;
        b as char
    } else {
        c
    }
}

/// See [`pretty_words`].
pub fn pretty(key: &str) -> (r: String)
    ensures
        r@ == pretty_words(key@),
{
    let n = key.unicode_len();
    let mut out = String::new();
    let mut i: usize = 0;
    while i < n
        invariant
            n == key@.len(),
            i <= n,
            out@ == pretty_words(key@).take(i as int),
        decreases n - i,
    {
        let c = key.get_char(i);
        let s = if c == '_' {
            ' '
        } else {
            c
        };
        let t = if i == 0 {
            capitalised(s)
        } else {
            s
        };
        push_char(&mut out, t);
        proof {
            assert(pretty_words(key@).take(i + 1) =~= pretty_words(key@).take(i as int).push(t));
        }
        i = i + 1;
    }
    assert(pretty_words(key@).take(n as int) =~= pretty_words(key@));
    out
}

/// The prefix that every override key of node `id` starts with.
pub open spec fn node_prefix(id: u32) -> Seq<char> {
    decimal(id as nat) + "."@
}

/// `prefix` begins `key`.
pub open spec fn begins(key: Seq<char>, prefix: Seq<char>) -> bool {
    prefix.len() <= key.len() && key.take(prefix.len() as int) == prefix
}

/// An override key survives a commit unless it belongs to one of the nodes
/// the commit deleted: a new node that reuses an id must not inherit
/// settings meant for the old one.
pub open spec fn survives(key: Seq<char>, deleted: Seq<u32>) -> bool {
    forall|i: int| 0 <= i < deleted.len() ==> !begins(key, #[trigger] node_prefix(deleted[i]))
}

/// The nodes of `before` that `after` no longer has, in `before`'s order.
pub open spec fn dropped_nodes(before: Seq<u32>, after: Seq<u32>) -> Seq<u32> {
    before.filter(|id: u32| !after.contains(id))
}

fn has_id(ids: &Vec<u32>, x: u32) -> (r: bool)
    ensures
        r == ids@.contains(x),
{
    let n = ids.len();
    let mut i: usize = 0;
    while i < n
        invariant
            n == ids@.len(),
            i <= n,
            forall|j: int| 0 <= j < i ==> ids@[j] != x,
        decreases n - i,
    {
        if ids[i] == x {
            assert(ids@[i as int] == x);
            return true;
        }
        i = i + 1;
    }
    false
}

/// See [`dropped_nodes`]: the nodes a commit deleted from the graph.
pub fn deleted_nodes(before: &Vec<u32>, after: &Vec<u32>) -> (r: Vec<u32>)
    ensures
        r@ == dropped_nodes(before@, after@),
{
    let n = before.len();
    let mut out: Vec<u32> = Vec::new();
    let mut i: usize = 0;
    while i < n
        invariant
            n == before@.len(),
            i <= n,
            out@ == dropped_nodes(before@.take(i as int), after@),
        decreases n - i,
    {
        let id = before[i];
        proof {
            assert(before@.take(i + 1) =~= before@.take(i as int).push(id));
            before@.take(i as int).lemma_filter_push(id, |x: u32| !after@.contains(x));
        }
        if !has_id(after, id) {
            out.push(id);
        }
        i = i + 1;
    }
    assert(before@.take(n as int) =~= before@);
    out
}

fn node_prefix_text(id: u32) -> (r: String)
    ensures
        r@ == node_prefix(id),
{
    let mut s = decimal_string(id as u64);
    s.append(".");
    s
}

fn starts_with(key: &str, prefix: &str) -> (r: bool)
    ensures
        r == begins(key@, prefix@),
{
    let m = prefix.unicode_len();
    if m > key.unicode_len() {
        return false;
    }
    let mut i: usize = 0;
    while i < m
        invariant
            m == prefix@.len(),
            m <= key@.len(),
            i <= m,
            forall|j: int| 0 <= j < i ==> key@[j] == prefix@[j],
        decreases m - i,
    {
        if key.get_char(i) != prefix.get_char(i) {
            return false;
        }
        i = i + 1;
    }
    assert(key@.take(m as int) =~= prefix@);
    true
}

/// See [`survives`]: whether the override `key` stays after the nodes
/// `deleted` went.
pub fn keeps_override(key: &str, deleted: &Vec<u32>) -> (r: bool)
    ensures
        r == survives(key@, deleted@),
{
    let n = deleted.len();
    let mut i: usize = 0;
    while i < n
        invariant
            n == deleted@.len(),
            i <= n,
            forall|j: int| 0 <= j < i ==> !begins(key@, #[trigger] node_prefix(deleted@[j])),
        decreases n - i,
    {
        let p = node_prefix_text(deleted[i]);
        if starts_with(key, p.as_str()) {
            return false;
        }
        i = i + 1;
    }
    true
}

/// A profile as the editor's commit sees it: the behaviour it runs and its
/// parameter overrides, each keyed by node and parameter (`"{node}.{name}"`).
#[derive(Debug, Clone)]
pub struct Profile<V> {
    pub graph: String,
    pub overrides: Vec<(String, V)>,
}

/// An override stays unless its node was deleted.
pub open spec fn override_kept<V>(deleted: Seq<u32>) -> spec_fn((String, V)) -> bool {
    |e: (String, V)| survives(e.0@, deleted)
}

/// A profile's overrides after a commit of graph `graph` that deleted the
/// nodes `deleted`: a profile of that graph loses the overrides of those
/// nodes, any other profile keeps all of its own.
pub open spec fn committed_overrides<V>(p: Profile<V>, graph: Seq<char>, deleted: Seq<u32>) -> Seq<(String, V)> {
    if p.graph@ == graph {
        p.overrides@.filter(override_kept(deleted))
    } else {
        p.overrides@
    }
}

fn keep_overrides<V>(overrides: &mut Vec<(String, V)>, deleted: &Vec<u32>)
    ensures
        final(overrides)@ == old(overrides)@.filter(override_kept::<V>(deleted@)),
{
    let ghost before = old(overrides)@;
    let ghost pred = override_kept::<V>(deleted@);
    let ghost n = before.len();
    let ghost mut j: int = 0;
    let mut i: usize = 0;
    while i < overrides.len()
        invariant
            before == old(overrides)@,
            pred == override_kept::<V>(deleted@),
            n == before.len(),
            0 <= j <= n,
            i == before.take(j).filter(pred).len(),
            overrides@ == before.take(j).filter(pred) + before.skip(j),
        decreases overrides@.len() - i,
    {
        proof {
            assert(overrides@[i as int] == before[j]);
            assert(before.take(j + 1) =~= before.take(j).push(before[j]));
            before.take(j).lemma_filter_push(before[j], pred);
        }
        let keep = keeps_override(overrides[i].0.as_str(), deleted);
        if keep {
            proof {
                assert(before.take(j).filter(pred) + before.skip(j) =~= before.take(j).filter(pred).push(
                    before[j],
                ) + before.skip(j + 1));
            }
            i = i + 1;
        } else {
            overrides.remove(i);
            proof {
                assert(overrides@ =~= before.take(j).filter(pred) + before.skip(j + 1));
            }
        }
        proof {
            j = j + 1;
        }
    }
    proof {
        assert(j == n) by {
            if j < n {
                assert(overrides@.len() == i + (n - j));
            }
        }
        assert(before.take(n as int) =~= before);
        assert(before.skip(n as int) =~= Seq::<(String, V)>::empty());
        assert(overrides@ =~= before.filter(pred));
    }
}

/// The overrides part of the editor's commit of graph `graph`: every
/// profile of that graph drops the overrides of the nodes the commit
/// deleted (those of `before` that `after` no longer has), so that a new
/// node reusing an id cannot inherit settings meant for the old one.
/// Profiles of other graphs are untouched.
pub fn commit_overrides<V>(profiles: &mut Vec<Profile<V>>, graph: &str, before: &Vec<u32>, after: &Vec<u32>)
    ensures
        final(profiles)@.len() == old(profiles)@.len(),
        forall|i: int|
            0 <= i < old(profiles)@.len() ==> {
                &&& (#[trigger] final(profiles)@[i]).graph == old(profiles)@[i].graph
                &&& final(profiles)@[i].overrides@ == committed_overrides(
                    old(profiles)@[i],
                    graph@,
                    dropped_nodes(before@, after@),
                )
            },
{
    let deleted = deleted_nodes(before, after);
    let mut rest: Vec<Profile<V>> = Vec::new();
    std::mem::swap(&mut rest, profiles);
    let ghost all = rest@;
    let ghost n = all.len();
    let total = rest.len();
    let mut k: usize = 0;
    while rest.len() > 0
        invariant
            n == all.len(),
            total == n,
            all == old(profiles)@,
            deleted@ == dropped_nodes(before@, after@),
            k + rest@.len() == n,
            rest@ == all.skip(k as int),
            profiles@.len() == k,
            forall|i: int|
                0 <= i < k ==> {
                    &&& (#[trigger] profiles@[i]).graph == all[i].graph
                    &&& profiles@[i].overrides@ == committed_overrides(all[i], graph@, deleted@)
                },
        decreases rest@.len(),
    {
        let mut p = rest.remove(0);
        proof {
            assert(p == all[k as int]);
            assert(rest@ =~= all.skip(k + 1));
        }
        if str_eq(p.graph.as_str(), graph) {
            keep_overrides(&mut p.overrides, &deleted);
        }
        profiles.push(p);
        k = k + 1;
    }
}

/// Point a profile at another behaviour. Its overrides are keyed on the old
/// graph's node ids and mean nothing in the new one, so they go. Choosing
/// the behaviour it already runs changes nothing. Returns whether it changed.
pub fn switch_behaviour<V>(p: &mut Profile<V>, graph: String) -> (changed: bool)
    ensures
        changed == (graph@ != old(p).graph@),
        changed ==> final(p).graph@ == graph@ && final(p).overrides@.len() == 0,
        !changed ==> final(p).graph@ == old(p).graph@ && final(p).overrides@ == old(p).overrides@,
{
    if str_eq(graph.as_str(), p.graph.as_str()) {
        return false;
    }
    p.graph = graph;
    p.overrides = Vec::new();
    true
}

/// The pieces of `s` between its commas, scanning from `i` with the current
/// piece begun at `start`.
pub open spec fn comma_pieces(s: Seq<char>, start: int, i: int) -> Seq<Seq<char>>
    decreases s.len() - i,
{
    if i >= s.len() {
        seq![s.subrange(start, s.len() as int)]
    } else if s[i] == ',' {
        seq![s.subrange(start, i)] + comma_pieces(s, i + 1, i + 1)
    } else {
        comma_pieces(s, start, i + 1)
    }
}

/// The tags the pieces make: each trimmed, the empty ones left out.
pub open spec fn tag_list(pieces: Seq<Seq<char>>) -> Seq<Seq<char>>
    decreases pieces.len(),
{
    if pieces.len() == 0 {
        seq![]
    } else {
        let rest = tag_list(pieces.drop_last());
        if trimmed(pieces.last()).len() == 0 {
            rest
        } else {
            rest.push(trimmed(pieces.last()))
        }
    }
}

pub open spec fn tag_views(v: Seq<String>) -> Seq<Seq<char>> {
    v.map_values(|t: String| t@)
}

proof fn lemma_tag_list_push(done: Seq<Seq<char>>, piece: Seq<char>)
    ensures
        tag_list(done.push(piece)) == if trimmed(piece).len() == 0 {
            tag_list(done)
        } else {
            tag_list(done).push(trimmed(piece))
        },
{
    assert(done.push(piece).drop_last() =~= done);
}

fn push_tag(out: &mut Vec<String>, piece: &str)
    ensures
        tag_views(final(out)@) == if trimmed(piece@).len() == 0 {
            tag_views(old(out)@)
        } else {
            tag_views(old(out)@).push(trimmed(piece@))
        },
{
    let t = trim(piece);
    if t.unicode_len() > 0 {
        out.push(String::from_str(t));
        assert(tag_views(out@) =~= tag_views(old(out)@).push(trimmed(piece@)));
    }
}

/// A profile's tags as typed, comma separated: each trimmed, empty ones
/// dropped.
pub fn parse_tags(text: &str) -> (r: Vec<String>)
    ensures
        tag_views(r@) == tag_list(comma_pieces(text@, 0, 0)),
{
    let n = text.unicode_len();
    let ghost s = text@;
    let ghost mut done: Seq<Seq<char>> = seq![];
    let mut out: Vec<String> = Vec::new();
    let mut start: usize = 0;
    let mut i: usize = 0;
    while i < n
        invariant
            n == s.len(),
            s == text@,
            start <= i <= n,
            comma_pieces(s, 0, 0) == done + comma_pieces(s, start as int, i as int),
            tag_views(out@) == tag_list(done),
        decreases n - i,
    {
        if text.get_char(i) == ',' {
            let piece = text.substring_char(start, i);
            proof {
                let rest = comma_pieces(s, i + 1, i + 1);
                assert(done + (seq![piece@] + rest) =~= done.push(piece@) + rest);
                lemma_tag_list_push(done, piece@);
            }
            push_tag(&mut out, piece);
            proof {
                done = done.push(piece@);
            }
            i = i + 1;
            start = i;
        } else {
            i = i + 1;
        }
    }
    let piece = text.substring_char(start, n);
    proof {
        assert(done + seq![piece@] =~= done.push(piece@));
        lemma_tag_list_push(done, piece@);
    }
    push_tag(&mut out, piece);
    out
}

/// The status after pruning a profile's dead overrides (`dead` of them).
pub fn prune_status(dead: u64) -> (r: String)
    ensures
        r@ == if dead == 0 {
            "nothing to prune"@
        } else {
            "pruned "@ + decimal(dead as nat) + " override(s)"@
        },
{
    if dead == 0 {
        return String::from_str("nothing to prune");
    }
    let mut s = String::from_str("pruned ");
    s.append(&decimal_string(dead));
    s.append(" override(s)");
    s
}

/// The draft against the model the run was last applied with and the files
/// last saved, each held as the library's canonical bytes.
pub struct Tracking {
    applied: Vec<u8>,
    saved: Vec<u8>,
}

pub struct TrackingView {
    pub applied: Seq<u8>,
    pub saved: Seq<u8>,
}

impl View for Tracking {
    type V = TrackingView;

    closed spec fn view(&self) -> TrackingView {
        TrackingView { applied: self.applied@, saved: self.saved@ }
    }
}

fn same_library(a: &Vec<u8>, b: &Vec<u8>) -> (r: bool)
    ensures
        r == (a@ == b@),
{
    if a.len() != b.len() {
        return false;
    }
    let mut i: usize = 0;
    while i < a.len()
        invariant
            a@.len() == b@.len(),
            i <= a@.len(),
            forall|j: int| 0 <= j < i ==> a@[j] == b@[j],
        decreases a.len() - i,
    {
        if a[i] != b[i] {
            return false;
        }
        i = i + 1;
    }
    assert(a@ =~= b@);
    true
}

impl Tracking {
    /// A library just read from disk is both what runs and what is saved.
    pub fn new(lib: Vec<u8>) -> (r: Tracking)
        ensures
            r@.applied == lib@,
            r@.saved == lib@,
    {
        let saved = lib.clone();
        Tracking { applied: lib, saved }
    }

    /// The draft differs from what the run was last applied with: the
    /// apply button is starred.
    pub fn is_dirty(&self, lib: &Vec<u8>) -> (r: bool)
        ensures
            r == (lib@ != self@.applied),
    {
        !same_library(lib, &self.applied)
    }

    /// The draft differs from the files on disk.
    pub fn unsaved(&self, lib: &Vec<u8>) -> (r: bool)
        ensures
            r == (lib@ != self@.saved),
    {
        !same_library(lib, &self.saved)
    }

    /// The run was restarted on `lib`.
    pub fn mark_applied(&mut self, lib: Vec<u8>)
        ensures
            final(self)@ == (TrackingView { applied: lib@, ..old(self)@ }),
    {
        self.applied = lib;
    }

    /// `lib` was written to disk.
    pub fn mark_saved(&mut self, lib: Vec<u8>)
        ensures
            final(self)@ == (TrackingView { saved: lib@, ..old(self)@ }),
    {
        self.saved = lib;
    }
}

/// A profile as the composer lists it.
#[derive(Debug, Clone, Copy, PartialEq, Eq, Structural)]
pub struct ProfileEntry {
    /// The domain of the graph it runs, if that graph is loaded.
    pub domain: Option<Domain>,
    /// Its share of the population is above zero.
    pub has_share: bool,
    pub enabled: bool,
}

/// A profile is in play when its agents actually run it: a civilian one
/// with a share of the population, a unit one when enabled.
pub open spec fn in_play(p: ProfileEntry, d: Domain) -> bool {
    match d {
        Domain::Household | Domain::Person => p.has_share,
        Domain::SuppressionUnit => p.enabled,
    }
}

pub open spec fn first_matching(profiles: Seq<ProfileEntry>, d: Domain, live: bool, i: int) -> Option<usize>
    decreases profiles.len() - i,
{
    if i < 0 || i >= profiles.len() {
        None
    } else if profiles[i].domain == Some(d) && (!live || in_play(profiles[i], d)) {
        Some(i as usize)
    } else {
        first_matching(profiles, d, live, i + 1)
    }
}

/// The profile to select in domain `d`, by position: the first one in play,
/// or else the first of the domain at all.
pub open spec fn first_profile_of(profiles: Seq<ProfileEntry>, d: Domain) -> Option<usize> {
    match first_matching(profiles, d, true, 0) {
        Some(i) => Some(i),
        None => first_matching(profiles, d, false, 0),
    }
}

fn find_profile(profiles: &Vec<ProfileEntry>, d: Domain, live: bool) -> (r: Option<usize>)
    ensures
        r == first_matching(profiles@, d, live, 0),
{
    let n = profiles.len();
    let mut i: usize = 0;
    while i < n
        invariant
            n == profiles@.len(),
            i <= n,
            first_matching(profiles@, d, live, i as int) == first_matching(profiles@, d, live, 0),
        decreases n - i,
    {
        let p = profiles[i];
        let fits = match p.domain {
            Some(pd) => pd == d,
            None => false,
        };
        let playing = match d {
            Domain::Household | Domain::Person => p.has_share,
            Domain::SuppressionUnit => p.enabled,
        };
        if fits && (!live || playing) {
            return Some(i);
        }
        i = i + 1;
    }
    None
}

/// See [`first_profile_of`].
pub fn first_profile(profiles: &Vec<ProfileEntry>, d: Domain) -> (r: Option<usize>)
    ensures
        r == first_profile_of(profiles@, d),
{
    match find_profile(profiles, d, true) {
        Some(i) => Some(i),
        None => find_profile(profiles, d, false),
    }
}

/// A fixed-point number without the zeros its fraction ends in, and
/// without a point left bare: `2.500` reads `2.5`, `3.000` reads `3`.
pub open spec fn without_trailing_zeros(s: Seq<char>) -> Seq<char>
    decreases s.len(),
{
    if s.contains('.') && s.len() > 0 && s.last() == '0' {
        without_trailing_zeros(s.drop_last())
    } else if s.len() > 0 && s.last() == '.' {
        s.drop_last()
    } else {
        s
    }
}

fn has_point(s: &Vec<char>, n: usize) -> (r: bool)
    requires
        n <= s@.len(),
    ensures
        r == s@.take(n as int).contains('.'),
{
    let mut i: usize = 0;
    while i < n
        invariant
            n <= s@.len(),
            i <= n,
            forall|j: int| 0 <= j < i ==> s@[j] != '.',
        decreases n - i,
    {
        if s[i] == '.' {
            assert(s@.take(n as int)[i as int] == '.');
            return true;
        }
        i = i + 1;
    }
    assert forall|j: int| 0 <= j < n implies s@.take(n as int)[j] != '.' by {}
    false
}

/// See [`without_trailing_zeros`]; `number` is the value printed with a
/// fixed number of decimals.
pub fn trim_zeros(number: &str) -> (r: String)
    ensures
        r@ == without_trailing_zeros(number@),
{
    let m = number.unicode_len();
    let mut chars: Vec<char> = Vec::new();
    let mut i: usize = 0;
    while i < m
        invariant
            m == number@.len(),
            i <= m,
            chars@ == number@.take(i as int),
        decreases m - i,
    {
        chars.push(number.get_char(i));
        proof {
            assert(number@.take(i + 1) =~= number@.take(i as int).push(number@[i as int]));
        }
        i = i + 1;
    }
    assert(number@.take(m as int) =~= number@);
    let mut n: usize = m;
    while n > 0 && chars[n - 1] == '0' && has_point(&chars, n)
        invariant
            chars@ == number@,
            n <= m,
            m == number@.len(),
            without_trailing_zeros(number@.take(n as int)) == without_trailing_zeros(number@),
        decreases n,
    {
        proof {
            assert(number@.take(n as int).drop_last() =~= number@.take(n - 1));
        }
        n = n - 1;
    }
    if n > 0 && chars[n - 1] == '.' {
        proof {
            assert(number@.take(n as int).drop_last() =~= number@.take(n - 1));
        }
        n = n - 1;
    }
    let mut out = String::new();
    let mut k: usize = 0;
    while k < n
        invariant
            chars@ == number@,
            n <= m,
            m == number@.len(),
            k <= n,
            out@ == number@.take(k as int),
        decreases n - k,
    {
        push_char(&mut out, chars[k]);
        proof {
            assert(number@.take(k + 1) =~= number@.take(k as int).push(number@[k as int]));
        }
        k = k + 1;
    }
    out
}

/// A parameter as the canvas badge reads it.
pub enum Readout {
    /// A number printed to three decimals, and its unit.
    Number(String, String),
    Flag(bool),
    /// One of a set of keys.
    Choice(String),
    Text(String),
    /// A value whose kind does not match its parameter's, as stored.
    Mismatch(String),
}

pub open spec fn readout_words(r: Readout) -> Seq<char> {
    match r {
        Readout::Number(n, unit) => without_trailing_zeros(n@) + unit@,
        Readout::Flag(b) => if b {
            "on"@
        } else {
            "off"@
        },
        Readout::Choice(k) => pretty_words(k@),
        Readout::Text(t) => t@,
        Readout::Mismatch(raw) => raw@,
    }
}

/// A compact, unit-aware readout of a parameter for the canvas.
pub fn readout(r: &Readout) -> (s: String)
    ensures
        s@ == readout_words(*r),
{
    match r {
        Readout::Number(n, unit) => {
            let mut s = trim_zeros(n.as_str());
            s.append(unit.as_str());
            s
        },
        Readout::Flag(b) => if *b {
            String::from_str("on")
        } else {
            String::from_str("off")
        },
        Readout::Choice(k) => pretty(k.as_str()),
        Readout::Text(t) => String::from_str(t.as_str()),
        Readout::Mismatch(raw) => String::from_str(raw.as_str()),
    }
}

/// Opening a graph keeps the selected profile only when that profile runs
/// the graph opened; `profile_graph` is the graph of the selected profile,
/// when one is selected and still in the library.
pub fn keeps_profile(profile_graph: Option<&str>, opened: &str) -> (r: bool)
    ensures
        r == match profile_graph {
            Some(g) => g@ == opened@,
            None => false,
        },
{
    match profile_graph {
        Some(g) => str_eq(g, opened),
        None => false,
    }
}

pub open spec fn applied_words(assigned: u64) -> (bool, Seq<char>) {
    if assigned == 0 {
        (false, "restarted on the shipped model"@)
    } else {
        (true, "restarted on "@ + decimal(assigned as nat) + " profile(s)"@)
    }
}

/// Applying the library: with no profile carrying a share of the agents the
/// run restarts on the shipped model, a deliberate choice rather than an
/// empty library; otherwise on the library's profiles. The `bool` says
/// whether the library is handed to the run; the text is the status after
/// the restart.
pub fn applied_status(assigned: u64) -> (r: (bool, String))
    ensures
        (r.0, r.1@) == applied_words(assigned),
{
    if assigned == 0 {
        (false, String::from_str("restarted on the shipped model"))
    } else {
        let mut s = String::from_str("restarted on ");
        s.append(&decimal_string(assigned));
        s.append(" profile(s)");
        (true, s)
    }
}

/// What a file brought into the library turned out to be.
#[derive(Debug, Clone, Copy, PartialEq, Eq, Structural)]
pub enum Arrival {
    Behaviour,
    Profile,
}

pub open spec fn arrival_noun(a: Arrival) -> Seq<char> {
    match a {
        Arrival::Behaviour => "behaviour"@,
        Arrival::Profile => "profile"@,
    }
}

/// The status after an import: `wanted` is the id the file carried, `id` the
/// one it was given (another, when `wanted` was taken), and `missing` the
/// behaviour an imported profile runs when that behaviour is not loaded.
/// The `bool` says whether the status is an error: a profile whose behaviour
/// is missing loads, but cannot run yet.
pub open spec fn import_words(a: Arrival, wanted: Seq<char>, id: Seq<char>, missing: Option<Seq<char>>) -> (
    Seq<char>,
    bool,
) {
    match (a, missing) {
        (Arrival::Profile, Some(graph)) => (
            "imported profile \""@ + id + "\", but its behaviour \""@ + graph + "\" is not loaded"@,
            true,
        ),
        _ => if id == wanted {
            ("imported "@ + arrival_noun(a) + " \""@ + id + "\""@, false)
        } else {
            ("imported "@ + arrival_noun(a) + " as \""@ + id + "\" — \""@ + wanted + "\" was taken"@, false)
        },
    }
}

/// See [`import_words`]; a missing behaviour is only looked at for a profile.
pub fn import_status(a: Arrival, wanted: &str, id: &str, missing: Option<&str>) -> (r: (String, bool))
    ensures
        (r.0@, r.1) == import_words(
            a,
            wanted@,
            id@,
            match missing {
                Some(g) => Some(g@),
                None => None,
            },
        ),
{
    if a == Arrival::Profile {
        if let Some(graph) = missing {
            let mut s = String::from_str("imported profile \"");
            s.append(id);
            s.append("\", but its behaviour \"");
            s.append(graph);
            s.append("\" is not loaded");
            return (s, true);
        }
    }
    let noun = match a {
        Arrival::Behaviour => "behaviour",
        Arrival::Profile => "profile",
    };
    let mut s = String::from_str("imported ");
    s.append(noun);
    if str_eq(id, wanted) {
        s.append(" \"");
        s.append(id);
        s.append("\"");
    } else {
        s.append(" as \"");
        s.append(id);
        s.append("\" — \"");
        s.append(wanted);
        s.append("\" was taken");
    }
    (s, false)
}

/// Why an import or an export cannot start, before any file is touched:
/// no path given (`path` is as typed, blanks around it ignored), or, for a
/// profile export, no profile selected.
pub open spec fn transfer_refusal(export: bool, path: Seq<char>, whole_graph: bool, profile_selected: bool) -> Option<
    Seq<char>,
> {
    if trimmed(path).len() == 0 {
        if export {
            Some("give a path to write to"@)
        } else {
            Some("give a path to a .json file"@)
        }
    } else if export && !whole_graph && !profile_selected {
        Some("no profile selected"@)
    } else {
        None
    }
}

/// See [`transfer_refusal`].
pub fn transfer_check(export: bool, path: &str, whole_graph: bool, profile_selected: bool) -> (r: Option<
    &'static str,
>)
    ensures
        match r {
            Some(m) => transfer_refusal(export, path@, whole_graph, profile_selected) == Some(m@),
            None => transfer_refusal(export, path@, whole_graph, profile_selected) is None,
        },
{
    let t = trim(path);
    if t.unicode_len() == 0 {
        if export {
            Some("give a path to write to")
        } else {
            Some("give a path to a .json file")
        }
    } else if export && !whole_graph && !profile_selected {
        Some("no profile selected")
    } else {
        None
    }
}

pub open spec fn counted_words(graphs: u64, profiles: u64) -> Seq<char> {
    decimal(graphs as nat) + " behaviour(s) and "@ + decimal(profiles as nat) + " profile(s)"@
}

/// What a reload from disk comes to: refused, keeping the draft, when any
/// file failed to load or nothing is saved there; otherwise the status that
/// reports what was read.
pub open spec fn reload_words(any_failed: bool, graphs: u64, profiles: u64) -> Result<Seq<char>, Seq<char>> {
    if any_failed {
        Err("Reload cancelled: some files could not load. Your edits are kept. See Help → Files on disk."@)
    } else if graphs == 0 {
        Err("nothing saved there yet"@)
    } else {
        Ok("Reloaded "@ + counted_words(graphs, profiles) + ". Apply and restart to run them."@)
    }
}

/// See [`reload_words`].
pub fn reload_outcome(any_failed: bool, graphs: u64, profiles: u64) -> (r: Result<String, String>)
    ensures
        match r {
            Ok(s) => reload_words(any_failed, graphs, profiles) == Ok::<Seq<char>, Seq<char>>(s@),
            Err(s) => reload_words(any_failed, graphs, profiles) == Err::<Seq<char>, Seq<char>>(s@),
        },
{
    if any_failed {
        return Err(
            String::from_str(
                "Reload cancelled: some files could not load. Your edits are kept. See Help → Files on disk.",
            ),
        );
    }
    if graphs == 0 {
        return Err(String::from_str("nothing saved there yet"));
    }
    let mut s = String::from_str("Reloaded ");
    s.append(&decimal_string(graphs));
    s.append(" behaviour(s) and ");
    s.append(&decimal_string(profiles));
    s.append(" profile(s)");
    s.append(". Apply and restart to run them.");
    assert(s@ =~= "Reloaded "@ + counted_words(graphs, profiles) + ". Apply and restart to run them."@);
    Ok(s)
}

/// The status after a save: how much went where.
pub fn saved_status(graphs: u64, profiles: u64, root: &str) -> (r: String)
    ensures
        r@ == "saved "@ + counted_words(graphs, profiles) + " to "@ + root@,
{
    let mut s = String::from_str("saved ");
    s.append(&decimal_string(graphs));
    s.append(" behaviour(s) and ");
    s.append(&decimal_string(profiles));
    s.append(" profile(s)");
    s.append(" to ");
    s.append(root);
    assert(s@ =~= "saved "@ + counted_words(graphs, profiles) + " to "@ + root@);
    s
}

pub open spec fn actions_words(d: Domain) -> Seq<char> {
    match d {
        Domain::Household => "when a household starts getting ready, leaves immediately, commits to defending the property, or shelters where it is"@,
        Domain::Person => "whether someone away from their household keeps walking out, stops and shelters, or turns round for the house"@,
        Domain::SuppressionUnit => "when a crew, engine or aircraft breaks off — pulls back for its own safety, goes for water, holds where it is, or returns to staging"@,
    }
}

/// What a behaviour in domain `d` decides, as the help tab words it.
pub fn domain_actions(d: Domain) -> (r: &'static str)
    ensures
        r@ == actions_words(d),
{
    match d {
        Domain::Household => "when a household starts getting ready, leaves immediately, commits to defending the property, or shelters where it is",
        Domain::Person => "whether someone away from their household keeps walking out, stops and shelters, or turns round for the house",
        Domain::SuppressionUnit => "when a crew, engine or aircraft breaks off — pulls back for its own safety, goes for water, holds where it is, or returns to staging",
    }
}

pub open spec fn assignment_words(d: Domain) -> Seq<char> {
    match d {
        Domain::Household => "by **share**: a relative weight, normalised, hashed onto the 750 anonymous families. Zero keeps the profile and takes it out of play"@,
        Domain::Person => "by **share**, the same way households are — there are hundreds of them and no one of them is a named individual"@,
        Domain::SuppressionUnit => "by **kind**, with an on/off switch. There are eight units and they are named individuals, so a hash would make \"why did Autobotte 2 do that\" a question about arithmetic rather than about a file"@,
    }
}

/// How the agents of domain `d` come to run a profile, as the help tab
/// words it (with `**` marking bold).
pub fn domain_assignment(d: Domain) -> (r: &'static str)
    ensures
        r@ == assignment_words(d),
{
    match d {
        Domain::Household => "by **share**: a relative weight, normalised, hashed onto the 750 anonymous families. Zero keeps the profile and takes it out of play",
        Domain::Person => "by **share**, the same way households are — there are hundreds of them and no one of them is a named individual",
        Domain::SuppressionUnit => "by **kind**, with an on/off switch. There are eight units and they are named individuals, so a hash would make \"why did Autobotte 2 do that\" a question about arithmetic rather than about a file",
    }
}

/// The line under the file list when some files did not load.
pub fn skipped_note(bad: u64) -> (r: Option<String>)
    ensures
        match r {
            Some(t) => bad > 0 && t@ == decimal(bad as nat)
                + " file(s) were skipped. The rest of the library loaded; fix them and press Reload."@,
            None => bad == 0,
        },
{
    if bad == 0 {
        return None;
    }
    let mut t = decimal_string(bad);
    t.append(" file(s) were skipped. The rest of the library loaded; fix them and press Reload.");
    Some(t)
}

/// A `**` starts at `i` of `s`.
pub open spec fn stars_at(s: Seq<char>, i: int) -> bool {
    0 <= i && i + 1 < s.len() && s[i] == '*' && s[i + 1] == '*'
}

/// The pieces of `s` between its `**` marks, scanning from `i` with the
/// current piece begun at `start`; marks are taken left to right and do not
/// overlap, as `str::split` takes them.
pub open spec fn pieces_from(s: Seq<char>, start: int, i: int) -> Seq<Seq<char>>
    decreases s.len() - i,
{
    if i >= s.len() {
        seq![s.subrange(start, s.len() as int)]
    } else if stars_at(s, i) {
        seq![s.subrange(start, i)] + pieces_from(s, i + 2, i + 2)
    } else {
        pieces_from(s, start, i + 1)
    }
}

/// The runs a paragraph is drawn in: each non-empty piece with whether it
/// is bold, which the pieces at odd positions are.
pub open spec fn emphasis(pieces: Seq<Seq<char>>) -> Seq<(Seq<char>, bool)>
    decreases pieces.len(),
{
    if pieces.len() == 0 {
        seq![]
    } else {
        let rest = emphasis(pieces.drop_last());
        if pieces.last().len() == 0 {
            rest
        } else {
            rest.push((pieces.last(), (pieces.len() - 1) % 2 == 1))
        }
    }
}

pub open spec fn run_views(runs: Seq<(String, bool)>) -> Seq<(Seq<char>, bool)> {
    runs.map_values(|r: (String, bool)| (r.0@, r.1))
}

proof fn lemma_emphasis_push(done: Seq<Seq<char>>, piece: Seq<char>)
    ensures
        emphasis(done.push(piece)) == if piece.len() == 0 {
            emphasis(done)
        } else {
            emphasis(done).push((piece, done.len() % 2 == 1))
        },
{
    assert(done.push(piece).drop_last() =~= done);
}

/// A help paragraph with `**bold**` honoured: the text between marks, in
/// order, alternately plain and bold, with empty runs left out.
pub fn emphasis_runs(text: &str) -> (r: Vec<(String, bool)>)
    ensures
        run_views(r@) == emphasis(pieces_from(text@, 0, 0)),
{
    let n = text.unicode_len();
    let ghost s = text@;
    let ghost mut done: Seq<Seq<char>> = seq![];
    let mut out: Vec<(String, bool)> = Vec::new();
    let mut bold = false;
    let mut start: usize = 0;
    let mut i: usize = 0;
    while i < n
        invariant
            n == s.len(),
            s == text@,
            start <= i <= n,
            bold == (done.len() % 2 == 1),
            pieces_from(s, 0, 0) == done + pieces_from(s, start as int, i as int),
            run_views(out@) == emphasis(done),
        decreases n - i,
    {
        if i + 1 < n && text.get_char(i) == '*' && text.get_char(i + 1) == '*' {
            let piece = text.substring_char(start, i);
            proof {
                assert(stars_at(s, i as int));
                let rest = pieces_from(s, i + 2, i + 2);
                assert(done + (seq![piece@] + rest) =~= done.push(piece@) + rest);
                lemma_emphasis_push(done, piece@);
            }
            if piece.unicode_len() > 0 {
                out.push((String::from_str(piece), bold));
                proof {
                    assert(run_views(out@) =~= emphasis(done).push((piece@, bold)));
                }
            }
            proof {
                done = done.push(piece@);
            }
            bold = !bold;
            i = i + 2;
            start = i;
        } else {
            proof {
                assert(!stars_at(s, i as int));
            }
            i = i + 1;
        }
    }
    let piece = text.substring_char(start, n);
    proof {
        assert(done + seq![piece@] =~= done.push(piece@));
        lemma_emphasis_push(done, piece@);
    }
    if piece.unicode_len() > 0 {
        out.push((String::from_str(piece), bold));
        proof {
            assert(run_views(out@) =~= emphasis(done).push((piece@, bold)));
        }
    }
    out
}

/// A commit keeps no override of a deleted node: every key that survives
/// names none of the nodes the graph lost.
pub proof fn commit_forgets_deleted_nodes(key: Seq<char>, before: Seq<u32>, after: Seq<u32>, id: u32)
    requires
        survives(key, dropped_nodes(before, after)),
        before.contains(id),
        !after.contains(id),
    ensures
        !begins(key, node_prefix(id)),
{
    let dropped = dropped_nodes(before, after);
    let k = choose|k: int| 0 <= k < before.len() && before[k] == id;
    before.lemma_filter_contains(|x: u32| !after.contains(x), k);
    assert(dropped.contains(id));
    let j = choose|j: int| 0 <= j < dropped.len() && dropped[j] == id;
    assert(!begins(key, node_prefix(dropped[j])));
}

} // verus!
