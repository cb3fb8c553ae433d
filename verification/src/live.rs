//! Watching one agent's behaviour run: how each node of its graph relates to
//! the decision just taken, and a short memory of the decisions before it.
//!
//! Every node of a dataflow graph is evaluated on every tick, so there is no
//! "current node". What there is: the backward slice from the winning
//! proposal (active), action nodes that ran and withheld their proposal, and
//! nodes that were on the slice during the recent ticks kept here.
use vstd::prelude::*;
use crate::graph::holds;
use std::collections::{BTreeSet, VecDeque};
use vstd::std_specs::vecdeque::VecDequeAdditionalSpecFns;

verus! {

/// How many decision ticks the "recently on the path" shading looks back over.
pub const HISTORY: usize = 60;

/// How a node relates to the decision the watched agent just took.
#[derive(Debug, Clone, Copy, PartialEq, Eq)]
pub enum LiveRole {
    /// Fed the decision that was taken.
    Active,
    /// Ran and declined: a rule that was checked and did not apply.
    Withheld,
    /// Was on the path in a recent tick, but not this one.
    Recent,
    /// Has not been on the path since watching started.
    Cold,
}

pub open spec fn role_label(r: LiveRole) -> Seq<char> {
    match r {
        LiveRole::Active => "on the path taken"@,
        LiveRole::Withheld => "checked, did not apply"@,
        LiveRole::Recent => "was on the path recently"@,
        LiveRole::Cold => "not on the path"@,
    }
}

pub open spec fn role_rgb(r: LiveRole) -> [u8; 3] {
    match r {
        LiveRole::Active => [0x7f, 0xd4, 0x92],
        LiveRole::Withheld => [0x8a, 0x6a, 0x5c],
        LiveRole::Recent => [0x54, 0x7c, 0x6a],
        LiveRole::Cold => [0x55, 0x5a, 0x62],
    }
}

impl LiveRole {
    /// The legend's words for this role.
    pub fn label(self) -> (r: &'static str)
        ensures
            r@ == role_label(self),
    {
        match self {
            LiveRole::Active => "on the path taken",
            LiveRole::Withheld => "checked, did not apply",
            LiveRole::Recent => "was on the path recently",
            LiveRole::Cold => "not on the path",
        }
    }

    /// Tint for the node's swatch, its pins and the legend, as red, green,
    /// blue. One palette, so the legend cannot come to describe something else.
    pub fn rgb(self) -> (r: [u8; 3])
        ensures
            r == role_rgb(self),
    {
        match self {
            LiveRole::Active => [0x7f, 0xd4, 0x92],
            LiveRole::Withheld => [0x8a, 0x6a, 0x5c],
            LiveRole::Recent => [0x54, 0x7c, 0x6a],
            LiveRole::Cold => [0x55, 0x5a, 0x62],
        }
    }

    /// Current-tick states: the active path explains what won, a withheld
    /// proposal explains the nearby rule that was checked and said no.
    pub fn is_current(self) -> (r: bool)
        ensures
            r == (self == LiveRole::Active || self == LiveRole::Withheld),
    {
        match self {
            LiveRole::Active | LiveRole::Withheld => true,
            _ => false,
        }
    }
}

/// The role of node `id`, given the active slice, the withheld proposals and
/// the nodes seen on the path recently. Active wins over withheld, which wins
/// over recent.
pub open spec fn role_of(active: Seq<u32>, withheld: Seq<u32>, seen: Seq<u32>, id: u32) -> LiveRole {
    if active.contains(id) {
        LiveRole::Active
    } else if withheld.contains(id) {
        LiveRole::Withheld
    } else if seen.contains(id) {
        LiveRole::Recent
    } else {
        LiveRole::Cold
    }
}

/// See [`role_of`].
pub fn role(active: &Vec<u32>, withheld: &Vec<u32>, seen: &Vec<u32>, id: u32) -> (r: LiveRole)
    ensures
        r == role_of(active@, withheld@, seen@, id),
{
    if holds(active, id) {
        LiveRole::Active
    } else if holds(withheld, id) {
        LiveRole::Withheld
    } else if holds(seen, id) {
        LiveRole::Recent
    } else {
        LiveRole::Cold
    }
}

/// One decision tick, recorded: when, what was decided, and which nodes fed it.
pub struct Recorded<D> {
    pub time_s: i64,
    pub decision: D,
    pub active: Vec<u32>,
}

pub struct RecordedView<D> {
    pub time_s: i64,
    pub decision: D,
    pub active: Seq<u32>,
}

impl<D> View for Recorded<D> {
    type V = RecordedView<D>;

    open spec fn view(&self) -> RecordedView<D> {
        RecordedView { time_s: self.time_s, decision: self.decision, active: self.active@ }
    }
}

pub open spec fn views<D>(s: Seq<Recorded<D>>) -> Seq<RecordedView<D>> {
    s.map_values(|r: Recorded<D>| r@)
}

/// `x` was on the path in one of the recorded ticks.
pub open spec fn in_history<D>(entries: Seq<RecordedView<D>>, x: u32) -> bool {
    exists|i: int| 0 <= i < entries.len() && #[trigger] entries[i].active.contains(x)
}

/// The last [`HISTORY`] entries of `s`.
pub open spec fn newest<D>(s: Seq<RecordedView<D>>) -> Seq<RecordedView<D>> {
    if s.len() > HISTORY {
        s.subrange(s.len() - HISTORY, s.len() as int)
    } else {
        s
    }
}

/// Node ids are ordered as the integers they are, so a `BTreeSet` of them
/// behaves as a set.
proof fn lemma_ids_ordered()
    ensures
        vstd::laws_cmp::obeys_cmp::<u32>(),
{
    broadcast use vstd::laws_cmp::group_laws_cmp;

}

/// The watched agent's recent decisions, newest last, and the set of nodes
/// that fed any of them.
pub struct DecisionLog<D> {
    entries: VecDeque<Recorded<D>>,
    seen: BTreeSet<u32>,
}

impl<D> DecisionLog<D> {
    pub closed spec fn entries(&self) -> Seq<RecordedView<D>> {
        views(self.entries@)
    }

    pub closed spec fn seen_ids(&self) -> Set<u32> {
        self.seen@
    }

    /// The log holds at most [`HISTORY`] ticks, and `seen` is exactly what
    /// they were fed by.
    #[verifier::type_invariant]
    spec fn wf(&self) -> bool {
        &&& self.entries().len() <= HISTORY
        &&& forall|x: u32| #[trigger] self.seen_ids().contains(x) <==> in_history(self.entries(), x)
    }

    /// An empty log.
    pub fn new() -> (r: Self)
        ensures
            r.entries().len() == 0,
            r.seen_ids() == Set::<u32>::empty(),
    {
        let r = DecisionLog { entries: VecDeque::new(), seen: BTreeSet::new() };
        assert(r.entries() =~= Seq::<RecordedView<D>>::empty());
        r
    }

    /// Drop everything: the agent being watched has changed, and keeping
    /// this history would shade the new agent's graph with the old one's path.
    pub fn forget(&mut self)
        ensures
            final(self).entries().len() == 0,
            final(self).seen_ids() == Set::<u32>::empty(),
    {
        *self = DecisionLog::new();
    }

    /// How many ticks are held.
    pub fn len(&self) -> (r: usize)
        ensures
            r == self.entries().len(),
            r <= HISTORY,
    {
        broadcast use vstd::std_specs::vecdeque::group_vec_dequeue_axioms;

        proof {
            use_type_invariant(self);
        }

        self.entries.len()
    }

    /// Whether node `id` was on the path in any recorded tick.
    pub fn was_seen(&self, id: u32) -> (r: bool)
        ensures
            r == in_history(self.entries(), id),
    {
        broadcast use vstd::std_specs::btree::group_btree_axioms;

        proof {
            use_type_invariant(self);
            lemma_ids_ordered();
        }
        let r = self.seen.contains(&id);
        assert(self.seen_ids().contains(id) == r);
        r
    }

    /// A copy of the nodes seen on the path in the recorded ticks.
    pub fn seen(&self) -> (r: BTreeSet<u32>)
        ensures
            r@ == self.seen_ids(),
    {
        self.seen.clone()
    }

    /// The time of the newest tick held.
    pub fn last_time(&self) -> (r: Option<i64>)
        ensures
            r == (if self.entries().len() == 0 {
                None
            } else {
                Some(self.entries().last().time_s)
            }),
    {
        broadcast use vstd::std_specs::vecdeque::group_vec_dequeue_axioms;

        let n = self.entries.len();
        if n == 0 {
            None
        } else {
            Some(self.entries[n - 1].time_s)
        }
    }

    /// Record one decision tick. A second capture at the same simulated time
    /// is the same tick and is ignored; otherwise the tick is appended, the
    /// oldest dropped past [`HISTORY`], and `seen` recomputed.
    pub fn record(&mut self, time_s: i64, decision: D, active: Vec<u32>)
        ensures
            final(self).entries().len() <= HISTORY,
            forall|x: u32| #[trigger] final(self).seen_ids().contains(x) <==> in_history(final(self).entries(), x),
            old(self).entries().len() > 0 && old(self).entries().last().time_s == time_s
                ==> final(self).entries() == old(self).entries(),
            !(old(self).entries().len() > 0 && old(self).entries().last().time_s == time_s)
                ==> final(self).entries() == newest(
                old(self).entries().push(RecordedView { time_s, decision, active: active@ }),
            ),
    {
        broadcast use vstd::std_specs::vecdeque::group_vec_dequeue_axioms;

        proof {
            use_type_invariant(&*self);
        }
        let n = self.entries.len();
        if n > 0 && self.entries[n - 1].time_s == time_s {
            return ;
        }
        let ghost before = self.entries();
        let ghost item = RecordedView { time_s, decision, active: active@ };
        let mut taken = DecisionLog::new();
        std::mem::swap(self, &mut taken);
        let mut entries = taken.entries;
        entries.push_back(Recorded { time_s, decision, active });
        proof {
            assert(views(entries@) =~= before.push(item));
        }
        if entries.len() > HISTORY {
            let _oldest = entries.pop_front();
            proof {
                let pushed = before.push(item);
                assert(views(entries@) =~= pushed.subrange(pushed.len() - HISTORY, pushed.len() as int));
            }
        }
        let seen = seen_of(&entries);
        *self = DecisionLog { entries, seen };
    }
}

/// The nodes that fed any of the ticks held.
fn seen_of<D>(entries: &VecDeque<Recorded<D>>) -> (seen: BTreeSet<u32>)
    ensures
        forall|x: u32| #[trigger] seen@.contains(x) <==> in_history(views(entries@), x),
    {
        broadcast use vstd::std_specs::vecdeque::group_vec_dequeue_axioms, vstd::std_specs::btree::group_btree_axioms;

        proof {
            lemma_ids_ordered();
        }
        let ghost es = views(entries@);
        let mut seen: BTreeSet<u32> = BTreeSet::new();
        let mut i: usize = 0;
        while i < entries.len()
            invariant
                es == views(entries@),
                i <= es.len(),
                forall|x: u32| #[trigger] seen@.contains(x) <==> in_history(es.take(i as int), x),
            decreases entries@.len() - i,
        {
            let mut j: usize = 0;
            let ghost act = es[i as int].active;
            assert(entries@[i as int].active@ == act);
            while j < entries[i].active.len()
                invariant
                    es == views(entries@),
                    i < es.len(),
                    act == es[i as int].active,
                    act == entries@[i as int].active@,
                    j <= act.len(),
                    forall|x: u32|
                        #[trigger] seen@.contains(x) <==> (in_history(es.take(i as int), x)
                            || act.take(j as int).contains(x)),
                decreases act.len() - j,
            {
                let x = entries[i].active[j];
                let ghost s0 = seen@;
                seen.insert(x);
                proof {
                    assert(act[j as int] == x);
                    let tj = act.take(j as int);
                    let tj1 = act.take(j + 1);
                    assert forall|y: u32|
                        #[trigger] seen@.contains(y) <==> (in_history(es.take(i as int), y)
                            || tj1.contains(y)) by {
                        if tj.contains(y) {
                            let m = choose|m: int| 0 <= m < tj.len() && tj[m] == y;
                            assert(tj1[m] == y);
                        }
                        if tj1.contains(y) && y != x {
                            let m = choose|m: int| 0 <= m < tj1.len() && tj1[m] == y;
                            assert(m < j);
                            assert(tj[m] == y);
                        }
                        if y == x {
                            assert(tj1[j as int] == x);
                        }
                    }
                }
                j = j + 1;
            }
            proof {
                assert(act.take(act.len() as int) =~= act);
                let ti = es.take(i as int);
                let t = es.take(i + 1);
                assert forall|x: u32|
                    #[trigger] seen@.contains(x) <==> in_history(t, x) by {
                    if in_history(t, x) {
                        let k = choose|k: int| 0 <= k < t.len() && #[trigger] t[k].active.contains(x);
                        if k < i {
                            assert(ti[k] == t[k]);
                            assert(in_history(ti, x));
                        } else {
                            assert(t[k] == es[i as int]);
                        }
                    }
                    if in_history(ti, x) {
                        let k = choose|k: int| 0 <= k < ti.len() && #[trigger] ti[k].active.contains(x);
                        assert(t[k] == ti[k]);
                    }
                    if act.contains(x) {
                        assert(t[i as int] == es[i as int]);
                    }
                }
            }
            i = i + 1;
        }
        proof {
            assert(es.take(es.len() as int) =~= es);
        }
        seen
}

/// The decision log never holds more than [`HISTORY`] ticks, and always holds
/// the newest one: recording a tick at a new time leaves it last.
pub proof fn log_keeps_the_newest<D>(entries: Seq<RecordedView<D>>, item: RecordedView<D>)
    requires
        entries.len() <= HISTORY,
    ensures
        newest(entries.push(item)).len() <= HISTORY,
        newest(entries.push(item)).last() == item,
{
}

} // verus!
