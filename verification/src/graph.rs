//! The shape of a behaviour graph: which node feeds which.
//!
//! Node identities and wires only; what a node computes belongs to the
//! behaviour model. Everything the editor needs to know about dependencies —
//! the roots its structure view is drawn from, whether a new wire would close
//! a loop, the upstream branch a copy takes with it — is answered here.
use vstd::prelude::*;

verus! {

/// A connection from one node's output port to another node's input port.
#[derive(Clone, Copy, Debug, PartialEq, Eq)]
pub struct Wire {
    pub from_node: u32,
    pub from_port: u16,
    pub to_node: u32,
    pub to_port: u16,
}

/// Node identities, in the graph's own order, and the wires between them.
pub struct Shape {
    pub nodes: Vec<u32>,
    pub wires: Vec<Wire>,
}

/// `a` feeds `b` through some wire.
pub open spec fn feeds(wires: Seq<Wire>, a: u32, b: u32) -> bool {
    exists|k: int| 0 <= k < wires.len() && #[trigger] wires[k].from_node == a && wires[k].to_node == b
}

/// Step `i` of `p` goes one wire upstream.
pub open spec fn link(wires: Seq<Wire>, p: Seq<u32>, i: int) -> bool {
    feeds(wires, p[i + 1], p[i])
}

/// `p` walks against the wires: every element feeds the one before it.
pub open spec fn is_chain(wires: Seq<Wire>, p: Seq<u32>) -> bool {
    &&& p.len() >= 1
    &&& forall|i: int| 0 <= i < p.len() - 1 ==> #[trigger] link(wires, p, i)
}

/// `x` is `from` itself or something `from` depends on, however indirectly.
pub open spec fn upstream(wires: Seq<Wire>, from: u32, x: u32) -> bool {
    exists|p: Seq<u32>| #[trigger] is_chain(wires, p) && p[0] == from && p.last() == x
}

/// `x` is upstream of one of `starts`.
pub open spec fn covered(wires: Seq<Wire>, starts: Seq<u32>, x: u32) -> bool {
    exists|i: int| 0 <= i < starts.len() && #[trigger] upstream(wires, starts[i], x)
}

/// Every wire into a member of `s` comes from a member of `s`.
pub open spec fn closed(wires: Seq<Wire>, s: Seq<u32>) -> bool {
    forall|k: int|
        0 <= k < wires.len() && s.contains(#[trigger] wires[k].to_node) ==> s.contains(
            wires[k].from_node,
        )
}

/// Nothing takes `id`'s output.
pub open spec fn is_sink(wires: Seq<Wire>, id: u32) -> bool {
    forall|k: int| 0 <= k < wires.len() ==> #[trigger] wires[k].from_node != id
}

/// The sinks among the first `n` nodes, in order.
pub open spec fn sinks_upto(nodes: Seq<u32>, wires: Seq<Wire>, n: int) -> Seq<u32>
    decreases n,
{
    if n <= 0 {
        seq![]
    } else {
        let s = sinks_upto(nodes, wires, n - 1);
        if is_sink(wires, nodes[n - 1]) {
            s.push(nodes[n - 1])
        } else {
            s
        }
    }
}

/// Walk the nodes from `i` on, adding each one that nothing in `found`
/// already reaches.
pub open spec fn extend_roots(nodes: Seq<u32>, wires: Seq<Wire>, found: Seq<u32>, i: int) -> Seq<
    u32,
>
    decreases nodes.len() - i,
{
    if i >= nodes.len() || i < 0 {
        found
    } else {
        let x = nodes[i];
        let next = if covered(wires, found, x) {
            found
        } else {
            found.push(x)
        };
        extend_roots(nodes, wires, next, i + 1)
    }
}

/// The order the structure view lays the graph out in: every sink, then each
/// node (in graph order) that no earlier entry depends on — a disconnected
/// node, or the first node met of a loop that feeds nothing else.
pub open spec fn root_order(nodes: Seq<u32>, wires: Seq<Wire>) -> Seq<u32> {
    extend_roots(nodes, wires, sinks_upto(nodes, wires, nodes.len() as int), 0)
}

/// `x` depends on `from`: the wires, followed forwards, lead from `from` to `x`.
pub open spec fn downstream(wires: Seq<Wire>, from: u32, x: u32) -> bool {
    upstream(reversed_wires(wires), from, x)
}

/// The same wires, pointing the other way.
pub open spec fn reversed_wires(wires: Seq<Wire>) -> Seq<Wire> {
    wires.map_values(
        |w: Wire| Wire { from_node: w.to_node, from_port: w.to_port, to_node: w.from_node, to_port: w.from_port },
    )
}

/// The largest of `ids`, or 0 for none.
pub open spec fn max_id(ids: Seq<u32>) -> u32
    decreases ids.len(),
{
    if ids.len() == 0 {
        0
    } else {
        let m = max_id(ids.drop_last());
        if ids.last() > m {
            ids.last()
        } else {
            m
        }
    }
}

/// The identity a new node gets: one past the largest in use, or 1 on an
/// empty canvas, and never past the end of the id space.
pub open spec fn next_free_id(ids: Seq<u32>) -> u32 {
    if ids.len() == 0 {
        1
    } else if max_id(ids) == u32::MAX {
        u32::MAX
    } else {
        (max_id(ids) + 1) as u32
    }
}

proof fn lemma_self_upstream(wires: Seq<Wire>, x: u32)
    ensures
        upstream(wires, x, x),
{
    let p = seq![x];
    assert(is_chain(wires, p));
}

proof fn lemma_chain_extend(wires: Seq<Wire>, p: Seq<u32>, a: u32)
    requires
        is_chain(wires, p),
        feeds(wires, a, p.last()),
    ensures
        is_chain(wires, p.push(a)),
{
    let q = p.push(a);
    assert forall|i: int| 0 <= i < q.len() - 1 implies #[trigger] link(wires, q, i) by {
        if i < p.len() - 1 {
            assert(link(wires, p, i));
            assert(q[i] == p[i] && q[i + 1] == p[i + 1]);
        } else {
            assert(q[i] == p.last() && q[i + 1] == a);
        }
    }
}

proof fn lemma_upstream_step(wires: Seq<Wire>, from: u32, b: u32, a: u32)
    requires
        upstream(wires, from, b),
        feeds(wires, a, b),
    ensures
        upstream(wires, from, a),
{
    let p = choose|p: Seq<u32>| #[trigger] is_chain(wires, p) && p[0] == from && p.last() == b;
    lemma_chain_extend(wires, p, a);
    let q = p.push(a);
    assert(q[0] == from && q.last() == a);
}

/// A closed set holding the start of a chain holds its end.
proof fn lemma_closed_holds_chain(wires: Seq<Wire>, s: Seq<u32>, p: Seq<u32>)
    requires
        closed(wires, s),
        is_chain(wires, p),
        s.contains(p[0]),
    ensures
        s.contains(p.last()),
    decreases p.len(),
{
    if p.len() > 1 {
        let q = p.drop_last();
        assert forall|i: int| 0 <= i < q.len() - 1 implies #[trigger] link(wires, q, i) by {
            assert(link(wires, p, i));
        }
        lemma_closed_holds_chain(wires, s, q);
        let n = p.len() - 1;
        assert(link(wires, p, n - 1));
        let k = choose|k: int|
            0 <= k < wires.len() && #[trigger] wires[k].from_node == p[n] && wires[k].to_node == p[n
                - 1];
        assert(s.contains(wires[k].to_node));
    }
}

proof fn lemma_closed_holds_upstream(wires: Seq<Wire>, s: Seq<u32>, from: u32, x: u32)
    requires
        closed(wires, s),
        s.contains(from),
        upstream(wires, from, x),
    ensures
        s.contains(x),
{
    let p = choose|p: Seq<u32>| #[trigger] is_chain(wires, p) && p[0] == from && p.last() == x;
    lemma_closed_holds_chain(wires, s, p);
}

proof fn lemma_covered_push(wires: Seq<Wire>, starts: Seq<u32>, r: u32, x: u32)
    ensures
        covered(wires, starts.push(r), x) <==> (covered(wires, starts, x) || upstream(wires, r, x)),
{
    let t = starts.push(r);
    if covered(wires, t, x) {
        let i = choose|i: int| 0 <= i < t.len() && #[trigger] upstream(wires, t[i], x);
        if i < starts.len() {
            assert(t[i] == starts[i]);
            assert(covered(wires, starts, x));
        }
    }
    if covered(wires, starts, x) {
        let i = choose|i: int| 0 <= i < starts.len() && #[trigger] upstream(wires, starts[i], x);
        assert(t[i] == starts[i]);
        assert(covered(wires, t, x));
    }
    if upstream(wires, r, x) {
        assert(t[t.len() - 1] == r);
        assert(covered(wires, t, x));
    }
}

proof fn lemma_concat_contains(a: Seq<u32>, b: Seq<u32>, x: u32)
    ensures
        (a + b).contains(x) <==> (a.contains(x) || b.contains(x)),
{
    let c = a + b;
    if c.contains(x) {
        let i = choose|i: int| 0 <= i < c.len() && c[i] == x;
        if i < a.len() {
            assert(a[i] == x);
        } else {
            assert(b[i - a.len()] == x);
        }
    }
    if a.contains(x) {
        let i = choose|i: int| 0 <= i < a.len() && a[i] == x;
        assert(c[i] == x);
    }
    if b.contains(x) {
        let i = choose|i: int| 0 <= i < b.len() && b[i] == x;
        assert(c[i + a.len()] == x);
    }
}

proof fn lemma_distinct_within(a: Seq<u32>, c: Seq<u32>)
    requires
        a.no_duplicates(),
        forall|x: u32| a.contains(x) ==> c.contains(x),
    ensures
        a.len() <= c.len(),
{
    a.unique_seq_to_set();
    c.lemma_cardinality_of_set();
    assert(a.to_set().subset_of(c.to_set()));
    vstd::set_lib::lemma_len_subset(a.to_set(), c.to_set());
}

/// Whether `x` is one of `ids`.
pub fn holds(ids: &Vec<u32>, x: u32) -> (r: bool)
    ensures
        r == ids@.contains(x),
{
    let mut i: usize = 0;
    while i < ids.len()
        invariant
            i <= ids.len(),
            forall|j: int| 0 <= j < i ==> ids@[j] != x,
        decreases ids.len() - i,
    {
        if ids[i] == x {
            assert(ids@[i as int] == x);
            return true;
        }
        i = i + 1;
    }
    false
}

/// Add to `reached` everything `start` depends on. `reached` must already be
/// closed under dependency, and stays so.
pub fn gather_upstream(wires: &Vec<Wire>, reached: &mut Vec<u32>, start: u32)
    requires
        closed(wires@, old(reached)@),
    ensures
        closed(wires@, final(reached)@),
        forall|x: u32|
            #![trigger final(reached)@.contains(x)]
            final(reached)@.contains(x) <==> (old(reached)@.contains(x) || upstream(
                wires@,
                start,
                x,
            )),
{
    let ghost w = wires@;
    let ghost old_r = reached@;
    if holds(reached, start) {
        proof {
            assert forall|x: u32| upstream(w, start, x) implies old_r.contains(x) by {
                lemma_closed_holds_upstream(w, old_r, start, x);
            }
        }
        return ;
    }
    reached.push(start);
    let mut stack: Vec<u32> = Vec::new();
    stack.push(start);
    let ghost cand: Seq<u32> = seq![start] + w.map_values(|x: Wire| x.from_node);
    let ghost mut added: Seq<u32> = seq![start];
    proof {
        lemma_self_upstream(w, start);
        assert(reached@ =~= old_r + added);
        assert(cand[0] == start);
        assert forall|k: int|
            0 <= k < w.len() && reached@.contains(#[trigger] w[k].to_node) && !stack@.contains(
                w[k].to_node,
            ) implies reached@.contains(w[k].from_node) by {
            lemma_concat_contains(old_r, added, w[k].to_node);
            lemma_concat_contains(old_r, added, w[k].from_node);
            if added.contains(w[k].to_node) {
                assert(added[0] == w[k].to_node);
                assert(stack@[0] == w[k].to_node);
            }
        }
    }
    loop
        invariant
            w == wires@,
            closed(w, old_r),
            reached@ == old_r + added,
            added.no_duplicates(),
            added.len() >= 1,
            added[0] == start,
            added.len() <= cand.len(),
            cand == seq![start] + w.map_values(|x: Wire| x.from_node),
            forall|x: u32| #[trigger] added.contains(x) ==> !old_r.contains(x),
            forall|x: u32|
                #[trigger] added.contains(x) ==> cand.contains(x) && upstream(w, start, x),
            forall|x: u32| #[trigger] stack@.contains(x) ==> added.contains(x),
            forall|k: int|
                0 <= k < w.len() && reached@.contains(#[trigger] w[k].to_node) && !stack@.contains(
                    w[k].to_node,
                ) ==> reached@.contains(w[k].from_node),
        ensures
            reached@ == old_r + added,
            added.len() >= 1,
            added[0] == start,
            forall|x: u32|
                #[trigger] added.contains(x) ==> upstream(w, start, x),
            closed(w, reached@),
        decreases cand.len() - added.len(), stack@.len(),
    {
        let ghost st_before = stack@;
        let top = stack.pop();
        match top {
            None => {
                proof {
                    assert(closed(w, reached@));
                }
                break ;
            },
            Some(b) => {
                proof {
                    assert(st_before[st_before.len() - 1] == b);
                    assert(st_before.contains(b));
                    assert forall|x: u32| #[trigger] stack@.contains(x) implies added.contains(x) by {
                        let i = choose|i: int| 0 <= i < stack@.len() && stack@[i] == x;
                        assert(st_before[i] == x);
                        assert(st_before.contains(x));
                    }
                }
                let ghost stack_at = stack@;
                let ghost added_at = added;
                proof {
                    assert forall|j: int|
                        0 <= j < w.len() && reached@.contains(#[trigger] w[j].to_node)
                            && !stack@.contains(w[j].to_node) && w[j].to_node != b
                            implies reached@.contains(w[j].from_node) by {
                        if st_before.contains(w[j].to_node) {
                            let i = choose|i: int| 0 <= i < st_before.len() && st_before[i] == w[j].to_node;
                            if i < st_before.len() - 1 {
                                assert(stack@[i] == w[j].to_node);
                            }
                        }
                    }
                }
                let mut k: usize = 0;
                while k < wires.len()
                    invariant
                        w == wires@,
                        closed(w, old_r),
                        k <= w.len(),
                        reached@ == old_r + added,
                        added.no_duplicates(),
                        added.len() >= 1,
                        added[0] == start,
                        added.len() <= cand.len(),
                        added.len() >= added_at.len(),
                        added.len() == added_at.len() ==> stack@ == stack_at,
                        cand == seq![start] + w.map_values(|x: Wire| x.from_node),
                        added.contains(b),
                        forall|x: u32| #[trigger] added.contains(x) ==> !old_r.contains(x),
                        forall|x: u32|
                            #[trigger] added.contains(x) ==> cand.contains(x) && upstream(
                                w,
                                start,
                                x,
                            ),
                        forall|x: u32| #[trigger] stack@.contains(x) ==> added.contains(x),
                        forall|x: u32| #[trigger] stack_at.contains(x) ==> stack@.contains(x),
                        forall|j: int|
                            0 <= j < k && #[trigger] w[j].to_node == b ==> reached@.contains(
                                w[j].from_node,
                            ),
                        forall|j: int|
                            0 <= j < w.len() && reached@.contains(#[trigger] w[j].to_node)
                                && !stack@.contains(w[j].to_node) && w[j].to_node != b
                                ==> reached@.contains(w[j].from_node),
                    decreases w.len() - k,
                {
                    let wire = wires[k];
                    if wire.to_node == b {
                        let a = wire.from_node;
                        if !holds(reached, a) {
                            proof {
                                assert(feeds(w, a, b)) by {
                                    assert(w[k as int].from_node == a && w[k as int].to_node == b);
                                }
                                lemma_upstream_step(w, start, b, a);
                                assert(cand[k + 1] == a);
                                lemma_concat_contains(old_r, added, a);
                            }
                            let ghost st0 = stack@;
                            let ghost r0 = reached@;
                            reached.push(a);
                            stack.push(a);
                            proof {
                                let added0 = added;
                                added = added.push(a);
                                assert(reached@ =~= old_r + added);
                                assert forall|x: u32| #[trigger] added.contains(x) implies x == a
                                    || added0.contains(x) by {
                                    if added.contains(x) {
                                        let i = choose|i: int| 0 <= i < added.len() && added[i] == x;
                                        if i < added0.len() {
                                            assert(added0[i] == x);
                                        }
                                    }
                                }
                                assert forall|x: u32| added0.contains(x) implies #[trigger] added.contains(x) by {
                                    let i = choose|i: int| 0 <= i < added0.len() && added0[i] == x;
                                    assert(added[i] == x);
                                }
                                assert forall|x: u32| r0.contains(x) implies #[trigger] reached@.contains(x) by {
                                    let i = choose|i: int| 0 <= i < r0.len() && r0[i] == x;
                                    assert(reached@[i] == x);
                                }
                                assert forall|x: u32| st0.contains(x) implies #[trigger] stack@.contains(x) by {
                                    let i = choose|i: int| 0 <= i < st0.len() && st0[i] == x;
                                    assert(stack@[i] == x);
                                }
                                assert(reached@[reached@.len() - 1] == a);
                                assert(stack@[stack@.len() - 1] == a);
                                assert forall|x: u32| #[trigger] reached@.contains(x) implies x == a || r0.contains(x) by {
                                    let i = choose|i: int| 0 <= i < reached@.len() && reached@[i] == x;
                                    if i < r0.len() {
                                        assert(r0[i] == x);
                                    }
                                }
                                assert(added[added.len() - 1] == a);
                                assert(added.contains(a));
                                assert(added.contains(b));
                                assert forall|x: u32| #[trigger] stack@.contains(x) implies added.contains(x) by {
                                    let i = choose|i: int| 0 <= i < stack@.len() && stack@[i] == x;
                                    if i < st0.len() {
                                        assert(st0[i] == x);
                                        assert(st0.contains(x));
                                        assert(added0.contains(x));
                                    } else {
                                        assert(x == a);
                                    }
                                }
                                assert(added.no_duplicates()) by {
                                    assert forall|i: int, j: int|
                                        0 <= i < added.len() && 0 <= j < added.len() && i != j
                                        implies added[i] != added[j] by {
                                        if i < added0.len() && j < added0.len() {
                                        } else if i == added0.len() {
                                            assert(added0.contains(added[j]));
                                        } else {
                                            assert(added0.contains(added[i]));
                                        }
                                    }
                                }
                                lemma_distinct_within(added, cand);
                                assert forall|x: u32| #[trigger] stack_at.contains(x) implies stack@.contains(x) by {
                                    assert(st0.contains(x));
                                    let i = choose|i: int| 0 <= i < st0.len() && st0[i] == x;
                                    assert(stack@[i] == x);
                                }
                            }
                        }
                    }
                    k = k + 1;
                }
                proof {
                    assert forall|j: int|
                        0 <= j < w.len() && reached@.contains(#[trigger] w[j].to_node)
                            && !stack@.contains(w[j].to_node) implies reached@.contains(
                        w[j].from_node,
                    ) by {
                        if w[j].to_node == b {
                        }
                    }
                }
            },
        }
    }
    proof {
        assert forall|x: u32|
            #![trigger reached@.contains(x)]
            reached@.contains(x) <==> (old_r.contains(x) || upstream(w, start, x)) by {
            if reached@.contains(x) {
                let i = choose|i: int| 0 <= i < reached@.len() && reached@[i] == x;
                if i >= old_r.len() {
                    assert(added[i - old_r.len()] == x);
                    assert(added.contains(x));
                } else {
                    assert(old_r[i] == x);
                }
            }
            if old_r.contains(x) {
                let i = choose|i: int| 0 <= i < old_r.len() && old_r[i] == x;
                assert(reached@[i] == x);
            }
            if upstream(w, start, x) {
                assert(added[0] == start);
                assert(reached@[old_r.len() as int] == start);
                lemma_closed_holds_upstream(w, reached@, start, x);
            }
        }
    }
}

/// Whether nothing takes `id`'s output.
fn sink_check(wires: &Vec<Wire>, id: u32) -> (r: bool)
    ensures
        r == is_sink(wires@, id),
{
    let mut k: usize = 0;
    while k < wires.len()
        invariant
            k <= wires@.len(),
            forall|j: int| 0 <= j < k ==> #[trigger] wires@[j].from_node != id,
        decreases wires.len() - k,
    {
        if wires[k].from_node == id {
            return false;
        }
        k = k + 1;
    }
    true
}

/// The sinks of the graph, in node order.
fn sinks(g: &Shape) -> (r: Vec<u32>)
    ensures
        r@ == sinks_upto(g.nodes@, g.wires@, g.nodes@.len() as int),
{
    let mut out: Vec<u32> = Vec::new();
    let mut i: usize = 0;
    while i < g.nodes.len()
        invariant
            i <= g.nodes@.len(),
            out@ == sinks_upto(g.nodes@, g.wires@, i as int),
        decreases g.nodes.len() - i,
    {
        let id = g.nodes[i];
        if sink_check(&g.wires, id) {
            out.push(id);
        }
        i = i + 1;
    }
    out
}

/// The nodes the structure view is drawn from, in the order it draws them:
/// see [`root_order`]. Every node of the graph is upstream of one of them.
pub fn roots(g: &Shape) -> (r: Vec<u32>)
    ensures
        r@ == root_order(g.nodes@, g.wires@),
{
    let ghost w = g.wires@;
    let ghost nodes = g.nodes@;
    let base = sinks(g);
    let mut reached: Vec<u32> = Vec::new();
    let mut j: usize = 0;
    proof {
        assert forall|x: u32| #![trigger reached@.contains(x)] reached@.contains(x) <==> covered(w, base@.take(0), x) by {
        }
    }
    while j < base.len()
        invariant
            w == g.wires@,
            j <= base@.len(),
            closed(w, reached@),
            forall|x: u32| #![trigger reached@.contains(x)] reached@.contains(x) <==> covered(w, base@.take(j as int), x),
        decreases base.len() - j,
    {
        let r = base[j];
        gather_upstream(&g.wires, &mut reached, r);
        proof {
            assert(base@.take(j + 1) =~= base@.take(j as int).push(r));
            assert forall|x: u32| #![trigger reached@.contains(x)] reached@.contains(x) <==> covered(w, base@.take(j + 1), x) by {
                lemma_covered_push(w, base@.take(j as int), r, x);
            }
        }
        j = j + 1;
    }
    proof {
        assert(base@.take(base@.len() as int) =~= base@);
    }
    let mut found = base;
    let mut i: usize = 0;
    while i < g.nodes.len()
        invariant
            w == g.wires@,
            nodes == g.nodes@,
            i <= nodes.len(),
            closed(w, reached@),
            forall|x: u32| #![trigger reached@.contains(x)] reached@.contains(x) <==> covered(w, found@, x),
            extend_roots(nodes, w, found@, i as int) == root_order(nodes, w),
        decreases nodes.len() - i,
    {
        let x = g.nodes[i];
        let ghost before = found@;
        if !holds(&reached, x) {
            found.push(x);
            gather_upstream(&g.wires, &mut reached, x);
            proof {
                assert forall|y: u32| #![trigger reached@.contains(y)] reached@.contains(y) <==> covered(w, found@, y) by {
                    lemma_covered_push(w, before, x, y);
                }
            }
        }
        proof {
            assert(extend_roots(nodes, w, before, i as int) == extend_roots(nodes, w, found@, i + 1));
        }
        i = i + 1;
    }
    found
}

/// Wires pointing the other way.
fn reverse_all(wires: &Vec<Wire>) -> (r: Vec<Wire>)
    ensures
        r@ == reversed_wires(wires@),
{
    let mut out: Vec<Wire> = Vec::new();
    let mut k: usize = 0;
    while k < wires.len()
        invariant
            k <= wires@.len(),
            out@ == reversed_wires(wires@).take(k as int),
        decreases wires.len() - k,
    {
        let w = wires[k];
        out.push(Wire { from_node: w.to_node, from_port: w.to_port, to_node: w.from_node, to_port: w.from_port });
        proof {
            assert(reversed_wires(wires@).take(k + 1) =~= reversed_wires(wires@).take(k as int).push(
                reversed_wires(wires@)[k as int],
            ));
        }
        k = k + 1;
    }
    proof {
        assert(reversed_wires(wires@).take(wires@.len() as int) =~= reversed_wires(wires@));
    }
    out
}

/// Whether a wire from `from` into `to` would close a loop: that is, whether
/// `from` already depends on `to` through `wires`.
pub fn closes_loop(wires: &Vec<Wire>, from: u32, to: u32) -> (r: bool)
    ensures
        r == downstream(wires@, to, from),
{
    let back = reverse_all(wires);
    let mut reached: Vec<u32> = Vec::new();
    gather_upstream(&back, &mut reached, to);
    holds(&reached, from)
}

/// Everything `root` depends on, itself included: the branch a copy of
/// `root` has to take with it.
pub fn branch(wires: &Vec<Wire>, root: u32) -> (r: Vec<u32>)
    ensures
        forall|x: u32| #![trigger r@.contains(x)] r@.contains(x) <==> upstream(wires@, root, x),
{
    let mut reached: Vec<u32> = Vec::new();
    gather_upstream(wires, &mut reached, root);
    reached
}

/// The identity a new node gets on a canvas holding `ids`: see
/// [`next_free_id`]. Never one already in use, unless all of them are.
pub fn free_id(ids: &Vec<u32>) -> (r: u32)
    ensures
        r == next_free_id(ids@),
{
    let mut m: u32 = 0;
    let mut i: usize = 0;
    while i < ids.len()
        invariant
            i <= ids@.len(),
            m == max_id(ids@.take(i as int)),
        decreases ids.len() - i,
    {
        proof {
            assert(ids@.take(i + 1).drop_last() =~= ids@.take(i as int));
        }
        if ids[i] > m {
            m = ids[i];
        }
        i = i + 1;
    }
    proof {
        assert(ids@.take(ids@.len() as int) =~= ids@);
    }
    if ids.len() == 0 {
        1
    } else if m == u32::MAX {
        u32::MAX
    } else {
        m + 1
    }
}

proof fn lemma_extend_keeps(nodes: Seq<u32>, wires: Seq<Wire>, found: Seq<u32>, i: int, y: u32)
    requires
        covered(wires, found, y),
    ensures
        covered(wires, extend_roots(nodes, wires, found, i), y),
    decreases nodes.len() - i,
{
    if !(i >= nodes.len() || i < 0) {
        let x = nodes[i];
        if !covered(wires, found, x) {
            lemma_covered_push(wires, found, x, y);
            lemma_extend_keeps(nodes, wires, found.push(x), i + 1, y);
        } else {
            lemma_extend_keeps(nodes, wires, found, i + 1, y);
        }
    }
}

proof fn lemma_extend_covers(nodes: Seq<u32>, wires: Seq<Wire>, found: Seq<u32>, i: int, j: int)
    requires
        0 <= i <= j < nodes.len(),
    ensures
        covered(wires, extend_roots(nodes, wires, found, i), nodes[j]),
    decreases nodes.len() - i,
{
    let x = nodes[i];
    let next = if covered(wires, found, x) {
        found
    } else {
        found.push(x)
    };
    if i == j {
        if !covered(wires, found, x) {
            lemma_self_upstream(wires, x);
            lemma_covered_push(wires, found, x, x);
        }
        lemma_extend_keeps(nodes, wires, next, i + 1, x);
    } else {
        lemma_extend_covers(nodes, wires, next, i + 1, j);
    }
}

/// The structure view misses nothing: every node of the graph — wired to an
/// output or not, inside a loop or not — is reached from one of the roots.
pub proof fn roots_reach_every_node(nodes: Seq<u32>, wires: Seq<Wire>, j: int)
    requires
        0 <= j < nodes.len(),
    ensures
        covered(wires, root_order(nodes, wires), nodes[j]),
{
    lemma_extend_covers(nodes, wires, sinks_upto(nodes, wires, nodes.len() as int), 0, j);
}

proof fn lemma_max_id(ids: Seq<u32>, j: int)
    requires
        0 <= j < ids.len(),
    ensures
        ids[j] <= max_id(ids),
    decreases ids.len(),
{
    if j < ids.len() - 1 {
        lemma_max_id(ids.drop_last(), j);
    }
}

/// A fresh identity collides with no node on the canvas, unless the largest
/// identity in use is already the last one there is.
pub proof fn free_id_is_unused(ids: Seq<u32>)
    requires
        max_id(ids) < u32::MAX,
    ensures
        !ids.contains(next_free_id(ids)),
{
    if ids.contains(next_free_id(ids)) {
        let j = choose|j: int| 0 <= j < ids.len() && ids[j] == next_free_id(ids);
        lemma_max_id(ids, j);
    }
}

/// The first position of `x` in `s` at or after `i`, or `-1`.
pub open spec fn position_from(s: Seq<u32>, x: u32, i: int) -> int
    decreases s.len() - i,
{
    if i < 0 || i >= s.len() {
        -1
    } else if s[i] == x {
        i
    } else {
        position_from(s, x, i + 1)
    }
}

proof fn lemma_position(s: Seq<u32>, x: u32, i: int)
    requires
        0 <= i <= s.len(),
    ensures
        position_from(s, x, i) == -1 <==> (forall|j: int| i <= j < s.len() ==> s[j] != x),
        position_from(s, x, i) != -1 ==> i <= position_from(s, x, i) < s.len() && s[position_from(
            s,
            x,
            i,
        )] == x,
    decreases s.len() - i,
{
    if i < s.len() && s[i] != x {
        lemma_position(s, x, i + 1);
    }
}

/// The nodes of a branch, in the graph's order: every node `root` depends
/// on, itself included.
pub open spec fn branch_order(nodes: Seq<u32>, wires: Seq<Wire>, root: u32) -> Seq<u32> {
    nodes.filter(|x: u32| upstream(wires, root, x))
}

/// The identity the copy of `x` gets: the copies take fresh identities from
/// `base` on, in the branch's order.
pub open spec fn copy_id(order: Seq<u32>, base: int, x: u32) -> u32 {
    (base + position_from(order, x, 0)) as u32
}

/// The copy of one wire, if it gets one: a wire inside the branch is copied
/// between the copies; a wire from the root into an input that takes many
/// wires gets a second wire from the root's copy; any other wire none.
pub open spec fn copied_wire(order: Seq<u32>, base: int, root: u32, w: Wire, multi: bool) -> Seq<Wire> {
    if order.contains(w.from_node) && order.contains(w.to_node) {
        seq![
            Wire {
                from_node: copy_id(order, base, w.from_node),
                from_port: w.from_port,
                to_node: copy_id(order, base, w.to_node),
                to_port: w.to_port,
            },
        ]
    } else if w.from_node == root && multi {
        seq![Wire { from_node: copy_id(order, base, root), ..w }]
    } else {
        seq![]
    }
}

/// The copies of the first `n` wires, in order.
pub open spec fn copied_wires(order: Seq<u32>, base: int, root: u32, wires: Seq<Wire>, multi: Seq<bool>, n: int) -> Seq<
    Wire,
>
    decreases n,
{
    if n <= 0 {
        seq![]
    } else {
        copied_wires(order, base, root, wires, multi, n - 1) + copied_wire(
            order,
            base,
            root,
            wires[n - 1],
            multi[n - 1],
        )
    }
}

/// What drawing a wire on the canvas does.
#[derive(Debug, Clone, Copy, PartialEq, Eq, Structural)]
pub enum Hookup {
    /// Nothing: the canvas is read-only, a port is unknown, the types
    /// differ, or the wire would feed a node into itself.
    Refused,
    /// The wire joins the others into an input that takes many.
    Add,
    /// The wire takes the place of whatever fed the single input before.
    Replace,
}

pub open spec fn hookup_of(editable: bool, ports_known: bool, same_type: bool, from_node: u32, to_node: u32, multi: bool) -> Hookup {
    if !editable || !ports_known || !same_type || from_node == to_node {
        Hookup::Refused
    } else if multi {
        Hookup::Add
    } else {
        Hookup::Replace
    }
}

/// See [`hookup_of`]: `ports_known` says both nodes are of known kinds and
/// have the ports the wire names, `same_type` that the two ports carry the
/// same type of value, and `multi` that the input takes many wires.
pub fn hookup(editable: bool, ports_known: bool, same_type: bool, from_node: u32, to_node: u32, multi: bool) -> (r:
    Hookup)
    ensures
        r == hookup_of(editable, ports_known, same_type, from_node, to_node, multi),
{
    if !editable || !ports_known || !same_type || from_node == to_node {
        Hookup::Refused
    } else if multi {
        Hookup::Add
    } else {
        Hookup::Replace
    }
}

/// A wire from a node back into the same node, the smallest loop there is
/// and the easiest to draw by accident, is never drawn.
pub proof fn no_node_feeds_itself(editable: bool, ports_known: bool, same_type: bool, id: u32, multi: bool)
    ensures
        hookup_of(editable, ports_known, same_type, id, id, multi) == Hookup::Refused,
{
}

/// What copying a branch came to.
pub enum Duplicate {
    /// Nothing to copy: the node is not on the canvas, is of a kind the
    /// registry does not know, or is an output.
    Skipped,
    /// The branch depends on an output node, and so cannot be copied whole.
    DependsOnOutput,
    /// The graph with the copy added, and each copied node with its copy.
    Copied(Shape, Vec<(u32, u32)>),
}

fn position(s: &Vec<u32>, x: u32) -> (r: Option<usize>)
    ensures
        match r {
            Some(i) => i as int == position_from(s@, x, 0) && i < s@.len(),
            None => position_from(s@, x, 0) == -1,
        },
{
    let n = s.len();
    let mut i: usize = 0;
    while i < n
        invariant
            n == s@.len(),
            i <= n,
            position_from(s@, x, i as int) == position_from(s@, x, 0),
        decreases n - i,
    {
        if s[i] == x {
            return Some(i);
        }
        i = i + 1;
    }
    None
}

/// Copy the branch `root` depends on — every node it depends on, once each,
/// even when dependencies are shared — as fresh nodes wired like the
/// originals. Inputs that take many wires and already take the root get the
/// root's copy too; single inputs keep their one wire. `unknown` are the
/// nodes of a kind the registry does not know, `outputs` the output nodes,
/// and `multi` says, wire by wire, whether the input it feeds takes many.
pub fn duplicate_branch(g: &Shape, root: u32, unknown: &Vec<u32>, outputs: &Vec<u32>, multi: &Vec<bool>) -> (r:
    Duplicate)
    requires
        g.nodes@.no_duplicates(),
        multi@.len() == g.wires@.len(),
        max_id(g.nodes@) + g.nodes@.len() < u32::MAX,
    ensures
        ({
            let skip = !g.nodes@.contains(root) || unknown@.contains(root) || outputs@.contains(root);
            let order = branch_order(g.nodes@, g.wires@, root);
            let base = max_id(g.nodes@) + 1;
            let on_output = exists|i: int| 0 <= i < order.len() && outputs@.contains(#[trigger] order[i]);
            &&& (r is Skipped) == skip
            &&& (r is DependsOnOutput) == (!skip && on_output)
            &&& r matches Duplicate::Copied(shape, remap) ==> {
                &&& shape.nodes@ == g.nodes@ + Seq::new(order.len(), |k: int| (base + k) as u32)
                &&& shape.wires@ == g.wires@ + copied_wires(
                    order,
                    base,
                    root,
                    g.wires@,
                    multi@,
                    g.wires@.len() as int,
                )
                &&& remap@ == Seq::new(order.len(), |k: int| (order[k], (base + k) as u32))
            }
        }),
{
    if !holds(&g.nodes, root) || holds(unknown, root) || holds(outputs, root) {
        return Duplicate::Skipped;
    }
    let ghost pred = |x: u32| upstream(g.wires@, root, x);
    let members = branch(&g.wires, root);
    let n = g.nodes.len();
    let mut order: Vec<u32> = Vec::new();
    let mut i: usize = 0;
    while i < n
        invariant
            n == g.nodes@.len(),
            i <= n,
            pred == (|x: u32| upstream(g.wires@, root, x)),
            forall|x: u32| #![trigger members@.contains(x)] members@.contains(x) <==> upstream(g.wires@, root, x),
            order@ == g.nodes@.take(i as int).filter(pred),
        decreases n - i,
    {
        let x = g.nodes[i];
        proof {
            assert(g.nodes@.take(i + 1) =~= g.nodes@.take(i as int).push(x));
            g.nodes@.take(i as int).lemma_filter_push(x, pred);
        }
        if holds(&members, x) {
            order.push(x);
        }
        i = i + 1;
    }
    assert(g.nodes@.take(n as int) =~= g.nodes@);
    assert(order@ == branch_order(g.nodes@, g.wires@, root));
    let m = order.len();
    proof {
        g.nodes@.lemma_filter_len(pred);
    }
    let mut j: usize = 0;
    while j < m
        invariant
            m == order@.len(),
            j <= m,
            order@ == branch_order(g.nodes@, g.wires@, root),
            g.nodes@.contains(root),
            !unknown@.contains(root),
            !outputs@.contains(root),
            forall|t: int| 0 <= t < j ==> !outputs@.contains(#[trigger] order@[t]),
        decreases m - j,
    {
        if holds(outputs, order[j]) {
            assert(outputs@.contains(order@[j as int]));
            return Duplicate::DependsOnOutput;
        }
        j = j + 1;
    }
    let base = free_id(&g.nodes);
    proof {
        assert(g.nodes@.contains(root));
        assert(g.nodes@.len() > 0);
    }
    let ghost gbase: int = max_id(g.nodes@) + 1;
    assert(base == gbase);
    let mut nodes: Vec<u32> = Vec::new();
    let mut k: usize = 0;
    while k < n
        invariant
            n == g.nodes@.len(),
            k <= n,
            nodes@ == g.nodes@.take(k as int),
        decreases n - k,
    {
        nodes.push(g.nodes[k]);
        proof {
            assert(g.nodes@.take(k + 1) =~= g.nodes@.take(k as int).push(g.nodes@[k as int]));
        }
        k = k + 1;
    }
    assert(g.nodes@.take(n as int) =~= g.nodes@);
    let mut remap: Vec<(u32, u32)> = Vec::new();
    let mut c: usize = 0;
    while c < m
        invariant
            m == order@.len(),
            m <= n,
            n == g.nodes@.len(),
            c <= m,
            base as int == gbase,
            gbase + n < u32::MAX + 1,
            nodes@ == g.nodes@ + Seq::new(c as nat, |t: int| (gbase + t) as u32),
            remap@ == Seq::new(c as nat, |t: int| (order@[t], (gbase + t) as u32)),
        decreases m - c,
    {
        let id = base + c as u32;
        nodes.push(id);
        remap.push((order[c], id));
        proof {
            assert(nodes@ =~= g.nodes@ + Seq::new((c + 1) as nat, |t: int| (gbase + t) as u32));
            assert(remap@ =~= Seq::new((c + 1) as nat, |t: int| (order@[t], (gbase + t) as u32)));
        }
        c = c + 1;
    }
    let w = g.wires.len();
    let mut wires: Vec<Wire> = Vec::new();
    let mut q: usize = 0;
    while q < w
        invariant
            w == g.wires@.len(),
            q <= w,
            wires@ == g.wires@.take(q as int),
        decreases w - q,
    {
        wires.push(g.wires[q]);
        proof {
            assert(g.wires@.take(q + 1) =~= g.wires@.take(q as int).push(g.wires@[q as int]));
        }
        q = q + 1;
    }
    assert(g.wires@.take(w as int) =~= g.wires@);
    let root_at = position(&order, root);
    proof {
        lemma_self_upstream(g.wires@, root);
        g.nodes@.lemma_filter_contains(pred, choose|t: int| 0 <= t < g.nodes@.len() && g.nodes@[t] == root);
        lemma_position(order@, root, 0);
    }
    let root_copy: u32 = match root_at {
        Some(t) => base + t as u32,
        None => base,
    };
    assert(root_at.is_some());
    assert(root_copy == copy_id(order@, gbase, root));
    let mut e: usize = 0;
    while e < w
        invariant
            w == g.wires@.len(),
            w == multi@.len(),
            e <= w,
            m == order@.len(),
            m <= n,
            n == g.nodes@.len(),
            base as int == gbase,
            gbase + n < u32::MAX + 1,
            root_copy == copy_id(order@, gbase, root),
            wires@ == g.wires@ + copied_wires(order@, gbase, root, g.wires@, multi@, e as int),
        decreases w - e,
    {
        let wire = g.wires[e];
        let from = position(&order, wire.from_node);
        let to = position(&order, wire.to_node);
        proof {
            lemma_position(order@, wire.from_node, 0);
            lemma_position(order@, wire.to_node, 0);
        }
        match (from, to) {
            (Some(a), Some(b)) => {
                wires.push(
                    Wire {
                        from_node: base + a as u32,
                        from_port: wire.from_port,
                        to_node: base + b as u32,
                        to_port: wire.to_port,
                    },
                );
                proof {
                    assert(order@.contains(wire.from_node));
                    assert(order@.contains(wire.to_node));
                }
            },
            _ => {
                proof {
                    if from.is_none() {
                        assert(!order@.contains(wire.from_node));
                    } else {
                        assert(!order@.contains(wire.to_node));
                    }
                }
                if wire.from_node == root && multi[e] {
                    wires.push(Wire { from_node: root_copy, ..wire });
                }
            },
        }
        proof {
            assert(wires@ =~= g.wires@ + copied_wires(order@, gbase, root, g.wires@, multi@, e + 1));
        }
        e = e + 1;
    }
    Duplicate::Copied(Shape { nodes, wires }, remap)
}

/// A copied branch takes only fresh identities: after the copies are added
/// the canvas still holds no identity twice, since no copy shares its id with
/// a node already there and no two copies share one.
pub proof fn branch_copies_are_fresh(nodes: Seq<u32>, copies: nat)
    requires
        nodes.no_duplicates(),
        max_id(nodes) + nodes.len() < u32::MAX,
        copies <= nodes.len(),
    ensures
        (nodes + Seq::new(copies, |k: int| (max_id(nodes) + 1 + k) as u32)).no_duplicates(),
{
    let fresh = Seq::new(copies, |k: int| (max_id(nodes) + 1 + k) as u32);
    let all = nodes + fresh;
    assert forall|i: int, j: int| 0 <= i < all.len() && 0 <= j < all.len() && i != j implies all[i] != all[j] by {
        if i < nodes.len() {
            lemma_max_id(nodes, i);
        }
        if j < nodes.len() {
            lemma_max_id(nodes, j);
        }
    }
}

} // verus!
