//! Bounded draft history for the behaviour editor.
//!
//! A snapshot is the editor's library in canonical form (nodes and wires in a
//! fixed order, serialised to bytes), plus the graph that was open and the
//! profile that was selected. Two snapshots are the same edit state exactly
//! when their libraries are byte-for-byte equal: moving between graphs or
//! profiles is browsing, not editing, and never makes an undo step.
//!
//! A gesture — a drag, a run of keystrokes in one field — is recorded as one
//! step: while `grouping` holds, further changes update the current state
//! without pushing another undo entry.
use vstd::prelude::*;

verus! {

/// How many undo steps are kept. The oldest is dropped past this.
pub const UNDO_LIMIT: usize = 100;

/// One recorded editor state.
pub struct Snapshot {
    /// The library in canonical serialised form.
    pub lib: Vec<u8>,
    /// The graph open in the canvas.
    pub graph_id: String,
    /// The profile selected for editing, if any.
    pub subtype: Option<String>,
}

/// A snapshot as a value.
pub struct SnapshotView {
    pub lib: Seq<u8>,
    pub graph_id: Seq<char>,
    pub subtype: Option<Seq<char>>,
}

pub open spec fn opt_view(o: Option<String>) -> Option<Seq<char>> {
    match o {
        Some(s) => Some(s@),
        None => None,
    }
}

impl View for Snapshot {
    type V = SnapshotView;

    open spec fn view(&self) -> SnapshotView {
        SnapshotView { lib: self.lib@, graph_id: self.graph_id@, subtype: opt_view(self.subtype) }
    }
}

pub open spec fn snap_views(s: Seq<Snapshot>) -> Seq<SnapshotView> {
    s.map_values(|x: Snapshot| x@)
}

pub open spec fn opt_snap_view(o: Option<Snapshot>) -> Option<SnapshotView> {
    match o {
        Some(s) => Some(s@),
        None => None,
    }
}

/// The history as values.
pub struct HistoryView {
    pub current: Option<SnapshotView>,
    pub undo: Seq<SnapshotView>,
    pub redo: Seq<SnapshotView>,
    pub grouping: bool,
}

/// Undo and redo stacks around the current editor state.
pub struct History {
    current: Option<Snapshot>,
    undo: Vec<Snapshot>,
    redo: Vec<Snapshot>,
    grouping: bool,
}

impl View for History {
    type V = HistoryView;

    closed spec fn view(&self) -> HistoryView {
        HistoryView {
            current: opt_snap_view(self.current),
            undo: snap_views(self.undo@),
            redo: snap_views(self.redo@),
            grouping: self.grouping,
        }
    }
}

/// `undo` with `prev` pushed on top, and the oldest entry dropped if that
/// takes it past the limit.
pub open spec fn push_bounded(undo: Seq<SnapshotView>, prev: SnapshotView) -> Seq<SnapshotView> {
    let pushed = undo.push(prev);
    if pushed.len() > UNDO_LIMIT {
        pushed.drop_first()
    } else {
        pushed
    }
}

/// What recording `snap` does to the history `h`.
pub open spec fn recorded(h: HistoryView, snap: SnapshotView, grouping: bool) -> HistoryView {
    match h.current {
        None => HistoryView { current: Some(snap), ..h },
        Some(prev) => if prev.lib != snap.lib {
            HistoryView {
                current: Some(snap),
                undo: if h.grouping {
                    h.undo
                } else {
                    push_bounded(h.undo, prev)
                },
                redo: Seq::empty(),
                grouping,
            }
        } else {
            HistoryView { current: Some(snap), grouping: if grouping { h.grouping } else { false }, ..h }
        },
    }
}

/// What one step back does to `h`.
pub open spec fn undone(h: HistoryView) -> HistoryView {
    if h.undo.len() == 0 {
        h
    } else {
        HistoryView {
            current: Some(h.undo.last()),
            undo: h.undo.drop_last(),
            redo: match h.current {
                Some(c) => h.redo.push(c),
                None => h.redo,
            },
            grouping: false,
        }
    }
}

/// What one step forward does to `h`.
pub open spec fn redone(h: HistoryView) -> HistoryView {
    if h.redo.len() == 0 {
        h
    } else {
        HistoryView {
            current: Some(h.redo.last()),
            redo: h.redo.drop_last(),
            undo: match h.current {
                Some(c) => h.undo.push(c),
                None => h.undo,
            },
            grouping: false,
        }
    }
}

/// Byte-for-byte equality.
fn same_bytes(a: &Vec<u8>, b: &Vec<u8>) -> (r: bool)
    ensures
        r == (a@ == b@),
{
    if a.len() != b.len() {
        return false;
    }
    let mut i: usize = 0;
    while i < a.len()
        invariant
            a@.len() == b@.len(),
            i <= a@.len(),
            forall|j: int| 0 <= j < i ==> a@[j] == b@[j],
        decreases a.len() - i,
    {
        if a[i] != b[i] {
            return false;
        }
        i = i + 1;
    }
    assert(a@ =~= b@);
    true
}

fn copy_bytes(a: &Vec<u8>) -> (r: Vec<u8>)
    ensures
        r@ == a@,
{
    let mut out: Vec<u8> = Vec::new();
    let mut i: usize = 0;
    while i < a.len()
        invariant
            i <= a@.len(),
            out@ == a@.take(i as int),
        decreases a.len() - i,
    {
        out.push(a[i]);
        proof {
            assert(a@.take(i + 1) =~= a@.take(i as int).push(a@[i as int]));
        }
        i = i + 1;
    }
    assert(a@.take(a@.len() as int) =~= a@);
    out
}

impl Snapshot {
    /// A copy holding the same values.
    pub fn duplicate(&self) -> (r: Snapshot)
        ensures
            r@ == self@,
    {
        let subtype = match &self.subtype {
            Some(s) => Some(s.clone()),
            None => None,
        };
        Snapshot { lib: copy_bytes(&self.lib), graph_id: self.graph_id.clone(), subtype }
    }
}

impl History {
    /// An empty history with nothing recorded.
    pub fn new() -> (r: History)
        ensures
            r@.current.is_none(),
            r@.undo.len() == 0,
            r@.redo.len() == 0,
            !r@.grouping,
    {
        let r = History { current: None, undo: Vec::new(), redo: Vec::new(), grouping: false };
        assert(r@.undo =~= Seq::<SnapshotView>::empty());
        assert(r@.redo =~= Seq::<SnapshotView>::empty());
        r
    }

    /// Whether the last change opened a gesture that further changes join.
    pub fn grouping(&self) -> (r: bool)
        ensures
            r == self@.grouping,
    {
        self.grouping
    }

    /// Undo and redo steps together never exceed [`UNDO_LIMIT`], and there
    /// are none before a first state is recorded.
    #[verifier::type_invariant]
    spec fn wf(&self) -> bool {
        &&& self.undo@.len() + self.redo@.len() <= UNDO_LIMIT
        &&& self.current.is_none() ==> self.undo@.len() == 0 && self.redo@.len() == 0
    }

    /// Whether there is a step to go back to.
    pub fn can_undo(&self) -> (r: bool)
        ensures
            r == (self@.undo.len() > 0),
    {
        self.undo.len() > 0
    }

    /// Whether there is a step to go forward to.
    pub fn can_redo(&self) -> (r: bool)
        ensures
            r == (self@.redo.len() > 0),
    {
        self.redo.len() > 0
    }

    /// How many steps back there are.
    pub fn undo_depth(&self) -> (r: usize)
        ensures
            r == self@.undo.len(),
            r <= UNDO_LIMIT,
    {
        proof {
            use_type_invariant(self);
        }
        self.undo.len()
    }

    /// A copy of the current state, if one has been recorded.
    pub fn current(&self) -> (r: Option<Snapshot>)
        ensures
            opt_snap_view(r) == self@.current,
    {
        match &self.current {
            Some(s) => Some(s.duplicate()),
            None => None,
        }
    }

    /// Record the editor's state after a frame. A library that differs from
    /// the current one is an edit: unless a gesture is already open, the
    /// previous state becomes an undo step; either way the redo stack is
    /// cleared and `grouping` says whether this change opens a gesture.
    pub fn record(&mut self, snapshot: Snapshot, grouping: bool)
        ensures
            final(self)@ == recorded(old(self)@, snapshot@, grouping),
            final(self)@.undo.len() + final(self)@.redo.len() <= UNDO_LIMIT,
    {
        proof {
            use_type_invariant(&*self);
        }
        let ghost h = self@;
        let mut t = History::new();
        std::mem::swap(self, &mut t);
        let previous = t.current;
        let mut undo = t.undo;
        let mut redo = t.redo;
        let mut g = t.grouping;
        match previous {
            Some(previous) => {
                if !same_bytes(&previous.lib, &snapshot.lib) {
                    if !g {
                        let ghost pv = previous@;
                        undo.push(previous);
                        if undo.len() > UNDO_LIMIT {
                            undo.remove(0);
                        }
                        proof {
                            let pushed = h.undo.push(pv);
                            if pushed.len() > UNDO_LIMIT {
                                assert(snap_views(undo@) =~= pushed.drop_first());
                            } else {
                                assert(snap_views(undo@) =~= pushed);
                            }
                        }
                    }
                    redo.clear();
                    g = grouping;
                    proof {
                        assert(snap_views(redo@) =~= Seq::<SnapshotView>::empty());
                    }
                } else if !grouping {
                    g = false;
                }
            },
            None => {},
        }
        *self = History { current: Some(snapshot), undo, redo, grouping: g };
    }

    /// Step back: the newest undo step becomes current, and the state it
    /// replaces goes on the redo stack. Returns a copy of the restored state,
    /// or `None` when there is nothing to undo.
    pub fn undo(&mut self) -> (r: Option<Snapshot>)
        ensures
            final(self)@ == undone(old(self)@),
            final(self)@.undo.len() + final(self)@.redo.len() <= UNDO_LIMIT,
            opt_snap_view(r) == (if old(self)@.undo.len() == 0 {
                None
            } else {
                Some(old(self)@.undo.last())
            }),
    {
        proof {
            use_type_invariant(&*self);
        }
        if self.undo.len() == 0 {
            return None;
        }
        let ghost h = self@;
        let mut t = History::new();
        std::mem::swap(self, &mut t);
        let replaced = t.current;
        let mut undo = t.undo;
        let mut redo = t.redo;
        let previous = undo.pop().unwrap();
        proof {
            assert(snap_views(undo@) =~= h.undo.drop_last());
        }
        let back = previous.duplicate();
        match replaced {
            Some(current) => {
                let ghost cv = current@;
                redo.push(current);
                proof {
                    assert(snap_views(redo@) =~= h.redo.push(cv));
                }
            },
            None => {},
        }
        *self = History { current: Some(previous), undo, redo, grouping: false };
        Some(back)
    }

    /// Step forward again: the newest redo step becomes current, and the
    /// state it replaces goes back on the undo stack.
    pub fn redo(&mut self) -> (r: Option<Snapshot>)
        ensures
            final(self)@ == redone(old(self)@),
            final(self)@.undo.len() + final(self)@.redo.len() <= UNDO_LIMIT,
            opt_snap_view(r) == (if old(self)@.redo.len() == 0 {
                None
            } else {
                Some(old(self)@.redo.last())
            }),
    {
        proof {
            use_type_invariant(&*self);
        }
        if self.redo.len() == 0 {
            return None;
        }
        let ghost h = self@;
        let mut t = History::new();
        std::mem::swap(self, &mut t);
        let replaced = t.current;
        let mut undo = t.undo;
        let mut redo = t.redo;
        let next = redo.pop().unwrap();
        proof {
            assert(snap_views(redo@) =~= h.redo.drop_last());
        }
        let back = next.duplicate();
        match replaced {
            Some(current) => {
                let ghost cv = current@;
                undo.push(current);
                proof {
                    assert(snap_views(undo@) =~= h.undo.push(cv));
                }
            },
            None => {},
        }
        *self = History { current: Some(next), undo, redo, grouping: false };
        Some(back)
    }
}

/// Undoing a step and redoing it puts the history back as it was, except
/// that no gesture is open any more.
pub proof fn undo_then_redo_restores(h: HistoryView)
    requires
        h.current.is_some(),
        h.undo.len() > 0,
    ensures
        redone(undone(h)) == (HistoryView { grouping: false, ..h }),
{
    assert(h.undo.drop_last().push(h.undo.last()) =~= h.undo);
    assert(h.redo.push(h.current.unwrap()).drop_last() =~= h.redo);
}

/// Redoing a step and undoing it puts the history back as it was, except
/// that no gesture is open any more.
pub proof fn redo_then_undo_restores(h: HistoryView)
    requires
        h.current.is_some(),
        h.redo.len() > 0,
    ensures
        undone(redone(h)) == (HistoryView { grouping: false, ..h }),
{
    assert(h.redo.drop_last().push(h.redo.last()) =~= h.redo);
    assert(h.undo.push(h.current.unwrap()).drop_last() =~= h.undo);
}

/// An edit makes the undone future unreachable: after recording a changed
/// library there is nothing to redo, and the state it replaced is the newest
/// undo step (unless a gesture was already open, which it extends).
pub proof fn edit_clears_redo(h: HistoryView, snap: SnapshotView, grouping: bool)
    requires
        h.current.is_some(),
        h.current.unwrap().lib != snap.lib,
    ensures
        recorded(h, snap, grouping).redo.len() == 0,
        recorded(h, snap, grouping).current == Some(snap),
        !h.grouping ==> recorded(h, snap, grouping).undo.last() == h.current.unwrap(),
        h.grouping ==> recorded(h, snap, grouping).undo == h.undo,
{
}

/// Browsing — opening another graph or profile without changing the
/// library — never adds or drops an undo or redo step.
pub proof fn browsing_is_not_an_edit(h: HistoryView, snap: SnapshotView, grouping: bool)
    requires
        h.current.is_some(),
        h.current.unwrap().lib == snap.lib,
    ensures
        recorded(h, snap, grouping).undo == h.undo,
        recorded(h, snap, grouping).redo == h.redo,
        recorded(h, snap, grouping).current == Some(snap),
{
}

/// Undo on an empty undo stack, and redo on an empty redo stack, change
/// nothing.
pub proof fn nothing_to_step_changes_nothing(h: HistoryView)
    ensures
        h.undo.len() == 0 ==> undone(h) == h,
        h.redo.len() == 0 ==> redone(h) == h,
{
}

/// Edits recorded one after another while a gesture (a drag, a run of
/// keystrokes in one field) is open.
pub open spec fn gesture(h: HistoryView, snaps: Seq<SnapshotView>) -> HistoryView
    decreases snaps.len(),
{
    if snaps.len() == 0 {
        h
    } else {
        recorded(gesture(h, snaps.drop_last()), snaps.last(), true)
    }
}

proof fn lemma_gesture(h: HistoryView, snaps: Seq<SnapshotView>)
    requires
        h.current is Some,
        !h.grouping,
        snaps.len() > 0,
        snaps[0].lib != h.current.unwrap().lib,
    ensures
        gesture(h, snaps).undo == push_bounded(h.undo, h.current.unwrap()),
        gesture(h, snaps).redo.len() == 0,
        gesture(h, snaps).grouping,
        gesture(h, snaps).current == Some(snaps.last()),
    decreases snaps.len(),
{
    let rest = snaps.drop_last();
    if snaps.len() > 1 {
        assert(rest[0] == snaps[0]);
        lemma_gesture(h, rest);
    } else {
        assert(rest =~= Seq::<SnapshotView>::empty());
        assert(gesture(h, rest) == h);
        assert(snaps.last() == snaps[0]);
        assert(snaps.last().lib != h.current.unwrap().lib);
    }
    assert(gesture(h, snaps) == recorded(gesture(h, rest), snaps.last(), true));
}

/// A gesture is undone as one step. From a settled state (no gesture open),
/// a run of edits recorded as one gesture, the first of them changing the
/// library, and then closed by recording its last state once more, leaves
/// exactly one new undo step: a single undo returns to the state before the
/// gesture, with the gesture's end as the only thing to redo.
pub proof fn a_gesture_undoes_as_one(h: HistoryView, snaps: Seq<SnapshotView>)
    requires
        h.current is Some,
        !h.grouping,
        snaps.len() > 0,
        snaps[0].lib != h.current.unwrap().lib,
    ensures
        ({
            let closed = recorded(gesture(h, snaps), snaps.last(), false);
            &&& closed.undo == push_bounded(h.undo, h.current.unwrap())
            &&& !closed.grouping
            &&& undone(closed).current == h.current
            &&& undone(closed).redo == seq![snaps.last()]
        }),
{
    lemma_gesture(h, snaps);
    let pushed = h.undo.push(h.current.unwrap());
    if pushed.len() > UNDO_LIMIT {
        assert(pushed.drop_first().last() == pushed.last());
    }
    assert(Seq::<SnapshotView>::empty().push(snaps.last()) =~= seq![snaps.last()]);
}

} // verus!
