//! The behaviour test bench: which view it shows and where it opens.
use vstd::prelude::*;

verus! {

/// The test bench's three views.
#[derive(Debug, Clone, Copy, PartialEq, Eq, Structural)]
pub enum View {
    /// One situation, the full trace.
    Evaluate,
    /// One field varied across its range.
    Sweep,
    /// Every profile against the same situation.
    Profiles,
}

impl Default for View {
    fn default() -> (r: View)
        ensures
            r == View::Evaluate,
    {
        View::Evaluate
    }
}

/// The situation the bench opens on among `count`: the third, not the
/// first — the first is the quiet one, where nothing fires.
pub open spec fn opening_situation(count: nat) -> nat {
    let last: nat = if count == 0 {
        0
    } else {
        (count - 1) as nat
    };
    if last < 2 {
        last
    } else {
        2
    }
}

/// The test bench: which view, which situation with what observation, and
/// which field a sweep varies. `O` is an observation, `F` a sweep field.
pub struct Bench<O, F> {
    pub view: View,
    pub obs: O,
    pub situation: usize,
    pub field: F,
    /// Show every node's value, not only the ones that decided it.
    pub verbose: bool,
}

impl<O: Copy, F: Copy> Bench<O, F> {
    /// Point the bench at a domain: `situations` are its preset situations,
    /// `empty` its empty observation, `field_fits` whether the current sweep
    /// field belongs to it and `first_field` its first one.
    pub fn reset_to(&mut self, situations: &Vec<O>, empty: O, field_fits: bool, first_field: F)
        ensures
            final(self).situation as nat == opening_situation(situations.len() as nat),
            final(self).obs == if final(self).situation < situations.len() {
                situations[final(self).situation as int]
            } else {
                empty
            },
            final(self).field == if field_fits {
                old(self).field
            } else {
                first_field
            },
            final(self).view == old(self).view,
            final(self).verbose == old(self).verbose,
    {
        let n = situations.len();
        let last = if n == 0 {
            0
        } else {
            n - 1
        };
        self.situation = if last < 2 {
            last
        } else {
            2
        };
        self.obs = if self.situation < n {
            situations[self.situation]
        } else {
            empty
        };
        if !field_fits {
            self.field = first_field;
        }
    }
}

} // verus!
