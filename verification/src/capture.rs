//! Screenshots without a human at the keyboard: the unattended run that
//! fast-forwards to a moment, shoots one frame per fire layer and exits,
//! and the names the shots are saved under.
use vstd::prelude::*;
use crate::fire_layer::{layer_label, layer_order, FireLayer};
use crate::text::{decimal, decimal_string, eq_ignore_ascii_case, same_ignoring_ascii_case};

verus! {

/// Frames the renderer settles for after a change of view, before a shot.
pub const SETTLE_FRAMES: u32 = 30;

/// The layers an unattended run shoots, in shooting order: every layer, or
/// only the one named (in any ASCII case).
pub open spec fn layers_to_shoot(only: Option<Seq<char>>) -> Seq<FireLayer> {
    layer_order().filter(|l: FireLayer| shoots(only, l))
}

/// Whether a run that asked for `only` shoots layer `l`.
pub open spec fn shoots(only: Option<Seq<char>>, l: FireLayer) -> bool {
    match only {
        Some(o) => same_ignoring_ascii_case(layer_label(l), o),
        None => true,
    }
}

/// The file a layer's shot is saved as.
pub open spec fn shot_file_words(l: FireLayer) -> Seq<char> {
    match l {
        FireLayer::Flames => "flames.png"@,
        FireLayer::Intensity => "intensity.png"@,
        FireLayer::Arrival => "arrival.png"@,
        FireLayer::Hazard => "spread risk.png"@,
    }
}

/// See [`shot_file_words`]: the layer's label in lower case.
pub fn shot_file(l: FireLayer) -> (r: &'static str)
    ensures
        r@ == shot_file_words(l),
{
    match l {
        FireLayer::Flames => "flames.png",
        FireLayer::Intensity => "intensity.png",
        FireLayer::Arrival => "arrival.png",
        FireLayer::Hazard => "spread risk.png",
    }
}

/// `n` in decimal, padded with zeros to at least `width` digits.
pub open spec fn padded(n: nat, width: nat) -> Seq<char> {
    let d = decimal(n);
    if d.len() < width {
        Seq::new((width - d.len()) as nat, |i: int| '0') + d
    } else {
        d
    }
}

/// The name `F12` saves its `n`th shot under.
pub fn manual_shot_name(n: u32) -> (r: String)
    ensures
        r@ == "spotorno_"@ + padded(n as nat, 3) + ".png"@,
{
    let d = decimal_string(n as u64);
    let mut s = String::from_str("spotorno_");
    let len = d.unicode_len();
    let mut k: usize = len;
    while k < 3
        invariant
            len == d@.len(),
            len <= k <= 3 || (len > 3 && k == len),
            s@ == "spotorno_"@ + Seq::new((k - len) as nat, |i: int| '0'),
        decreases 3 - k,
    {
        s.append("0");
        proof {
            reveal_strlit("0");
            assert(Seq::new((k + 1 - len) as nat, |i: int| '0') =~= Seq::new(
                (k - len) as nat,
                |i: int| '0',
            ).push('0'));
        }
        k = k + 1;
    }
    s.append(d.as_str());
    s.append(".png");
    proof {
        if len >= 3 {
            assert(Seq::new((k - len) as nat, |i: int| '0') =~= Seq::<char>::empty());
        }
    }
    assert(s@ =~= "spotorno_"@ + padded(n as nat, 3) + ".png"@);
    s
}

/// What the unattended run does this frame.
#[derive(Debug, Clone, Copy, PartialEq, Eq, Structural)]
pub enum ScriptStep {
    /// Run fast until the moment of interest.
    FastForward,
    /// Apply the requested shooting distance, then settle.
    Distance,
    /// Let the renderer settle.
    Settle,
    /// Switch the overlay to this layer, then settle.
    Switch(FireLayer),
    /// Shoot this layer now.
    Shoot(FireLayer),
    /// Every layer is shot: exit.
    Exit,
}

/// The unattended run's progress.
pub struct Script {
    at_sim_s: i64,
    /// Layers still to shoot, the next one last.
    remaining: Vec<FireLayer>,
    settle: u32,
    focus_pending: bool,
    distance_pending: bool,
}

pub struct ScriptView {
    pub at_sim_s: i64,
    pub remaining: Seq<FireLayer>,
    pub settle: u32,
    pub focus_pending: bool,
    pub distance_pending: bool,
}

impl View for Script {
    type V = ScriptView;

    closed spec fn view(&self) -> ScriptView {
        ScriptView {
            at_sim_s: self.at_sim_s,
            remaining: self.remaining@,
            settle: self.settle,
            focus_pending: self.focus_pending,
            distance_pending: self.distance_pending,
        }
    }
}

/// One frame of the run, at simulated second `now` with `layer` on screen:
/// the step, whether to aim the camera at the requested point first, and
/// the progress after.
pub open spec fn script_step(s: ScriptView, now: i64, layer: FireLayer) -> (ScriptStep, bool, ScriptView) {
    if now < s.at_sim_s {
        (ScriptStep::FastForward, false, s)
    } else {
        let focus = s.focus_pending;
        let s1 = ScriptView { focus_pending: false, ..s };
        if s1.distance_pending {
            (ScriptStep::Distance, focus, ScriptView { distance_pending: false, settle: SETTLE_FRAMES, ..s1 })
        } else if s1.settle > 0 {
            (ScriptStep::Settle, focus, ScriptView { settle: (s1.settle - 1) as u32, ..s1 })
        } else if s1.remaining.len() == 0 {
            (ScriptStep::Exit, focus, s1)
        } else if s1.remaining.last() != layer {
            (
                ScriptStep::Switch(s1.remaining.last()),
                focus,
                ScriptView { settle: SETTLE_FRAMES, ..s1 },
            )
        } else {
            (
                ScriptStep::Shoot(s1.remaining.last()),
                focus,
                ScriptView { remaining: s1.remaining.drop_last(), ..s1 },
            )
        }
    }
}

impl Script {
    /// A run that waits until `at_sim_s`, aims and zooms if asked, and shoots
    /// the layers `only` names (all of them when it names none).
    pub fn new(at_sim_s: i64, focus: bool, distance: bool, only: Option<&str>) -> (r: Script)
        ensures
            r@.at_sim_s == at_sim_s,
            r@.remaining == layers_to_shoot(
                match only {
                    Some(o) => Some(o@),
                    None => None,
                },
            ).reverse(),
            r@.settle == SETTLE_FRAMES,
            r@.focus_pending == focus,
            r@.distance_pending == distance,
    {
        let all = FireLayer::all();
        let ghost wanted: Option<Seq<char>> = match only {
            Some(o) => Some(o@),
            None => None,
        };
        let ghost pred = |l: FireLayer| shoots(wanted, l);
        let mut kept: Vec<FireLayer> = Vec::new();
        let mut i: usize = 0;
        while i < 4
            invariant
                all@ == layer_order(),
                i <= 4,
                kept@ == layer_order().take(i as int).filter(pred),
                pred == (|l: FireLayer| shoots(wanted, l)),
                wanted == match only {
                    Some(o) => Some(o@),
                    None => None,
                },
            decreases 4 - i,
        {
            let l = all[i];
            let keep = match only {
                Some(o) => eq_ignore_ascii_case(l.label(), o),
                None => true,
            };
            proof {
                assert(layer_order().take(i + 1) =~= layer_order().take(i as int).push(l));
                layer_order().take(i as int).lemma_filter_push(l, pred);
            }
            if keep {
                kept.push(l);
            }
            i = i + 1;
        }
        assert(layer_order().take(4) =~= layer_order());
        let mut remaining: Vec<FireLayer> = Vec::new();
        let n = kept.len();
        let mut j: usize = n;
        while j > 0
            invariant
                j <= n,
                n == kept@.len(),
                remaining@ == kept@.subrange(j as int, n as int).reverse(),
            decreases j,
        {
            j = j - 1;
            remaining.push(kept[j]);
            proof {
                assert(kept@.subrange(j as int, n as int).reverse() =~= kept@.subrange(
                    j + 1,
                    n as int,
                ).reverse().push(kept@[j as int]));
            }
        }
        assert(kept@.subrange(0, n as int) =~= kept@);
        Script { at_sim_s, remaining, settle: SETTLE_FRAMES, focus_pending: focus, distance_pending: distance }
    }

    /// See [`script_step`]; returns the step and whether to aim first.
    pub fn step(&mut self, now: i64, layer: FireLayer) -> (r: (ScriptStep, bool))
        ensures
            (r.0, r.1, final(self)@) == script_step(old(self)@, now, layer),
    {
        if now < self.at_sim_s {
            return (ScriptStep::FastForward, false);
        }
        let focus = self.focus_pending;
        self.focus_pending = false;
        if self.distance_pending {
            self.distance_pending = false;
            self.settle = SETTLE_FRAMES;
            return (ScriptStep::Distance, focus);
        }
        if self.settle > 0 {
            self.settle = self.settle - 1;
            return (ScriptStep::Settle, focus);
        }
        let n = self.remaining.len();
        if n == 0 {
            return (ScriptStep::Exit, focus);
        }
        let next = self.remaining[n - 1];
        if next != layer {
            self.settle = SETTLE_FRAMES;
            return (ScriptStep::Switch(next), focus);
        }
        self.remaining.pop();
        proof {
            assert(self.remaining@ =~= old(self)@.remaining.drop_last());
        }
        (ScriptStep::Shoot(next), focus)
    }

    /// The shot was handed to the renderer: settle before the next one (and
    /// before exiting, or the last file is lost).
    pub fn shot_taken(&mut self)
        ensures
            final(self)@ == (ScriptView { settle: SETTLE_FRAMES, ..old(self)@ }),
    {
        self.settle = SETTLE_FRAMES;
    }
}

/// The game around an unattended run at simulated second `now`, for
/// `frames` frames: a switch puts that layer on screen, and each shot is
/// followed by [`Script::shot_taken`]. The layers shot, in order, and
/// whether the run exited.
pub open spec fn drive(s: ScriptView, now: i64, layer: FireLayer, frames: nat) -> (Seq<FireLayer>, bool)
    decreases frames,
{
    if frames == 0 {
        (seq![], false)
    } else {
        let (step, _aim, s1) = script_step(s, now, layer);
        match step {
            ScriptStep::Exit => (seq![], true),
            ScriptStep::Switch(l) => drive(s1, now, l, (frames - 1) as nat),
            ScriptStep::Shoot(l) => {
                let rest = drive(ScriptView { settle: SETTLE_FRAMES, ..s1 }, now, layer, (frames - 1) as nat);
                (seq![l] + rest.0, rest.1)
            },
            _ => drive(s1, now, layer, (frames - 1) as nat),
        }
    }
}

pub open spec fn mismatch(s: ScriptView, layer: FireLayer) -> nat {
    if s.remaining.len() > 0 && s.remaining.last() != layer {
        1
    } else {
        0
    }
}

pub open spec fn pending(s: ScriptView) -> nat {
    if s.distance_pending {
        1
    } else {
        0
    }
}

/// The frames an unattended run takes, once its moment has come, to shoot
/// what remains and exit, with `layer` on screen.
pub open spec fn frames_needed(s: ScriptView, layer: FireLayer) -> nat
    decreases s.remaining.len(), mismatch(s, layer), pending(s), s.settle,
{
    let s0 = ScriptView { focus_pending: false, ..s };
    if s.distance_pending {
        1 + frames_needed(ScriptView { distance_pending: false, settle: SETTLE_FRAMES, ..s0 }, layer)
    } else if s.settle > 0 {
        1 + frames_needed(ScriptView { settle: (s.settle - 1) as u32, ..s0 }, layer)
    } else if s.remaining.len() == 0 {
        1
    } else if s.remaining.last() != layer {
        1 + frames_needed(ScriptView { settle: SETTLE_FRAMES, ..s0 }, s.remaining.last())
    } else {
        1 + frames_needed(ScriptView { remaining: s.remaining.drop_last(), settle: SETTLE_FRAMES, ..s0 }, layer)
    }
}

/// Once its moment has come, an unattended run shoots every remaining layer
/// exactly once, the next one first, and then exits.
pub proof fn unattended_run_shoots_each_layer_once(s: ScriptView, now: i64, layer: FireLayer, frames: nat)
    requires
        now >= s.at_sim_s,
        frames >= frames_needed(s, layer),
    ensures
        drive(s, now, layer, frames) == (s.remaining.reverse(), true),
    decreases s.remaining.len(), mismatch(s, layer), pending(s), s.settle,
{
    let s0 = ScriptView { focus_pending: false, ..s };
    assert(frames > 0);
    let f = (frames - 1) as nat;
    if s.distance_pending {
        unattended_run_shoots_each_layer_once(
            ScriptView { distance_pending: false, settle: SETTLE_FRAMES, ..s0 },
            now,
            layer,
            f,
        );
    } else if s.settle > 0 {
        unattended_run_shoots_each_layer_once(ScriptView { settle: (s.settle - 1) as u32, ..s0 }, now, layer, f);
    } else if s.remaining.len() == 0 {
        assert(s.remaining.reverse() =~= Seq::<FireLayer>::empty());
    } else if s.remaining.last() != layer {
        unattended_run_shoots_each_layer_once(ScriptView { settle: SETTLE_FRAMES, ..s0 }, now, s.remaining.last(), f);
    } else {
        let s2 = ScriptView { remaining: s.remaining.drop_last(), settle: SETTLE_FRAMES, ..s0 };
        unattended_run_shoots_each_layer_once(s2, now, layer, f);
        assert(seq![s.remaining.last()] + s.remaining.drop_last().reverse() =~= s.remaining.reverse());
    }
}

/// An upper bound on [`frames_needed`]: a pending zoom and the settle it
/// starts, or else what is left of the current settle; then for each layer a switch, a settle, the shot and
/// the settle after it — less the switch and its settle when the next layer
/// is already on screen — and the frame that exits.
pub open spec fn shot_budget(s: ScriptView, layer: FireLayer) -> int {
    let per_layer = 2 + 2 * SETTLE_FRAMES;
    (if s.distance_pending {
        1 + SETTLE_FRAMES
    } else {
        s.settle as int
    }) + per_layer * s.remaining.len() + 1 - (if s.remaining.len() > 0 && mismatch(s, layer) == 0 {
        1 + SETTLE_FRAMES
    } else {
        0
    })
}

/// An unattended run never takes more frames than its budget: with the four
/// layers and a pending zoom or at most a full settle, 280 frames after its
/// moment.
pub proof fn unattended_run_keeps_to_its_budget(s: ScriptView, layer: FireLayer)
    ensures
        frames_needed(s, layer) <= shot_budget(s, layer),
        s.settle <= SETTLE_FRAMES && s.remaining.len() <= 4 ==> frames_needed(s, layer) <= 280,
    decreases s.remaining.len(), mismatch(s, layer), pending(s), s.settle,
{
    let s0 = ScriptView { focus_pending: false, ..s };
    let n: int = s.remaining.len() as int;
    assert(n <= 4 ==> (2 + 2 * SETTLE_FRAMES) * n <= 248) by (nonlinear_arith)
        requires
            SETTLE_FRAMES == 30,
            n >= 0,
    ;
    if s.distance_pending {
        unattended_run_keeps_to_its_budget(ScriptView { distance_pending: false, settle: SETTLE_FRAMES, ..s0 }, layer);
    } else if s.settle > 0 {
        unattended_run_keeps_to_its_budget(ScriptView { settle: (s.settle - 1) as u32, ..s0 }, layer);
    } else if s.remaining.len() == 0 {
    } else if s.remaining.last() != layer {
        unattended_run_keeps_to_its_budget(ScriptView { settle: SETTLE_FRAMES, ..s0 }, s.remaining.last());
    } else {
        unattended_run_keeps_to_its_budget(
            ScriptView { remaining: s.remaining.drop_last(), settle: SETTLE_FRAMES, ..s0 },
            layer,
        );
        let per_layer: int = 2 + 2 * SETTLE_FRAMES;
        assert(per_layer * n == per_layer * (n - 1) + per_layer) by (nonlinear_arith);
    }
}

} // verus!
