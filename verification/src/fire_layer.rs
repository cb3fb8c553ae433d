//! Which analytical layer the ground overlay shows. Flames, smoke and embers
//! are always drawn: the layers annotate the fire, they do not replace it.
use vstd::prelude::*;
use crate::text::{eq_ignore_ascii_case, same_ignoring_ascii_case};

verus! {

#[derive(Debug, Clone, Copy, PartialEq, Eq, Structural)]
pub enum FireLayer {
    Flames,
    Intensity,
    Arrival,
    Hazard,
}

impl Default for FireLayer {
    fn default() -> (r: FireLayer)
        ensures
            r == FireLayer::Flames,
    {
        FireLayer::Flames
    }
}

/// The layers in the order the panel, the number keys and the menu list them.
pub open spec fn layer_order() -> Seq<FireLayer> {
    seq![FireLayer::Flames, FireLayer::Intensity, FireLayer::Arrival, FireLayer::Hazard]
}

pub open spec fn layer_label(l: FireLayer) -> Seq<char> {
    match l {
        FireLayer::Flames => "Flames"@,
        FireLayer::Intensity => "Intensity"@,
        FireLayer::Arrival => "Arrival"@,
        FireLayer::Hazard => "Spread risk"@,
    }
}

pub open spec fn layer_legend(l: FireLayer) -> Seq<char> {
    match l {
        FireLayer::Flames => "fresh burn → cooling → scar"@,
        FireLayer::Intensity => "kW/m, log scale: 10 → 10 000"@,
        FireLayer::Arrival => "10-minute isochrones since ignition"@,
        FireLayer::Hazard => "probability the front takes this ground next"@,
    }
}

/// The first layer, in [`layer_order`], whose label `name` spells in any
/// mix of ASCII case.
pub open spec fn layer_named(name: Seq<char>) -> Option<FireLayer> {
    if same_ignoring_ascii_case(layer_label(FireLayer::Flames), name) {
        Some(FireLayer::Flames)
    } else if same_ignoring_ascii_case(layer_label(FireLayer::Intensity), name) {
        Some(FireLayer::Intensity)
    } else if same_ignoring_ascii_case(layer_label(FireLayer::Arrival), name) {
        Some(FireLayer::Arrival)
    } else if same_ignoring_ascii_case(layer_label(FireLayer::Hazard), name) {
        Some(FireLayer::Hazard)
    } else {
        None
    }
}

impl FireLayer {
    /// Every layer, in [`layer_order`].
    pub fn all() -> (r: Vec<FireLayer>)
        ensures
            r@ == layer_order(),
    {
        let r = vec![FireLayer::Flames, FireLayer::Intensity, FireLayer::Arrival, FireLayer::Hazard];
        assert(r@ =~= layer_order());
        r
    }

    pub fn label(self) -> (r: &'static str)
        ensures
            r@ == layer_label(self),
    {
        match self {
            FireLayer::Flames => "Flames",
            FireLayer::Intensity => "Intensity",
            FireLayer::Arrival => "Arrival",
            FireLayer::Hazard => "Spread risk",
        }
    }

    /// What the colours of the layer mean.
    pub fn legend(self) -> (r: &'static str)
        ensures
            r@ == layer_legend(self),
    {
        match self {
            FireLayer::Flames => "fresh burn → cooling → scar",
            FireLayer::Intensity => "kW/m, log scale: 10 → 10 000",
            FireLayer::Arrival => "10-minute isochrones since ignition",
            FireLayer::Hazard => "probability the front takes this ground next",
        }
    }

    /// See [`layer_named`].
    pub fn named(name: &str) -> (r: Option<FireLayer>)
        ensures
            r == layer_named(name@),
    {
        if eq_ignore_ascii_case(FireLayer::Flames.label(), name) {
            Some(FireLayer::Flames)
        } else if eq_ignore_ascii_case(FireLayer::Intensity.label(), name) {
            Some(FireLayer::Intensity)
        } else if eq_ignore_ascii_case(FireLayer::Arrival.label(), name) {
            Some(FireLayer::Arrival)
        } else if eq_ignore_ascii_case(FireLayer::Hazard.label(), name) {
            Some(FireLayer::Hazard)
        } else {
            None
        }
    }
}

/// The number keys `1` to `4` pick the layers in order; when several are
/// pressed in one frame the highest wins.
pub open spec fn after_number_keys(current: FireLayer, one: bool, two: bool, three: bool, four: bool) -> FireLayer {
    if four {
        FireLayer::Hazard
    } else if three {
        FireLayer::Arrival
    } else if two {
        FireLayer::Intensity
    } else if one {
        FireLayer::Flames
    } else {
        current
    }
}

/// See [`after_number_keys`].
pub fn number_keys(current: FireLayer, one: bool, two: bool, three: bool, four: bool) -> (r: FireLayer)
    ensures
        r == after_number_keys(current, one, two, three, four),
{
    let mut layer = current;
    if one {
        layer = FireLayer::Flames;
    }
    if two {
        layer = FireLayer::Intensity;
    }
    if three {
        layer = FireLayer::Arrival;
    }
    if four {
        layer = FireLayer::Hazard;
    }
    layer
}

/// A layer's label names it back: looking a layer up by its own label, in
/// any ASCII case, finds that layer.
pub proof fn labels_name_their_layer(l: FireLayer, name: Seq<char>)
    requires
        same_ignoring_ascii_case(layer_label(l), name),
    ensures
        layer_named(name) == Some(l),
{
    reveal_strlit("Flames");
    reveal_strlit("Intensity");
    reveal_strlit("Arrival");
    reveal_strlit("Spread risk");
    assert(layer_label(FireLayer::Flames).len() == 6);
    assert(layer_label(FireLayer::Intensity).len() == 9);
    assert(layer_label(FireLayer::Arrival).len() == 7);
    assert(layer_label(FireLayer::Hazard).len() == 11);
}

} // verus!
