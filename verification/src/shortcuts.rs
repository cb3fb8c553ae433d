//! The global shortcuts: transport, the general evacuation order, the
//! ignition tool, restart, help, and the behaviour composer.
//!
//! Every shortcut waits while a widget takes keystrokes — `e` typed into a
//! search box must not evacuate the town — except `Esc`, which is how one
//! gets out of a state and so works always.
use vstd::prelude::*;
use crate::camera::CameraMode;
use crate::ignition::EditMode;

verus! {

/// The global keys pressed this frame.
#[derive(Debug, Clone, Copy, PartialEq, Eq, Structural)]
pub struct GlobalKeys {
    pub escape: bool,
    /// Space: play or pause.
    pub play: bool,
    /// `]` and `[`: twice and half the speed.
    pub faster: bool,
    pub slower: bool,
    /// `E`: evacuate everyone.
    pub evacuate: bool,
    /// `I`: the ignition tool.
    pub ignition: bool,
    /// `F1`: help.
    pub help: bool,
    /// `R`: restart the incident.
    pub restart: bool,
}

/// The state the global keys change directly.
#[derive(Debug, Clone, Copy, PartialEq, Eq, Structural)]
pub struct Controls {
    pub ignition: EditMode,
    pub camera: CameraMode,
    pub playing: bool,
    pub help_open: bool,
}

/// What the keys ask of the rest of the game.
#[derive(Debug, Clone, Copy, PartialEq, Eq, Structural)]
pub struct Requests {
    pub faster: bool,
    pub slower: bool,
    pub evacuate_all: bool,
    /// The fire tab, because the ignition tool was just armed.
    pub focus_fire: bool,
    pub restart: bool,
}

/// One frame of the global keys.
pub open spec fn controls_after(c: Controls, k: GlobalKeys, typing: bool) -> (Controls, Requests) {
    let c1 = if k.escape {
        Controls { ignition: EditMode::Off, camera: CameraMode::Free, ..c }
    } else {
        c
    };
    if typing {
        (c1, Requests { faster: false, slower: false, evacuate_all: false, focus_fire: false, restart: false })
    } else {
        let ignition = if k.ignition {
            match c1.ignition {
                EditMode::Off => EditMode::Place,
                EditMode::Place => EditMode::Off,
            }
        } else {
            c1.ignition
        };
        (
            Controls {
                ignition,
                playing: if k.play {
                    !c1.playing
                } else {
                    c1.playing
                },
                help_open: if k.help {
                    !c1.help_open
                } else {
                    c1.help_open
                },
                ..c1
            },
            Requests {
                faster: k.faster,
                slower: k.slower,
                evacuate_all: k.evacuate,
                focus_fire: k.ignition && ignition == EditMode::Place,
                restart: k.restart,
            },
        )
    }
}

/// See [`controls_after`].
pub fn global_keys(c: &mut Controls, k: GlobalKeys, typing: bool) -> (r: Requests)
    ensures
        (*final(c), r) == controls_after(*old(c), k, typing),
{
    if k.escape {
        c.ignition = EditMode::Off;
        c.camera = CameraMode::Free;
    }
    if typing {
        return Requests { faster: false, slower: false, evacuate_all: false, focus_fire: false, restart: false };
    }
    if k.play {
        c.playing = !c.playing;
    }
    let mut focus_fire = false;
    if k.ignition {
        c.ignition = match c.ignition {
            EditMode::Off => EditMode::Place,
            EditMode::Place => EditMode::Off,
        };
        focus_fire = c.ignition == EditMode::Place;
    }
    if k.help {
        c.help_open = !c.help_open;
    }
    Requests { faster: k.faster, slower: k.slower, evacuate_all: k.evacuate, focus_fire, restart: k.restart }
}

/// What the `G` key does to the behaviour composer.
#[derive(Debug, Clone, Copy, PartialEq, Eq, Structural)]
pub enum ComposerKey {
    Nothing,
    /// Close it and put its panel away.
    Close,
    /// Open it and bring its tab forward.
    Open,
}

/// `G` closes the composer when it is open on its own tab, and otherwise
/// opens it there; it waits while a widget takes keystrokes and under a
/// chord or shift.
pub open spec fn composer_key_after(typing: bool, chord: bool, shift: bool, pressed: bool, open: bool, on_its_tab: bool) -> ComposerKey {
    if typing || chord || shift || !pressed {
        ComposerKey::Nothing
    } else if open && on_its_tab {
        ComposerKey::Close
    } else {
        ComposerKey::Open
    }
}

/// See [`composer_key_after`].
pub fn composer_key(typing: bool, chord: bool, shift: bool, pressed: bool, open: bool, on_its_tab: bool) -> (r:
    ComposerKey)
    ensures
        r == composer_key_after(typing, chord, shift, pressed, open, on_its_tab),
{
    if typing || chord || shift || !pressed {
        ComposerKey::Nothing
    } else if open && on_its_tab {
        ComposerKey::Close
    } else {
        ComposerKey::Open
    }
}

/// `Esc` always returns to plain orbiting, even while typing; nothing else
/// acts while a widget takes keystrokes.
pub proof fn escape_always_stands_down(c: Controls, k: GlobalKeys)
    requires
        k.escape,
    ensures
        controls_after(c, k, true).0.ignition == EditMode::Off,
        controls_after(c, k, true).0.camera == CameraMode::Free,
        controls_after(c, k, true).0.playing == c.playing,
        controls_after(c, k, true).1 == (Requests {
            faster: false,
            slower: false,
            evacuate_all: false,
            focus_fire: false,
            restart: false,
        }),
{
}

} // verus!
