//! The navigation decisions shared by the orbit scene and the north-up map:
//! which keys count as a chord, who owns a drag, and what the camera is
//! following.
use vstd::prelude::*;
use crate::inspect::Target;

verus! {

/// The keys navigation asks about by name; every other key is `Other`.
#[derive(Debug, Clone, Copy, PartialEq, Eq, Structural)]
pub enum Key {
    ShiftLeft,
    ShiftRight,
    ControlLeft,
    ControlRight,
    SuperLeft,
    SuperRight,
    AltLeft,
    AltRight,
    Other,
}

fn holds_key(pressed: &Vec<Key>, key: Key) -> (r: bool)
    ensures
        r == pressed@.contains(key),
{
    let n = pressed.len();
    let mut i: usize = 0;
    while i < n
        invariant
            n == pressed@.len(),
            i <= n,
            forall|j: int| 0 <= j < i ==> pressed@[j] != key,
        decreases n - i,
    {
        if pressed[i] == key {
            assert(pressed@[i as int] == key);
            return true;
        }
        i = i + 1;
    }
    false
}

/// Either shift key is down.
pub open spec fn shifted(pressed: Seq<Key>) -> bool {
    pressed.contains(Key::ShiftLeft) || pressed.contains(Key::ShiftRight)
}

/// A platform or editing chord is being held: control, super or alt, on
/// either side of the keyboard.
pub open spec fn chorded(pressed: Seq<Key>) -> bool {
    pressed.contains(Key::ControlLeft) || pressed.contains(Key::ControlRight)
        || pressed.contains(Key::SuperLeft) || pressed.contains(Key::SuperRight)
        || pressed.contains(Key::AltLeft) || pressed.contains(Key::AltRight)
}

/// See [`shifted`]; `pressed` is every key held down.
pub fn shift(pressed: &Vec<Key>) -> (r: bool)
    ensures
        r == shifted(pressed@),
{
    holds_key(pressed, Key::ShiftLeft) || holds_key(pressed, Key::ShiftRight)
}

/// See [`chorded`]: such a chord never falls through to a single-key game
/// action.
pub fn modified(pressed: &Vec<Key>) -> (r: bool)
    ensures
        r == chorded(pressed@),
{
    holds_key(pressed, Key::ControlLeft) || holds_key(pressed, Key::ControlRight) || holds_key(
        pressed,
        Key::SuperLeft,
    ) || holds_key(pressed, Key::SuperRight) || holds_key(pressed, Key::AltLeft) || holds_key(
        pressed,
        Key::AltRight,
    )
}

/// Keyboard navigation is live only in a focused window, while no widget is
/// taking keystrokes and no chord is held.
pub fn keyboard_navigation(active: bool, typing: bool, pressed: &Vec<Key>) -> (r: bool)
    ensures
        r == (active && !typing && !chorded(pressed@)),
{
    active && !typing && !modified(pressed)
}

/// How the main view is drawn.
#[derive(Debug, Clone, Copy, PartialEq, Eq, Structural)]
pub enum Renderer {
    Map2d,
    Scene3d,
}

pub open spec fn hint_words(r: Renderer) -> Seq<char> {
    match r {
        Renderer::Map2d => "2D · north up · drag pan · scroll/+− zoom · arrows pan · V 3D"@,
        Renderer::Scene3d => "3D · drag orbit · Shift/right/middle-drag pan · scroll/+− zoom · V 2D"@,
    }
}

/// The one-line reminder of how to move around in this view.
pub fn navigation_hint(r: Renderer) -> (s: &'static str)
    ensures
        s@ == hint_words(r),
{
    match r {
        Renderer::Map2d => "2D · north up · drag pan · scroll/+− zoom · arrows pan · V 3D",
        Renderer::Scene3d => "3D · drag orbit · Shift/right/middle-drag pan · scroll/+− zoom · V 2D",
    }
}

/// What the main camera is doing: orbiting freely, keeping its focus on a
/// moving target, or riding along with one.
#[derive(Debug, Clone, Copy, PartialEq, Eq, Structural)]
pub enum CameraMode {
    Free,
    Follow(Target),
    FirstPerson(Target),
}

impl Default for CameraMode {
    fn default() -> (r: CameraMode)
        ensures
            r == CameraMode::Free,
    {
        CameraMode::Free
    }
}

impl CameraMode {
    /// The target the camera is tied to, if any.
    pub open spec fn tied_to(self) -> Option<Target> {
        match self {
            CameraMode::Free => None,
            CameraMode::Follow(t) => Some(t),
            CameraMode::FirstPerson(t) => Some(t),
        }
    }

    /// A mode whose target no longer resolves to a position (it arrived, was
    /// evacuated, or the run restarted) falls back to `Free`;
    /// `target_resolves` says whether it still does.
    pub fn validated(self, target_resolves: bool) -> (r: CameraMode)
        ensures
            r == (if self.tied_to().is_some() && !target_resolves {
                CameraMode::Free
            } else {
                self
            }),
    {
        match self {
            CameraMode::Free => self,
            _ => if target_resolves {
                self
            } else {
                CameraMode::Free
            },
        }
    }

    /// The inspector's follow button: following this target stops, anything
    /// else starts following it.
    pub fn toggle_follow(self, target: Target) -> (r: CameraMode)
        ensures
            r == (if self == CameraMode::Follow(target) {
                CameraMode::Free
            } else {
                CameraMode::Follow(target)
            }),
    {
        if self == CameraMode::Follow(target) {
            CameraMode::Free
        } else {
            CameraMode::Follow(target)
        }
    }

    /// The inspector's first-person button, the same way round.
    pub fn toggle_first_person(self, target: Target) -> (r: CameraMode)
        ensures
            r == (if self == CameraMode::FirstPerson(target) {
                CameraMode::Free
            } else {
                CameraMode::FirstPerson(target)
            }),
    {
        if self == CameraMode::FirstPerson(target) {
            CameraMode::Free
        } else {
            CameraMode::FirstPerson(target)
        }
    }

    /// The north-up map has no first person: riding along there becomes
    /// following.
    pub fn for_renderer(self, renderer: Renderer) -> (r: CameraMode)
        ensures
            r == (match self {
                CameraMode::FirstPerson(t) => if renderer == Renderer::Map2d {
                    CameraMode::Follow(t)
                } else {
                    self
                },
                _ => self,
            }),
    {
        match self {
            CameraMode::FirstPerson(t) => if renderer == Renderer::Map2d {
                CameraMode::Follow(t)
            } else {
                self
            },
            _ => self,
        }
    }

    /// Panning by hand lets go of whatever the camera was following.
    pub fn after_pan(self, panned: bool) -> (r: CameraMode)
        ensures
            r == (if panned {
                CameraMode::Free
            } else {
                self
            }),
    {
        if panned {
            CameraMode::Free
        } else {
            self
        }
    }
}

/// A mouse button navigation listens to.
#[derive(Debug, Clone, Copy, PartialEq, Eq, Structural)]
pub enum Button {
    Left,
    Right,
    Middle,
}

/// Which buttons' drags belong to the map: a drag belongs to the surface
/// where the button went down, even once the cursor crosses a panel.
#[derive(Debug, Clone, Copy, PartialEq, Eq, Structural)]
pub struct DragOwner {
    pub left: bool,
    pub right: bool,
    pub middle: bool,
}

pub open spec fn owns(d: DragOwner, b: Button) -> bool {
    match b {
        Button::Left => d.left,
        Button::Right => d.right,
        Button::Middle => d.middle,
    }
}

pub open spec fn with_owner(d: DragOwner, b: Button, owned: bool) -> DragOwner {
    match b {
        Button::Left => DragOwner { left: owned, ..d },
        Button::Right => DragOwner { right: owned, ..d },
        Button::Middle => DragOwner { middle: owned, ..d },
    }
}

/// Ownership of `b`'s drag after one frame: lost once the button is up or
/// the window loses focus, and decided afresh on the frame it goes down —
/// the map takes it when the pointer is over the map, and a left drag only
/// when no tool has claimed left-click.
pub open spec fn owner_after(
    d: DragOwner,
    b: Button,
    pressed: bool,
    just_pressed: bool,
    active: bool,
    map_pointer: bool,
    left_free: bool,
) -> DragOwner {
    let kept = if !pressed || !active {
        false
    } else {
        owns(d, b)
    };
    let owned = if just_pressed {
        map_pointer && (b != Button::Left || left_free)
    } else {
        kept
    };
    with_owner(d, b, owned)
}

impl DragOwner {
    pub fn new() -> (r: DragOwner)
        ensures
            !r.left && !r.right && !r.middle,
    {
        DragOwner { left: false, right: false, middle: false }
    }

    /// See [`owner_after`].
    pub fn update(
        &mut self,
        b: Button,
        pressed: bool,
        just_pressed: bool,
        active: bool,
        map_pointer: bool,
        left_free: bool,
    )
        ensures
            *final(self) == owner_after(
                *old(self),
                b,
                pressed,
                just_pressed,
                active,
                map_pointer,
                left_free,
            ),
    {
        let mut owned = match b {
            Button::Left => self.left,
            Button::Right => self.right,
            Button::Middle => self.middle,
        };
        if !pressed || !active {
            owned = false;
        }
        if just_pressed {
            owned = map_pointer && (b != Button::Left || left_free);
        }
        match b {
            Button::Left => self.left = owned,
            Button::Right => self.right = owned,
            Button::Middle => self.middle = owned,
        }
    }
}

/// Left-drag steers the camera unless a placement tool or an armed order
/// owns left-click.
pub fn left_free(placing: bool, order_armed: bool) -> (r: bool)
    ensures
        r == (!placing && !order_armed),
{
    !placing && !order_armed
}

} // verus!
