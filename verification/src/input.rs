//! Edge-triggered keyboard state.
//!
//! The host polls the raw "is this key down" state once per frame; this
//! module diffs it against the previous frame to tell a fresh press
//! (edge-triggered) from a key that is merely held.

use vstd::prelude::*;

verus! {

/// Per-key state machine, updated once per frame from the raw polled state.
#[derive(Clone, Copy, Debug, PartialEq, Eq, Structural)]
pub enum KeyState {
    /// Up this frame and up last frame.
    NotPressed,
    /// Down this frame, up last frame: a fresh press.
    JustPressed,
    /// Down this frame and down last frame.
    Held,
    /// Up this frame, down last frame.
    JustReleased,
}

impl KeyState {
    /// The key is down this frame (freshly or held).
    pub open spec fn spec_pressed(self) -> bool {
        self is JustPressed || self is Held
    }

    /// The key went down this very frame.
    pub open spec fn spec_just_pressed(self) -> bool {
        self is JustPressed
    }

    /// State after one frame in which the raw polled state is `down`.
    pub open spec fn spec_step(self, down: bool) -> KeyState {
        if down {
            if self.spec_pressed() {
                KeyState::Held
            } else {
                KeyState::JustPressed
            }
        } else {
            if self.spec_pressed() {
                KeyState::JustReleased
            } else {
                KeyState::NotPressed
            }
        }
    }

    pub fn pressed(&self) -> (r: bool)
        ensures
            r == self.spec_pressed(),
    {
        match self {
            KeyState::JustPressed => true,
            KeyState::Held => true,
            _ => false,
        }
    }

    pub fn just_pressed(&self) -> (r: bool)
        ensures
            r == self.spec_just_pressed(),
    {
        match self {
            KeyState::JustPressed => true,
            _ => false,
        }
    }

    /// Advance the per-key state machine by one frame.
    pub fn step(self, down: bool) -> (r: KeyState)
        ensures
            r == self.spec_step(down),
    {
        if down {
            if self.pressed() {
                KeyState::Held
            } else {
                KeyState::JustPressed
            }
        } else {
            if self.pressed() {
                KeyState::JustReleased
            } else {
                KeyState::NotPressed
            }
        }
    }
}

/// Raw polled key state for one frame: true where the key is down.
#[derive(Clone, Copy, Debug, PartialEq, Eq, Structural)]
pub struct KeySnapshot {
    pub a: bool,
    pub d: bool,
    pub w: bool,
    pub s: bool,
    pub e: bool,
    pub q: bool,
}

/// Edge-aware state of the six recognized keys: four movement keys
/// (A, D, W, S) and the two rotation triggers (E clockwise, Q
/// counter-clockwise).
#[derive(Clone, Copy, Debug, PartialEq, Eq, Structural)]
pub struct KeyboardState {
    pub a: KeyState,
    pub d: KeyState,
    pub w: KeyState,
    pub s: KeyState,
    pub e: KeyState,
    pub q: KeyState,
}

impl KeyboardState {
    /// All keys start up.
    pub fn new() -> (r: KeyboardState)
        ensures
            r.a == KeyState::NotPressed,
            r.d == KeyState::NotPressed,
            r.w == KeyState::NotPressed,
            r.s == KeyState::NotPressed,
            r.e == KeyState::NotPressed,
            r.q == KeyState::NotPressed,
    {
        KeyboardState {
            a: KeyState::NotPressed,
            d: KeyState::NotPressed,
            w: KeyState::NotPressed,
            s: KeyState::NotPressed,
            e: KeyState::NotPressed,
            q: KeyState::NotPressed,
        }
    }

    /// Fold one frame's raw snapshot into the per-key state machines.
    pub fn update(&mut self, snap: KeySnapshot)
        ensures
            final(self).a == old(self).a.spec_step(snap.a),
            final(self).d == old(self).d.spec_step(snap.d),
            final(self).w == old(self).w.spec_step(snap.w),
            final(self).s == old(self).s.spec_step(snap.s),
            final(self).e == old(self).e.spec_step(snap.e),
            final(self).q == old(self).q.spec_step(snap.q),
    {
        self.a = self.a.step(snap.a);
        self.d = self.d.step(snap.d);
        self.w = self.w.step(snap.w);
        self.s = self.s.step(snap.s);
        self.e = self.e.step(snap.e);
        self.q = self.q.step(snap.q);
    }
}

} // verus!
