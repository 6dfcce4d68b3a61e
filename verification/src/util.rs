//! Edge detection on the state of a key.

use vstd::prelude::*;

verus! {

/// A key and whether it was down when last looked at.
#[derive(Clone, Copy, Debug)]
pub struct KeyState(pub i32, pub bool);

impl KeyState {
    /// Starts watching the key `vkey`, which is down or not as `state` says.
    pub fn new(vkey: i32, state: bool) -> (key: KeyState)
        ensures
            key.0 == vkey,
            key.1 == state,
    {
        KeyState(vkey, state)
    }

    /// Whether the key has gone up since it was last looked at, `state`
    /// being whether it is down now.
    pub fn keyup(&mut self, state: bool) -> (released: bool)
        ensures
            released == (old(self).1 && !state),
            final(self).0 == old(self).0,
            final(self).1 == state,
    {
        let (prev_state, state) = self.update(state);
        prev_state && !state
    }

    /// Whether the key has gone down since it was last looked at, `state`
    /// being whether it is down now.
    pub fn keydown(&mut self, state: bool) -> (pressed: bool)
        ensures
            pressed == (!old(self).1 && state),
            final(self).0 == old(self).0,
            final(self).1 == state,
    {
        let (prev_state, state) = self.update(state);
        !prev_state && state
    }

    /// Records `state` and returns it behind the state recorded before.
    pub fn update(&mut self, state: bool) -> (states: (bool, bool))
        ensures
            states == (old(self).1, state),
            final(self).0 == old(self).0,
            final(self).1 == state,
    {
        let prev_state = self.1;
        self.1 = state;
        (prev_state, state)
    }
}

} // verus!
