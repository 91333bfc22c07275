use vstd::prelude::*;

verus! {

/// Keyboard and mouse state at one instant: the keys held down (by key
/// code), the mouse position and a bit mask of the pressed mouse buttons.
#[derive(Clone, Debug)]
pub struct InputState {
    pub keys: Vec<u32>,
    pub mouse_x: i32,
    pub mouse_y: i32,
    pub mouse_buttons: u32,
}

impl InputState {
    /// The state with nothing pressed and the pointer at the origin.
    pub fn empty() -> (s: InputState)
        ensures
            s.keys@ =~= Seq::<u32>::empty(),
            s.mouse_x == 0,
            s.mouse_y == 0,
            s.mouse_buttons == 0,
    {
        InputState { keys: Vec::new(), mouse_x: 0, mouse_y: 0, mouse_buttons: 0 }
    }

    /// Whether `key` is held down in this state.
    pub fn is_key_down(&self, key: u32) -> (down: bool)
        ensures
            down == self.keys@.contains(key),
    {
        let mut i: usize = 0;
        while i < self.keys.len()
            invariant
                i <= self.keys@.len(),
                forall|j: int| 0 <= j < i ==> self.keys@[j] != key,
            decreases self.keys@.len() - i,
        {
            if self.keys[i] == key {
                return true;
            }
            i = i + 1;
        }
        false
    }
}

/// The per-frame input snapshot: the state rebuilt at the end of the
/// current frame and the state of the frame before it, so consumers can
/// detect presses and releases without touching the event source.
#[derive(Clone, Debug)]
pub struct Input {
    pub current: InputState,
    pub previous: InputState,
}

impl Input {
    /// Both snapshots empty, as at engine start.
    pub fn new() -> (r: Input)
        ensures
            r.current.keys@ =~= Seq::<u32>::empty(),
            r.previous.keys@ =~= Seq::<u32>::empty(),
            r.current.mouse_buttons == 0,
            r.previous.mouse_buttons == 0,
    {
        Input { current: InputState::empty(), previous: InputState::empty() }
    }

    /// Installs the snapshot rebuilt at the end of a frame: the old current
    /// state becomes the previous one.
    pub fn set_snapshot(&mut self, snapshot: InputState)
        ensures
            final(self).previous == old(self).current,
            final(self).current == snapshot,
    {
        core::mem::swap(&mut self.previous, &mut self.current);
        self.current = snapshot;
    }
}

} // verus!
