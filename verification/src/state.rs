//! The shared state record maintained by the dispatch loop: cursor and focus
//! flags, drawable size, last mouse position and the buttons currently held.
//! Its invariant: a button appears at most once in the held list.

use vstd::prelude::*;

use crate::event::Button;

verus! {

/// A button appears at most once.
pub open spec fn no_dups(s: Seq<Button>) -> bool {
    forall|i: int, j: int| 0 <= i < j < s.len() ==> s[i] != s[j]
}

/// The mathematical model of the shared state.
#[verifier::ext_equal]
pub struct StateModel {
    pub is_cursor_on: bool,
    pub is_window_focus: bool,
    pub screen_width: u32,
    pub screen_height: u32,
    pub mouse_x: u64,
    pub mouse_y: u64,
    pub button_held: Seq<Button>,
}

impl StateModel {
    /// Well-formedness: the held list never contains duplicates.
    pub open spec fn wf(self) -> bool {
        no_dups(self.button_held)
    }
}

/// Transient UI state shared between the dispatch loop and the application
/// handler. Mutated only by the loop, in response to input events.
pub struct Data {
    /// True while the pointer is within the window bounds.
    pub is_cursor_on: bool,
    /// True while the window has input focus.
    pub is_window_focus: bool,
    /// Current drawable width; updated on resize events.
    pub screen_width: u32,
    /// Current drawable height; updated on resize events.
    pub screen_height: u32,
    /// Last known cursor x position, as an opaque coordinate payload.
    pub mouse_x: u64,
    /// Last known cursor y position, as an opaque coordinate payload.
    pub mouse_y: u64,
    /// The buttons currently held down, each at most once, in press order.
    pub button_held: Vec<Button>,
}

impl View for Data {
    type V = StateModel;

    open spec fn view(&self) -> StateModel {
        StateModel {
            is_cursor_on: self.is_cursor_on,
            is_window_focus: self.is_window_focus,
            screen_width: self.screen_width,
            screen_height: self.screen_height,
            mouse_x: self.mouse_x,
            mouse_y: self.mouse_y,
            button_held: self.button_held@,
        }
    }
}

impl Data {
    /// Fresh state for a window of the given drawable size: cursor out,
    /// unfocused, mouse at the origin, nothing held.
    pub fn new(screen_width: u32, screen_height: u32) -> (data: Data)
        ensures
            !data.is_cursor_on,
            !data.is_window_focus,
            data.screen_width == screen_width,
            data.screen_height == screen_height,
            data.mouse_x == 0,
            data.mouse_y == 0,
            data.button_held@ == Seq::<Button>::empty(),
            data@.wf(),
    {
        Data {
            is_cursor_on: false,
            is_window_focus: false,
            screen_width,
            screen_height,
            mouse_x: 0,
            mouse_y: 0,
            button_held: Vec::new(),
        }
    }

    /// Whether `b` is currently held.
    pub fn is_held(&self, b: Button) -> (r: bool)
        ensures
            r == self.button_held@.contains(b),
    {
        let mut i: usize = 0;
        while i < self.button_held.len()
            invariant
                i <= self.button_held@.len(),
                forall|j: int| 0 <= j < i ==> self.button_held@[j] != b,
            decreases self.button_held@.len() - i,
        {
            if self.button_held[i] == b {
                assert(self.button_held@.contains(b)) by {
                    assert(self.button_held@[i as int] == b);
                }
                return true;
            }
            i += 1;
        }
        false
    }

    /// Index of the first occurrence of a held button.
    pub fn held_position(&self, b: Button) -> (i: usize)
        requires
            self.button_held@.contains(b),
        ensures
            i < self.button_held@.len(),
            self.button_held@[i as int] == b,
            forall|j: int| 0 <= j < i ==> self.button_held@[j] != b,
    {
        let mut i: usize = 0;
        while i < self.button_held.len()
            invariant
                i <= self.button_held@.len(),
                forall|j: int| 0 <= j < i ==> self.button_held@[j] != b,
            decreases self.button_held@.len() - i,
        {
            if self.button_held[i] == b {
                return i;
            }
            i += 1;
        }
        proof {
            let w = choose|k: int| 0 <= k < self.button_held@.len() && self.button_held@[k] == b;
            assert(false);
        }
        0
    }
}

} // verus!
