//! Input: which keys are held, and which of the two views is shown.

use vstd::prelude::*;

verus! {

/// A key that the engine listens to.
#[derive(Clone, Copy, Debug, PartialEq, Eq, Structural)]
pub enum Key {
    RotateLeft,
    RotateRight,
    Forward,
    Backward,
    ToggleView,
}

/// What happened to a key.
#[derive(Clone, Copy, Debug, PartialEq, Eq, Structural)]
pub enum KeyAction {
    Press,
    Release,
}

/// One key going down or up.
#[derive(Clone, Copy, Debug, PartialEq, Eq, Structural)]
pub struct KeyEvent {
    pub key: Key,
    pub action: KeyAction,
}

/// The keys that are held, one flag for each of the four movements, and the
/// view: `view_mode` is true for the first-person view, false for the
/// landscape view.
#[derive(Clone, Copy, Debug, PartialEq, Eq, Structural)]
pub struct Input {
    pub rot_left: bool,
    pub rot_right: bool,
    pub forward: bool,
    pub backward: bool,
    pub view_mode: bool,
}

impl Input {
    /// No key held, landscape view.
    pub open spec fn idle() -> Input {
        Input {
            rot_left: false,
            rot_right: false,
            forward: false,
            backward: false,
            view_mode: false,
        }
    }

    /// The input after one event. A movement key is held from its press to
    /// its release. Each press of the view key turns to the other view; its
    /// release does nothing.
    pub open spec fn after(self, event: KeyEvent) -> Input {
        let held = event.action == KeyAction::Press;
        match event.key {
            Key::RotateLeft => Input { rot_left: held, ..self },
            Key::RotateRight => Input { rot_right: held, ..self },
            Key::Forward => Input { forward: held, ..self },
            Key::Backward => Input { backward: held, ..self },
            Key::ToggleView => if held {
                Input { view_mode: !self.view_mode, ..self }
            } else {
                self
            },
        }
    }

    /// The input after a run of events, taken in order.
    pub open spec fn after_all(self, events: Seq<KeyEvent>) -> Input
        decreases events.len(),
    {
        if events.len() == 0 {
            self
        } else {
            self.after_all(events.drop_last()).after(events.last())
        }
    }

    /// The four movement flags in the order turn left, turn right, forward,
    /// backward.
    pub open spec fn keys_spec(self) -> Seq<bool> {
        seq![self.rot_left, self.rot_right, self.forward, self.backward]
    }

    /// No key held, landscape view.
    pub fn new() -> (input: Input)
        ensures
            input == Input::idle(),
    {
        Input {
            rot_left: false,
            rot_right: false,
            forward: false,
            backward: false,
            view_mode: false,
        }
    }

    /// Takes in one event.
    pub fn apply(&mut self, event: KeyEvent)
        ensures
            *final(self) == old(self).after(event),
    {
        let held: bool = match event.action {
            KeyAction::Press => true,
            KeyAction::Release => false,
        };
        match event.key {
            Key::RotateLeft => {
                self.rot_left = held;
            },
            Key::RotateRight => {
                self.rot_right = held;
            },
            Key::Forward => {
                self.forward = held;
            },
            Key::Backward => {
                self.backward = held;
            },
            Key::ToggleView => {
                if held {
                    self.view_mode = !self.view_mode;
                }
            },
        }
    }

    /// Takes in the events that came since the last frame, in order.
    pub fn drain(&mut self, events: &Vec<KeyEvent>)
        ensures
            *final(self) == old(self).after_all(events@),
    {
        let mut taken: usize = 0;
        while taken < events.len()
            invariant
                taken <= events@.len(),
                *self == old(self).after_all(events@.take(taken as int)),
            decreases events@.len() - taken,
        {
            proof {
                assert(events@.take(taken + 1).drop_last() == events@.take(taken as int));
            }
            self.apply(events[taken]);
            taken = taken + 1;
        }
        proof {
            assert(events@.take(taken as int) == events@);
        }
    }

    /// The four movement flags in the order turn left, turn right, forward,
    /// backward.
    pub fn keys(&self) -> (keys: [bool; 4])
        ensures
            keys@ == self.keys_spec(),
    {
        [self.rot_left, self.rot_right, self.forward, self.backward]
    }
}

} // verus!
