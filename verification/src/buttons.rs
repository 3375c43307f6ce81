//! A simpler polling of the two buttons, without debouncing: an event when a button goes down,
//! while it stays down past ten cycles, and when it comes up.

use crate::input::inc8;
use vstd::prelude::*;

verus! {

/// What the two buttons did in one cycle.
#[derive(Clone, Copy, Debug, PartialEq, Eq, Structural)]
pub enum ButtonEvent {
    BothPressed,
    BothHeld,
    LeftPressed,
    LeftHeld,
    LeftReleased,
    RightPressed,
    RightHeld,
    RightReleased,
}

/// How many cycles each button has been down. The counters wrap around as 8-bit registers do.
#[derive(Clone, Copy, Debug, PartialEq, Eq, Structural)]
pub struct Buttons {
    pub left_held_cycles: u8,
    pub right_held_cycles: u8,
}

/// One polling cycle with the sampled levels (`true`: the button is down): the new counters
/// and the event, if any. Both down: both count, with `BothPressed` on the first cycle of
/// either and `BothHeld` once both passed ten. Else the left button: it counts while down
/// (`LeftPressed` on its first cycle, `LeftHeld` past ten) and reports `LeftReleased` when it
/// comes up. Only when the left button is up and was up the right one is looked at, alike.
pub open spec fn button_step(b: Buttons, left_pressed: bool, right_pressed: bool) -> (
    Buttons,
    Option<ButtonEvent>,
) {
    if left_pressed && right_pressed {
        let l = inc8(b.left_held_cycles);
        let r = inc8(b.right_held_cycles);
        let b1 = Buttons { left_held_cycles: l, right_held_cycles: r };
        if l == 1 || r == 1 {
            (b1, Some(ButtonEvent::BothPressed))
        } else if l > 10 && r > 10 {
            (b1, Some(ButtonEvent::BothHeld))
        } else {
            (b1, None)
        }
    } else if left_pressed {
        let l = inc8(b.left_held_cycles);
        let b1 = Buttons { left_held_cycles: l, ..b };
        if l == 1 {
            (b1, Some(ButtonEvent::LeftPressed))
        } else if l > 10 {
            (b1, Some(ButtonEvent::LeftHeld))
        } else {
            (b1, None)
        }
    } else if b.left_held_cycles > 0 {
        (Buttons { left_held_cycles: 0, ..b }, Some(ButtonEvent::LeftReleased))
    } else if right_pressed {
        let r = inc8(b.right_held_cycles);
        let b1 = Buttons { right_held_cycles: r, ..b };
        if r == 1 {
            (b1, Some(ButtonEvent::RightPressed))
        } else if r > 10 {
            (b1, Some(ButtonEvent::RightHeld))
        } else {
            (b1, None)
        }
    } else if b.right_held_cycles > 0 {
        (Buttons { right_held_cycles: 0, ..b }, Some(ButtonEvent::RightReleased))
    } else {
        (b, None)
    }
}

impl Buttons {
    /// Both buttons up.
    pub fn new() -> (r: Self)
        ensures
            r == (Buttons { left_held_cycles: 0, right_held_cycles: 0 }),
    {
        Buttons { left_held_cycles: 0, right_held_cycles: 0 }
    }

    /// Handles one cycle with the sampled levels (`true`: the button is down).
    pub fn update(&mut self, left_pressed: bool, right_pressed: bool) -> (r: Option<ButtonEvent>)
        ensures
            (*final(self), r) == button_step(*old(self), left_pressed, right_pressed),
    {
        if left_pressed && right_pressed {
            self.left_held_cycles = self.left_held_cycles.wrapping_add(1);
            self.right_held_cycles = self.right_held_cycles.wrapping_add(1);
            if self.left_held_cycles == 1 || self.right_held_cycles == 1 {
                return Some(ButtonEvent::BothPressed);
            } else if self.left_held_cycles > 10 && self.right_held_cycles > 10 {
                return Some(ButtonEvent::BothHeld);
            }
        } else if left_pressed {
            self.left_held_cycles = self.left_held_cycles.wrapping_add(1);
            if self.left_held_cycles == 1 {
                return Some(ButtonEvent::LeftPressed);
            } else if self.left_held_cycles > 10 {
                return Some(ButtonEvent::LeftHeld);
            }
        } else if self.left_held_cycles > 0 {
            self.left_held_cycles = 0;
            return Some(ButtonEvent::LeftReleased);
        } else if right_pressed {
            self.right_held_cycles = self.right_held_cycles.wrapping_add(1);
            if self.right_held_cycles == 1 {
                return Some(ButtonEvent::RightPressed);
            } else if self.right_held_cycles > 10 {
                return Some(ButtonEvent::RightHeld);
            }
        } else if self.right_held_cycles > 0 {
            self.right_held_cycles = 0;
            return Some(ButtonEvent::RightReleased);
        }
        None
    }
}

/// A press held down long enough is reported as held: from both buttons up, a button kept down
/// alone gives `Pressed` on the first cycle, nothing up to the tenth, and `Held` on every cycle
/// from the eleventh on (before the counter wraps); letting go then gives `Released`.
pub proof fn lemma_left_press_hold_release(b: Buttons, n: u8)
    requires
        b.left_held_cycles == 0,
        b.right_held_cycles == 0,
        1 <= n < 255,
    ensures
        ({
            let (b1, e) = button_step(Buttons { left_held_cycles: (n - 1) as u8, ..b }, true, false);
            &&& b1.left_held_cycles == n
            &&& e == if n == 1 {
                Some(ButtonEvent::LeftPressed)
            } else if n > 10 {
                Some(ButtonEvent::LeftHeld)
            } else {
                None
            }
        }),
        button_step(Buttons { left_held_cycles: n, ..b }, false, false) == (
            b,
            Some(ButtonEvent::LeftReleased),
        ),
{
}

} // verus!
