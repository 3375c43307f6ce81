use vstd::prelude::*;

verus! {

/// Cycles a button must be down to count as pressed.
pub const PRESS_CYCLES: u8 = 1;

/// Cycles a button must be down to count as held.
pub const HOLD_CYCLES: u8 = 20;

/// Cycles after a release during which the button is ignored.
pub const DEBOUNCE_CYCLES: u8 = 3;

/// What the two buttons did in one cycle.
#[derive(Clone, Copy, Debug, PartialEq, Eq, Structural)]
pub enum InputEvent {
    BothPressed,
    BothHeld,
    LeftPressed,
    LeftReleased,
    LeftHeld,
    LeftHeldReleased,
    RightPressed,
    RightHeld,
    RightReleased,
    RightHeldReleased,
}

/// The counters of the two buttons: how long each has been down, and how long each is still
/// ignored after a release. Counters wrap around as the device's 8-bit registers do.
#[derive(Clone, Copy, Debug, PartialEq, Eq, Structural)]
pub struct Buttons {
    pub left_held_cycles: u8,
    pub right_held_cycles: u8,
    pub left_debounce_cycles: u8,
    pub right_debounce_cycles: u8,
}

/// `x + 1` on an 8-bit counter.
pub open spec fn inc8(x: u8) -> u8 {
    if x == 255 {
        0
    } else {
        (x + 1) as u8
    }
}

/// The state of a button after its release is handled: no longer down, ignored for
/// `DEBOUNCE_CYCLES` cycles.
pub open spec fn released_event(was_held_cycles: u8, left: bool) -> InputEvent {
    if was_held_cycles >= HOLD_CYCLES {
        if left {
            InputEvent::LeftHeldReleased
        } else {
            InputEvent::RightHeldReleased
        }
    } else {
        if left {
            InputEvent::LeftReleased
        } else {
            InputEvent::RightReleased
        }
    }
}

/// One cycle of the buttons: `left_down`/`right_down` are the sampled pin levels (active low
/// read as "down"). Gives the new counters and the event of the cycle.
pub open spec fn buttons_step(b: Buttons, left_down: bool, right_down: bool) -> (Buttons, Option<
    InputEvent,
>) {
    // debouncing ignores presses
    let left = left_down && b.left_debounce_cycles == 0;
    let right = right_down && b.right_debounce_cycles == 0;
    let ldb = if b.left_debounce_cycles > 0 {
        (b.left_debounce_cycles - 1) as u8
    } else {
        0u8
    };
    let rdb = if b.right_debounce_cycles > 0 {
        (b.right_debounce_cycles - 1) as u8
    } else {
        0u8
    };
    let b1 = Buttons { left_debounce_cycles: ldb, right_debounce_cycles: rdb, ..b };
    // both buttons
    let (b2, both_event) = if left && right {
        let l = inc8(b1.left_held_cycles);
        let r = inc8(b1.right_held_cycles);
        let b2 = Buttons { left_held_cycles: l, right_held_cycles: r, ..b1 };
        if l == 1 || r == 1 {
            (b2, Some(InputEvent::BothPressed))
        } else if l > 10 && r > 10 {
            (b2, Some(InputEvent::BothHeld))
        } else {
            (b2, None)
        }
    } else {
        (b1, None)
    };
    if both_event is Some {
        (b2, both_event)
    } else if left {
        let l = inc8(b2.left_held_cycles);
        let b3 = Buttons { left_held_cycles: l, ..b2 };
        if l == PRESS_CYCLES {
            (b3, Some(InputEvent::LeftPressed))
        } else if l == HOLD_CYCLES {
            (b3, Some(InputEvent::LeftHeld))
        } else {
            right_step(b3, right)
        }
    } else if b2.left_held_cycles > 0 {
        (
            Buttons { left_debounce_cycles: DEBOUNCE_CYCLES, left_held_cycles: 0, ..b2 },
            Some(released_event(b2.left_held_cycles, true)),
        )
    } else {
        right_step(b2, right)
    }
}

/// The right button's part of a cycle, once the left button has reported nothing.
pub open spec fn right_step(b: Buttons, right: bool) -> (Buttons, Option<InputEvent>) {
    if right {
        let r = inc8(b.right_held_cycles);
        let b3 = Buttons { right_held_cycles: r, ..b };
        if r == PRESS_CYCLES {
            (b3, Some(InputEvent::RightPressed))
        } else if r == HOLD_CYCLES {
            (b3, Some(InputEvent::RightHeld))
        } else {
            (b3, None)
        }
    } else if b.right_held_cycles > 0 {
        (
            Buttons { right_debounce_cycles: DEBOUNCE_CYCLES, right_held_cycles: 0, ..b },
            Some(released_event(b.right_held_cycles, false)),
        )
    } else {
        (b, None)
    }
}

impl Buttons {
    /// Both buttons up, nothing ignored.
    pub fn new() -> (r: Self)
        ensures
            r == (Buttons {
                left_held_cycles: 0,
                right_held_cycles: 0,
                left_debounce_cycles: 0,
                right_debounce_cycles: 0,
            }),
    {
        Buttons {
            left_held_cycles: 0,
            right_held_cycles: 0,
            left_debounce_cycles: 0,
            right_debounce_cycles: 0,
        }
    }

    /// Handles one cycle with the sampled button levels (`true` = button down) and gives the
    /// event of the cycle, if any.
    pub fn update(&mut self, left_down: bool, right_down: bool) -> (r: Option<InputEvent>)
        ensures
            (*final(self), r) == buttons_step(*old(self), left_down, right_down),
    {
        let mut left_pressed = left_down;
        let mut right_pressed = right_down;

        // If debouncing is active, ignore presses
        if self.left_debounce_cycles > 0 {
            self.left_debounce_cycles = self.left_debounce_cycles - 1;
            left_pressed = false;
        }
        if self.right_debounce_cycles > 0 {
            self.right_debounce_cycles = self.right_debounce_cycles - 1;
            right_pressed = false;
        }

        // Handle both buttons pressed
        if left_pressed && right_pressed {
            self.left_held_cycles = self.left_held_cycles.wrapping_add(1);
            self.right_held_cycles = self.right_held_cycles.wrapping_add(1);
            if self.left_held_cycles == 1 || self.right_held_cycles == 1 {
                return Some(InputEvent::BothPressed);
            } else if self.left_held_cycles > 10 && self.right_held_cycles > 10 {
                return Some(InputEvent::BothHeld);
            }
        }

        // Handle left button
        if left_pressed {
            self.left_held_cycles = self.left_held_cycles.wrapping_add(1);
            if self.left_held_cycles == PRESS_CYCLES {
                return Some(InputEvent::LeftPressed);
            } else if self.left_held_cycles == HOLD_CYCLES {
                return Some(InputEvent::LeftHeld);
            }
        } else if self.left_held_cycles > 0 {
            let was_held = self.left_held_cycles >= HOLD_CYCLES;
            self.left_debounce_cycles = DEBOUNCE_CYCLES;
            self.left_held_cycles = 0;
            if was_held {
                return Some(InputEvent::LeftHeldReleased);
            } else {
                return Some(InputEvent::LeftReleased);
            }
        }

        // Handle right button
        if right_pressed {
            self.right_held_cycles = self.right_held_cycles.wrapping_add(1);
            if self.right_held_cycles == PRESS_CYCLES {
                return Some(InputEvent::RightPressed);
            } else if self.right_held_cycles == HOLD_CYCLES {
                return Some(InputEvent::RightHeld);
            }
        } else if self.right_held_cycles > 0 {
            let was_held = self.right_held_cycles >= HOLD_CYCLES;
            self.right_debounce_cycles = DEBOUNCE_CYCLES;
            self.right_held_cycles = 0;
            if was_held {
                return Some(InputEvent::RightHeldReleased);
            } else {
                return Some(InputEvent::RightReleased);
            }
        }
        None
    }
}

/// Both buttons up with the right one down for `k` cycles, nothing ignored.
pub open spec fn right_down_for(k: u8) -> Buttons {
    Buttons {
        left_held_cycles: 0,
        right_held_cycles: k,
        left_debounce_cycles: 0,
        right_debounce_cycles: 0,
    }
}

/// Both buttons up with the left one down for `k` cycles, nothing ignored.
pub open spec fn left_down_for(k: u8) -> Buttons {
    Buttons {
        left_held_cycles: k,
        right_held_cycles: 0,
        left_debounce_cycles: 0,
        right_debounce_cycles: 0,
    }
}

/// Holding one button from rest counts its cycles and reports a press on the first and a hold
/// on the `HOLD_CYCLES`-th; letting go after `k` cycles reports a release (a held release from
/// `HOLD_CYCLES` on), once, and ignores the button for `DEBOUNCE_CYCLES` cycles.
pub proof fn lemma_press_and_release(k: u8)
    requires
        1 <= k < 255,
    ensures
        buttons_step(right_down_for((k - 1) as u8), false, true) == (
            right_down_for(k),
            if k == PRESS_CYCLES {
                Some(InputEvent::RightPressed)
            } else if k == HOLD_CYCLES {
                Some(InputEvent::RightHeld)
            } else {
                None
            },
        ),
        buttons_step(left_down_for((k - 1) as u8), true, false) == (
            left_down_for(k),
            if k == PRESS_CYCLES {
                Some(InputEvent::LeftPressed)
            } else if k == HOLD_CYCLES {
                Some(InputEvent::LeftHeld)
            } else {
                None
            },
        ),
        buttons_step(right_down_for(k), false, false) == (
            Buttons { right_debounce_cycles: DEBOUNCE_CYCLES, ..right_down_for(0) },
            Some(
                if k >= HOLD_CYCLES {
                    InputEvent::RightHeldReleased
                } else {
                    InputEvent::RightReleased
                },
            ),
        ),
        buttons_step(left_down_for(k), false, false) == (
            Buttons { left_debounce_cycles: DEBOUNCE_CYCLES, ..left_down_for(0) },
            Some(
                if k >= HOLD_CYCLES {
                    InputEvent::LeftHeldReleased
                } else {
                    InputEvent::LeftReleased
                },
            ),
        ),
{
}

/// Both buttons down for `k` cycles each, nothing ignored.
pub open spec fn both_down_for(k: u8) -> Buttons {
    Buttons {
        left_held_cycles: k,
        right_held_cycles: k,
        left_debounce_cycles: 0,
        right_debounce_cycles: 0,
    }
}

/// The counters and the last event after holding both buttons down for `n` cycles from rest.
pub open spec fn both_down_run(n: nat) -> (Buttons, Option<InputEvent>)
    decreases n,
{
    if n == 0 {
        (both_down_for(0), None)
    } else {
        buttons_step(both_down_run((n - 1) as nat).0, true, true)
    }
}

/// Holding both buttons down from rest reports both pressed on the first cycle, nothing on
/// the second to the sixth, and both held on the seventh and every later cycle (until the
/// 8-bit counters wrap, after 250 cycles). The counters run 1, 3, 5, ..., 11 and then one up
/// per cycle.
pub proof fn lemma_both_held(n: nat)
    requires
        1 <= n <= 250,
    ensures
        both_down_run(n).1 == if n == 1 {
            Some(InputEvent::BothPressed)
        } else if n < 7 {
            None
        } else {
            Some(InputEvent::BothHeld)
        },
        both_down_run(n).0 == both_down_for(
            if n == 1 {
                1u8
            } else if n < 7 {
                (2 * n - 1) as u8
            } else {
                (n + 5) as u8
            },
        ),
    decreases n,
{
    if n > 1 {
        lemma_both_held((n - 1) as nat);
    } else {
        assert(both_down_run(0) == (both_down_for(0), None::<InputEvent>));
    }
}

} // verus!
