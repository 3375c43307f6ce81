//! The first menu of the badge, over three modes: the nametag, a game and an animation.

use crate::input::InputEvent;
use crate::modes::{Action, Context, Peripherals, NUM_MODES};
use crate::NUM_CHARS;
use vstd::prelude::*;

verus! {

/// A cursor over the modes (never on the menu itself) and the menu count at the last draw.
pub struct Menu {
    pub index: u8,
    pub last_update: u16,
}

/// The name shown for mode `i`.
pub open spec fn entry_name(i: u8) -> Seq<u8> {
    if i == 1 {
        // "Nametag "
        seq![78u8, 97, 109, 101, 116, 97, 103, 32]
    } else if i == 2 {
        // "  Game  "
        seq![32u8, 32, 71, 97, 109, 101, 32, 32]
    } else if i == 3 {
        // "  Anim  "
        seq![32u8, 32, 65, 110, 105, 109, 32, 32]
    } else {
        // "  ????  "
        seq![32u8, 32, 63, 63, 63, 63, 32, 32]
    }
}

/// Where the cursor goes on `event`: left steps back, right steps forward, both wrapping around
/// over the modes 1 to `NUM_MODES - 1`.
pub open spec fn entry_after(index: u8, event: Option<InputEvent>) -> u8 {
    match event {
        Some(InputEvent::LeftReleased) => if index == 1 {
            (NUM_MODES - 1) as u8
        } else {
            (index - 1) as u8
        },
        Some(InputEvent::RightReleased) => if (index + 1) % (NUM_MODES as int) == 0 {
            1u8
        } else {
            ((index + 1) % (NUM_MODES as int)) as u8
        },
        _ => index,
    }
}

impl Menu {
    /// The cursor on the first mode, nothing drawn yet.
    pub fn new() -> (r: Self)
        ensures
            r.index == 1,
            r.last_update == 0,
    {
        Menu { index: 1, last_update: 0 }
    }

    /// One cycle: a release moves the cursor, a held button enters the mode under it, and the
    /// name under the cursor is shown when it moved or the menu count went past the last draw.
    pub fn update(
        &mut self,
        event: Option<InputEvent>,
        context: &mut Context,
        peripherals: &mut Peripherals,
    )
        requires
            1 <= old(self).index < NUM_MODES,
        ensures
            1 <= final(self).index < NUM_MODES,
            final(self).index == entry_after(old(self).index, event),
            final(context).mode_index == if event == Some(InputEvent::LeftHeld) || event == Some(
                InputEvent::RightHeld,
            ) {
                old(self).index
            } else {
                old(context).mode_index
            },
            final(context).menu_counter == old(context).menu_counter,
            final(context).settings == old(context).settings,
            ({
                let drawn = old(self).last_update < old(context).menu_counter || event == Some(
                    InputEvent::LeftReleased,
                ) || event == Some(InputEvent::RightReleased);
                &&& drawn ==> {
                    &&& final(peripherals).actions@.len() == old(peripherals).actions@.len() + 1
                    &&& final(peripherals).actions@.drop_last() == old(peripherals).actions@
                    &&& final(peripherals).actions@.last() matches Action::PrintAscii(b) && b@
                        == entry_name(final(self).index)
                    &&& final(self).last_update == old(context).menu_counter
                }
                &&& !drawn ==> {
                    &&& final(peripherals).actions@ == old(peripherals).actions@
                    &&& final(self).last_update == old(self).last_update
                }
            }),
            final(peripherals).rng == old(peripherals).rng,
    {
        let mut update = self.last_update < context.menu_counter;
        match event {
            Some(InputEvent::LeftReleased) => {
                if self.index == 1 {
                    self.index = NUM_MODES - 1;
                } else {
                    self.index = self.index - 1;
                }
                update = true;
            },
            Some(InputEvent::RightReleased) => {
                self.index = (self.index + 1) % NUM_MODES;
                if self.index == 0 {
                    self.index = 1;
                }
                update = true;
            },
            Some(InputEvent::LeftHeld) | Some(InputEvent::RightHeld) => {
                context.mode_index = self.index;
            },
            _ => {},
        }
        if update {
            let name: [u8; NUM_CHARS] = if self.index == 1 {
                [78u8, 97, 109, 101, 116, 97, 103, 32]
            } else if self.index == 2 {
                [32u8, 32, 71, 97, 109, 101, 32, 32]
            } else if self.index == 3 {
                [32u8, 32, 65, 110, 105, 109, 32, 32]
            } else {
                [32u8, 32, 63, 63, 63, 63, 32, 32]
            };
            assert(name@ =~= entry_name(self.index));
            let ghost a0 = peripherals.actions@;
            peripherals.actions.push(Action::PrintAscii(name));
            assert(peripherals.actions@.drop_last() =~= a0);
            self.last_update = context.menu_counter;
        }
    }
}

} // verus!
