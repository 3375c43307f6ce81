use super::{Action, Context, Peripherals};
use crate::input::InputEvent;
use vstd::prelude::*;

verus! {

/// A game still to come: it only says so.
pub struct Game {
    pub last_update: u16,
}

/// "TO IMPL", the text the game shows.
pub open spec fn placeholder_text() -> Seq<u8> {
    seq![84u8, 79, 32, 73, 77, 80, 76]
}

impl Game {
    /// Nothing shown yet.
    pub fn new() -> (r: Self)
        ensures
            r.last_update == 0,
    {
        Game { last_update: 0 }
    }

    /// One cycle: a held left button goes back to the menu; otherwise, when the menu was left
    /// since the last draw, the text is shown again.
    pub fn update(
        &mut self,
        event: Option<InputEvent>,
        context: &mut Context,
        peripherals: &mut Peripherals,
    )
        ensures
            event == Some(InputEvent::LeftHeld) ==> {
                &&& final(context).mode_index == 0
                &&& final(context).menu_counter == old(context).menu_counter.wrapping_add(1)
                &&& *final(self) == *old(self)
                &&& final(peripherals).actions@ == old(peripherals).actions@
            },
            event != Some(InputEvent::LeftHeld) ==> {
                &&& *final(context) == *old(context)
                &&& final(self).last_update == if old(self).last_update < old(context).menu_counter {
                    old(context).menu_counter
                } else {
                    old(self).last_update
                }
                &&& if old(self).last_update < old(context).menu_counter {
                    &&& final(peripherals).actions@.len() == old(peripherals).actions@.len() + 1
                    &&& final(peripherals).actions@.drop_last() == old(peripherals).actions@
                    &&& final(peripherals).actions@.last() matches Action::PrintBytes(b)
                        && b@ == placeholder_text()
                } else {
                    final(peripherals).actions@ == old(peripherals).actions@
                }
            },
            final(peripherals).adc == old(peripherals).adc,
            final(peripherals).adc_sample == old(peripherals).adc_sample,
            final(peripherals).rng == old(peripherals).rng,
            final(peripherals).i2c == old(peripherals).i2c,
    {
        if let Some(InputEvent::LeftHeld) = event {
            context.to_menu();
            return;
        }
        if self.last_update < context.menu_counter {
            self.last_update = context.menu_counter;
            let text: Vec<u8> = vec![84u8, 79, 32, 73, 77, 80, 76];
            let ghost a0 = peripherals.actions@;
            peripherals.actions.push(Action::PrintBytes(text));
            assert(peripherals.actions@.drop_last() =~= a0);
        }
    }
}

} // verus!
