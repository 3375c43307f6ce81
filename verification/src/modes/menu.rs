use super::{appended_text, names, spec_mode_name, Action, Context, Peripherals, NUM_MODES};
use crate::input::InputEvent;
use crate::saved_settings::{setting_offset, Setting};
use vstd::prelude::*;

verus! {

/// The menu: a cursor over the modes (never on the menu itself).
pub struct Menu {
    index: u8,
    last_update: u16,
}

/// Where the cursor goes on `event`: left steps back and right steps forward, both wrapping
/// around over the modes 1 to `NUM_MODES - 1`.
pub open spec fn menu_cursor(index: u8, event: Option<InputEvent>) -> u8 {
    match event {
        Some(InputEvent::LeftReleased) => if index == 1 {
            (NUM_MODES - 1) as u8
        } else {
            (index - 1) as u8
        },
        Some(InputEvent::RightReleased) => if index + 1 == NUM_MODES {
            1u8
        } else {
            (index + 1) as u8
        },
        _ => index,
    }
}

impl Menu {
    /// The mode under the cursor.
    pub closed spec fn cursor(&self) -> u8 {
        self.index
    }

    /// The menu count at the last draw.
    pub closed spec fn spec_last_update(&self) -> u16 {
        self.last_update
    }

    #[verifier::type_invariant]
    closed spec fn cursor_on_a_mode(self) -> bool {
        1 <= self.index < NUM_MODES
    }

    /// The cursor on the first mode after the menu; nothing drawn yet.
    pub fn new() -> (r: Self)
        ensures
            r.cursor() == 1,
            r.spec_last_update() == 0,
    {
        Menu { index: 1, last_update: 0 }
    }

    /// The mode under the cursor, never the menu itself.
    pub fn index(&self) -> (r: u8)
        ensures
            r == self.cursor(),
            1 <= r < NUM_MODES,
    {
        proof {
            use_type_invariant(self);
        }
        self.index
    }

    /// One cycle of the menu: moves the cursor on a release, enters the mode under the cursor
    /// when the right button is held, and shows the mode's name when the cursor moved or the
    /// menu was just entered.
    pub fn update(
        &mut self,
        event: Option<InputEvent>,
        context: &mut Context,
        peripherals: &mut Peripherals,
    )
        ensures
            update_post(
                *old(self),
                *final(self),
                event,
                *old(context),
                *final(context),
                *old(peripherals),
                *final(peripherals),
            ),
    {
        proof {
            use_type_invariant(&*self);
        }
        let mut last_update = self.last_update;
        let mut update = context.needs_update(&mut last_update);
        let mut index = self.index;

        match event {
            Some(InputEvent::LeftReleased) => {
                if index == 1 {
                    index = NUM_MODES - 1;
                } else {
                    index = index - 1;
                }
                update = true;
            },
            Some(InputEvent::RightReleased) => {
                index = (index + 1) % NUM_MODES;
                if index == 0 {
                    index = 1;
                }
                update = true;
            },
            Some(InputEvent::RightHeld) => {
                context.to_mode(index);
            },
            _ => {},
        }

        if update {
            let ghost a0 = peripherals.actions@;
            let menu_name = names(index);
            peripherals.actions.push(Action::PrintAscii(menu_name));
            proof {
                assert(peripherals.actions@.subrange(0, a0.len() as int) =~= a0);
            }
        }
        last_update = context.menu_counter;
        *self = Menu { index, last_update };
    }
}


/// A right release then a left release brings the cursor back, and so does a left release then
/// a right release; the cursor never lands on the menu itself.
pub proof fn lemma_menu_cursor_round_trip(index: u8)
    requires
        1 <= index < NUM_MODES,
    ensures
        menu_cursor(
            menu_cursor(index, Some(InputEvent::RightReleased)),
            Some(InputEvent::LeftReleased),
        ) == index,
        menu_cursor(
            menu_cursor(index, Some(InputEvent::LeftReleased)),
            Some(InputEvent::RightReleased),
        ) == index,
        forall|e: Option<InputEvent>| 1 <= #[trigger] menu_cursor(index, e) < NUM_MODES,
{
}

/// One cycle of `Menu::update`: the mode `s0` becomes `s1`, the context `c0` becomes `c1` and
/// the peripherals `p0` become `p1` on `event`.
pub open spec fn update_post(
    s0: Menu,
    s1: Menu,
    event: Option<InputEvent>,
    c0: Context,
    c1: Context,
    p0: Peripherals,
    p1: Peripherals,
) -> bool {
    &&& 1 <= s1.cursor() < NUM_MODES
    &&& s1.cursor() == menu_cursor(s0.cursor(), event)
    &&& s1.spec_last_update() == c0.menu_counter
    &&& event == Some(InputEvent::RightHeld) ==> {
        &&& c1.mode_index == s0.cursor()
        &&& c1.redraw
        &&& c1.settings.cells() == c0.settings.cells().update(
            setting_offset(Setting::LastMode) as int,
            s0.cursor(),
        )
    }
    &&& event != Some(InputEvent::RightHeld) ==> c1 == c0
    &&& c1.menu_counter == c0.menu_counter
    &&& c1.tone_enabled == c0.tone_enabled
    &&& p1.adc == p0.adc
    &&& p1.rng == p0.rng
    &&& if s0.spec_last_update() < c0.menu_counter || event == Some(
        InputEvent::LeftReleased,
    ) || event == Some(InputEvent::RightReleased) {
        appended_text(
            p0.actions@,
            p1.actions@,
            spec_mode_name(menu_cursor(s0.cursor(), event) as nat),
        )
    } else {
        p1.actions@ == p0.actions@
    }
}

} // verus!
