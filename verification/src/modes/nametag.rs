use super::{appended_text, show_text, Context, Peripherals};
use crate::input::InputEvent;
use crate::saved_settings::{setting_offset, SavedSettings, Setting, EEPROM_SIZE};
use crate::NUM_CHARS;
use vstd::prelude::*;

verus! {

/// Cycles the edit cursor stays shown in a blink period.
pub const BLINK_PERIOD_ON: u8 = 1;

/// Length of a blink period, in cycles.
pub const BLINK_PERIOD: u8 = 20;

/// What stands at the edit cursor while it is shown: '_'.
pub const BLINK_CHAR: u8 = 95;

/// Cycles without an event after which editing stops.
pub const MAX_IDLE_CYCLES: u8 = 200;

/// The nametag: shows the saved name, and edits it one character at a time.
pub struct Nametag {
    pub name: [u8; NUM_CHARS],
    /// None = not editing, Some(i) = editing character i
    pub edit_index: Option<u8>,
    pub blink_counter: u8,
    pub idle_counter: u8,
    pub settings_dirty: bool,
}

/// ASCII letter or digit.
pub open spec fn is_alnum(c: u8) -> bool {
    (48 <= c <= 57) || (65 <= c <= 90) || (97 <= c <= 122)
}

/// A character a name may hold: a space, a letter or a digit.
pub open spec fn is_name_char(c: u8) -> bool {
    c == 32 || is_alnum(c)
}

/// The character after (`forward`) or before `c` in the cycle
/// ' ', 'A'..'Z', 'a'..'z', '0'..'9', ' '; any other byte becomes a space.
pub open spec fn spec_adjust_char(c: u8, forward: bool) -> u8 {
    if forward {
        if c == 32 {
            65
        } else if c == 90 {
            97
        } else if c == 122 {
            48
        } else if c == 57 {
            32
        } else if is_alnum(c) {
            (c + 1) as u8
        } else {
            32
        }
    } else {
        if c == 32 {
            57
        } else if c == 97 {
            90
        } else if c == 65 {
            32
        } else if c == 48 {
            122
        } else if is_alnum(c) {
            (c - 1) as u8
        } else {
            32
        }
    }
}

/// Eight characters, each a space, a letter or a digit.
pub open spec fn valid_name(name: Seq<u8>) -> bool {
    name.len() == NUM_CHARS && forall|i: int| 0 <= i < NUM_CHARS ==> is_name_char(#[trigger] name[i])
}

/// The name shown for the EEPROM contents `cells`: the saved name when it is valid, else the
/// default name.
pub open spec fn shown_name(cells: Seq<u8>) -> Seq<u8> {
    let saved = cells.subrange(
        setting_offset(Setting::Name) as int,
        setting_offset(Setting::Name) + NUM_CHARS,
    );
    if valid_name(saved) {
        saved
    } else {
        default_name()
    }
}

/// " NONIK0 "
pub open spec fn default_name() -> Seq<u8> {
    seq![32u8, 78, 79, 78, 73, 75, 48, 32]
}

/// `name` with the cursor character at `index` when the blink shows it.
pub open spec fn edit_view(name: Seq<u8>, index: nat, blink_counter: u8) -> Seq<u8> {
    if blink_counter < BLINK_PERIOD_ON {
        name.update(index as int, BLINK_CHAR)
    } else {
        name
    }
}

/// The name after one edit event on the character at `index`: left steps it back, right steps
/// it forward.
pub open spec fn edited_name(name: Seq<u8>, index: nat, event: Option<InputEvent>) -> Seq<u8> {
    match event {
        Some(InputEvent::LeftReleased) => name.update(
            index as int,
            spec_adjust_char(name[index as int], false),
        ),
        Some(InputEvent::RightReleased) => name.update(
            index as int,
            spec_adjust_char(name[index as int], true),
        ),
        _ => name,
    }
}

/// Where the edit cursor goes on an event: holding left moves it left (or ends editing at the
/// first character), holding right moves it right (or ends editing after the last one).
pub open spec fn edited_index(index: u8, event: Option<InputEvent>) -> Option<u8> {
    match event {
        Some(InputEvent::LeftHeld) => if index == 0 {
            None
        } else {
            Some((index - 1) as u8)
        },
        Some(InputEvent::RightHeld) => if index + 1 >= NUM_CHARS {
            None
        } else {
            Some((index + 1) as u8)
        },
        _ => Some(index),
    }
}

impl Nametag {
    /// The counters and the cursor are in range.
    pub open spec fn inv(&self) -> bool {
        &&& valid_name(self.name@)
        &&& self.idle_counter < MAX_IDLE_CYCLES
        &&& self.blink_counter < BLINK_PERIOD
        &&& self.edit_index matches Some(i) ==> (i as nat) < NUM_CHARS
    }

    /// Starts showing the saved name, or " NONIK0 " when the saved bytes hold anything but
    /// spaces, letters and digits.
    pub fn new_with_settings(settings: &SavedSettings) -> (r: Self)
        ensures
            r.inv(),
            r.edit_index is None,
            !r.settings_dirty,
            r.name@ == shown_name(settings.cells()),
    {
        let mut name_buf = [0u8; NUM_CHARS];
        settings.read_setting(Setting::Name, &mut name_buf);
        let ghost saved = name_buf@;
        let mut i: usize = 0;
        let mut all_ok = true;
        while i < NUM_CHARS
            invariant
                i <= NUM_CHARS,
                name_buf@ == saved,
                saved.len() == NUM_CHARS,
                all_ok == (forall|t: int| 0 <= t < i ==> is_name_char(saved[t])),
            decreases NUM_CHARS - i,
        {
            let byte = name_buf[i];
            let ok = byte == 32 || (48 <= byte && byte <= 57) || (65 <= byte && byte <= 90) || (97
                <= byte && byte <= 122);
            if !ok {
                all_ok = false;
            }
            i = i + 1;
        }
        if !all_ok {
            name_buf = [32u8, 78, 79, 78, 73, 75, 48, 32];
            assert(name_buf@ =~= default_name());
        }
        Nametag {
            name: name_buf,
            edit_index: None,
            blink_counter: 0,
            idle_counter: 0,
            settings_dirty: false,
        }
    }

    /// The character after (`forward`) or before `c` in the name alphabet.
    pub fn adjust_char(&self, c: u8, forward: bool) -> (r: u8)
        ensures
            r == spec_adjust_char(c, forward),
    {
        let alnum = (48 <= c && c <= 57) || (65 <= c && c <= 90) || (97 <= c && c <= 122);
        if forward {
            if c == 32 {
                65
            } else if c == 90 {
                97
            } else if c == 122 {
                48
            } else if c == 57 {
                32
            } else if alnum {
                c + 1
            } else {
                32
            }
        } else {
            if c == 32 {
                57
            } else if c == 97 {
                90
            } else if c == 65 {
                32
            } else if c == 48 {
                122
            } else if alnum {
                c - 1
            } else {
                32
            }
        }
    }

    /// The character after `c` in the name alphabet.
    pub fn next_char(&self, c: u8) -> (r: u8)
        ensures
            r == spec_adjust_char(c, true),
    {
        self.adjust_char(c, true)
    }

    /// The character before `c` in the name alphabet.
    pub fn prev_char(&self, c: u8) -> (r: u8)
        ensures
            r == spec_adjust_char(c, false),
    {
        self.adjust_char(c, false)
    }

    /// Starts editing at the first character.
    pub fn start_editing(&mut self)
        ensures
            final(self).edit_index == Some(0u8),
            final(self).blink_counter == 0,
            final(self).idle_counter == 0,
            final(self).name == old(self).name,
            final(self).settings_dirty == old(self).settings_dirty,
    {
        self.edit_index = Some(0);
        self.blink_counter = 0;
        self.idle_counter = 0;
    }

    /// Stops editing.
    pub fn stop_editing(&mut self)
        ensures
            final(self).edit_index is None,
            final(self).idle_counter == 0,
            final(self).blink_counter == old(self).blink_counter,
            final(self).name == old(self).name,
            final(self).settings_dirty == old(self).settings_dirty,
    {
        self.edit_index = None;
        self.idle_counter = 0;
    }

    /// One cycle of the nametag.
    ///
    /// Showing: holding left saves the name (when it was edited) and goes back to the menu;
    /// holding right starts editing at the first character.
    ///
    /// Editing: the cursor blinks; releases step the character under the cursor back (left) or
    /// forward (right); holds move the cursor, and moving it past either end, or 200 cycles
    /// without an event, ends editing. The name is shown, with the cursor while the blink shows
    /// it, on a change and at each blink edge.
    pub fn update(
        &mut self,
        event: Option<InputEvent>,
        context: &mut Context,
        peripherals: &mut Peripherals,
    )
        requires
            old(self).inv(),
        ensures
            update_post(
                *old(self),
                *final(self),
                event,
                *old(context),
                *final(context),
                *old(peripherals),
                *final(peripherals),
            ),
    {
        let mut update = context.need_update();

        if let Some(edit_index) = self.edit_index {
            let edit_index = edit_index as usize;
            self.blink_counter = (self.blink_counter + 1) % BLINK_PERIOD;
            self.idle_counter = self.idle_counter + 1;
            if self.idle_counter >= MAX_IDLE_CYCLES {
                self.stop_editing();
            }
            if let Some(e) = event {
                self.idle_counter = 0;
                match e {
                    InputEvent::LeftReleased => {
                        let c = self.prev_char(self.name[edit_index]);
                        self.name[edit_index] = c;
                        self.settings_dirty = true;
                        update = true;
                    },
                    InputEvent::RightReleased => {
                        let c = self.next_char(self.name[edit_index]);
                        self.name[edit_index] = c;
                        self.settings_dirty = true;
                        update = true;
                    },
                    InputEvent::LeftHeld => {
                        if edit_index == 0 {
                            self.stop_editing();
                        } else {
                            self.edit_index = Some((edit_index - 1) as u8);
                        }
                    },
                    InputEvent::RightHeld => {
                        if edit_index + 1 >= NUM_CHARS {
                            self.stop_editing();
                        } else {
                            self.edit_index = Some((edit_index + 1) as u8);
                        }
                    },
                    _ => {},
                }
            }
            // Only update display on change or blink
            if update || self.blink_counter == 0 || self.blink_counter == BLINK_PERIOD_ON {
                let mut buf = self.name;
                if self.blink_counter < BLINK_PERIOD_ON {
                    buf[edit_index] = BLINK_CHAR;
                }
                show_text(&mut peripherals.actions, buf);
                return ;
            }
        } else if let Some(e) = event {
            match e {
                InputEvent::LeftHeld => {
                    if self.settings_dirty {
                        let name = self.name;
                        context.settings.save_setting(Setting::Name, &name);
                    }
                    context.to_menu();
                    return ;
                },
                InputEvent::RightHeld => {
                    self.start_editing();
                },
                _ => {},
            }
        }
        if update {
            show_text(&mut peripherals.actions, self.name);
        }
    }
}

/// Stepping a character of the name alphabet forward and then back gives it back, and so does
/// stepping it back and then forward.
pub proof fn lemma_adjust_char_round_trip(c: u8)
    requires
        is_name_char(c),
    ensures
        spec_adjust_char(spec_adjust_char(c, true), false) == c,
        spec_adjust_char(spec_adjust_char(c, false), true) == c,
        is_name_char(spec_adjust_char(c, true)),
        is_name_char(spec_adjust_char(c, false)),
{
}

/// The name is kept: a valid name written over the name bytes of the EEPROM (as leaving an
/// edited nametag does) is the name a nametag shows when it starts from those contents.
pub proof fn lemma_name_persists(cells: Seq<u8>, name: Seq<u8>)
    requires
        cells.len() == EEPROM_SIZE,
        valid_name(name),
    ensures
        shown_name(
            cells.subrange(0, setting_offset(Setting::Name) as int) + name + cells.subrange(
                setting_offset(Setting::Name) + NUM_CHARS,
                EEPROM_SIZE as int,
            ),
        ) == name,
{
    let written = cells.subrange(0, setting_offset(Setting::Name) as int) + name + cells.subrange(
        setting_offset(Setting::Name) + NUM_CHARS,
        EEPROM_SIZE as int,
    );
    assert(written.subrange(
        setting_offset(Setting::Name) as int,
        setting_offset(Setting::Name) + NUM_CHARS,
    ) =~= name);
}

/// One cycle of `Nametag::update`: the mode `s0` becomes `s1`, the context `c0` becomes `c1` and
/// the peripherals `p0` become `p1` on `event`.
pub open spec fn update_post(
    s0: Nametag,
    s1: Nametag,
    event: Option<InputEvent>,
    c0: Context,
    c1: Context,
    p0: Peripherals,
    p1: Peripherals,
) -> bool {
    &&& s1.inv()
    &&& p1.adc == p0.adc
    &&& p1.rng == p0.rng
    &&& c1.tone_enabled == c0.tone_enabled
    &&& !c1.redraw || c1.mode_index == 0
    &&& match s0.edit_index {
        Some(i) => {
            let blink = ((s0.blink_counter + 1) % (BLINK_PERIOD as int)) as u8;
            let timed_out = s0.idle_counter + 1 >= MAX_IDLE_CYCLES;
            let name = edited_name(s0.name@, i as nat, event);
            let changed = event == Some(InputEvent::LeftReleased) || event == Some(
                InputEvent::RightReleased,
            );
            let draw = c0.redraw || changed || blink == 0 || blink
                == BLINK_PERIOD_ON;
            &&& s1.name@ == name
            &&& s1.blink_counter == blink
            &&& s1.settings_dirty == (s0.settings_dirty || changed)
            &&& s1.edit_index == if event == Some(InputEvent::LeftHeld) || event
                == Some(InputEvent::RightHeld) {
                edited_index(i, event)
            } else if timed_out {
                None
            } else {
                Some(i)
            }
            &&& s1.idle_counter == if event is Some || timed_out {
                0
            } else {
                (s0.idle_counter + 1) as u8
            }
            &&& c1.mode_index == c0.mode_index
            &&& c1.menu_counter == c0.menu_counter
            &&& c1.settings == c0.settings
            &&& if draw {
                appended_text(
                    p0.actions@,
                    p1.actions@,
                    edit_view(name, i as nat, blink),
                )
            } else {
                p1.actions@ == p0.actions@
            }
        },
        None => {
            if event == Some(InputEvent::LeftHeld) {
                &&& s1.name == s0.name
                &&& s1.edit_index is None
                &&& c1.mode_index == 0
                &&& c1.menu_counter == c0.menu_counter.wrapping_add(
                    1,
                )
                &&& c1.settings.cells() == if s0.settings_dirty {
                    c0.settings.cells().subrange(
                        0,
                        setting_offset(Setting::Name) as int,
                    ) + s0.name@ + c0.settings.cells().subrange(
                        setting_offset(Setting::Name) + NUM_CHARS,
                        EEPROM_SIZE as int,
                    )
                } else {
                    c0.settings.cells()
                }
                &&& p1.actions@ == p0.actions@
            } else {
                &&& s1.name == s0.name
                &&& s1.settings_dirty == s0.settings_dirty
                &&& s1.edit_index == if event == Some(InputEvent::RightHeld) {
                    Some(0u8)
                } else {
                    None
                }
                &&& c1.mode_index == c0.mode_index
                &&& c1.menu_counter == c0.menu_counter
                &&& c1.settings == c0.settings
                &&& if c0.redraw {
                    appended_text(
                        p0.actions@,
                        p1.actions@,
                        s0.name@,
                    )
                } else {
                    p1.actions@ == p0.actions@
                }
            }
        },
    }
}

/// Stepping through the name characters: forward, every letter or digit but the last of its
/// run ('Z', 'z', '9') gives the next byte, and a space, 'Z', 'z' and '9' go on to 'A', 'a', '0'
/// and a space; backward, every letter or digit but the first of its run ('A', 'a', '0') gives
/// the byte before, and the runs join the same way in reverse. Either step undoes the other on
/// every name character.
pub proof fn lemma_char_cycle(c: u8)
    ensures
        (48 <= c <= 56 || 65 <= c <= 89 || 97 <= c <= 121) ==> spec_adjust_char(c, true) == c + 1,
        (49 <= c <= 57 || 66 <= c <= 90 || 98 <= c <= 122) ==> spec_adjust_char(c, false) == c - 1,
        spec_adjust_char(32, true) == 65 && spec_adjust_char(90, true) == 97 && spec_adjust_char(
            122,
            true,
        ) == 48 && spec_adjust_char(57, true) == 32,
        spec_adjust_char(65, false) == 32 && spec_adjust_char(97, false) == 90 && spec_adjust_char(
            48,
            false,
        ) == 122 && spec_adjust_char(32, false) == 57,
        (c == 32 || 48 <= c <= 57 || 65 <= c <= 90 || 97 <= c <= 122) ==> {
            &&& spec_adjust_char(spec_adjust_char(c, true), false) == c
            &&& spec_adjust_char(spec_adjust_char(c, false), true) == c
        },
{
}

} // verus!
