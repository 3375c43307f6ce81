use super::{appended_text, show_text, Action, Context, PeakCurrent, Peripherals};
use crate::input::InputEvent;
use crate::saved_settings::{setting_offset, SavedSettings, Setting as EepromSetting, EEPROM_SIZE};
use crate::utils::{format_buf, format_uint, spec_format_buf, spec_format_uint};
use crate::NUM_CHARS;
use vstd::prelude::*;

verus! {

/// Brightness when none is saved.
pub const BRIGHTNESS_DEFAULT: u8 = 12;

/// Brightness levels (0..16).
pub const BRIGHTNESS_MAX: u8 = 16;

/// Peak-current levels (0..4).
pub const CURRENT_MAX: u8 = 4;

/// Peak-current level when none is saved.
pub const CURRENT_DEFAULT: u8 = 1;

/// The page of the settings mode.
#[derive(Clone, Copy, Debug, PartialEq, Eq, Structural)]
pub enum Setting {
    Brightness,
    Current,
    /// the flag itself is held in the context
    ToneToggle,
}

/// The settings mode: display brightness, display peak current, button tone.
pub struct Settings {
    pub cur_setting: Setting,
    pub brightness: u8,
    pub current: u8,
}

/// Peak current (in mA, rounded) of each level.
pub open spec fn current_level_ma(c: u8) -> u16 {
    if c == 0 {
        4
    } else if c == 1 {
        6
    } else if c == 2 {
        9
    } else {
        13
    }
}

/// The display peak current of each level; 3 and above are the highest.
pub open spec fn spec_current_into(value: u8) -> PeakCurrent {
    if value == 0 {
        PeakCurrent::Max4_0Ma
    } else if value == 1 {
        PeakCurrent::Max6_4Ma
    } else if value == 2 {
        PeakCurrent::Max9_3Ma
    } else {
        PeakCurrent::Max12_8Ma
    }
}

/// "Brite:"
pub open spec fn brite_label() -> Seq<u8> {
    seq![66u8, 114, 105, 116, 101, 58]
}

/// "Cur:"
pub open spec fn cur_label() -> Seq<u8> {
    seq![67u8, 117, 114, 58]
}

/// "mA"
pub open spec fn ma_label() -> Seq<u8> {
    seq![109u8, 65]
}

/// "Tone:"
pub open spec fn tone_label() -> Seq<u8> {
    seq![84u8, 111, 110, 101, 58]
}

/// "On" or "Off"
pub open spec fn on_off(on: bool) -> Seq<u8> {
    if on {
        seq![79u8, 110]
    } else {
        seq![79u8, 102, 102]
    }
}

/// What the settings mode shows on `page`.
pub open spec fn settings_text(page: Setting, brightness: u8, current: u8, tone: bool) -> Seq<u8> {
    match page {
        Setting::Brightness => spec_format_uint(
            NUM_CHARS as nat,
            brite_label(),
            brightness as nat,
            0,
            Seq::empty(),
        ),
        Setting::Current => spec_format_uint(
            NUM_CHARS as nat,
            cur_label(),
            current_level_ma(current) as nat,
            0,
            ma_label(),
        ),
        Setting::ToneToggle => spec_format_buf(NUM_CHARS as nat, tone_label(), on_off(tone)),
    }
}

/// The next page, wrapping around.
pub open spec fn next_page(page: Setting) -> Setting {
    match page {
        Setting::Brightness => Setting::Current,
        Setting::Current => Setting::ToneToggle,
        Setting::ToneToggle => Setting::Brightness,
    }
}

/// A level one up (`inc`) or one down, wrapping around within `0..max`.
pub open spec fn step_level(level: u8, max: u8, inc: bool) -> u8 {
    if inc {
        ((level + 1) % (max as int)) as u8
    } else {
        ((level + max - 1) % (max as int)) as u8
    }
}

/// The EEPROM after the settings mode is left: each value that differs from the saved one is
/// written (the tone flag as 1 or 0).
pub open spec fn saved_on_exit(cells: Seq<u8>, brightness: u8, current: u8, tone: bool) -> Seq<u8> {
    let b = setting_offset(EepromSetting::Brightness) as int;
    let c = setting_offset(EepromSetting::Current) as int;
    let t = setting_offset(EepromSetting::Tone) as int;
    let c1 = if cells[b] != brightness {
        cells.update(b, brightness)
    } else {
        cells
    };
    let c2 = if c1[c] != current {
        c1.update(c, current)
    } else {
        c1
    };
    if (c2[t] != 0) != tone {
        c2.update(t, if tone { 1u8 } else { 0u8 })
    } else {
        c2
    }
}

impl Settings {
    /// The values are valid levels.
    pub open spec fn inv(&self) -> bool {
        &&& self.brightness < BRIGHTNESS_MAX
        &&& self.current < CURRENT_MAX
    }

    /// Starts on the brightness page with the saved brightness and current, or the defaults
    /// when the saved bytes are no valid levels.
    pub fn new_with_settings(settings: &SavedSettings) -> (r: Self)
        ensures
            r.inv(),
            r.cur_setting == Setting::Brightness,
            r.brightness == if settings.cells()[setting_offset(EepromSetting::Brightness) as int]
                < BRIGHTNESS_MAX {
                settings.cells()[setting_offset(EepromSetting::Brightness) as int]
            } else {
                BRIGHTNESS_DEFAULT
            },
            r.current == if settings.cells()[setting_offset(EepromSetting::Current) as int]
                < CURRENT_MAX {
                settings.cells()[setting_offset(EepromSetting::Current) as int]
            } else {
                CURRENT_DEFAULT
            },
    {
        let mut saved_brightness = settings.read_setting_byte(EepromSetting::Brightness);
        let mut saved_current = settings.read_setting_byte(EepromSetting::Current);
        if saved_brightness >= BRIGHTNESS_MAX {
            saved_brightness = BRIGHTNESS_DEFAULT;
        }
        if saved_current >= CURRENT_MAX {
            saved_current = CURRENT_DEFAULT;
        }
        Settings {
            cur_setting: Setting::Brightness,
            brightness: saved_brightness,
            current: saved_current,
        }
    }

    /// The display peak current of a level.
    pub fn current_into(value: u8) -> (r: PeakCurrent)
        ensures
            r == spec_current_into(value),
    {
        match value {
            0 => PeakCurrent::Max4_0Ma,
            1 => PeakCurrent::Max6_4Ma,
            2 => PeakCurrent::Max9_3Ma,
            _ => PeakCurrent::Max12_8Ma,
        }
    }

    /// Sends the brightness and the peak current to the display.
    pub fn apply(&self, actions: &mut Vec<Action>)
        ensures
            final(actions)@ == old(actions)@ + seq![
                Action::SetBrightness(self.brightness),
                Action::SetPeakCurrent(spec_current_into(self.current)),
            ],
    {
        let ghost a0 = actions@;
        actions.push(Action::SetBrightness(self.brightness));
        actions.push(Action::SetPeakCurrent(Self::current_into(self.current)));
        assert(actions@ =~= a0 + seq![
            Action::SetBrightness(self.brightness),
            Action::SetPeakCurrent(spec_current_into(self.current)),
        ]);
    }

    /// The text of the current page.
    fn format_page(&self, tone_enabled: bool) -> (r: [u8; NUM_CHARS])
        requires
            self.inv(),
        ensures
            r@ == settings_text(self.cur_setting, self.brightness, self.current, tone_enabled),
    {
        let mut buffer = [0u8; NUM_CHARS];
        match self.cur_setting {
            Setting::Brightness => {
                // "Brite:"
                let label: [u8; 6] = [66u8, 114, 105, 116, 101, 58];
                assert(label@ =~= brite_label());
                format_uint(&mut buffer, &label, self.brightness as u16, 0, None);
            },
            Setting::Current => {
                // "Cur:"
                let label: [u8; 4] = [67u8, 117, 114, 58];
                // "mA"
                let unit: [u8; 2] = [109u8, 65];
                assert(label@ =~= cur_label());
                assert(unit@ =~= ma_label());
                let level: u16 = if self.current == 0 {
                    4
                } else if self.current == 1 {
                    6
                } else if self.current == 2 {
                    9
                } else {
                    13
                };
                format_uint(&mut buffer, &label, level, 0, Some(&unit));
            },
            Setting::ToneToggle => {
                // "Tone:"
                let label: [u8; 5] = [84u8, 111, 110, 101, 58];
                assert(label@ =~= tone_label());
                if tone_enabled {
                    let on: [u8; 2] = [79u8, 110];
                    assert(on@ =~= on_off(true));
                    format_buf(&mut buffer, &label, &on);
                } else {
                    let off: [u8; 3] = [79u8, 102, 102];
                    assert(off@ =~= on_off(false));
                    format_buf(&mut buffer, &label, &off);
                }
            },
        }
        buffer
    }

    /// One cycle of the settings mode. Holding left saves what changed and goes back to the
    /// menu; holding right turns the page; a release steps the value of the page down (left) or
    /// up (right), wrapping around, and sends it to the display (or toggles the button tone).
    /// The page is shown after any event, or when the mode was just entered.
    pub fn update(
        &mut self,
        event: Option<InputEvent>,
        context: &mut Context,
        peripherals: &mut Peripherals,
    )
        requires
            old(self).inv(),
        ensures
            update_post(
                *old(self),
                *final(self),
                event,
                *old(context),
                *final(context),
                *old(peripherals),
                *final(peripherals),
            ),
    {
        let update = event.is_some() || context.need_update();
        let ghost a0 = peripherals.actions@;

        match event {
            Some(InputEvent::LeftHeld) => {
                // Save settings if changed
                if self.brightness != context.settings.read_setting_byte(
                    EepromSetting::Brightness,
                ) {
                    context.settings.save_setting_byte(EepromSetting::Brightness, self.brightness);
                }
                if self.current != context.settings.read_setting_byte(EepromSetting::Current) {
                    context.settings.save_setting_byte(EepromSetting::Current, self.current);
                }
                if context.tone_enabled != context.settings.read_setting_bool(EepromSetting::Tone) {
                    let tone = context.tone_enabled;
                    context.settings.save_setting_bool(EepromSetting::Tone, tone);
                }
                context.to_menu();
                return ;
            },
            Some(InputEvent::RightHeld) => {
                self.cur_setting = match self.cur_setting {
                    Setting::Brightness => Setting::Current,
                    Setting::Current => Setting::ToneToggle,
                    Setting::ToneToggle => Setting::Brightness,
                };
            },
            Some(InputEvent::LeftReleased) | Some(InputEvent::RightReleased) => {
                let inc = event == Some(InputEvent::RightReleased);
                match self.cur_setting {
                    Setting::Brightness => {
                        self.brightness = if inc {
                            (self.brightness + 1) % BRIGHTNESS_MAX
                        } else {
                            (self.brightness + BRIGHTNESS_MAX - 1) % BRIGHTNESS_MAX
                        };
                        peripherals.actions.push(Action::SetBrightness(self.brightness));
                        assert(peripherals.actions@ =~= a0 + seq![
                            Action::SetBrightness(self.brightness),
                        ]);
                    },
                    Setting::Current => {
                        self.current = if inc {
                            (self.current + 1) % CURRENT_MAX
                        } else {
                            (self.current + CURRENT_MAX - 1) % CURRENT_MAX
                        };
                        peripherals.actions.push(
                            Action::SetPeakCurrent(Self::current_into(self.current)),
                        );
                        assert(peripherals.actions@ =~= a0 + seq![
                            Action::SetPeakCurrent(spec_current_into(self.current)),
                        ]);
                    },
                    Setting::ToneToggle => {
                        context.tone_enabled = !context.tone_enabled;
                    },
                }
            },
            _ => {},
        }
        assert(a0 + seq![] =~= a0);

        if update {
            let buffer = self.format_page(context.tone_enabled);
            show_text(&mut peripherals.actions, buffer);
        }
    }
}

/// Stepping a level up and then down (or down and then up) gives it back, and the level stays
/// below `max`.
pub proof fn lemma_step_level_round_trip(level: u8, max: u8)
    requires
        level < max,
    ensures
        step_level(step_level(level, max, true), max, false) == level,
        step_level(step_level(level, max, false), max, true) == level,
        step_level(level, max, true) < max,
        step_level(level, max, false) < max,
{
    let m = max as int;
    let l = level as int;
    if l + 1 < m {
        vstd::arithmetic::div_mod::lemma_small_mod((l + 1) as nat, m as nat);
        vstd::arithmetic::div_mod::lemma_mod_add_multiples_vanish(l, m);
        vstd::arithmetic::div_mod::lemma_small_mod(l as nat, m as nat);
        assert(l + 1 + m - 1 == m + l);
    } else {
        assert(l + 1 == m);
        vstd::arithmetic::div_mod::lemma_mod_self_0(m);
        vstd::arithmetic::div_mod::lemma_small_mod((m - 1) as nat, m as nat);
    }
    if l > 0 {
        vstd::arithmetic::div_mod::lemma_mod_add_multiples_vanish(l - 1, m);
        vstd::arithmetic::div_mod::lemma_small_mod((l - 1) as nat, m as nat);
        vstd::arithmetic::div_mod::lemma_small_mod(l as nat, m as nat);
        assert(l + m - 1 == m + (l - 1));
    } else {
        vstd::arithmetic::div_mod::lemma_small_mod((m - 1) as nat, m as nat);
        vstd::arithmetic::div_mod::lemma_mod_self_0(m);
    }
}

/// The display settings are kept: after leaving the settings mode with a valid brightness and
/// current and a tone flag, a settings mode started from the saved bytes has that brightness and
/// current, and a context started from them has that tone flag.
pub proof fn lemma_settings_persist(cells: Seq<u8>, brightness: u8, current: u8, tone: bool)
    requires
        cells.len() == EEPROM_SIZE,
        brightness < BRIGHTNESS_MAX,
        current < CURRENT_MAX,
    ensures
        ({
            let saved = saved_on_exit(cells, brightness, current, tone);
            let b = saved[setting_offset(EepromSetting::Brightness) as int];
            let c = saved[setting_offset(EepromSetting::Current) as int];
            &&& saved.len() == EEPROM_SIZE
            &&& (if b < BRIGHTNESS_MAX {
                b
            } else {
                BRIGHTNESS_DEFAULT
            }) == brightness
            &&& (if c < CURRENT_MAX {
                c
            } else {
                CURRENT_DEFAULT
            }) == current
            &&& (saved[setting_offset(EepromSetting::Tone) as int] != 0) == tone
        }),
{
}

/// One cycle of `Settings::update`: the mode `s0` becomes `s1`, the context `c0` becomes `c1` and
/// the peripherals `p0` become `p1` on `event`.
pub open spec fn update_post(
    s0: Settings,
    s1: Settings,
    event: Option<InputEvent>,
    c0: Context,
    c1: Context,
    p0: Peripherals,
    p1: Peripherals,
) -> bool {
    &&& s1.inv()
    &&& p1.adc == p0.adc
    &&& p1.rng == p0.rng
    &&& event == Some(InputEvent::LeftHeld) ==> {
        &&& s1 == s0
        &&& c1.mode_index == 0
        &&& c1.menu_counter == c0.menu_counter.wrapping_add(1)
        &&& c1.tone_enabled == c0.tone_enabled
        &&& c1.settings.cells() == saved_on_exit(
            c0.settings.cells(),
            s0.brightness,
            s0.current,
            c0.tone_enabled,
        )
        &&& p1.actions@ == p0.actions@
    }
    &&& event != Some(InputEvent::LeftHeld) ==> {
        let inc = event == Some(InputEvent::RightReleased);
        let released = event == Some(InputEvent::LeftReleased) || inc;
        let page = s0.cur_setting;
        let b = if released && page == Setting::Brightness {
            step_level(s0.brightness, BRIGHTNESS_MAX, inc)
        } else {
            s0.brightness
        };
        let c = if released && page == Setting::Current {
            step_level(s0.current, CURRENT_MAX, inc)
        } else {
            s0.current
        };
        let tone = if released && page == Setting::ToneToggle {
            !c0.tone_enabled
        } else {
            c0.tone_enabled
        };
        let new_page = if event == Some(InputEvent::RightHeld) {
            next_page(page)
        } else {
            page
        };
        let hw: Seq<Action> = if released && page == Setting::Brightness {
            seq![Action::SetBrightness(b)]
        } else if released && page == Setting::Current {
            seq![Action::SetPeakCurrent(spec_current_into(c))]
        } else {
            seq![]
        };
        let draw = event is Some || c0.redraw;
        &&& s1.cur_setting == new_page
        &&& s1.brightness == b
        &&& s1.current == c
        &&& c1.tone_enabled == tone
        &&& c1.mode_index == c0.mode_index
        &&& c1.menu_counter == c0.menu_counter
        &&& c1.settings == c0.settings
        &&& c1.redraw == (event is Some && c0.redraw)
        &&& if draw {
            appended_text(
                p0.actions@ + hw,
                p1.actions@,
                settings_text(new_page, b, c, tone),
            )
        } else {
            p1.actions@ == p0.actions@ + hw
        }
    }
}

/// The peak current of each display setting, in tenths of a milliampere, as its name gives it.
pub open spec fn peak_current_tenths_ma(p: PeakCurrent) -> nat {
    match p {
        PeakCurrent::Max4_0Ma => 40,
        PeakCurrent::Max6_4Ma => 64,
        PeakCurrent::Max9_3Ma => 93,
        PeakCurrent::Max12_8Ma => 128,
    }
}

/// The peak current applied for a level is the one its page shows, rounded to whole
/// milliamperes, and a higher level drives the display harder.
pub proof fn lemma_current_levels(c1: u8, c2: u8)
    requires
        c1 < CURRENT_MAX,
        c2 < CURRENT_MAX,
    ensures
        10 * current_level_ma(c1) <= peak_current_tenths_ma(spec_current_into(c1)) + 5,
        peak_current_tenths_ma(spec_current_into(c1)) < 10 * current_level_ma(c1) + 5,
        c1 < c2 ==> peak_current_tenths_ma(spec_current_into(c1)) < peak_current_tenths_ma(
            spec_current_into(c2),
        ),
{
}

} // verus!
