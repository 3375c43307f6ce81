use crate::adc::{Adc, AdcChannel, AdcSample, AdcSettings};
use crate::i2c::I2cState;
use crate::random::Rng;
use crate::saved_settings::{setting_offset, SavedSettings, Setting};
use crate::input::InputEvent;
use crate::colbuf::{col_contents, col_new, col_push, ColBuf, COLBUF_CAPACITY};
use crate::NUM_CHARS;
use vstd::prelude::*;

pub mod game;
pub mod i2c_utils;
pub mod menu;
pub mod nametag;
pub mod random;
pub mod sensors;
pub mod settings;
pub mod traffic;
pub mod tunnel;
pub mod utils;
pub mod vibes;

verus! {

/// Modes, the menu included.
pub const NUM_MODES: u8 = 8;

/// Peak current of the display LEDs.
#[derive(Clone, Copy, Debug, PartialEq, Eq, Structural)]
pub enum PeakCurrent {
    Max4_0Ma,
    Max6_4Ma,
    Max9_3Ma,
    Max12_8Ma,
}

/// What a mode asks of the peripherals, in order.
#[derive(Debug)]
pub enum Action {
    /// Show eight characters.
    PrintAscii([u8; NUM_CHARS]),
    /// Show raw columns (bit 6 is the bottom row, bit 0 the top row).
    PrintCols(ColBuf),
    /// Sound `frequency` Hz for `duration` ms (0: until stopped).
    Tone(u32, u32),
    /// Stop the buzzer.
    NoTone,
    /// Wait this many milliseconds.
    Delay(u32),
    /// Show these characters from the left end.
    PrintBytes(Vec<u8>),
    /// Set the display brightness (0..16).
    SetBrightness(u8),
    /// Set the display peak current.
    SetPeakCurrent(PeakCurrent),
    /// Write settings to the ADC.
    AdcApply(AdcSettings),
    /// Write a whole configuration, reference included, to the ADC.
    AdcConfigure(sensors::adc::AdcSettings),
    /// Select an ADC input.
    AdcSelect(AdcChannel),
    /// Start an ADC conversion.
    AdcStartConversion,
    /// Turn the ADC off.
    AdcDisable,
    /// Let the I2C pins float.
    I2cPinsFloating,
    /// Pull the I2C pins up.
    I2cPinsPullup,
    /// Stop the I2C peripheral.
    I2cEnd,
    /// Start the I2C peripheral as host at the given bus speed.
    I2cHostSetup(u32),
    /// Start the I2C peripheral as client at the given address.
    I2cClientSetup(u8),
}

/// `after` is `before` with one more action: showing `text`.
pub open spec fn appended_text(before: Seq<Action>, after: Seq<Action>, text: Seq<u8>) -> bool {
    &&& after.len() == before.len() + 1
    &&& after.subrange(0, before.len() as int) == before
    &&& after.last() matches Action::PrintAscii(b) && b@ == text
}

/// `after` is `before` with one more action: showing the columns `cols`.
pub open spec fn appended_cols(before: Seq<Action>, after: Seq<Action>, cols: Seq<u8>) -> bool {
    &&& after.len() == before.len() + 1
    &&& after.subrange(0, before.len() as int) == before
    &&& after.last() matches Action::PrintCols(c) && col_contents(c) == cols
}

/// Queues showing the eight characters of `buf`.
pub fn show_text(actions: &mut Vec<Action>, buf: [u8; NUM_CHARS])
    ensures
        appended_text(old(actions)@, final(actions)@, buf@),
{
    let ghost a0 = actions@;
    actions.push(Action::PrintAscii(buf));
    assert(actions@.subrange(0, a0.len() as int) =~= a0);
}

/// Queues showing the columns `cols`.
pub fn show_cols(actions: &mut Vec<Action>, cols: ColBuf)
    ensures
        appended_cols(old(actions)@, final(actions)@, col_contents(cols)),
{
    let ghost a0 = actions@;
    actions.push(Action::PrintCols(cols));
    assert(actions@.subrange(0, a0.len() as int) =~= a0);
}

/// Queues showing the columns of `cols`, copied into a column buffer.
pub fn show_col_slice(actions: &mut Vec<Action>, cols: &[u8])
    requires
        cols@.len() <= COLBUF_CAPACITY,
    ensures
        appended_cols(old(actions)@, final(actions)@, cols@),
{
    let mut buf = col_new();
    let mut i: usize = 0;
    while i < cols.len()
        invariant
            i <= cols@.len(),
            cols@.len() <= COLBUF_CAPACITY,
            col_contents(buf) == cols@.subrange(0, i as int),
        decreases cols@.len() - i,
    {
        let _ = col_push(&mut buf, cols[i]);
        assert(cols@.subrange(0, i + 1) =~= cols@.subrange(0, i as int).push(cols@[i as int]));
        i = i + 1;
    }
    assert(cols@.subrange(0, cols@.len() as int) =~= cols@);
    show_cols(actions, buf);
}

/// The name shown in the menu for mode `i`.
pub open spec fn spec_mode_name(i: nat) -> Seq<u8> {
    if i == 0 {
        // "  NONIK0"
        seq![32u8, 32, 78, 79, 78, 73, 75, 48]
    } else if i == 1 {
        // " Nametag"
        seq![32u8, 78, 97, 109, 101, 116, 97, 103]
    } else if i == 2 {
        // "  Random"
        seq![32u8, 32, 82, 97, 110, 100, 111, 109]
    } else if i == 3 {
        // " Sensors"
        seq![32u8, 83, 101, 110, 115, 111, 114, 115]
    } else if i == 4 {
        // "Settings"
        seq![83u8, 101, 116, 116, 105, 110, 103, 115]
    } else if i == 5 {
        // " Traffic"
        seq![32u8, 84, 114, 97, 102, 102, 105, 99]
    } else if i == 6 {
        // "  Tunnel"
        seq![32u8, 32, 84, 117, 110, 110, 101, 108]
    } else {
        // "   Vibes"
        seq![32u8, 32, 32, 86, 105, 98, 101, 115]
    }
}

/// The name shown in the menu for mode `index`.
pub fn names(index: u8) -> (r: [u8; NUM_CHARS])
    requires
        index < NUM_MODES,
    ensures
        r@ == spec_mode_name(index as nat),
{
    let r: [u8; NUM_CHARS] = if index == 0 {
        [32u8, 32, 78, 79, 78, 73, 75, 48]
    } else if index == 1 {
        [32u8, 78, 97, 109, 101, 116, 97, 103]
    } else if index == 2 {
        [32u8, 32, 82, 97, 110, 100, 111, 109]
    } else if index == 3 {
        [32u8, 83, 101, 110, 115, 111, 114, 115]
    } else if index == 4 {
        [83u8, 101, 116, 116, 105, 110, 103, 115]
    } else if index == 5 {
        [32u8, 84, 114, 97, 102, 102, 105, 99]
    } else if index == 6 {
        [32u8, 32, 84, 117, 110, 110, 101, 108]
    } else {
        [32u8, 32, 32, 86, 105, 98, 101, 115]
    };
    assert(r@ =~= spec_mode_name(index as nat));
    r
}

/// The state that all modes share: which mode is active, a counter of returns to the menu, the
/// button-tone flag, the saved settings, and whether the active mode still has to draw itself.
pub struct Context {
    pub menu_counter: u16,
    pub mode_index: u8,
    pub tone_enabled: bool,
    pub settings: SavedSettings,
    pub redraw: bool,
}

impl Context {
    /// Starts in the mode saved last (the nametag when the saved byte names no mode), with the
    /// button tone as saved.
    pub fn new(settings: SavedSettings) -> (r: Self)
        ensures
            r.mode_index == if settings.cells()[setting_offset(Setting::LastMode) as int]
                < NUM_MODES {
                settings.cells()[setting_offset(Setting::LastMode) as int]
            } else {
                1
            },
            r.menu_counter == 1,
            r.tone_enabled == (settings.cells()[setting_offset(Setting::Tone) as int] != 0),
            r.settings == settings,
            r.redraw,
    {
        let mut saved_index = settings.read_setting_byte(Setting::LastMode);
        if saved_index >= NUM_MODES {
            saved_index = 1;
        }
        let tone_enabled = settings.read_setting_bool(Setting::Tone);
        Context { menu_counter: 1, mode_index: saved_index, tone_enabled, settings, redraw: true }
    }

    /// Whether the menu is active.
    pub fn is_menu(&self) -> (r: bool)
        ensures
            r == (self.mode_index == 0),
    {
        self.mode_index == 0
    }

    /// The active mode.
    pub fn mode_index(&self) -> (r: u8)
        ensures
            r == self.mode_index,
    {
        self.mode_index
    }

    /// The active mode, as an index.
    pub fn mode(&self) -> (r: usize)
        ensures
            r == self.mode_index as usize,
    {
        self.mode_index as usize
    }

    /// The menu counter.
    pub fn menu_counter(&self) -> (r: u16)
        ensures
            r == self.menu_counter,
    {
        self.menu_counter
    }

    /// Whether the menu was entered since `last_update` was taken; `last_update` becomes the
    /// current count.
    pub fn needs_update(&self, last_update: &mut u16) -> (r: bool)
        ensures
            r == (*old(last_update) < self.menu_counter),
            *final(last_update) == self.menu_counter,
    {
        let update = *last_update < self.menu_counter;
        *last_update = self.menu_counter;
        update
    }

    /// Whether the active mode has to draw itself because it was just entered; asking clears it.
    pub fn need_update(&mut self) -> (r: bool)
        ensures
            r == old(self).redraw,
            !final(self).redraw,
            final(self).mode_index == old(self).mode_index,
            final(self).menu_counter == old(self).menu_counter,
            final(self).tone_enabled == old(self).tone_enabled,
            final(self).settings == old(self).settings,
    {
        let r = self.redraw;
        self.redraw = false;
        r
    }

    /// Goes back to the menu.
    pub fn to_menu(&mut self)
        ensures
            final(self).mode_index == 0,
            final(self).menu_counter == old(self).menu_counter.wrapping_add(1),
            final(self).redraw,
            final(self).tone_enabled == old(self).tone_enabled,
            final(self).settings == old(self).settings,
    {
        self.menu_counter = self.menu_counter.wrapping_add(1);
        self.mode_index = 0;
        self.redraw = true;
    }

    /// Enters mode `index` and saves it as the last mode.
    pub fn to_mode(&mut self, index: u8)
        requires
            index < NUM_MODES,
        ensures
            final(self).mode_index == index,
            final(self).menu_counter == old(self).menu_counter,
            final(self).redraw,
            final(self).tone_enabled == old(self).tone_enabled,
            final(self).settings.cells() == old(self).settings.cells().update(
                setting_offset(Setting::LastMode) as int,
                index,
            ),
            final(self).settings.pending() == old(self).settings.pending().push(
                (Setting::LastMode.offset_spec(), index),
            ),
    {
        self.mode_index = index;
        self.redraw = true;
        self.settings.save_setting_byte(Setting::LastMode, index);
    }
}

/// The peripherals as the modes see them: the ADC driver with the register values read for this
/// cycle, the random generator, the I2C driver's state, and the queue of actions for the owner
/// to carry out.
pub struct Peripherals {
    pub adc: Adc,
    pub adc_sample: AdcSample,
    pub rng: Rng,
    pub i2c: I2cState,
    pub actions: Vec<Action>,
}


/// The active mode, one of the eight in menu order.
pub enum Mode {
    Menu(menu::Menu),
    Nametag(nametag::Nametag),
    Random(random::Random),
    Sensors(sensors::Sensors),
    Settings(settings::Settings),
    Traffic(traffic::Traffic),
    Tunnel(tunnel::Tunnel),
    Vibes(vibes::Vibes),
}

impl Mode {
    /// The mode keeps its own invariant.
    pub open spec fn inv(&self) -> bool {
        match self {
            Mode::Nametag(m) => m.inv(),
            Mode::Settings(m) => m.inv(),
            Mode::Traffic(m) => traffic::traffic_inv(m.model()),
            Mode::Tunnel(m) => m.inv(),
            Mode::Vibes(m) => vibes::vibes_inv(m.model()),
            _ => true,
        }
    }

    /// Whether a submenu of the mode is open: the nametag's editor or the sensors' settings.
    pub open spec fn in_submenu(&self) -> bool {
        match self {
            Mode::Nametag(m) => m.edit_index is Some,
            Mode::Sensors(m) => m.settings_active,
            _ => false,
        }
    }

    /// The position of the mode in the menu.
    pub open spec fn index_of(&self) -> u8 {
        match self {
            Mode::Menu(_) => 0,
            Mode::Nametag(_) => 1,
            Mode::Random(_) => 2,
            Mode::Sensors(_) => 3,
            Mode::Settings(_) => 4,
            Mode::Traffic(_) => 5,
            Mode::Tunnel(_) => 6,
            Mode::Vibes(_) => 7,
        }
    }

    /// A fresh instance of the active mode of `context`, set up from the saved settings (the
    /// menu when the index names no mode).
    pub fn from_context(context: &Context) -> (r: Self)
        ensures
            r.inv(),
            r.index_of() == if context.mode_index < NUM_MODES {
                context.mode_index
            } else {
                0
            },
    {
        match context.mode_index {
            1 => Mode::Nametag(nametag::Nametag::new_with_settings(&context.settings)),
            2 => Mode::Random(random::Random::new_with_settings(&context.settings)),
            3 => Mode::Sensors(sensors::Sensors::new_with_settings(&context.settings)),
            4 => Mode::Settings(settings::Settings::new_with_settings(&context.settings)),
            5 => Mode::Traffic(traffic::Traffic::new()),
            6 => Mode::Tunnel(tunnel::Tunnel::new()),
            7 => Mode::Vibes(vibes::Vibes::new()),
            _ => Mode::Menu(menu::Menu::new()),
        }
    }

    /// One cycle of the active mode: exactly the `update` of that mode (its `update_post`). A long press on the left
    /// button leaves any mode for the menu, unless a submenu is open; a long press on the right
    /// button in the menu enters the mode under the cursor.
    pub fn update(
        &mut self,
        event: Option<InputEvent>,
        context: &mut Context,
        peripherals: &mut Peripherals,
    )
        requires
            old(self).inv(),
            *old(self) is Sensors ==> sensors::settings_fit(old(peripherals).adc.settings),
        ensures
            final(self).inv(),
            final(self).index_of() == old(self).index_of(),
            event == Some(InputEvent::LeftHeld) && old(self).index_of() != 0
                && !old(self).in_submenu() ==> final(context).mode_index == 0,
            *old(self) matches Mode::Menu(m) ==> (event == Some(InputEvent::RightHeld)
                ==> final(context).mode_index == m.cursor()),
            match (*old(self), *final(self)) {
                (Mode::Menu(a), Mode::Menu(b)) => menu::update_post(
                    a,
                    b,
                    event,
                    *old(context),
                    *final(context),
                    *old(peripherals),
                    *final(peripherals),
                ),
                (Mode::Nametag(a), Mode::Nametag(b)) => nametag::update_post(
                    a,
                    b,
                    event,
                    *old(context),
                    *final(context),
                    *old(peripherals),
                    *final(peripherals),
                ),
                (Mode::Random(a), Mode::Random(b)) => random::update_post(
                    a,
                    b,
                    event,
                    *old(context),
                    *final(context),
                    *old(peripherals),
                    *final(peripherals),
                ),
                (Mode::Sensors(a), Mode::Sensors(b)) => sensors::update_post(
                    a,
                    b,
                    event,
                    *old(context),
                    *final(context),
                    *old(peripherals),
                    *final(peripherals),
                ),
                (Mode::Settings(a), Mode::Settings(b)) => settings::update_post(
                    a,
                    b,
                    event,
                    *old(context),
                    *final(context),
                    *old(peripherals),
                    *final(peripherals),
                ),
                (Mode::Traffic(a), Mode::Traffic(b)) => traffic::update_post(
                    a,
                    b,
                    event,
                    *old(context),
                    *final(context),
                    *old(peripherals),
                    *final(peripherals),
                ),
                (Mode::Tunnel(a), Mode::Tunnel(b)) => tunnel::update_post(
                    a,
                    b,
                    event,
                    *old(context),
                    *final(context),
                    *old(peripherals),
                    *final(peripherals),
                ),
                (Mode::Vibes(a), Mode::Vibes(b)) => vibes::update_post(
                    a,
                    b,
                    event,
                    *old(context),
                    *final(context),
                    *old(peripherals),
                    *final(peripherals),
                ),
                _ => false,
            },
    {
        match self {
            Mode::Menu(m) => m.update(event, context, peripherals),
            Mode::Nametag(m) => m.update(event, context, peripherals),
            Mode::Random(m) => m.update(event, context, peripherals),
            Mode::Sensors(m) => m.update(event, context, peripherals),
            Mode::Settings(m) => m.update(event, context, peripherals),
            Mode::Traffic(m) => m.update(event, context, peripherals),
            Mode::Tunnel(m) => m.update(event, context, peripherals),
            Mode::Vibes(m) => m.update(event, context, peripherals),
        }
    }
}

/// What every mode shares on a button event: holding both buttons goes back to the menu from
/// any mode, and, with the button tone on, a press beeps high and short and a hold low and
/// longer.
pub fn handle_global_event(event: Option<InputEvent>, context: &mut Context, actions: &mut Vec<
    Action,
>)
    ensures
        event == Some(InputEvent::BothHeld) && old(context).mode_index != 0 ==> {
            &&& final(context).mode_index == 0
            &&& final(context).menu_counter == old(context).menu_counter.wrapping_add(1)
            &&& final(context).redraw
        },
        !(event == Some(InputEvent::BothHeld) && old(context).mode_index != 0) ==> *final(context)
            == *old(context),
        final(context).tone_enabled == old(context).tone_enabled,
        final(context).settings == old(context).settings,
        ({
            let press = event == Some(InputEvent::LeftPressed) || event == Some(
                InputEvent::RightPressed,
            );
            let hold = event == Some(InputEvent::LeftHeld) || event == Some(InputEvent::RightHeld);
            if old(context).tone_enabled && (press || hold) {
                &&& final(actions)@.len() == old(actions)@.len() + 1
                &&& final(actions)@.drop_last() == old(actions)@
                &&& final(actions)@.last() matches Action::Tone(f, d) && if press {
                    f == 5000 && d == 5
                } else {
                    f == 4000 && d == 10
                }
            } else {
                final(actions)@ == old(actions)@
            }
        }),
{
    let ghost a0 = actions@;
    match event {
        Some(InputEvent::BothHeld) => {
            if !context.is_menu() {
                context.to_menu();
            }
        },
        Some(InputEvent::LeftPressed) | Some(InputEvent::RightPressed) => {
            if context.tone_enabled {
                actions.push(Action::Tone(5000, 5));
            }
        },
        Some(InputEvent::LeftHeld) | Some(InputEvent::RightHeld) => {
            if context.tone_enabled {
                actions.push(Action::Tone(4000, 10));
            }
        },
        _ => {},
    }
    assert(actions@.len() > a0.len() ==> actions@.drop_last() =~= a0);
}

} // verus!
