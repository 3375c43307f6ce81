use super::{appended_text, show_text, Action, Context, Peripherals};

pub mod adc;
pub mod meter;
pub mod settings;
use crate::adc::{
    pow2_small, spec_temp_from_raw, spec_voltage_from_raw, switch_actions, Adc, AdcChannel,
    AdcReferenceVoltage, AdcSample, AdcSettings, InitDelay, IntReferenceVoltage, Prescaler,
    Resolution, SampleNumber,
};
use crate::input::InputEvent;
use crate::saved_settings::{setting_offset, SavedSettings, Setting};
use crate::utils::{format_buf, format_uint, spec_format_buf, spec_format_uint, EnumCycle};
use crate::NUM_CHARS;
use vstd::prelude::*;

verus! {

/// What the sensors mode shows: one of the ADC inputs, or the continuity test.
#[derive(Clone, Copy, Debug, PartialEq, Eq, Structural)]
pub enum SensorPage {
    AdcChannel(AdcChannel),
    ContinuityTest,
}

/// The ADC setting that the settings screen of the sensors mode changes.
#[derive(Clone, Copy, Debug, PartialEq, Eq, Structural)]
pub enum SensorSetting {
    Resolution,
    SampleNumber,
    SampCap,
    RefVoltage,
    Prescaler,
    InitDelay,
    SetAsdv,
    SampleDelay,
    SampleLength,
}

impl EnumCycle for SensorSetting {
    open spec fn spec_index(self) -> nat {
        match self {
            SensorSetting::Resolution => 0,
            SensorSetting::SampleNumber => 1,
            SensorSetting::SampCap => 2,
            SensorSetting::RefVoltage => 3,
            SensorSetting::Prescaler => 4,
            SensorSetting::InitDelay => 5,
            SensorSetting::SetAsdv => 6,
            SensorSetting::SampleDelay => 7,
            SensorSetting::SampleLength => 8,
        }
    }

    proof fn lemma_index_bound(self) {
    }

    proof fn lemma_from_index(i: nat) {
    }

    proof fn lemma_at_own_index(self) {
    }

    open spec fn spec_count() -> nat {
        9
    }

    open spec fn spec_from_index(i: nat) -> Self {
        if i == 0 {
            SensorSetting::Resolution
        } else if i == 1 {
            SensorSetting::SampleNumber
        } else if i == 2 {
            SensorSetting::SampCap
        } else if i == 3 {
            SensorSetting::RefVoltage
        } else if i == 4 {
            SensorSetting::Prescaler
        } else if i == 5 {
            SensorSetting::InitDelay
        } else if i == 6 {
            SensorSetting::SetAsdv
        } else if i == 7 {
            SensorSetting::SampleDelay
        } else {
            SensorSetting::SampleLength
        }
    }

    fn count() -> (c: u8) {
        9
    }

    fn to_u8(self) -> (r: u8) {
        match self {
            SensorSetting::Resolution => 0,
            SensorSetting::SampleNumber => 1,
            SensorSetting::SampCap => 2,
            SensorSetting::RefVoltage => 3,
            SensorSetting::Prescaler => 4,
            SensorSetting::InitDelay => 5,
            SensorSetting::SetAsdv => 6,
            SensorSetting::SampleDelay => 7,
            SensorSetting::SampleLength => 8,
        }
    }

    fn from_u8(val: u8) -> (r: Self) {
        match val {
            0 => SensorSetting::Resolution,
            1 => SensorSetting::SampleNumber,
            2 => SensorSetting::SampCap,
            3 => SensorSetting::RefVoltage,
            4 => SensorSetting::Prescaler,
            5 => SensorSetting::InitDelay,
            6 => SensorSetting::SetAsdv,
            7 => SensorSetting::SampleDelay,
            _ => SensorSetting::SampleLength,
        }
    }
}

/// The page after `p`: the ADC inputs in order, then the continuity test, then back.
pub open spec fn page_after(p: SensorPage) -> SensorPage {
    match p {
        SensorPage::AdcChannel(AdcChannel::Temp) => SensorPage::AdcChannel(AdcChannel::Vsda),
        SensorPage::AdcChannel(AdcChannel::Vsda) => SensorPage::AdcChannel(AdcChannel::Vscl),
        SensorPage::AdcChannel(AdcChannel::Vscl) => SensorPage::AdcChannel(AdcChannel::Vref),
        SensorPage::AdcChannel(AdcChannel::Vref) => SensorPage::AdcChannel(AdcChannel::Gnd),
        SensorPage::AdcChannel(AdcChannel::Gnd) => SensorPage::ContinuityTest,
        SensorPage::ContinuityTest => SensorPage::AdcChannel(AdcChannel::Temp),
    }
}

/// The page a saved byte stands for; bytes that name no page stand for the temperature.
pub open spec fn page_from_u8(value: u8) -> SensorPage {
    if value == 1 {
        SensorPage::AdcChannel(AdcChannel::Vsda)
    } else if value == 2 {
        SensorPage::AdcChannel(AdcChannel::Vscl)
    } else if value == 3 {
        SensorPage::AdcChannel(AdcChannel::Gnd)
    } else if value == 4 {
        SensorPage::AdcChannel(AdcChannel::Vref)
    } else if value == 5 {
        SensorPage::ContinuityTest
    } else {
        SensorPage::AdcChannel(AdcChannel::Temp)
    }
}

/// The byte a page is saved as.
pub open spec fn page_to_u8(page: SensorPage) -> u8 {
    match page {
        SensorPage::AdcChannel(AdcChannel::Vsda) => 1,
        SensorPage::AdcChannel(AdcChannel::Vscl) => 2,
        SensorPage::AdcChannel(AdcChannel::Gnd) => 3,
        SensorPage::AdcChannel(AdcChannel::Vref) => 4,
        SensorPage::ContinuityTest => 5,
        SensorPage::AdcChannel(AdcChannel::Temp) => 0,
    }
}

impl SensorPage {
    /// The next page (see `page_after`).
    pub fn next(&self) -> (r: Self)
        ensures
            r == page_after(*self),
    {
        match self {
            SensorPage::AdcChannel(channel) => {
                let next_channel = channel.next_wrapping();
                if next_channel.to_u8() != 0 {
                    SensorPage::AdcChannel(next_channel)
                } else {
                    SensorPage::ContinuityTest
                }
            },
            SensorPage::ContinuityTest => SensorPage::AdcChannel(AdcChannel::from_u8(0)),
        }
    }
}

impl From<u8> for SensorPage {
    fn from(value: u8) -> (r: Self) {
        match value {
            1 => SensorPage::AdcChannel(AdcChannel::Vsda),
            2 => SensorPage::AdcChannel(AdcChannel::Vscl),
            3 => SensorPage::AdcChannel(AdcChannel::Gnd),
            4 => SensorPage::AdcChannel(AdcChannel::Vref),
            5 => SensorPage::ContinuityTest,
            _ => SensorPage::AdcChannel(AdcChannel::Temp),
        }
    }
}

impl vstd::std_specs::convert::FromSpecImpl<u8> for SensorPage {
    open spec fn obeys_from_spec() -> bool {
        true
    }

    open spec fn from_spec(v: u8) -> SensorPage {
        page_from_u8(v)
    }
}

impl From<SensorPage> for u8 {
    fn from(value: SensorPage) -> (r: Self) {
        match value {
            SensorPage::AdcChannel(AdcChannel::Vsda) => 1,
            SensorPage::AdcChannel(AdcChannel::Vscl) => 2,
            SensorPage::AdcChannel(AdcChannel::Gnd) => 3,
            SensorPage::AdcChannel(AdcChannel::Vref) => 4,
            SensorPage::ContinuityTest => 5,
            _ => 0,
        }
    }
}

impl vstd::std_specs::convert::FromSpecImpl<SensorPage> for u8 {
    open spec fn obeys_from_spec() -> bool {
        true
    }

    open spec fn from_spec(v: SensorPage) -> u8 {
        page_to_u8(v)
    }
}

/// Saving a page and reading the byte back gives the same page.
pub proof fn lemma_page_round_trip(page: SensorPage)
    ensures
        page_from_u8(page_to_u8(page)) == page,
{
}

/// The sensors mode: live readings of the ADC inputs and a continuity test, and a screen for
/// the ADC settings.
pub struct Sensors {
    pub cur_page: SensorPage,
    pub cur_setting: SensorSetting,
    pub port_init: bool,
    /// the tone that sounds for the continuity test (0: none)
    pub tone_active: u8,
    pub settings_active: bool,
    /// for the continuity test, the mask of the lines that conduct (blue 1, yellow 2)
    pub last_reading: u16,
    /// which line the next continuity reading is taken on
    pub continuity_channel: bool,
    pub show_raw: bool,
    pub show_tempf: bool,
}

/// Digits after the point of a voltage (X.YY).
pub const DECIMAL_PRECISION: u16 = 2;

/// The continuity mask bit of the blue (SDA) wire.
pub const CONTINUITY_BLUE_READING_MASK: u16 = 0x0001;

/// The continuity mask bit of the yellow (SCL) wire.
pub const CONTINUITY_YELLOW_READING_MASK: u16 = 0x0002;

/// Both continuity mask bits.
pub const CONTINUITY_BOTH_READING_MASK: u16 = 0x0003;

/// What the continuity test shows for a mask: " blue", "yellw", "bl+yl", or " none".
pub open spec fn continuity_text(value: u16) -> Seq<u8> {
    if value == CONTINUITY_BLUE_READING_MASK {
        seq![32u8, 98, 108, 117, 101]
    } else if value == CONTINUITY_YELLOW_READING_MASK {
        seq![121u8, 101, 108, 108, 119]
    } else if value == CONTINUITY_BOTH_READING_MASK {
        seq![98u8, 108, 43, 121, 108]
    } else {
        seq![32u8, 110, 111, 110, 101]
    }
}

/// " no" or "yes".
pub open spec fn yes_no(b: bool) -> Seq<u8> {
    if b {
        seq![121u8, 101, 115]
    } else {
        seq![32u8, 110, 111]
    }
}

/// The internal reference voltages as shown: "0.55V", "1.1V", "2.5V", "4.34V", "1.5V".
pub open spec fn int_ref_text(v: IntReferenceVoltage) -> Seq<u8> {
    match v {
        IntReferenceVoltage::V0_55 => seq![48u8, 46, 53, 53, 86],
        IntReferenceVoltage::V1_1 => seq![49u8, 46, 49, 86],
        IntReferenceVoltage::V2_5 => seq![50u8, 46, 53, 86],
        IntReferenceVoltage::V4_34 => seq![52u8, 46, 51, 52, 86],
        IntReferenceVoltage::V1_5 => seq![49u8, 46, 53, 86],
    }
}

/// The label of each setting: "Res:", "Snum:", "Scap:", "Vr:", "Div:", "Idly:", "Asdv:",
/// "Sdly:", "Slen:".
pub open spec fn setting_label(s: SensorSetting) -> Seq<u8> {
    match s {
        SensorSetting::Resolution => seq![82u8, 101, 115, 58],
        SensorSetting::SampleNumber => seq![83u8, 110, 117, 109, 58],
        SensorSetting::SampCap => seq![83u8, 99, 97, 112, 58],
        SensorSetting::RefVoltage => seq![86u8, 114, 58],
        SensorSetting::Prescaler => seq![68u8, 105, 118, 58],
        SensorSetting::InitDelay => seq![73u8, 100, 108, 121, 58],
        SensorSetting::SetAsdv => seq![65u8, 115, 100, 118, 58],
        SensorSetting::SampleDelay => seq![83u8, 100, 108, 121, 58],
        SensorSetting::SampleLength => seq![83u8, 108, 101, 110, 58],
    }
}

/// Cycles of the initial delay of each setting.
pub open spec fn init_delay_cycles(d: InitDelay) -> nat {
    match d {
        InitDelay::Dly0 => 0,
        InitDelay::Dly16 => 16,
        InitDelay::Dly32 => 32,
        InitDelay::Dly64 => 64,
        InitDelay::Dly128 => 128,
        InitDelay::Dly256 => 256,
    }
}

/// What the settings screen shows for setting `s` of `adc`: the resolution in bits, the
/// samples accumulated, the clock divider and the initial delay as numbers, the flags as
/// yes/no, and the reference voltage by name.
#[verifier::opaque]
pub open spec fn setting_text(s: SensorSetting, adc: AdcSettings) -> Seq<u8> {
    let n = NUM_CHARS as nat;
    let label = setting_label(s);
    match s {
        SensorSetting::Resolution => spec_format_uint(
            n,
            label,
            if adc.resolution == Resolution::Bits10 {
                10
            } else {
                8
            },
            0,
            seq![98u8],
        ),
        SensorSetting::SampleNumber => spec_format_uint(
            n,
            label,
            pow2_small(adc.sample_number.spec_index()),
            0,
            Seq::empty(),
        ),
        SensorSetting::SampCap => spec_format_buf(n, label, yes_no(adc.samp_cap)),
        SensorSetting::RefVoltage => spec_format_buf(
            n,
            label,
            if adc.adc_ref_voltage == AdcReferenceVoltage::IntRef {
                int_ref_text(adc.int_ref_voltage)
            } else {
                seq![86u8, 100, 100]
            },
        ),
        SensorSetting::Prescaler => spec_format_uint(
            n,
            label,
            pow2_small(adc.prescaler.spec_index() + 1),
            0,
            Seq::empty(),
        ),
        SensorSetting::InitDelay => spec_format_uint(
            n,
            label,
            init_delay_cycles(adc.init_delay),
            0,
            Seq::empty(),
        ),
        SensorSetting::SetAsdv => spec_format_buf(n, label, yes_no(adc.asdv)),
        SensorSetting::SampleDelay => spec_format_uint(
            n,
            label,
            adc.sample_delay as nat,
            0,
            Seq::empty(),
        ),
        SensorSetting::SampleLength => spec_format_uint(
            n,
            label,
            adc.sample_length as nat,
            0,
            Seq::empty(),
        ),
    }
}

/// The label of a voltage page: "Vb:" for SDA (the blue wire), "Vy:" for SCL (the yellow
/// wire), "Vr:", "Vg:" (the temperature page has its own).
pub open spec fn channel_label(c: AdcChannel) -> Seq<u8> {
    match c {
        AdcChannel::Vsda => seq![86u8, 98, 58],
        AdcChannel::Vscl => seq![86u8, 121, 58],
        AdcChannel::Vref => seq![86u8, 114, 58],
        _ => seq![86u8, 103, 58],
    }
}

/// What the readings screen shows for `value` on `page`: the temperature ("Tf:", with a degree
/// sign and C or F unless raw), a voltage with two decimals and "V" (or the raw number), or
/// whether the continuity test conducts.
#[verifier::opaque]
pub open spec fn reading_text(page: SensorPage, show_raw: bool, show_tempf: bool, value: u16) -> Seq<
    u8,
> {
    let n = NUM_CHARS as nat;
    match page {
        SensorPage::AdcChannel(AdcChannel::Temp) => spec_format_uint(
            n,
            seq![84u8, 102, 58],
            value as nat,
            0,
            if show_raw {
                Seq::empty()
            } else if show_tempf {
                seq![152u8, 70]
            } else {
                seq![152u8, 67]
            },
        ),
        SensorPage::AdcChannel(c) => spec_format_uint(
            n,
            channel_label(c),
            value as nat,
            if show_raw {
                0
            } else {
                DECIMAL_PRECISION as nat
            },
            if show_raw {
                Seq::empty()
            } else {
                seq![86u8]
            },
        ),
        SensorPage::ContinuityTest => spec_format_buf(n, seq![67u8, 120, 58], continuity_text(value)),
    }
}

/// The variant one up (`inc`) or one down, staying at the ends.
pub open spec fn step_variant<E: EnumCycle>(e: E, inc: bool) -> E {
    if inc {
        if e.spec_index() + 1 < E::spec_count() {
            E::spec_from_index(e.spec_index() + 1)
        } else {
            e
        }
    } else {
        if e.spec_index() > 0 {
            E::spec_from_index((e.spec_index() - 1) as nat)
        } else {
            e
        }
    }
}

/// `v` one up (`inc`, to at most `max`) or one down (to at least 0).
pub open spec fn step_bounded(v: u8, max: u8, inc: bool) -> u8 {
    if inc {
        if v + 1 < max {
            (v + 1) as u8
        } else {
            max
        }
    } else if v > 0 {
        (v - 1) as u8
    } else {
        0
    }
}

/// The ADC settings after setting `s` is stepped up (`inc`) or down: enumerations move to the
/// neighbouring value and stay at the ends, flags toggle, the delays stay within their bits.
/// The reference goes up through the internal voltages to Vdd after 4.34 V, and down from Vdd
/// to the internal 4.34 V.
#[verifier::opaque]
pub open spec fn adjust_setting(adc: AdcSettings, s: SensorSetting, inc: bool) -> AdcSettings {
    match s {
        SensorSetting::Resolution => AdcSettings {
            resolution: step_variant(adc.resolution, inc),
            ..adc
        },
        SensorSetting::SampleNumber => AdcSettings {
            sample_number: step_variant(adc.sample_number, inc),
            ..adc
        },
        SensorSetting::SampCap => AdcSettings { samp_cap: !adc.samp_cap, ..adc },
        SensorSetting::RefVoltage => if inc {
            if adc.adc_ref_voltage == AdcReferenceVoltage::IntRef {
                if adc.int_ref_voltage == IntReferenceVoltage::V4_34 {
                    AdcSettings { adc_ref_voltage: AdcReferenceVoltage::VddRef, ..adc }
                } else {
                    AdcSettings { int_ref_voltage: step_variant(adc.int_ref_voltage, true), ..adc }
                }
            } else {
                adc
            }
        } else {
            if adc.adc_ref_voltage == AdcReferenceVoltage::VddRef {
                AdcSettings {
                    adc_ref_voltage: AdcReferenceVoltage::IntRef,
                    int_ref_voltage: IntReferenceVoltage::V4_34,
                    ..adc
                }
            } else {
                AdcSettings { int_ref_voltage: step_variant(adc.int_ref_voltage, false), ..adc }
            }
        },
        SensorSetting::Prescaler => AdcSettings {
            prescaler: step_variant(adc.prescaler, inc),
            ..adc
        },
        SensorSetting::InitDelay => AdcSettings {
            init_delay: step_variant(adc.init_delay, inc),
            ..adc
        },
        SensorSetting::SetAsdv => AdcSettings { asdv: !adc.asdv, ..adc },
        SensorSetting::SampleDelay => AdcSettings {
            sample_delay: step_bounded(adc.sample_delay, 15, inc),
            ..adc
        },
        SensorSetting::SampleLength => AdcSettings {
            sample_length: step_bounded(adc.sample_length, 31, inc),
            ..adc
        },
    }
}

/// The ADC settings that fit their register fields: the sample delay in 4 bits and the sample
/// length in 5.
pub open spec fn settings_fit(adc: AdcSettings) -> bool {
    adc.sample_delay <= 15 && adc.sample_length <= 31
}

/// The readings format after a toggle: the temperature cycles Celsius, Fahrenheit, raw; the
/// other pages switch between value and raw.
pub open spec fn toggled(s: Sensors) -> Sensors {
    match s.cur_page {
        SensorPage::AdcChannel(AdcChannel::Temp) => if !s.show_raw && !s.show_tempf {
            Sensors { show_tempf: true, ..s }
        } else if !s.show_raw && s.show_tempf {
            Sensors { show_tempf: false, show_raw: true, ..s }
        } else {
            Sensors { show_raw: false, ..s }
        },
        _ => Sensors { show_raw: !s.show_raw, ..s },
    }
}

/// Whether `event` takes the sensors mode back to the menu: holding left on the readings.
pub open spec fn leaves(s: Sensors, event: Option<InputEvent>) -> bool {
    event == Some(InputEvent::LeftHeld) && !s.settings_active
}

/// The mode and ADC settings after `event` (unless it leaves), the actions it queues, the page
/// byte it saves if any, and whether it asks for a redraw. Holding left on the settings screen
/// applies the settings and returns to the readings; holding right turns to the next setting
/// (entering the settings screen first); a release steps the setting down (left) or up
/// (right), or on the readings toggles the format (left) or turns the page (right), which
/// silences the tone and saves the page.
pub open spec fn sensors_event(s: Sensors, adc: AdcSettings, event: Option<InputEvent>) -> (
    Sensors,
    AdcSettings,
    Seq<Action>,
    Option<u8>,
    bool,
) {
    match event {
        Some(InputEvent::LeftHeld) => (
            Sensors { settings_active: false, ..s },
            adc,
            seq![Action::AdcApply(adc)],
            None,
            true,
        ),
        Some(InputEvent::RightHeld) => if s.settings_active {
            (
                Sensors {
                    cur_setting: SensorSetting::spec_from_index((s.cur_setting.spec_index() + 1) % 9),
                    ..s
                },
                adc,
                seq![],
                None,
                true,
            )
        } else {
            (Sensors { settings_active: true, ..s }, adc, seq![], None, true)
        },
        Some(InputEvent::LeftReleased) => if s.settings_active {
            (s, adjust_setting(adc, s.cur_setting, false), seq![], None, true)
        } else {
            (toggled(s), adc, seq![], None, true)
        },
        Some(InputEvent::RightReleased) => if s.settings_active {
            (s, adjust_setting(adc, s.cur_setting, true), seq![], None, true)
        } else {
            let p = page_after(s.cur_page);
            (
                Sensors { cur_page: p, port_init: false, last_reading: 0, tone_active: 0, ..s },
                adc,
                seq![Action::NoTone],
                Some(page_to_u8(p)),
                true,
            )
        },
        _ => (s, adc, seq![], None, false),
    }
}

/// How the I2C pins are set up for the page when that is still to do: floating to measure a
/// voltage, pulled up for the continuity test.
pub open spec fn port_actions(s: Sensors) -> Seq<Action> {
    if s.port_init {
        seq![]
    } else {
        match s.cur_page {
            SensorPage::AdcChannel(_) => seq![Action::I2cPinsFloating],
            SensorPage::ContinuityTest => seq![Action::I2cPinsPullup],
        }
    }
}

/// The ADC input a page reads: the continuity test reads the two lines in turn, SDA when
/// `continuity_channel` is set and SCL otherwise.
pub open spec fn reading_channel(page: SensorPage, continuity_channel: bool) -> AdcChannel {
    match page {
        SensorPage::AdcChannel(c) => c,
        SensorPage::ContinuityTest => if continuity_channel {
            AdcChannel::Vsda
        } else {
            AdcChannel::Vscl
        },
    }
}

/// The bit of the continuity mask that the line read with `continuity_channel` sets: the SDA
/// reading sets the yellow bit and the SCL reading the blue bit.
pub open spec fn continuity_mask(continuity_channel: bool) -> u16 {
    if continuity_channel {
        CONTINUITY_YELLOW_READING_MASK
    } else {
        CONTINUITY_BLUE_READING_MASK
    }
}

/// The reading on the page from a finished conversion: the raw value, the temperature, the
/// voltage, or (continuity test) the last mask with the bit of the line read set when the line
/// is pulled to ground and cleared otherwise.
#[verifier::opaque]
pub open spec fn reading_value(s: Sensors, adc: Adc, sample: AdcSample) -> u16 {
    let raw = (sample.result as nat / pow2_small(adc.settings.sample_number.spec_index())) as u16;
    match s.cur_page {
        SensorPage::AdcChannel(c) => if s.show_raw {
            raw
        } else if c == AdcChannel::Temp {
            spec_temp_from_raw(raw, adc.sigrow_offset, adc.sigrow_gain, s.show_tempf)
        } else {
            spec_voltage_from_raw(adc.settings, raw)
        },
        SensorPage::ContinuityTest => if raw == 0 {
            s.last_reading | continuity_mask(s.continuity_channel)
        } else {
            s.last_reading & !continuity_mask(s.continuity_channel)
        },
    }
}

/// The mode and the ADC after one non-blocking reading, the actions it queues, and whether the
/// reading changed: nothing while a conversion runs; else the ADC is switched to the page's
/// input if needed, the next conversion starts, the continuity test turns to the other line,
/// and a new value is kept.
pub open spec fn sensors_read(s: Sensors, adc: Adc, sample: AdcSample) -> (
    Sensors,
    Adc,
    Seq<Action>,
    bool,
) {
    if sample.busy {
        (s, adc, seq![], false)
    } else {
        let ch = reading_channel(s.cur_page, s.continuity_channel);
        let v = reading_value(s, adc, sample);
        let adc1 = Adc { channel: Some(ch), ..adc };
        let acts = switch_actions(adc.channel, ch, adc.settings) + seq![Action::AdcStartConversion];
        let s1 = if s.cur_page == SensorPage::ContinuityTest {
            Sensors { continuity_channel: !s.continuity_channel, ..s }
        } else {
            s
        };
        if v != s.last_reading {
            (Sensors { last_reading: v, ..s1 }, adc1, acts, true)
        } else {
            (s1, adc1, acts, false)
        }
    }
}

/// The tone of a continuity mask: 3 kHz for blue, 4 kHz for yellow, 5 kHz for both, none
/// otherwise.
pub open spec fn continuity_tone(value: u16) -> u32 {
    if value == CONTINUITY_BLUE_READING_MASK {
        3000
    } else if value == CONTINUITY_YELLOW_READING_MASK {
        4000
    } else if value == CONTINUITY_BOTH_READING_MASK {
        5000
    } else {
        0
    }
}

/// The buzzer before the readings are shown: on the continuity test, when the mask changed
/// from the one sounding, its tone (see `continuity_tone`; 0 stops the buzzer) sounds until
/// stopped; on other pages a tone still sounding stops.
pub open spec fn tone_update(s: Sensors) -> (Sensors, Seq<Action>) {
    if s.cur_page == SensorPage::ContinuityTest {
        if (s.last_reading as u8) != s.tone_active {
            (
                Sensors { tone_active: s.last_reading as u8, ..s },
                seq![Action::Tone(continuity_tone(s.last_reading), 0)],
            )
        } else {
            (s, seq![])
        }
    } else if s.tone_active > 0 {
        (Sensors { tone_active: 0, ..s }, seq![Action::NoTone])
    } else {
        (s, seq![])
    }
}

/// What follows the event in one cycle, from mode `s` and ADC `adc`, with `update` telling
/// whether a redraw is asked for: the mode and the ADC afterwards, the actions queued before
/// the screen is drawn, and the text drawn if any. The pins are set up for the page; with
/// nothing to redraw and the readings showing, one reading is taken (see `sensors_read`); on
/// any change the settings screen or (after the buzzer, see `tone_update`) the reading is
/// shown.
pub open spec fn sensors_show(s: Sensors, adc: Adc, sample: AdcSample, update: bool) -> (
    Sensors,
    Adc,
    Seq<Action>,
    Option<Seq<u8>>,
) {
    let s2 = Sensors { port_init: true, ..s };
    let a2 = port_actions(s);
    let (s3, adc3, a3, changed) = if !update && !s2.settings_active {
        sensors_read(s2, adc, sample)
    } else {
        (s2, adc, seq![], false)
    };
    if update || changed {
        if s3.settings_active {
            (s3, adc3, a2 + a3, Some(setting_text(s3.cur_setting, adc3.settings)))
        } else {
            let (s4, a4) = tone_update(s3);
            (
                s4,
                adc3,
                a2 + a3 + a4,
                Some(reading_text(s4.cur_page, s4.show_raw, s4.show_tempf, s4.last_reading)),
            )
        }
    } else {
        (s3, adc3, a2 + a3, None)
    }
}

/// One cycle of the sensors mode that does not leave it: the mode and the ADC afterwards, the
/// actions queued before the screen is drawn, the text drawn if any, and the page byte saved if
/// any: the event (see `sensors_event`), then the rest (see `sensors_show`).
pub open spec fn sensors_step(
    s: Sensors,
    adc: Adc,
    sample: AdcSample,
    event: Option<InputEvent>,
    redraw: bool,
) -> (Sensors, Adc, Seq<Action>, Option<Seq<u8>>, Option<u8>) {
    let (s1, settings1, a1, saved, u1) = sensors_event(s, adc.settings, event);
    let (s2, adc2, a2, text) = sensors_show(
        s1,
        Adc { settings: settings1, ..adc },
        sample,
        redraw || u1,
    );
    (s2, adc2, a1 + a2, text, saved)
}

impl Sensors {
    /// The sensors mode on the page saved last, showing readings, with nothing set up yet.
    pub fn new_with_settings(settings: &SavedSettings) -> (r: Self)
        ensures
            r == (Sensors {
                cur_page: page_from_u8(settings.cells()[setting_offset(Setting::SensorPage) as int]),
                cur_setting: SensorSetting::Resolution,
                port_init: false,
                tone_active: 0,
                settings_active: false,
                last_reading: 0,
                continuity_channel: false,
                show_raw: false,
                show_tempf: false,
            }),
    {
        let saved_page = settings.read_setting_byte(Setting::SensorPage);
        Sensors {
            cur_page: saved_page.into(),
            cur_setting: SensorSetting::Resolution,
            port_init: false,
            tone_active: 0,
            settings_active: false,
            last_reading: 0,
            continuity_channel: false,
            show_raw: false,
            show_tempf: false,
        }
    }

    /// Writes what the settings screen shows for the current setting of `adc` (see
    /// `setting_text`).
    pub fn format_setting(&self, buf: &mut [u8; NUM_CHARS], adc: &AdcSettings)
        ensures
            final(buf)@ == setting_text(self.cur_setting, *adc),
    {
        proof {
            reveal_with_fuel(pow2_small, 10);
            reveal(setting_text);
        }
        let yes: [u8; 3] = [121u8, 101, 115];
        let no: [u8; 3] = [32u8, 110, 111];
        assert(yes@ =~= yes_no(true));
        assert(no@ =~= yes_no(false));
        match self.cur_setting {
            SensorSetting::Resolution => {
                // "Res:"
                let label: [u8; 4] = [82u8, 101, 115, 58];
                let bits: [u8; 1] = [98u8];
                assert(label@ =~= setting_label(self.cur_setting));
                assert(bits@ =~= seq![98u8]);
                let value: u16 = match adc.resolution {
                    Resolution::Bits10 => 10,
                    Resolution::Bits8 => 8,
                };
                format_uint(buf, &label, value, 0, Some(&bits));
            },
            SensorSetting::SampleNumber => {
                // "Snum:"
                let label: [u8; 5] = [83u8, 110, 117, 109, 58];
                assert(label@ =~= setting_label(self.cur_setting));
                let value: u16 = match adc.sample_number {
                    SampleNumber::Acc1 => 1,
                    SampleNumber::Acc2 => 2,
                    SampleNumber::Acc4 => 4,
                    SampleNumber::Acc8 => 8,
                    SampleNumber::Acc16 => 16,
                    SampleNumber::Acc32 => 32,
                    SampleNumber::Acc64 => 64,
                };
                format_uint(buf, &label, value, 0, None);
            },
            SensorSetting::SampCap => {
                // "Scap:"
                let label: [u8; 5] = [83u8, 99, 97, 112, 58];
                assert(label@ =~= setting_label(self.cur_setting));
                if adc.samp_cap {
                    format_buf(buf, &label, &yes);
                } else {
                    format_buf(buf, &label, &no);
                }
            },
            SensorSetting::RefVoltage => {
                // "Vr:"
                let label: [u8; 3] = [86u8, 114, 58];
                assert(label@ =~= setting_label(self.cur_setting));
                if adc.adc_ref_voltage == AdcReferenceVoltage::IntRef {
                    match adc.int_ref_voltage {
                        IntReferenceVoltage::V0_55 => {
                            let v: [u8; 5] = [48u8, 46, 53, 53, 86];
                            assert(v@ =~= int_ref_text(adc.int_ref_voltage));
                            format_buf(buf, &label, &v);
                        },
                        IntReferenceVoltage::V1_1 => {
                            let v: [u8; 4] = [49u8, 46, 49, 86];
                            assert(v@ =~= int_ref_text(adc.int_ref_voltage));
                            format_buf(buf, &label, &v);
                        },
                        IntReferenceVoltage::V2_5 => {
                            let v: [u8; 4] = [50u8, 46, 53, 86];
                            assert(v@ =~= int_ref_text(adc.int_ref_voltage));
                            format_buf(buf, &label, &v);
                        },
                        IntReferenceVoltage::V4_34 => {
                            let v: [u8; 5] = [52u8, 46, 51, 52, 86];
                            assert(v@ =~= int_ref_text(adc.int_ref_voltage));
                            format_buf(buf, &label, &v);
                        },
                        IntReferenceVoltage::V1_5 => {
                            let v: [u8; 4] = [49u8, 46, 53, 86];
                            assert(v@ =~= int_ref_text(adc.int_ref_voltage));
                            format_buf(buf, &label, &v);
                        },
                    }
                } else {
                    // "Vdd"
                    let v: [u8; 3] = [86u8, 100, 100];
                    assert(v@ =~= seq![86u8, 100, 100]);
                    format_buf(buf, &label, &v);
                }
            },
            SensorSetting::Prescaler => {
                // "Div:"
                let label: [u8; 4] = [68u8, 105, 118, 58];
                assert(label@ =~= setting_label(self.cur_setting));
                let value: u16 = match adc.prescaler {
                    Prescaler::Div2 => 2,
                    Prescaler::Div4 => 4,
                    Prescaler::Div8 => 8,
                    Prescaler::Div16 => 16,
                    Prescaler::Div32 => 32,
                    Prescaler::Div64 => 64,
                    Prescaler::Div128 => 128,
                    Prescaler::Div256 => 256,
                };
                format_uint(buf, &label, value, 0, None);
            },
            SensorSetting::InitDelay => {
                // "Idly:"
                let label: [u8; 5] = [73u8, 100, 108, 121, 58];
                assert(label@ =~= setting_label(self.cur_setting));
                let value: u16 = match adc.init_delay {
                    InitDelay::Dly0 => 0,
                    InitDelay::Dly16 => 16,
                    InitDelay::Dly32 => 32,
                    InitDelay::Dly64 => 64,
                    InitDelay::Dly128 => 128,
                    InitDelay::Dly256 => 256,
                };
                format_uint(buf, &label, value, 0, None);
            },
            SensorSetting::SetAsdv => {
                // "Asdv:"
                let label: [u8; 5] = [65u8, 115, 100, 118, 58];
                assert(label@ =~= setting_label(self.cur_setting));
                if adc.asdv {
                    format_buf(buf, &label, &yes);
                } else {
                    format_buf(buf, &label, &no);
                }
            },
            SensorSetting::SampleDelay => {
                // "Sdly:"
                let label: [u8; 5] = [83u8, 100, 108, 121, 58];
                assert(label@ =~= setting_label(self.cur_setting));
                format_uint(buf, &label, adc.sample_delay as u16, 0, None);
            },
            SensorSetting::SampleLength => {
                // "Slen:"
                let label: [u8; 5] = [83u8, 108, 101, 110, 58];
                assert(label@ =~= setting_label(self.cur_setting));
                format_uint(buf, &label, adc.sample_length as u16, 0, None);
            },
        }
    }

    /// Writes what the readings screen shows for `value` on the current page (see
    /// `reading_text`).
    pub fn format_reading(&mut self, value: u16, buf: &mut [u8; NUM_CHARS])
        ensures
            *final(self) == *old(self),
            final(buf)@ == reading_text(
                old(self).cur_page,
                old(self).show_raw,
                old(self).show_tempf,
                value,
            ),
    {
        proof {
            reveal(reading_text);
        }
        match self.cur_page {
            SensorPage::AdcChannel(AdcChannel::Temp) => {
                // "Tf:"
                let label: [u8; 3] = [84u8, 102, 58];
                assert(label@ =~= seq![84u8, 102, 58]);
                if self.show_raw {
                    format_uint(buf, &label, value, 0, None);
                } else if self.show_tempf {
                    let unit: [u8; 2] = [152u8, 70];
                    assert(unit@ =~= seq![152u8, 70]);
                    format_uint(buf, &label, value, 0, Some(&unit));
                } else {
                    let unit: [u8; 2] = [152u8, 67];
                    assert(unit@ =~= seq![152u8, 67]);
                    format_uint(buf, &label, value, 0, Some(&unit));
                }
            },
            SensorPage::AdcChannel(channel) => {
                let label: [u8; 3] = match channel {
                    AdcChannel::Vsda => [86u8, 98, 58],
                    AdcChannel::Vscl => [86u8, 121, 58],
                    AdcChannel::Vref => [86u8, 114, 58],
                    _ => [86u8, 103, 58],
                };
                assert(label@ =~= channel_label(channel));
                if self.show_raw {
                    format_uint(buf, &label, value, 0, None);
                } else {
                    let unit: [u8; 1] = [86u8];
                    assert(unit@ =~= seq![86u8]);
                    format_uint(buf, &label, value, DECIMAL_PRECISION, Some(&unit));
                }
            },
            SensorPage::ContinuityTest => {
                // "Cx:"
                let label: [u8; 3] = [67u8, 120, 58];
                assert(label@ =~= seq![67u8, 120, 58]);
                let text: [u8; 5] = if value == CONTINUITY_BLUE_READING_MASK {
                    [32u8, 98, 108, 117, 101]
                } else if value == CONTINUITY_YELLOW_READING_MASK {
                    [121u8, 101, 108, 108, 119]
                } else if value == CONTINUITY_BOTH_READING_MASK {
                    [98u8, 108, 43, 121, 108]
                } else {
                    [32u8, 110, 111, 110, 101]
                };
                assert(text@ =~= continuity_text(value));
                format_buf(buf, &label, &text);
            },
        }
    }

    /// Steps the current setting of `adc` down.
    pub fn decrement_cur_setting(&mut self, adc: &mut AdcSettings)
        requires
            settings_fit(*old(adc)),
        ensures
            *final(self) == *old(self),
            *final(adc) == adjust_setting(*old(adc), old(self).cur_setting, false),
            settings_fit(*final(adc)),
    {
        self.adjust_cur_setting(adc, false);
    }

    /// Steps the current setting of `adc` up.
    pub fn increment_cur_setting(&mut self, adc: &mut AdcSettings)
        requires
            settings_fit(*old(adc)),
        ensures
            *final(self) == *old(self),
            *final(adc) == adjust_setting(*old(adc), old(self).cur_setting, true),
            settings_fit(*final(adc)),
    {
        self.adjust_cur_setting(adc, true);
    }

    /// Steps the current setting of `adc` up (`increment`) or down (see `adjust_setting`).
    pub fn adjust_cur_setting(&mut self, adc: &mut AdcSettings, increment: bool)
        requires
            settings_fit(*old(adc)),
        ensures
            *final(self) == *old(self),
            *final(adc) == adjust_setting(*old(adc), old(self).cur_setting, increment),
            settings_fit(*final(adc)),
    {
        proof {
            reveal(adjust_setting);
        }
        match self.cur_setting {
            SensorSetting::Resolution => adc.resolution = if increment {
                adc.resolution.next()
            } else {
                adc.resolution.prev()
            },
            SensorSetting::SampleNumber => adc.sample_number = if increment {
                adc.sample_number.next()
            } else {
                adc.sample_number.prev()
            },
            SensorSetting::SampCap => adc.samp_cap = !adc.samp_cap,
            SensorSetting::RefVoltage => {
                if increment {
                    if adc.adc_ref_voltage == AdcReferenceVoltage::IntRef {
                        if adc.int_ref_voltage == IntReferenceVoltage::V4_34 {
                            adc.adc_ref_voltage = AdcReferenceVoltage::VddRef;
                        } else {
                            adc.int_ref_voltage = adc.int_ref_voltage.next();
                        }
                    }
                } else {
                    if adc.adc_ref_voltage == AdcReferenceVoltage::VddRef {
                        adc.adc_ref_voltage = AdcReferenceVoltage::IntRef;
                        adc.int_ref_voltage = IntReferenceVoltage::V4_34;
                    } else {
                        adc.int_ref_voltage = adc.int_ref_voltage.prev();
                    }
                }
            },
            SensorSetting::Prescaler => adc.prescaler = if increment {
                adc.prescaler.next()
            } else {
                adc.prescaler.prev()
            },
            SensorSetting::InitDelay => adc.init_delay = if increment {
                adc.init_delay.next()
            } else {
                adc.init_delay.prev()
            },
            SensorSetting::SetAsdv => adc.asdv = !adc.asdv,
            SensorSetting::SampleDelay => adc.sample_delay = if increment {
                if adc.sample_delay + 1 < 15 {
                    adc.sample_delay + 1
                } else {
                    15
                }
            } else {
                adc.sample_delay.saturating_sub(1)
            },
            SensorSetting::SampleLength => adc.sample_length = if increment {
                if adc.sample_length + 1 < 31 {
                    adc.sample_length + 1
                } else {
                    31
                }
            } else {
                adc.sample_length.saturating_sub(1)
            },
        }
    }

    /// Switches the readings format (see `toggled`).
    pub fn toggle_reading_format(&mut self)
        ensures
            *final(self) == toggled(*old(self)),
    {
        match self.cur_page {
            SensorPage::AdcChannel(AdcChannel::Temp) => {
                if !self.show_raw && !self.show_tempf {
                    self.show_tempf = true;
                } else if !self.show_raw && self.show_tempf {
                    self.show_tempf = false;
                    self.show_raw = true;
                } else {
                    self.show_raw = false;
                }
            },
            _ => self.show_raw = !self.show_raw,
        }
    }

    /// Handles `event` (see `sensors_event`); gives whether it asks for a redraw.
    fn on_event(
        &mut self,
        event: Option<InputEvent>,
        adc: &mut Adc,
        actions: &mut Vec<Action>,
        settings: &mut SavedSettings,
    ) -> (r: bool)
        requires
            !leaves(*old(self), event),
            settings_fit(old(adc).settings),
        ensures
            settings_fit(final(adc).settings),
            ({
                let (s1, settings1, a1, saved, u1) = sensors_event(
                    *old(self),
                    old(adc).settings,
                    event,
                );
                &&& *final(self) == s1
                &&& *final(adc) == (Adc { settings: settings1, ..*old(adc) })
                &&& final(actions)@ == old(actions)@ + a1
                &&& r == u1
                &&& match saved {
                    Some(v) => {
                        &&& final(settings).cells() == old(settings).cells().update(
                            setting_offset(Setting::SensorPage) as int,
                            v,
                        )
                        &&& final(settings).pending() == old(settings).pending().push(
                            (Setting::SensorPage.offset_spec(), v),
                        )
                    },
                    None => *final(settings) == *old(settings),
                }
            }),
    {
        let ghost a0 = actions@;
        match event {
            Some(InputEvent::LeftHeld) => {
                // on the settings screen: back to the readings with the settings applied
                self.settings_active = false;
                adc.apply_settings(actions);
                true
            },
            Some(InputEvent::RightHeld) => {
                // the next setting, or into the settings screen
                if self.settings_active {
                    self.cur_setting = self.cur_setting.next_wrapping();
                } else {
                    self.settings_active = true;
                }
                true
            },
            Some(InputEvent::LeftReleased) => {
                if self.settings_active {
                    self.decrement_cur_setting(&mut adc.settings);
                } else {
                    self.toggle_reading_format();
                }
                assert(actions@ =~= a0 + seq![]);
                true
            },
            Some(InputEvent::RightReleased) => {
                if self.settings_active {
                    self.increment_cur_setting(&mut adc.settings);
                    assert(actions@ =~= a0 + seq![]);
                } else {
                    self.cur_page = self.cur_page.next();
                    self.port_init = false;
                    self.last_reading = 0;
                    actions.push(Action::NoTone);
                    self.tone_active = 0;
                    settings.save_setting_byte(Setting::SensorPage, self.cur_page.into());
                }
                true
            },
            _ => {
                assert(actions@ =~= a0 + seq![]);
                false
            },
        }
    }

    /// Sets the I2C pins up for the page unless that is done (see `port_actions`).
    fn init_port(&mut self, actions: &mut Vec<Action>)
        ensures
            *final(self) == (Sensors { port_init: true, ..*old(self) }),
            final(actions)@ == old(actions)@ + port_actions(*old(self)),
    {
        let ghost a0 = actions@;
        if !self.port_init {
            match self.cur_page {
                SensorPage::AdcChannel(_) => {
                    // floating to measure a voltage
                    actions.push(Action::I2cPinsFloating);
                },
                SensorPage::ContinuityTest => {
                    // pulled up for the continuity test
                    actions.push(Action::I2cPinsPullup);
                },
            }
            self.port_init = true;
        }
        assert(actions@ =~= a0 + port_actions(*old(self)));
    }

    /// Takes one reading for the page (see `sensors_read`); gives whether it changed.
    fn read(&mut self, adc: &mut Adc, sample: AdcSample, actions: &mut Vec<Action>) -> (r: bool)
        ensures
            ({
                let (s1, adc1, a1, changed) = sensors_read(*old(self), *old(adc), sample);
                &&& *final(self) == s1
                &&& *final(adc) == adc1
                &&& final(actions)@ == old(actions)@ + a1
                &&& r == changed
            }),
    {
        proof {
            reveal(reading_value);
        }
        let ghost a0 = actions@;
        let reading = match self.cur_page {
            SensorPage::AdcChannel(channel) => {
                if self.show_raw {
                    adc.read_raw_nonblocking(channel, sample, actions)
                } else {
                    match channel {
                        AdcChannel::Temp => adc.read_temp_nonblocking(
                            self.show_tempf,
                            sample,
                            actions,
                        ),
                        _ => adc.read_voltage_nonblocking(channel, sample, actions),
                    }
                }
            },
            SensorPage::ContinuityTest => {
                // the two lines in turn, each setting its own bit of the mask
                let (channel, mask) = if self.continuity_channel {
                    (AdcChannel::Vsda, CONTINUITY_YELLOW_READING_MASK)
                } else {
                    (AdcChannel::Vscl, CONTINUITY_BLUE_READING_MASK)
                };
                match adc.read_raw_nonblocking(channel, sample, actions) {
                    Some(r) => {
                        self.continuity_channel = !self.continuity_channel;
                        Some(
                            if r == 0u16 {
                                self.last_reading | mask
                            } else {
                                self.last_reading & !mask
                            },
                        )
                    },
                    None => None,
                }
            },
        };
        if sample.busy {
            assert(actions@ =~= a0 + seq![]);
        }
        if let Some(reading) = reading {
            if reading != self.last_reading {
                self.last_reading = reading;
                return true;
            }
        }
        false
    }

    /// Sets the buzzer for the readings (see `tone_update`).
    fn update_tone(&mut self, actions: &mut Vec<Action>)
        ensures
            *final(self) == tone_update(*old(self)).0,
            final(actions)@ == old(actions)@ + tone_update(*old(self)).1,
    {
        let ghost a0 = actions@;
        if self.cur_page == SensorPage::ContinuityTest {
            if (self.last_reading as u8) != self.tone_active {
                let freq: u32 = if self.last_reading == CONTINUITY_BLUE_READING_MASK {
                    3000
                } else if self.last_reading == CONTINUITY_YELLOW_READING_MASK {
                    4000
                } else if self.last_reading == CONTINUITY_BOTH_READING_MASK {
                    5000
                } else {
                    0
                };
                self.tone_active = self.last_reading as u8;
                actions.push(Action::Tone(freq, 0));
            }
        } else if self.tone_active > 0 {
            actions.push(Action::NoTone);
            self.tone_active = 0;
        }
        assert(actions@ =~= a0 + tone_update(*old(self)).1);
    }

    /// One cycle of the sensors mode. Holding left on the readings turns the ADC off, lets the
    /// I2C pins float, silences the buzzer and goes back to the menu; anything else is one step
    /// of `sensors_step`, whose text ends up on the display.
    pub fn update(
        &mut self,
        event: Option<InputEvent>,
        context: &mut Context,
        peripherals: &mut Peripherals,
    )
        requires
            settings_fit(old(peripherals).adc.settings),
        ensures
            update_post(
                *old(self),
                *final(self),
                event,
                *old(context),
                *final(context),
                *old(peripherals),
                *final(peripherals),
            ),
    {
        let mut update = context.need_update();

        if event == Some(InputEvent::LeftHeld) && !self.settings_active {
            // leaving: the ADC off, the pins floating, the buzzer silent
            let ghost a0 = peripherals.actions@;
            peripherals.adc.disable(&mut peripherals.actions);
            peripherals.actions.push(Action::I2cPinsFloating);
            peripherals.actions.push(Action::NoTone);
            context.to_menu();
            assert(peripherals.actions@ =~= a0 + seq![
                Action::AdcDisable,
                Action::I2cPinsFloating,
                Action::NoTone,
            ]);
            return ;
        }
        self.step(event, update, &mut context.settings, peripherals);
    }

    /// One cycle that does not leave the mode (see `sensors_step`), with `redraw` asking for a
    /// frame anyway.
    fn step(
        &mut self,
        event: Option<InputEvent>,
        redraw: bool,
        settings: &mut SavedSettings,
        peripherals: &mut Peripherals,
    )
        requires
            settings_fit(old(peripherals).adc.settings),
            !leaves(*old(self), event),
        ensures
            settings_fit(final(peripherals).adc.settings),
            final(peripherals).rng == old(peripherals).rng,
            final(peripherals).adc_sample == old(peripherals).adc_sample,
            ({
                let (s, adc, acts, text, saved) = sensors_step(
                    *old(self),
                    old(peripherals).adc,
                    old(peripherals).adc_sample,
                    event,
                    redraw,
                );
                &&& *final(self) == s
                &&& final(peripherals).adc == adc
                &&& match text {
                    Some(t) => appended_text(
                        old(peripherals).actions@ + acts,
                        final(peripherals).actions@,
                        t,
                    ),
                    None => final(peripherals).actions@ == old(peripherals).actions@ + acts,
                }
                &&& match saved {
                    Some(v) => {
                        &&& final(settings).cells() == old(settings).cells().update(
                            setting_offset(Setting::SensorPage) as int,
                            v,
                        )
                        &&& final(settings).pending() == old(settings).pending().push(
                            (Setting::SensorPage.offset_spec(), v),
                        )
                    },
                    None => *final(settings) == *old(settings),
                }
            }),
    {
        let ghost a0 = peripherals.actions@;
        let ghost e1 = sensors_event(*old(self), old(peripherals).adc.settings, event).2;
        let mut update = redraw;
        if self.on_event(event, &mut peripherals.adc, &mut peripherals.actions, settings) {
            update = true;
        }
        let ghost a1 = peripherals.actions@;
        let ghost s1 = *self;
        let ghost adc1 = peripherals.adc;
        self.show(update, peripherals);
        proof {
            let (s2, adc2, a2, text) = sensors_show(s1, adc1, old(peripherals).adc_sample, update);
            assert(a0 + e1 + a2 =~= a0 + (e1 + a2));
        }
    }

    /// What follows the event in one cycle (see `sensors_show`).
    #[verifier::rlimit(30)]
    fn show(&mut self, update: bool, peripherals: &mut Peripherals)
        requires
            settings_fit(old(peripherals).adc.settings),
        ensures
            settings_fit(final(peripherals).adc.settings),
            final(peripherals).rng == old(peripherals).rng,
            final(peripherals).adc_sample == old(peripherals).adc_sample,
            ({
                let (s, adc, acts, text) = sensors_show(
                    *old(self),
                    old(peripherals).adc,
                    old(peripherals).adc_sample,
                    update,
                );
                &&& *final(self) == s
                &&& final(peripherals).adc == adc
                &&& match text {
                    Some(t) => appended_text(
                        old(peripherals).actions@ + acts,
                        final(peripherals).actions@,
                        t,
                    ),
                    None => final(peripherals).actions@ == old(peripherals).actions@ + acts,
                }
            }),
    {
        let ghost a0 = peripherals.actions@;
        let ghost p2 = port_actions(*self);
        let mut update = update;
        self.init_port(&mut peripherals.actions);
        let ghost s2 = *self;
        let ghost adc2 = peripherals.adc;

        // a new reading, when there is nothing else to show
        let ghost mut r3: Seq<Action> = seq![];
        if !update && !self.settings_active {
            let sample = peripherals.adc_sample;
            if self.read(&mut peripherals.adc, sample, &mut peripherals.actions) {
                update = true;
            }
            proof {
                r3 = sensors_read(s2, adc2, sample).2;
            }
        }
        assert(peripherals.actions@ =~= a0 + (p2 + r3));
        let ghost s3 = *self;

        if update {
            let mut buf = [0u8; NUM_CHARS];
            if self.settings_active {
                self.format_setting(&mut buf, &peripherals.adc.settings);
            } else {
                // the buzzer for the continuity test
                self.update_tone(&mut peripherals.actions);
                assert(peripherals.actions@ =~= a0 + (p2 + r3 + tone_update(s3).1));
                let value = self.last_reading;
                self.format_reading(value, &mut buf);
            }
            show_text(&mut peripherals.actions, buf);
        }
    }
}

/// Turning the page six times comes back to the same page: every page is visited.
pub proof fn lemma_page_cycle(page: SensorPage)
    ensures
        page_after(page_after(page_after(page_after(page_after(page_after(page)))))) == page,
{
}

/// One cycle of `Sensors::update`: the mode `s0` becomes `s1`, the context `c0` becomes `c1` and
/// the peripherals `p0` become `p1` on `event`.
pub open spec fn update_post(
    s0: Sensors,
    s1: Sensors,
    event: Option<InputEvent>,
    c0: Context,
    c1: Context,
    p0: Peripherals,
    p1: Peripherals,
) -> bool {
    &&& settings_fit(p1.adc.settings)
    &&& p1.rng == p0.rng
    &&& p1.adc_sample == p0.adc_sample
    &&& c1.tone_enabled == c0.tone_enabled
    &&& leaves(s0, event) ==> {
        &&& c1.mode_index == 0
        &&& c1.menu_counter == c0.menu_counter.wrapping_add(1)
        &&& s1 == s0
        &&& p1.adc == (Adc { channel: None, ..p0.adc })
        &&& p1.actions@ == p0.actions@ + seq![
            Action::AdcDisable,
            Action::I2cPinsFloating,
            Action::NoTone,
        ]
        &&& c1.settings == c0.settings
    }
    &&& !leaves(s0, event) ==> {
        let (s, adc, acts, text, saved) = sensors_step(
            s0,
            p0.adc,
            p0.adc_sample,
            event,
            c0.redraw,
        );
        &&& s1 == s
        &&& p1.adc == adc
        &&& c1.mode_index == c0.mode_index
        &&& c1.menu_counter == c0.menu_counter
        &&& !c1.redraw
        &&& match text {
            Some(t) => appended_text(
                p0.actions@ + acts,
                p1.actions@,
                t,
            ),
            None => p1.actions@ == p0.actions@ + acts,
        }
        &&& match saved {
            Some(v) => {
                &&& c1.settings.cells() == c0.settings.cells().update(
                    setting_offset(Setting::SensorPage) as int,
                    v,
                )
                &&& c1.settings.pending() == c0.settings.pending().push((Setting::SensorPage.offset_spec(), v))
            },
            None => c1.settings == c0.settings,
        }
    }
}

} // verus!
