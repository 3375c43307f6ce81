use super::sensors::adc::{
    AdcSettings, ClockDivider, DelayCycles, ReferenceVoltage, Resolution, SampleNumber,
};
use super::{appended_text, show_text, Action, Context, Peripherals};
use crate::adc::{spec_temp_from_raw, temp_kelvin, AdcChannel, AdcSample};
use crate::input::InputEvent;
use crate::utils::{format_uint, spec_format_uint};
use crate::NUM_CHARS;
use vstd::prelude::*;

verus! {

/// The screens of the utilities mode: three readings, then the ADC settings. The external
/// voltage is read on AIN10, the SDA line of the external connector.
#[derive(Clone, Copy, Debug, PartialEq, Eq, Structural)]
pub enum Util {
    ReadTemp,
    ReadVext,
    ReadVint,
    SetResolution,
    SetSampleNumber,
    SetSampCap,
    SetRefVoltage,
    SetPrescaler,
    SetInitDelay,
    SetSampleDelay,
    SetSampleLength,
}

/// The utilities mode: readings of the temperature and two voltages, and the ADC settings
/// used for the voltages. The factory calibration of the temperature sensor comes with it.
pub struct Utils {
    pub cur_util: Util,
    pub last_update: u16,
    pub adc_settings: AdcSettings,
    pub sigrow_offset: i8,
    pub sigrow_gain: u8,
    pub util_init: bool,
    pub show_raw: bool,
    pub buf: [u8; NUM_CHARS],
}

/// Digits after the point of a voltage (X.YY).
pub const DECIMAL_PRECISION: u16 = 2;

/// The settings for the voltages: 10 bit, 16 samples, 2.5 V, clock divided by 256.
pub open spec fn voltage_adc_settings() -> AdcSettings {
    AdcSettings {
        resolution: Resolution::_10bit,
        sample_number: SampleNumber::Acc16,
        samp_cap: true,
        ref_voltage: ReferenceVoltage::VRef2_5V,
        clock_divider: ClockDivider::Factor256,
        init_delay: DelayCycles::Delay0,
        asdv: false,
        sample_delay: 0,
        sample_length: 0,
    }
}

/// The settings for the temperature: 10 bit, one sample, 1.1 V, clock divided by 256, a delay
/// of 32 cycles and a longer sample.
pub open spec fn temp_adc_settings() -> AdcSettings {
    AdcSettings {
        resolution: Resolution::_10bit,
        sample_number: SampleNumber::Acc1,
        samp_cap: true,
        ref_voltage: ReferenceVoltage::VRef1_1V,
        clock_divider: ClockDivider::Factor256,
        init_delay: DelayCycles::Delay32,
        asdv: false,
        sample_delay: 0,
        sample_length: 4,
    }
}

/// The settings for the voltages (see `voltage_adc_settings`).
pub fn voltage_settings() -> (r: AdcSettings)
    ensures
        r == voltage_adc_settings(),
{
    AdcSettings {
        resolution: Resolution::_10bit,
        sample_number: SampleNumber::Acc16,
        samp_cap: true,
        ref_voltage: ReferenceVoltage::VRef2_5V,
        clock_divider: ClockDivider::Factor256,
        init_delay: DelayCycles::Delay0,
        asdv: false,
        sample_delay: 0,
        sample_length: 0,
    }
}

/// The settings for the temperature (see `temp_adc_settings`).
pub fn temp_settings() -> (r: AdcSettings)
    ensures
        r == temp_adc_settings(),
{
    AdcSettings {
        resolution: Resolution::_10bit,
        sample_number: SampleNumber::Acc1,
        samp_cap: true,
        ref_voltage: ReferenceVoltage::VRef1_1V,
        clock_divider: ClockDivider::Factor256,
        init_delay: DelayCycles::Delay32,
        asdv: false,
        sample_delay: 0,
        sample_length: 4,
    }
}

/// What the mode shows for `u` with ADC settings `s`: a placeholder for a reading, or the
/// setting's value; the sample delay and length are written as numbers.
pub open spec fn util_text(u: Util, s: AdcSettings) -> Seq<u8> {
    match u {
        Util::ReadTemp => seq![84u8, 102, 58, 46, 46, 46, 46, 152],
        Util::ReadVext => seq![86u8, 101, 58, 46, 46, 46, 46, 86],
        Util::ReadVint => seq![86u8, 105, 58, 46, 46, 46, 46, 86],
        Util::SetResolution => {
            match s.resolution {
                Resolution::_10bit => seq![82u8, 101, 115, 58, 32, 49, 48, 98],
                Resolution::_8bit => seq![82u8, 101, 115, 58, 32, 32, 56, 98],
            }
        },
        Util::SetSampleNumber => {
            match s.sample_number {
                SampleNumber::Acc1 => seq![83u8, 110, 117, 109, 58, 32, 32, 49],
                SampleNumber::Acc2 => seq![83u8, 110, 117, 109, 58, 32, 32, 50],
                SampleNumber::Acc4 => seq![83u8, 110, 117, 109, 58, 32, 32, 52],
                SampleNumber::Acc8 => seq![83u8, 110, 117, 109, 58, 32, 32, 56],
                SampleNumber::Acc16 => seq![83u8, 110, 117, 109, 58, 32, 49, 54],
                SampleNumber::Acc32 => seq![83u8, 110, 117, 109, 58, 32, 51, 50],
                SampleNumber::Acc64 => seq![83u8, 110, 117, 109, 58, 32, 54, 52],
            }
        },
        Util::SetSampCap => if s.samp_cap {
            seq![83u8, 99, 97, 112, 58, 121, 101, 115]
        } else {
            seq![83u8, 99, 97, 112, 58, 32, 110, 111]
        },
        Util::SetRefVoltage => {
            match s.ref_voltage {
                ReferenceVoltage::VRef0_55V => seq![86u8, 114, 58, 48, 46, 53, 53, 86],
                ReferenceVoltage::VRef1_1V => seq![86u8, 114, 58, 32, 49, 46, 49, 86],
                ReferenceVoltage::VRef1_5V => seq![86u8, 114, 58, 32, 49, 46, 53, 86],
                ReferenceVoltage::VRef2_5V => seq![86u8, 114, 58, 32, 50, 46, 53, 86],
                ReferenceVoltage::VRef4_34V => seq![86u8, 114, 58, 52, 46, 51, 52, 86],
                ReferenceVoltage::Vdd => seq![86u8, 114, 58, 32, 32, 86, 100, 100],
            }
        },
        Util::SetPrescaler => {
            match s.clock_divider {
                ClockDivider::Factor2 => seq![68u8, 105, 118, 58, 32, 32, 32, 50],
                ClockDivider::Factor4 => seq![68u8, 105, 118, 58, 32, 32, 32, 52],
                ClockDivider::Factor8 => seq![68u8, 105, 118, 58, 32, 32, 32, 56],
                ClockDivider::Factor16 => seq![68u8, 105, 118, 58, 32, 32, 49, 54],
                ClockDivider::Factor32 => seq![68u8, 105, 118, 58, 32, 32, 51, 50],
                ClockDivider::Factor64 => seq![68u8, 105, 118, 58, 32, 32, 54, 52],
                ClockDivider::Factor128 => seq![68u8, 105, 118, 58, 32, 49, 50, 56],
                ClockDivider::Factor256 => seq![68u8, 105, 118, 58, 32, 50, 53, 54],
            }
        },
        Util::SetInitDelay => {
            match s.init_delay {
                DelayCycles::Delay0 => seq![73u8, 100, 108, 121, 58, 32, 32, 48],
                DelayCycles::Delay16 => seq![73u8, 100, 108, 121, 58, 32, 49, 54],
                DelayCycles::Delay32 => seq![73u8, 100, 108, 121, 58, 32, 51, 50],
                DelayCycles::Delay64 => seq![73u8, 100, 108, 121, 58, 32, 54, 52],
                DelayCycles::Delay128 => seq![73u8, 100, 108, 121, 58, 49, 50, 56],
                DelayCycles::Delay256 => seq![73u8, 100, 108, 121, 58, 50, 53, 54],
            }
        },
        Util::SetSampleDelay => spec_format_uint(
            NUM_CHARS as nat,
            seq![83u8, 100, 108, 121, 58],
            s.sample_delay as nat,
            0,
            Seq::empty(),
        ),
        Util::SetSampleLength => spec_format_uint(
            NUM_CHARS as nat,
            seq![83u8, 108, 101, 110, 58],
            s.sample_length as nat,
            0,
            Seq::empty(),
        ),
    }
}

/// The screen after `u`, wrapping around.
pub open spec fn util_after(u: Util) -> Util {
    match u {
        Util::ReadTemp => Util::ReadVext,
        Util::ReadVext => Util::ReadVint,
        Util::ReadVint => Util::SetResolution,
        Util::SetResolution => Util::SetSampleNumber,
        Util::SetSampleNumber => Util::SetSampCap,
        Util::SetSampCap => Util::SetRefVoltage,
        Util::SetRefVoltage => Util::SetPrescaler,
        Util::SetPrescaler => Util::SetInitDelay,
        Util::SetInitDelay => Util::SetSampleDelay,
        Util::SetSampleDelay => Util::SetSampleLength,
        Util::SetSampleLength => Util::ReadTemp,
    }
}

/// Whether a screen shows a reading.
pub open spec fn is_reading(u: Util) -> bool {
    u == Util::ReadTemp || u == Util::ReadVext || u == Util::ReadVint
}

/// The mode after a step of its setting down (`inc` false) or up, and whether it asks for a
/// redraw: on a reading the format switches between value and raw (no redraw); on a setting
/// the value moves to its neighbour and stays at the ends, the flag toggles, and the delays
/// stay at 0 below and within their bits above.
pub open spec fn util_adjusted(u: Utils, inc: bool) -> (Utils, bool) {
    let s = u.adc_settings;
    if is_reading(u.cur_util) {
        (Utils { show_raw: !u.show_raw, ..u }, false)
    } else {
        let s1 = match u.cur_util {
            Util::SetResolution => AdcSettings {
                resolution: if inc {
                    s.resolution.spec_next()
                } else {
                    s.resolution.spec_prev()
                },
                ..s
            },
            Util::SetSampleNumber => AdcSettings {
                sample_number: if inc {
                    s.sample_number.spec_next()
                } else {
                    s.sample_number.spec_prev()
                },
                ..s
            },
            Util::SetSampCap => AdcSettings { samp_cap: !s.samp_cap, ..s },
            Util::SetRefVoltage => AdcSettings {
                ref_voltage: if inc {
                    s.ref_voltage.spec_next()
                } else {
                    s.ref_voltage.spec_prev()
                },
                ..s
            },
            Util::SetPrescaler => AdcSettings {
                clock_divider: if inc {
                    s.clock_divider.spec_next()
                } else {
                    s.clock_divider.spec_prev()
                },
                ..s
            },
            Util::SetInitDelay => AdcSettings {
                init_delay: if inc {
                    s.init_delay.spec_next()
                } else {
                    s.init_delay.spec_prev()
                },
                ..s
            },
            Util::SetSampleDelay => AdcSettings {
                sample_delay: if inc {
                    if s.sample_delay + 1 < 15 {
                        (s.sample_delay + 1) as u8
                    } else {
                        15u8
                    }
                } else if s.sample_delay > 0 {
                    (s.sample_delay - 1) as u8
                } else {
                    0u8
                },
                ..s
            },
            _ => AdcSettings {
                sample_length: if inc {
                    if s.sample_length + 1 < 31 {
                        (s.sample_length + 1) as u8
                    } else {
                        31u8
                    }
                } else if s.sample_length > 0 {
                    (s.sample_length - 1) as u8
                } else {
                    0u8
                },
                ..s
            },
        };
        (Utils { adc_settings: s1, ..u }, true)
    }
}

/// The internal reference voltages, or Vdd, in units of 10 microvolts.
pub open spec fn ref_e5(v: ReferenceVoltage) -> nat {
    match v {
        ReferenceVoltage::VRef0_55V => 55000,
        ReferenceVoltage::VRef1_1V => 110000,
        ReferenceVoltage::VRef1_5V => 150000,
        ReferenceVoltage::VRef2_5V => 250000,
        ReferenceVoltage::VRef4_34V => 434000,
        ReferenceVoltage::Vdd => 360000,
    }
}

/// Samples accumulated per conversion.
pub open spec fn acc_divisor(n: SampleNumber) -> nat {
    match n {
        SampleNumber::Acc1 => 1,
        SampleNumber::Acc2 => 2,
        SampleNumber::Acc4 => 4,
        SampleNumber::Acc8 => 8,
        SampleNumber::Acc16 => 16,
        SampleNumber::Acc32 => 32,
        SampleNumber::Acc64 => 64,
    }
}

/// The voltage, in hundredths of a volt, that an accumulated reading stands for: the reading
/// times the reference over the full-scale reading (in 32 bits, as on the device), then over
/// the samples accumulated.
pub open spec fn utils_voltage(s: AdcSettings, raw: u16) -> u16 {
    let raw_max: nat = match s.resolution {
        Resolution::_10bit => 1023,
        Resolution::_8bit => 255,
    };
    ((((raw as nat * ref_e5(s.ref_voltage)) % 0x1_0000_0000) / raw_max / 1000) / acc_divisor(
        s.sample_number,
    )) as u16
}

/// What a reading screen shows for `raw`: the value (temperature in Celsius with a degree sign,
/// voltages with two decimals and "V") or the raw number.
pub open spec fn reading_text(u: Utils, raw: u16) -> Seq<u8> {
    let n = NUM_CHARS as nat;
    match u.cur_util {
        Util::ReadTemp => if u.show_raw {
            spec_format_uint(n, seq![84u8, 102, 58], raw as nat, 0, Seq::empty())
        } else {
            spec_format_uint(
                n,
                seq![84u8, 102, 58],
                spec_temp_from_raw(raw, u.sigrow_offset, u.sigrow_gain, false) as nat,
                0,
                seq![152u8, 67],
            )
        },
        Util::ReadVext => if u.show_raw {
            spec_format_uint(n, seq![86u8, 101, 58], raw as nat, 0, Seq::empty())
        } else {
            spec_format_uint(
                n,
                seq![86u8, 101, 58],
                utils_voltage(u.adc_settings, raw) as nat,
                DECIMAL_PRECISION as nat,
                seq![86u8],
            )
        },
        _ => if u.show_raw {
            spec_format_uint(n, seq![86u8, 105, 58], raw as nat, 0, Seq::empty())
        } else {
            spec_format_uint(
                n,
                seq![86u8, 105, 58],
                utils_voltage(u.adc_settings, raw) as nat,
                DECIMAL_PRECISION as nat,
                seq![86u8],
            )
        },
    }
}

/// The mode after one non-blocking reading, the actions it queues, and the raw value if one
/// came: a reading screen not set up yet configures the ADC (the temperature with its own
/// settings, the voltages with the mode's), selects its input and starts a conversion, unless
/// a conversion is running; once set up, a finished conversion gives its result and the next
/// one starts. Setting screens read nothing.
pub open spec fn utils_read(u: Utils, sample: AdcSample) -> (Utils, Seq<Action>, Option<u16>) {
    if !u.util_init {
        if sample.busy || !is_reading(u.cur_util) {
            (u, seq![], None)
        } else {
            let (settings, channel) = match u.cur_util {
                Util::ReadTemp => (temp_adc_settings(), AdcChannel::Temp),
                Util::ReadVext => (u.adc_settings, AdcChannel::Vsda),
                _ => (u.adc_settings, AdcChannel::Vref),
            };
            (
                Utils { util_init: true, ..u },
                seq![
                    Action::AdcConfigure(settings),
                    Action::AdcSelect(channel),
                    Action::AdcStartConversion,
                ],
                None,
            )
        }
    } else if sample.busy {
        (u, seq![], None)
    } else {
        (u, seq![Action::AdcStartConversion], Some(sample.result))
    }
}

/// The mode after an event other than holding left, and what it makes of the redraw flag:
/// holding right turns to the next screen (which has to be set up again) and asks for a
/// redraw; a release steps the setting (see `util_adjusted`) and sets the flag to what that
/// gives; other events leave the flag.
pub open spec fn utils_event(u: Utils, event: Option<InputEvent>) -> (Utils, Option<bool>) {
    match event {
        Some(InputEvent::RightHeld) => (
            Utils { cur_util: util_after(u.cur_util), util_init: false, ..u },
            Some(true),
        ),
        Some(InputEvent::LeftReleased) => {
            let (u1, b) = util_adjusted(u, false);
            (u1, Some(b))
        },
        Some(InputEvent::RightReleased) => {
            let (u1, b) = util_adjusted(u, true);
            (u1, Some(b))
        },
        _ => (u, None),
    }
}

impl Utils {
    /// The mode on the temperature, nothing set up, with the voltage settings and the given
    /// calibration of the temperature sensor.
    pub fn new_with_adc(sigrow_offset: i8, sigrow_gain: u8) -> (r: Self)
        ensures
            r.cur_util == Util::ReadTemp,
            r.last_update == 0,
            r.adc_settings == voltage_adc_settings(),
            r.sigrow_offset == sigrow_offset,
            r.sigrow_gain == sigrow_gain,
            !r.util_init,
            !r.show_raw,
            r.buf@ == Seq::new(NUM_CHARS as nat, |i: int| 0u8),
    {
        let r = Utils {
            cur_util: Util::ReadTemp,
            last_update: 0,
            adc_settings: voltage_settings(),
            sigrow_offset,
            sigrow_gain,
            util_init: false,
            show_raw: false,
            buf: [0u8; NUM_CHARS],
        };
        assert(r.buf@ =~= Seq::new(NUM_CHARS as nat, |i: int| 0u8));
        r
    }

    /// The text for the current utility (see `util_text`).
    pub fn format_util(&mut self) -> (r: [u8; NUM_CHARS])
        ensures
            r@ == util_text(old(self).cur_util, old(self).adc_settings),
            final(self).cur_util == old(self).cur_util,
            final(self).last_update == old(self).last_update,
            final(self).adc_settings == old(self).adc_settings,
            final(self).sigrow_offset == old(self).sigrow_offset,
            final(self).sigrow_gain == old(self).sigrow_gain,
            final(self).util_init == old(self).util_init,
            final(self).show_raw == old(self).show_raw,
    {
        let r: [u8; NUM_CHARS] = match self.cur_util {
            Util::ReadTemp => [84u8, 102, 58, 46, 46, 46, 46, 152],
            Util::ReadVext => [86u8, 101, 58, 46, 46, 46, 46, 86],
            Util::ReadVint => [86u8, 105, 58, 46, 46, 46, 46, 86],
            Util::SetResolution => {
                match self.adc_settings.resolution {
                    Resolution::_10bit => [82u8, 101, 115, 58, 32, 49, 48, 98],
                    Resolution::_8bit => [82u8, 101, 115, 58, 32, 32, 56, 98],
                }
            },
            Util::SetSampleNumber => {
                match self.adc_settings.sample_number {
                    SampleNumber::Acc1 => [83u8, 110, 117, 109, 58, 32, 32, 49],
                    SampleNumber::Acc2 => [83u8, 110, 117, 109, 58, 32, 32, 50],
                    SampleNumber::Acc4 => [83u8, 110, 117, 109, 58, 32, 32, 52],
                    SampleNumber::Acc8 => [83u8, 110, 117, 109, 58, 32, 32, 56],
                    SampleNumber::Acc16 => [83u8, 110, 117, 109, 58, 32, 49, 54],
                    SampleNumber::Acc32 => [83u8, 110, 117, 109, 58, 32, 51, 50],
                    SampleNumber::Acc64 => [83u8, 110, 117, 109, 58, 32, 54, 52],
                }
            },
            Util::SetSampCap => {
                if self.adc_settings.samp_cap {
                    [83u8, 99, 97, 112, 58, 121, 101, 115]
                } else {
                    [83u8, 99, 97, 112, 58, 32, 110, 111]
                }
            },
            Util::SetRefVoltage => {
                match self.adc_settings.ref_voltage {
                    ReferenceVoltage::VRef0_55V => [86u8, 114, 58, 48, 46, 53, 53, 86],
                    ReferenceVoltage::VRef1_1V => [86u8, 114, 58, 32, 49, 46, 49, 86],
                    ReferenceVoltage::VRef1_5V => [86u8, 114, 58, 32, 49, 46, 53, 86],
                    ReferenceVoltage::VRef2_5V => [86u8, 114, 58, 32, 50, 46, 53, 86],
                    ReferenceVoltage::VRef4_34V => [86u8, 114, 58, 52, 46, 51, 52, 86],
                    ReferenceVoltage::Vdd => [86u8, 114, 58, 32, 32, 86, 100, 100],
                }
            },
            Util::SetPrescaler => {
                match self.adc_settings.clock_divider {
                    ClockDivider::Factor2 => [68u8, 105, 118, 58, 32, 32, 32, 50],
                    ClockDivider::Factor4 => [68u8, 105, 118, 58, 32, 32, 32, 52],
                    ClockDivider::Factor8 => [68u8, 105, 118, 58, 32, 32, 32, 56],
                    ClockDivider::Factor16 => [68u8, 105, 118, 58, 32, 32, 49, 54],
                    ClockDivider::Factor32 => [68u8, 105, 118, 58, 32, 32, 51, 50],
                    ClockDivider::Factor64 => [68u8, 105, 118, 58, 32, 32, 54, 52],
                    ClockDivider::Factor128 => [68u8, 105, 118, 58, 32, 49, 50, 56],
                    ClockDivider::Factor256 => [68u8, 105, 118, 58, 32, 50, 53, 54],
                }
            },
            Util::SetInitDelay => {
                match self.adc_settings.init_delay {
                    DelayCycles::Delay0 => [73u8, 100, 108, 121, 58, 32, 32, 48],
                    DelayCycles::Delay16 => [73u8, 100, 108, 121, 58, 32, 49, 54],
                    DelayCycles::Delay32 => [73u8, 100, 108, 121, 58, 32, 51, 50],
                    DelayCycles::Delay64 => [73u8, 100, 108, 121, 58, 32, 54, 52],
                    DelayCycles::Delay128 => [73u8, 100, 108, 121, 58, 49, 50, 56],
                    DelayCycles::Delay256 => [73u8, 100, 108, 121, 58, 50, 53, 54],
                }
            },
            Util::SetSampleDelay => {
                // "Sdly:"
                let label: [u8; 5] = [83u8, 100, 108, 121, 58];
                format_uint(&mut self.buf, &label, self.adc_settings.sample_delay as u16, 0, None);
                assert(label@ =~= seq![83u8, 100, 108, 121, 58]);
                self.buf
            },
            Util::SetSampleLength => {
                // "Slen:"
                let label: [u8; 5] = [83u8, 108, 101, 110, 58];
                format_uint(&mut self.buf, &label, self.adc_settings.sample_length as u16, 0, None);
                assert(label@ =~= seq![83u8, 108, 101, 110, 58]);
                self.buf
            },
        };
        assert(r@ =~= util_text(old(self).cur_util, old(self).adc_settings));
        r
    }

    /// Writes what a reading screen shows for `raw` (see `reading_text`); on other screens
    /// `buf` stays as it is.
    pub fn format_raw(&mut self, raw: u16, buf: &mut [u8; NUM_CHARS])
        ensures
            *final(self) == *old(self),
            is_reading(old(self).cur_util) ==> final(buf)@ == reading_text(*old(self), raw),
            !is_reading(old(self).cur_util) ==> final(buf)@ == old(buf)@,
    {
        match self.cur_util {
            Util::ReadTemp => {
                // "Tf:"
                let label: [u8; 3] = [84u8, 102, 58];
                assert(label@ =~= seq![84u8, 102, 58]);
                if self.show_raw {
                    format_uint(buf, &label, raw, 0, None);
                } else {
                    let unit: [u8; 2] = [152u8, 67];
                    assert(unit@ =~= seq![152u8, 67]);
                    let value = self.temp_from_raw(raw);
                    format_uint(buf, &label, value, 0, Some(&unit));
                }
            },
            Util::ReadVext | Util::ReadVint => {
                let label: [u8; 3] = if self.cur_util == Util::ReadVext {
                    // "Ve:"
                    [86u8, 101, 58]
                } else {
                    // "Vi:"
                    [86u8, 105, 58]
                };
                if self.show_raw {
                    format_uint(buf, &label, raw, 0, None);
                } else {
                    let unit: [u8; 1] = [86u8];
                    assert(unit@ =~= seq![86u8]);
                    let value = self.voltage_from_raw(raw);
                    format_uint(buf, &label, value, DECIMAL_PRECISION, Some(&unit));
                }
                assert(label@ =~= seq![86u8, 101, 58] || label@ =~= seq![86u8, 105, 58]);
            },
            _ => {},
        }
    }

    /// One non-blocking reading (see `utils_read`).
    pub fn read_raw(&mut self, sample: AdcSample, actions: &mut Vec<Action>) -> (r: Option<u16>)
        ensures
            ({
                let (u, a, v) = utils_read(*old(self), sample);
                &&& *final(self) == u
                &&& final(actions)@ == old(actions)@ + a
                &&& r == v
            }),
    {
        let ghost a0 = actions@;
        if !self.util_init {
            if sample.busy {
                // another measurement is running
                assert(actions@ =~= a0 + seq![]);
                return None;
            }
            // set up for the measurement and start it
            let (adc_settings, channel) = match self.cur_util {
                Util::ReadTemp => (temp_settings(), AdcChannel::Temp),
                Util::ReadVext => (self.adc_settings, AdcChannel::Vsda),
                Util::ReadVint => (self.adc_settings, AdcChannel::Vref),
                _ => {
                    assert(actions@ =~= a0 + seq![]);
                    return None;
                },
            };
            self.apply_adc_settings(adc_settings, actions);
            actions.push(Action::AdcSelect(channel));
            actions.push(Action::AdcStartConversion);
            self.util_init = true;
            assert(actions@ =~= a0 + seq![
                Action::AdcConfigure(adc_settings),
                Action::AdcSelect(channel),
                Action::AdcStartConversion,
            ]);
            None
        } else if sample.busy {
            // the measurement is running
            assert(actions@ =~= a0 + seq![]);
            None
        } else {
            // the measurement is done: take the result and start the next one
            actions.push(Action::AdcStartConversion);
            assert(actions@ =~= a0 + seq![Action::AdcStartConversion]);
            Some(sample.result)
        }
    }

    /// The voltage that `raw` stands for (see `utils_voltage`).
    pub fn voltage_from_raw(&self, raw: u16) -> (r: u16)
        ensures
            r == utils_voltage(self.adc_settings, raw),
    {
        // Vin = (raw * Vref) / raw_max, in this order for integer arithmetic
        let raw = raw as u32;
        let vrefe5: u32 = match self.adc_settings.ref_voltage {
            ReferenceVoltage::VRef0_55V => 55000,
            ReferenceVoltage::VRef1_1V => 110000,
            ReferenceVoltage::VRef1_5V => 150000,
            ReferenceVoltage::VRef2_5V => 250000,
            ReferenceVoltage::VRef4_34V => 434000,
            // about 3.6 V from an LIR2032 cell
            ReferenceVoltage::Vdd => 360000,
        };
        let raw_max: u32 = match self.adc_settings.resolution {
            Resolution::_10bit => 1023,
            Resolution::_8bit => 255,
        };
        let precision_divisor = pow10_u32(5 - DECIMAL_PRECISION as u32);
        proof {
            reveal_with_fuel(crate::utils::pow10, 4);
            assert(precision_divisor == 1000);
        }
        let accumulation_divisor: u32 = match self.adc_settings.sample_number {
            SampleNumber::Acc1 => 1,
            SampleNumber::Acc2 => 2,
            SampleNumber::Acc4 => 4,
            SampleNumber::Acc8 => 8,
            SampleNumber::Acc16 => 16,
            SampleNumber::Acc32 => 32,
            SampleNumber::Acc64 => 64,
        };
        let product = raw.wrapping_mul(vrefe5);
        ((((product / raw_max) / precision_divisor) / accumulation_divisor) as u16)
    }

    /// The temperature in Celsius (never below 0) that `raw` stands for.
    pub fn temp_from_raw(&mut self, raw: u16) -> (r: u16)
        ensures
            *final(self) == *old(self),
            r == spec_temp_from_raw(raw, old(self).sigrow_offset, old(self).sigrow_gain, false),
    {
        let temp_k = temp_kelvin(raw, self.sigrow_offset, self.sigrow_gain);
        temp_k.saturating_sub(273)
    }

    /// Writes `settings` to the ADC.
    pub fn apply_adc_settings(&mut self, settings: AdcSettings, actions: &mut Vec<Action>)
        ensures
            *final(self) == *old(self),
            final(actions)@ == old(actions)@.push(Action::AdcConfigure(settings)),
    {
        actions.push(Action::AdcConfigure(settings));
    }

    /// Steps the setting of the screen down (see `util_adjusted`); gives whether to redraw.
    pub fn decrement_util_setting(&mut self) -> (r: bool)
        ensures
            (*final(self), r) == util_adjusted(*old(self), false),
    {
        self.adjust_util_setting(false)
    }

    /// Steps the setting of the screen up (see `util_adjusted`); gives whether to redraw.
    pub fn increment_util_setting(&mut self) -> (r: bool)
        ensures
            (*final(self), r) == util_adjusted(*old(self), true),
    {
        self.adjust_util_setting(true)
    }

    /// Steps the setting of the screen down or up (see `util_adjusted`).
    fn adjust_util_setting(&mut self, inc: bool) -> (r: bool)
        ensures
            (*final(self), r) == util_adjusted(*old(self), inc),
    {
        match self.cur_util {
            Util::ReadTemp | Util::ReadVext | Util::ReadVint => {
                self.show_raw = !self.show_raw;
                return false;
            },
            Util::SetResolution => {
                self.adc_settings.resolution = if inc {
                    self.adc_settings.resolution.next()
                } else {
                    self.adc_settings.resolution.prev()
                };
            },
            Util::SetSampleNumber => {
                self.adc_settings.sample_number = if inc {
                    self.adc_settings.sample_number.next()
                } else {
                    self.adc_settings.sample_number.prev()
                };
            },
            Util::SetSampCap => {
                self.adc_settings.samp_cap = !self.adc_settings.samp_cap;
            },
            Util::SetRefVoltage => {
                self.adc_settings.ref_voltage = if inc {
                    self.adc_settings.ref_voltage.next()
                } else {
                    self.adc_settings.ref_voltage.prev()
                };
            },
            Util::SetPrescaler => {
                self.adc_settings.clock_divider = if inc {
                    self.adc_settings.clock_divider.next()
                } else {
                    self.adc_settings.clock_divider.prev()
                };
            },
            Util::SetInitDelay => {
                self.adc_settings.init_delay = if inc {
                    self.adc_settings.init_delay.next()
                } else {
                    self.adc_settings.init_delay.prev()
                };
            },
            Util::SetSampleDelay => {
                self.adc_settings.sample_delay = if inc {
                    if self.adc_settings.sample_delay < 14 {
                        self.adc_settings.sample_delay + 1
                    } else {
                        15
                    }
                } else {
                    self.adc_settings.sample_delay.saturating_sub(1)
                };
            },
            Util::SetSampleLength => {
                self.adc_settings.sample_length = if inc {
                    if self.adc_settings.sample_length < 30 {
                        self.adc_settings.sample_length + 1
                    } else {
                        31
                    }
                } else {
                    self.adc_settings.sample_length.saturating_sub(1)
                };
            },
        }
        true
    }

    /// One cycle of the utilities mode. Holding left turns the ADC off, goes back to the first
    /// screen and to the menu. Otherwise after the event (see `utils_event`), a redraw shows the
    /// screen's text (see `util_text`); without one, a finished reading (see `utils_read`) is
    /// shown (see `reading_text`).
    pub fn update(
        &mut self,
        event: Option<InputEvent>,
        context: &mut Context,
        peripherals: &mut Peripherals,
    )
        ensures
            final(self).last_update == old(context).menu_counter,
            final(peripherals).rng == old(peripherals).rng,
            final(peripherals).adc == old(peripherals).adc,
            final(context).tone_enabled == old(context).tone_enabled,
            final(context).settings == old(context).settings,
            event == Some(InputEvent::LeftHeld) ==> {
                &&& final(context).mode_index == 0
                &&& final(context).menu_counter == old(context).menu_counter.wrapping_add(1)
                &&& final(self).cur_util == Util::ReadTemp
                &&& final(self).adc_settings == old(self).adc_settings
                &&& final(self).util_init == old(self).util_init
                &&& final(self).show_raw == old(self).show_raw
                &&& final(peripherals).actions@ == old(peripherals).actions@.push(
                    Action::AdcDisable,
                )
            },
            event != Some(InputEvent::LeftHeld) ==> {
                let (u1, flag) = utils_event(
                    Utils { last_update: old(context).menu_counter, ..*old(self) },
                    event,
                );
                let update = match flag {
                    Some(b) => b,
                    None => old(self).last_update < old(context).menu_counter,
                };
                &&& final(context).mode_index == old(context).mode_index
                &&& final(context).menu_counter == old(context).menu_counter
                &&& final(context).redraw == old(context).redraw
                &&& if update {
                    &&& final(self).cur_util == u1.cur_util
                    &&& final(self).adc_settings == u1.adc_settings
                    &&& final(self).util_init == u1.util_init
                    &&& final(self).show_raw == u1.show_raw
                    &&& appended_text(
                        old(peripherals).actions@,
                        final(peripherals).actions@,
                        util_text(u1.cur_util, u1.adc_settings),
                    )
                } else {
                    let (u2, acts, raw) = utils_read(u1, old(peripherals).adc_sample);
                    &&& *final(self) == u2
                    &&& match raw {
                        Some(v) => appended_text(
                            old(peripherals).actions@ + acts,
                            final(peripherals).actions@,
                            if is_reading(u2.cur_util) {
                                reading_text(u2, v)
                            } else {
                                Seq::new(NUM_CHARS as nat, |i: int| 0u8)
                            },
                        ),
                        None => final(peripherals).actions@ == old(peripherals).actions@ + acts,
                    }
                }
            },
    {
        let mut update = context.needs_update(&mut self.last_update);

        if let Some(event) = event {
            match event {
                InputEvent::LeftHeld => {
                    // the ADC off when leaving the mode
                    self.cur_util = Util::ReadTemp;
                    peripherals.actions.push(Action::AdcDisable);
                    context.to_menu();
                    return ;
                },
                InputEvent::RightHeld => {
                    self.cur_util = match self.cur_util {
                        Util::ReadTemp => Util::ReadVext,
                        Util::ReadVext => Util::ReadVint,
                        Util::ReadVint => Util::SetResolution,
                        Util::SetResolution => Util::SetSampleNumber,
                        Util::SetSampleNumber => Util::SetSampCap,
                        Util::SetSampCap => Util::SetRefVoltage,
                        Util::SetRefVoltage => Util::SetPrescaler,
                        Util::SetPrescaler => Util::SetInitDelay,
                        Util::SetInitDelay => Util::SetSampleDelay,
                        Util::SetSampleDelay => Util::SetSampleLength,
                        Util::SetSampleLength => Util::ReadTemp,
                    };
                    self.util_init = false;
                    update = true;
                },
                InputEvent::LeftReleased => {
                    update = self.decrement_util_setting();
                },
                InputEvent::RightReleased => {
                    update = self.increment_util_setting();
                },
                _ => {},
            }
        }

        if update {
            let buf = self.format_util();
            show_text(&mut peripherals.actions, buf);
        } else {
            let sample = peripherals.adc_sample;
            if let Some(raw) = self.read_raw(sample, &mut peripherals.actions) {
                let mut buf = [0u8; NUM_CHARS];
                assert(buf@ =~= Seq::new(NUM_CHARS as nat, |i: int| 0u8));
                self.format_raw(raw, &mut buf);
                show_text(&mut peripherals.actions, buf);
            }
        }
    }
}

/// `10^e`, for the small exponents of decimal precision.
fn pow10_u32(e: u32) -> (r: u32)
    requires
        e <= 5,
    ensures
        r as nat == crate::utils::pow10(e as nat),
{
    let mut r: u32 = 1;
    let mut i: u32 = 0;
    proof {
        reveal_with_fuel(crate::utils::pow10, 7);
    }
    while i < e
        invariant
            i <= e <= 5,
            r as nat == crate::utils::pow10(i as nat),
            r <= 100000,
            crate::utils::pow10(0) == 1,
            crate::utils::pow10(1) == 10,
            crate::utils::pow10(2) == 100,
            crate::utils::pow10(3) == 1000,
            crate::utils::pow10(4) == 10000,
            crate::utils::pow10(5) == 100000,
        decreases e - i,
    {
        r = r * 10;
        i = i + 1;
    }
    r
}

} // verus!
