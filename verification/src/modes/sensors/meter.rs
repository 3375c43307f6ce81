//! A meter on the ADC with its own settings: one reading at a time (temperature, external
//! voltage, internal reference, ground) and a settings screen for the converter.

use super::adc::{AdcSettings, ClockDivider, DelayCycles, ReferenceVoltage, Resolution, SampleNumber};
use super::settings::{reading_after, setting_after, SensorReading, SensorSetting};
use crate::adc::{spec_temp_from_raw, temp_kelvin, AdcChannel, AdcSample};
use crate::input::InputEvent;
use crate::modes::utils::{acc_divisor, ref_e5};
use crate::modes::{appended_text, show_text, Action, Context, Peripherals};
use crate::saved_settings::{setting_offset, SavedSettings, Setting};
use crate::utils::{format_buf, format_uint, spec_format_buf, spec_format_uint};
use crate::NUM_CHARS;
use vstd::prelude::*;

verus! {

/// Digits after the point of a voltage (X.YY).
pub const DECIMAL_PRECISION: u16 = 2;

/// The meter's converter settings: 10 bit, 64 samples, 2.5 V, clock divided by 256, the
/// longest start-up delay, delays of 10.
pub open spec fn meter_adc_settings() -> AdcSettings {
    AdcSettings {
        resolution: Resolution::_10bit,
        sample_number: SampleNumber::Acc64,
        samp_cap: true,
        ref_voltage: ReferenceVoltage::VRef2_5V,
        clock_divider: ClockDivider::Factor256,
        init_delay: DelayCycles::Delay256,
        asdv: false,
        sample_delay: 10,
        sample_length: 10,
    }
}

/// The meter's converter settings (see `meter_adc_settings`).
pub fn adc_settings() -> (r: AdcSettings)
    ensures
        r == meter_adc_settings(),
{
    AdcSettings {
        resolution: Resolution::_10bit,
        sample_number: SampleNumber::Acc64,
        samp_cap: true,
        ref_voltage: ReferenceVoltage::VRef2_5V,
        clock_divider: ClockDivider::Factor256,
        init_delay: DelayCycles::Delay256,
        asdv: false,
        sample_delay: 10,
        sample_length: 10,
    }
}

/// The reading saved as `b`: 1 the external voltage, 2 the reference, 3 ground, else the
/// temperature.
pub open spec fn reading_from_byte(b: u8) -> SensorReading {
    if b == 1 {
        SensorReading::Vext
    } else if b == 2 {
        SensorReading::Vref
    } else if b == 3 {
        SensorReading::Gnd
    } else {
        SensorReading::Temp
    }
}

/// The byte a reading is saved as.
pub open spec fn reading_byte(r: SensorReading) -> u8 {
    match r {
        SensorReading::Temp => 0,
        SensorReading::Vext => 1,
        SensorReading::Vref => 2,
        SensorReading::Gnd => 3,
    }
}

/// " no" or "yes".
pub open spec fn yes_no(b: bool) -> Seq<u8> {
    if b {
        seq![121u8, 101, 115]
    } else {
        seq![32u8, 110, 111]
    }
}

/// The text of a reference voltage: "0.55V", "1.1V", "1.5V", "2.5V", "4.34V" or "Vdd".
pub open spec fn ref_text(v: ReferenceVoltage) -> Seq<u8> {
    match v {
        ReferenceVoltage::VRef0_55V => seq![48u8, 46, 53, 53, 86],
        ReferenceVoltage::VRef1_1V => seq![49u8, 46, 49, 86],
        ReferenceVoltage::VRef1_5V => seq![49u8, 46, 53, 86],
        ReferenceVoltage::VRef2_5V => seq![50u8, 46, 53, 86],
        ReferenceVoltage::VRef4_34V => seq![52u8, 46, 51, 52, 86],
        ReferenceVoltage::Vdd => seq![86u8, 100, 100],
    }
}

/// Clock cycles of a divider.
pub open spec fn divider_value(d: ClockDivider) -> nat {
    match d {
        ClockDivider::Factor2 => 2,
        ClockDivider::Factor4 => 4,
        ClockDivider::Factor8 => 8,
        ClockDivider::Factor16 => 16,
        ClockDivider::Factor32 => 32,
        ClockDivider::Factor64 => 64,
        ClockDivider::Factor128 => 128,
        ClockDivider::Factor256 => 256,
    }
}

/// Clock cycles of a start-up delay.
pub open spec fn delay_value(d: DelayCycles) -> nat {
    match d {
        DelayCycles::Delay0 => 0,
        DelayCycles::Delay16 => 16,
        DelayCycles::Delay32 => 32,
        DelayCycles::Delay64 => 64,
        DelayCycles::Delay128 => 128,
        DelayCycles::Delay256 => 256,
    }
}

/// What the settings screen shows for setting `s` of `adc`: a label and the value.
pub open spec fn setting_text(s: SensorSetting, adc: AdcSettings) -> Seq<u8> {
    let n = NUM_CHARS as nat;
    match s {
        // "Res:" and "b"
        SensorSetting::Resolution => spec_format_uint(
            n,
            seq![82u8, 101, 115, 58],
            if adc.resolution == Resolution::_10bit {
                10
            } else {
                8
            },
            0,
            seq![98u8],
        ),
        // "Snum:"
        SensorSetting::SampleNumber => spec_format_uint(
            n,
            seq![83u8, 110, 117, 109, 58],
            acc_divisor(adc.sample_number),
            0,
            Seq::empty(),
        ),
        // "Scap:"
        SensorSetting::SampCap => spec_format_buf(
            n,
            seq![83u8, 99, 97, 112, 58],
            yes_no(adc.samp_cap),
        ),
        // "Vr:"
        SensorSetting::RefVoltage => spec_format_buf(n, seq![86u8, 114, 58], ref_text(adc.ref_voltage)),
        // "Div:"
        SensorSetting::Prescaler => spec_format_uint(
            n,
            seq![68u8, 105, 118, 58],
            divider_value(adc.clock_divider),
            0,
            Seq::empty(),
        ),
        // "Idly:"
        SensorSetting::InitDelay => spec_format_uint(
            n,
            seq![73u8, 100, 108, 121, 58],
            delay_value(adc.init_delay),
            0,
            Seq::empty(),
        ),
        // "Asdv:"
        SensorSetting::SetAsdv => spec_format_buf(n, seq![65u8, 115, 100, 118, 58], yes_no(adc.asdv)),
        // "Sdly:"
        SensorSetting::SampleDelay => spec_format_uint(
            n,
            seq![83u8, 100, 108, 121, 58],
            adc.sample_delay as nat,
            0,
            Seq::empty(),
        ),
        // "Slen:"
        SensorSetting::SampleLength => spec_format_uint(
            n,
            seq![83u8, 108, 101, 110, 58],
            adc.sample_length as nat,
            0,
            Seq::empty(),
        ),
    }
}

/// The voltage, in hundredths of a volt, that a reading stands for: the reading times the
/// reference over the full-scale reading, in 32-bit arithmetic as on the device.
pub open spec fn meter_voltage(adc: AdcSettings, raw: u16) -> u16 {
    let raw_max: nat = match adc.resolution {
        Resolution::_10bit => 1023,
        Resolution::_8bit => 255,
    };
    ((((raw as nat * ref_e5(adc.ref_voltage)) % 0x1_0000_0000) / raw_max) / 1000) as u16
}

/// The label of a reading: "Tf:", "Ve:", "Vr:" or "Vg:".
pub open spec fn reading_label(r: SensorReading) -> Seq<u8> {
    match r {
        SensorReading::Temp => seq![84u8, 102, 58],
        SensorReading::Vext => seq![86u8, 101, 58],
        SensorReading::Vref => seq![86u8, 114, 58],
        SensorReading::Gnd => seq![86u8, 103, 58],
    }
}

/// The settings after setting `s` is stepped up (`inc`) or down: enumerations move to the
/// neighbouring value and stay at the ends, flags toggle, the delays stay within 0..=15 and
/// 0..=31.
pub open spec fn stepped(adc: AdcSettings, s: SensorSetting, inc: bool) -> AdcSettings {
    match s {
        SensorSetting::Resolution => AdcSettings {
            resolution: if inc {
                adc.resolution.spec_next()
            } else {
                adc.resolution.spec_prev()
            },
            ..adc
        },
        SensorSetting::SampleNumber => AdcSettings {
            sample_number: if inc {
                adc.sample_number.spec_next()
            } else {
                adc.sample_number.spec_prev()
            },
            ..adc
        },
        SensorSetting::SampCap => AdcSettings { samp_cap: !adc.samp_cap, ..adc },
        SensorSetting::RefVoltage => AdcSettings {
            ref_voltage: if inc {
                adc.ref_voltage.spec_next()
            } else {
                adc.ref_voltage.spec_prev()
            },
            ..adc
        },
        SensorSetting::Prescaler => AdcSettings {
            clock_divider: if inc {
                adc.clock_divider.spec_next()
            } else {
                adc.clock_divider.spec_prev()
            },
            ..adc
        },
        SensorSetting::InitDelay => AdcSettings {
            init_delay: if inc {
                adc.init_delay.spec_next()
            } else {
                adc.init_delay.spec_prev()
            },
            ..adc
        },
        SensorSetting::SetAsdv => AdcSettings { asdv: !adc.asdv, ..adc },
        SensorSetting::SampleDelay => AdcSettings {
            sample_delay: if inc {
                if adc.sample_delay + 1 < 15 {
                    (adc.sample_delay + 1) as u8
                } else {
                    15u8
                }
            } else if adc.sample_delay > 0 {
                (adc.sample_delay - 1) as u8
            } else {
                0u8
            },
            ..adc
        },
        SensorSetting::SampleLength => AdcSettings {
            sample_length: if inc {
                if adc.sample_length + 1 < 31 {
                    (adc.sample_length + 1) as u8
                } else {
                    31u8
                }
            } else if adc.sample_length > 0 {
                (adc.sample_length - 1) as u8
            } else {
                0u8
            },
            ..adc
        },
    }
}

/// The meter: which reading or setting it shows, whether the settings screen is open, the menu
/// count at the last draw, the last reading, the converter settings, the factory calibration of
/// the temperature sensor (SIGROW.TEMPSENSE1 offset, SIGROW.TEMPSENSE0 gain), whether the
/// converter is set up for the reading, and the reading format.
#[derive(Clone, Copy, Debug, PartialEq, Eq, Structural)]
pub struct Sensors {
    pub cur_reading: SensorReading,
    pub cur_setting: SensorSetting,
    pub settings_active: bool,
    pub last_update: u16,
    pub last_reading: u16,
    pub adc_settings: AdcSettings,
    pub sigrow_offset: i8,
    pub sigrow_gain: u8,
    pub util_init: bool,
    pub show_raw: bool,
    pub show_tempf: bool,
}

/// What the readings screen shows for `raw`: the raw number, or the temperature (in Celsius or
/// Fahrenheit, with a degree sign) or a voltage with two decimals and "V".
pub open spec fn reading_text(s: Sensors, raw: u16) -> Seq<u8> {
    let n = NUM_CHARS as nat;
    let label = reading_label(s.cur_reading);
    if s.show_raw {
        spec_format_uint(n, label, raw as nat, 0, Seq::empty())
    } else if s.cur_reading == SensorReading::Temp {
        spec_format_uint(
            n,
            label,
            spec_temp_from_raw(raw, s.sigrow_offset, s.sigrow_gain, s.show_tempf) as nat,
            0,
            if s.show_tempf {
                seq![152u8, 70]
            } else {
                seq![152u8, 67]
            },
        )
    } else {
        spec_format_uint(
            n,
            label,
            meter_voltage(s.adc_settings, raw) as nat,
            DECIMAL_PRECISION as nat,
            seq![86u8],
        )
    }
}

/// The input a reading measures.
pub open spec fn reading_channel(r: SensorReading) -> AdcChannel {
    match r {
        SensorReading::Temp => AdcChannel::Temp,
        SensorReading::Vext => AdcChannel::Vsda,
        SensorReading::Vref => AdcChannel::Vref,
        SensorReading::Gnd => AdcChannel::Gnd,
    }
}

/// The meter after one non-blocking reading of `reading`, the actions it queues, and the
/// reading if one came: nothing while a conversion runs; not set up yet, it configures the
/// converter (the temperature with `settings` and the 1.1 V reference, the others with the
/// meter's own settings), selects the input and starts a conversion; set up, the result over
/// the samples accumulated is the reading and the next conversion starts.
pub open spec fn meter_read(
    s: Sensors,
    reading: SensorReading,
    settings: AdcSettings,
    sample: AdcSample,
) -> (Sensors, Seq<Action>, Option<u16>) {
    if sample.busy {
        (s, seq![], None)
    } else if !s.util_init {
        let config = if reading == SensorReading::Temp {
            AdcSettings { ref_voltage: ReferenceVoltage::VRef1_1V, ..settings }
        } else {
            s.adc_settings
        };
        (
            Sensors { util_init: true, ..s },
            seq![
                Action::AdcConfigure(config),
                Action::AdcSelect(reading_channel(reading)),
                Action::AdcStartConversion,
            ],
            None,
        )
    } else {
        (
            s,
            seq![Action::AdcStartConversion],
            Some((sample.result as nat / acc_divisor(s.adc_settings.sample_number)) as u16),
        )
    }
}

/// The reading format after a toggle: the temperature cycles Celsius, Fahrenheit, raw; the
/// others switch between value and raw.
pub open spec fn toggled(s: Sensors) -> Sensors {
    if s.cur_reading == SensorReading::Temp {
        if !s.show_raw && !s.show_tempf {
            Sensors { show_tempf: true, ..s }
        } else if !s.show_raw && s.show_tempf {
            Sensors { show_tempf: false, show_raw: true, ..s }
        } else {
            Sensors { show_raw: false, ..s }
        }
    } else {
        Sensors { show_raw: !s.show_raw, ..s }
    }
}

/// Whether `event` leaves the meter for the menu: holding left on the readings.
pub open spec fn leaves(s: Sensors, event: Option<InputEvent>) -> bool {
    event == Some(InputEvent::LeftHeld) && !s.settings_active
}

/// The meter after an event that does not leave, and whether the event asks for a redraw:
/// holding left closes the settings screen (the converter is set up again); holding right
/// opens it or turns to the next setting; a release steps the setting down (left) or up
/// (right), or on the readings toggles the format (left) or turns to the next reading (right).
pub open spec fn meter_event(s: Sensors, event: Option<InputEvent>) -> (Sensors, bool) {
    match event {
        Some(InputEvent::LeftHeld) => (Sensors { settings_active: false, util_init: false, ..s }, true),
        Some(InputEvent::RightHeld) => if s.settings_active {
            (Sensors { cur_setting: setting_after(s.cur_setting), ..s }, true)
        } else {
            (Sensors { settings_active: true, ..s }, true)
        },
        Some(InputEvent::LeftReleased) => if s.settings_active {
            (Sensors { adc_settings: stepped(s.adc_settings, s.cur_setting, false), ..s }, true)
        } else {
            (toggled(s), true)
        },
        Some(InputEvent::RightReleased) => if s.settings_active {
            (Sensors { adc_settings: stepped(s.adc_settings, s.cur_setting, true), ..s }, true)
        } else {
            (Sensors { cur_reading: reading_after(s.cur_reading), util_init: false, ..s }, true)
        },
        _ => (s, false),
    }
}

/// The meter after a cycle that does not leave, the actions before the drawing, and whether it
/// draws: after the event (see `meter_event`), unless a redraw is due already or the settings
/// screen is open, a reading is taken (see `meter_read`), and a reading that differs from the
/// last one is kept and drawn.
pub open spec fn meter_step(s: Sensors, event: Option<InputEvent>, sample: AdcSample, redraw: bool) -> (
    Sensors,
    Seq<Action>,
    bool,
) {
    let (s1, ev) = meter_event(s, event);
    let update = redraw || ev;
    if !update && !s1.settings_active {
        let (s2, acts, raw) = meter_read(s1, s1.cur_reading, s1.adc_settings, sample);
        match raw {
            Some(v) => if v != s2.last_reading {
                (Sensors { last_reading: v, ..s2 }, acts, true)
            } else {
                (s2, acts, false)
            },
            None => (s2, acts, false),
        }
    } else {
        (s1, seq![], update)
    }
}

/// What the meter draws: the setting on the settings screen, else the last reading.
pub open spec fn meter_text(s: Sensors) -> Seq<u8> {
    if s.settings_active {
        setting_text(s.cur_setting, s.adc_settings)
    } else {
        reading_text(s, s.last_reading)
    }
}

impl Sensors {
    /// The meter on the reading saved last (see `reading_from_byte`), the readings screen,
    /// nothing set up yet, with the meter's settings and the given calibration.
    pub fn new_with_settings(settings: &SavedSettings, sigrow_offset: i8, sigrow_gain: u8) -> (r:
        Self)
        ensures
            r == (Sensors {
                cur_reading: reading_from_byte(
                    settings.cells()[setting_offset(Setting::SensorPage) as int],
                ),
                cur_setting: SensorSetting::Resolution,
                settings_active: false,
                last_update: 0,
                last_reading: 0,
                adc_settings: meter_adc_settings(),
                sigrow_offset,
                sigrow_gain,
                util_init: false,
                show_raw: false,
                show_tempf: false,
            }),
    {
        let saved = settings.read_setting_byte(Setting::SensorPage);
        let cur_reading = if saved == 1 {
            SensorReading::Vext
        } else if saved == 2 {
            SensorReading::Vref
        } else if saved == 3 {
            SensorReading::Gnd
        } else {
            SensorReading::Temp
        };
        Sensors {
            cur_reading,
            cur_setting: SensorSetting::Resolution,
            settings_active: false,
            last_update: 0,
            last_reading: 0,
            adc_settings: adc_settings(),
            sigrow_offset,
            sigrow_gain,
            util_init: false,
            show_raw: false,
            show_tempf: false,
        }
    }

    /// Writes what the settings screen shows (see `setting_text`).
    pub fn format_setting(&self, buf: &mut [u8; NUM_CHARS])
        ensures
            final(buf)@ == setting_text(self.cur_setting, self.adc_settings),
    {
        let adc = self.adc_settings;
        match self.cur_setting {
            SensorSetting::Resolution => {
                let label: [u8; 4] = [82u8, 101, 115, 58];
                let unit: [u8; 1] = [98u8];
                let bits: u16 = match adc.resolution {
                    Resolution::_10bit => 10,
                    Resolution::_8bit => 8,
                };
                assert(label@ =~= seq![82u8, 101, 115, 58]);
                assert(unit@ =~= seq![98u8]);
                format_uint(buf, &label, bits, 0, Some(&unit));
            },
            SensorSetting::SampleNumber => {
                let label: [u8; 5] = [83u8, 110, 117, 109, 58];
                let n: u16 = match adc.sample_number {
                    SampleNumber::Acc1 => 1,
                    SampleNumber::Acc2 => 2,
                    SampleNumber::Acc4 => 4,
                    SampleNumber::Acc8 => 8,
                    SampleNumber::Acc16 => 16,
                    SampleNumber::Acc32 => 32,
                    SampleNumber::Acc64 => 64,
                };
                assert(label@ =~= seq![83u8, 110, 117, 109, 58]);
                format_uint(buf, &label, n, 0, None);
            },
            SensorSetting::SampCap => {
                let label: [u8; 5] = [83u8, 99, 97, 112, 58];
                let value: [u8; 3] = if adc.samp_cap {
                    [121u8, 101, 115]
                } else {
                    [32u8, 110, 111]
                };
                assert(label@ =~= seq![83u8, 99, 97, 112, 58]);
                assert(value@ =~= yes_no(adc.samp_cap));
                format_buf(buf, &label, &value);
            },
            SensorSetting::RefVoltage => {
                let label: [u8; 3] = [86u8, 114, 58];
                assert(label@ =~= seq![86u8, 114, 58]);
                match adc.ref_voltage {
                    ReferenceVoltage::VRef0_55V => {
                        let v: [u8; 5] = [48u8, 46, 53, 53, 86];
                        assert(v@ =~= ref_text(adc.ref_voltage));
                        format_buf(buf, &label, &v);
                    },
                    ReferenceVoltage::VRef1_1V => {
                        let v: [u8; 4] = [49u8, 46, 49, 86];
                        assert(v@ =~= ref_text(adc.ref_voltage));
                        format_buf(buf, &label, &v);
                    },
                    ReferenceVoltage::VRef1_5V => {
                        let v: [u8; 4] = [49u8, 46, 53, 86];
                        assert(v@ =~= ref_text(adc.ref_voltage));
                        format_buf(buf, &label, &v);
                    },
                    ReferenceVoltage::VRef2_5V => {
                        let v: [u8; 4] = [50u8, 46, 53, 86];
                        assert(v@ =~= ref_text(adc.ref_voltage));
                        format_buf(buf, &label, &v);
                    },
                    ReferenceVoltage::VRef4_34V => {
                        let v: [u8; 5] = [52u8, 46, 51, 52, 86];
                        assert(v@ =~= ref_text(adc.ref_voltage));
                        format_buf(buf, &label, &v);
                    },
                    ReferenceVoltage::Vdd => {
                        let v: [u8; 3] = [86u8, 100, 100];
                        assert(v@ =~= ref_text(adc.ref_voltage));
                        format_buf(buf, &label, &v);
                    },
                }
            },
            SensorSetting::Prescaler => {
                let label: [u8; 4] = [68u8, 105, 118, 58];
                let d: u16 = match adc.clock_divider {
                    ClockDivider::Factor2 => 2,
                    ClockDivider::Factor4 => 4,
                    ClockDivider::Factor8 => 8,
                    ClockDivider::Factor16 => 16,
                    ClockDivider::Factor32 => 32,
                    ClockDivider::Factor64 => 64,
                    ClockDivider::Factor128 => 128,
                    ClockDivider::Factor256 => 256,
                };
                assert(label@ =~= seq![68u8, 105, 118, 58]);
                format_uint(buf, &label, d, 0, None);
            },
            SensorSetting::InitDelay => {
                let label: [u8; 5] = [73u8, 100, 108, 121, 58];
                let d: u16 = match adc.init_delay {
                    DelayCycles::Delay0 => 0,
                    DelayCycles::Delay16 => 16,
                    DelayCycles::Delay32 => 32,
                    DelayCycles::Delay64 => 64,
                    DelayCycles::Delay128 => 128,
                    DelayCycles::Delay256 => 256,
                };
                assert(label@ =~= seq![73u8, 100, 108, 121, 58]);
                format_uint(buf, &label, d, 0, None);
            },
            SensorSetting::SetAsdv => {
                let label: [u8; 5] = [65u8, 115, 100, 118, 58];
                let value: [u8; 3] = if adc.asdv {
                    [121u8, 101, 115]
                } else {
                    [32u8, 110, 111]
                };
                assert(label@ =~= seq![65u8, 115, 100, 118, 58]);
                assert(value@ =~= yes_no(adc.asdv));
                format_buf(buf, &label, &value);
            },
            SensorSetting::SampleDelay => {
                let label: [u8; 5] = [83u8, 100, 108, 121, 58];
                assert(label@ =~= seq![83u8, 100, 108, 121, 58]);
                format_uint(buf, &label, adc.sample_delay as u16, 0, None);
            },
            SensorSetting::SampleLength => {
                let label: [u8; 5] = [83u8, 108, 101, 110, 58];
                assert(label@ =~= seq![83u8, 108, 101, 110, 58]);
                format_uint(buf, &label, adc.sample_length as u16, 0, None);
            },
        }
    }

    /// The voltage that `raw` stands for (see `meter_voltage`).
    pub fn voltage_from_raw(&self, raw: u16) -> (r: u16)
        ensures
            r == meter_voltage(self.adc_settings, raw),
    {
        let vrefe5: u32 = match self.adc_settings.ref_voltage {
            ReferenceVoltage::VRef0_55V => 55000,
            ReferenceVoltage::VRef1_1V => 110000,
            ReferenceVoltage::VRef1_5V => 150000,
            ReferenceVoltage::VRef2_5V => 250000,
            ReferenceVoltage::VRef4_34V => 434000,
            // about 3.6 V from an LIR2032 cell
            ReferenceVoltage::Vdd => 360000,
        };
        let raw_max: u32 = match self.adc_settings.resolution {
            Resolution::_10bit => 1023,
            Resolution::_8bit => 255,
        };
        let product = (raw as u32).wrapping_mul(vrefe5);
        ((product / raw_max) / 1000) as u16
    }

    /// The temperature that `raw` stands for, in Celsius (never below 0) or, with the
    /// Fahrenheit format, Fahrenheit.
    pub fn temp_from_raw(&mut self, raw: u16) -> (r: u16)
        ensures
            *final(self) == *old(self),
            r == spec_temp_from_raw(raw, old(self).sigrow_offset, old(self).sigrow_gain, old(
                self,
            ).show_tempf),
    {
        let temp_k = temp_kelvin(raw, self.sigrow_offset, self.sigrow_gain);
        let temp_c = temp_k.saturating_sub(273);
        if self.show_tempf {
            let temp_f = (temp_c as u32 * 9 / 5) + 32;
            let r = (temp_f & 0xFFFF) as u16;
            proof {
                assert((temp_f & 0xFFFF) as u16 as nat == temp_f as nat % 0x1_0000) by (bit_vector);
            }
            r
        } else {
            temp_c
        }
    }

    /// Writes what the readings screen shows for `raw` (see `reading_text`).
    pub fn format_reading(&mut self, raw: u16, buf: &mut [u8; NUM_CHARS])
        ensures
            *final(self) == *old(self),
            final(buf)@ == reading_text(*old(self), raw),
    {
        let label: [u8; 3] = match self.cur_reading {
            SensorReading::Temp => [84u8, 102, 58],
            SensorReading::Vext => [86u8, 101, 58],
            SensorReading::Vref => [86u8, 114, 58],
            SensorReading::Gnd => [86u8, 103, 58],
        };
        assert(label@ =~= reading_label(self.cur_reading));
        if self.show_raw {
            format_uint(buf, &label, raw, 0, None);
        } else if self.cur_reading == SensorReading::Temp {
            let value = self.temp_from_raw(raw);
            let unit: [u8; 2] = if self.show_tempf {
                [152u8, 70]
            } else {
                [152u8, 67]
            };
            assert(unit@ =~= if self.show_tempf {
                seq![152u8, 70]
            } else {
                seq![152u8, 67]
            });
            format_uint(buf, &label, value, 0, Some(&unit));
        } else {
            let value = self.voltage_from_raw(raw);
            let unit: [u8; 1] = [86u8];
            assert(unit@ =~= seq![86u8]);
            format_uint(buf, &label, value, DECIMAL_PRECISION, Some(&unit));
        }
    }

    /// One non-blocking reading (see `meter_read`).
    pub fn read_raw(
        &mut self,
        reading: SensorReading,
        settings: AdcSettings,
        sample: AdcSample,
        actions: &mut Vec<Action>,
    ) -> (r: Option<u16>)
        ensures
            ({
                let (s, a, v) = meter_read(*old(self), reading, settings, sample);
                &&& *final(self) == s
                &&& final(actions)@ == old(actions)@ + a
                &&& r == v
            }),
    {
        let ghost a0 = actions@;
        if sample.busy {
            // a measurement is running
            assert(actions@ =~= a0 + seq![]);
            return None;
        }
        if !self.util_init {
            let (config, channel) = match reading {
                SensorReading::Temp => {
                    let mut temp_settings = settings;
                    temp_settings.ref_voltage = ReferenceVoltage::VRef1_1V;
                    (temp_settings, AdcChannel::Temp)
                },
                SensorReading::Vext => (self.adc_settings, AdcChannel::Vsda),
                SensorReading::Vref => (self.adc_settings, AdcChannel::Vref),
                SensorReading::Gnd => (self.adc_settings, AdcChannel::Gnd),
            };
            self.apply_adc_settings(config, actions);
            actions.push(Action::AdcSelect(channel));
            actions.push(Action::AdcStartConversion);
            self.util_init = true;
            assert(actions@ =~= a0 + seq![
                Action::AdcConfigure(config),
                Action::AdcSelect(channel),
                Action::AdcStartConversion,
            ]);
            return None;
        }
        // the measurement is done: take the result and start the next one
        let acc: u16 = match self.adc_settings.sample_number {
            SampleNumber::Acc1 => 1,
            SampleNumber::Acc2 => 2,
            SampleNumber::Acc4 => 4,
            SampleNumber::Acc8 => 8,
            SampleNumber::Acc16 => 16,
            SampleNumber::Acc32 => 32,
            SampleNumber::Acc64 => 64,
        };
        let raw = sample.result / acc;
        actions.push(Action::AdcStartConversion);
        assert(actions@ =~= a0 + seq![Action::AdcStartConversion]);
        Some(raw)
    }

    /// Writes `settings` to the converter.
    pub fn apply_adc_settings(&mut self, settings: AdcSettings, actions: &mut Vec<Action>)
        ensures
            *final(self) == *old(self),
            final(actions)@ == old(actions)@.push(Action::AdcConfigure(settings)),
    {
        actions.push(Action::AdcConfigure(settings));
    }

    /// Steps the current setting down (see `stepped`).
    pub fn decrement_cur_setting(&mut self)
        ensures
            *final(self) == (Sensors {
                adc_settings: stepped(old(self).adc_settings, old(self).cur_setting, false),
                ..*old(self)
            }),
    {
        self.adjust_cur_setting(false);
    }

    /// Steps the current setting up (see `stepped`).
    pub fn increment_cur_setting(&mut self)
        ensures
            *final(self) == (Sensors {
                adc_settings: stepped(old(self).adc_settings, old(self).cur_setting, true),
                ..*old(self)
            }),
    {
        self.adjust_cur_setting(true);
    }

    fn adjust_cur_setting(&mut self, inc: bool)
        ensures
            *final(self) == (Sensors {
                adc_settings: stepped(old(self).adc_settings, old(self).cur_setting, inc),
                ..*old(self)
            }),
    {
        let mut adc = self.adc_settings;
        match self.cur_setting {
            SensorSetting::Resolution => {
                adc.resolution = if inc {
                    adc.resolution.next()
                } else {
                    adc.resolution.prev()
                };
            },
            SensorSetting::SampleNumber => {
                adc.sample_number = if inc {
                    adc.sample_number.next()
                } else {
                    adc.sample_number.prev()
                };
            },
            SensorSetting::SampCap => {
                adc.samp_cap = !adc.samp_cap;
            },
            SensorSetting::RefVoltage => {
                adc.ref_voltage = if inc {
                    adc.ref_voltage.next()
                } else {
                    adc.ref_voltage.prev()
                };
            },
            SensorSetting::Prescaler => {
                adc.clock_divider = if inc {
                    adc.clock_divider.next()
                } else {
                    adc.clock_divider.prev()
                };
            },
            SensorSetting::InitDelay => {
                adc.init_delay = if inc {
                    adc.init_delay.next()
                } else {
                    adc.init_delay.prev()
                };
            },
            SensorSetting::SetAsdv => {
                adc.asdv = !adc.asdv;
            },
            SensorSetting::SampleDelay => {
                adc.sample_delay = if inc {
                    if adc.sample_delay < 14 {
                        adc.sample_delay + 1
                    } else {
                        15
                    }
                } else {
                    adc.sample_delay.saturating_sub(1)
                };
            },
            SensorSetting::SampleLength => {
                adc.sample_length = if inc {
                    if adc.sample_length < 30 {
                        adc.sample_length + 1
                    } else {
                        31
                    }
                } else {
                    adc.sample_length.saturating_sub(1)
                };
            },
        }
        self.adc_settings = adc;
    }

    /// Switches the reading format (see `toggled`).
    pub fn toggle_reading_format(&mut self)
        ensures
            *final(self) == toggled(*old(self)),
    {
        if self.cur_reading == SensorReading::Temp {
            if !self.show_raw && !self.show_tempf {
                self.show_tempf = true;
            } else if !self.show_raw && self.show_tempf {
                self.show_tempf = false;
                self.show_raw = true;
            } else {
                self.show_raw = false;
            }
        } else {
            self.show_raw = !self.show_raw;
        }
    }

    /// One cycle of the meter. Holding left on the readings turns the converter off, saves the
    /// reading and goes back to the menu. Otherwise see `meter_step`, with a redraw due when the
    /// menu was entered since the last draw; a draw shows `meter_text`.
    pub fn update(
        &mut self,
        event: Option<InputEvent>,
        context: &mut Context,
        peripherals: &mut Peripherals,
    )
        ensures
            final(peripherals).rng == old(peripherals).rng,
            final(peripherals).adc == old(peripherals).adc,
            final(peripherals).adc_sample == old(peripherals).adc_sample,
            final(peripherals).i2c == old(peripherals).i2c,
            final(context).tone_enabled == old(context).tone_enabled,
            leaves(*old(self), event) ==> {
                &&& *final(self) == (Sensors {
                    settings_active: false,
                    util_init: false,
                    last_update: old(context).menu_counter,
                    ..*old(self)
                })
                &&& final(context).mode_index == 0
                &&& final(context).menu_counter == old(context).menu_counter.wrapping_add(1)
                &&& final(context).settings.cells() == old(context).settings.cells().update(
                    setting_offset(Setting::SensorPage) as int,
                    reading_byte(old(self).cur_reading),
                )
                &&& final(peripherals).actions@ == old(peripherals).actions@.push(
                    Action::AdcDisable,
                )
            },
            !leaves(*old(self), event) ==> {
                let (s, acts, draw) = meter_step(
                    Sensors { last_update: old(context).menu_counter, ..*old(self) },
                    event,
                    old(peripherals).adc_sample,
                    old(self).last_update < old(context).menu_counter,
                );
                &&& *final(self) == s
                &&& final(context).mode_index == old(context).mode_index
                &&& final(context).menu_counter == old(context).menu_counter
                &&& final(context).settings == old(context).settings
                &&& if draw {
                    appended_text(old(peripherals).actions@ + acts, final(peripherals).actions@, meter_text(s))
                } else {
                    final(peripherals).actions@ == old(peripherals).actions@ + acts
                }
            },
    {
        let mut update = context.needs_update(&mut self.last_update);
        let ghost s0 = *self;
        let ghost a0 = peripherals.actions@;
        match event {
            Some(InputEvent::LeftHeld) => {
                if self.settings_active {
                    // close the settings; the converter is set up again
                    self.settings_active = false;
                    self.util_init = false;
                    update = true;
                } else {
                    // turn the converter off when leaving
                    self.settings_active = false;
                    peripherals.actions.push(Action::AdcDisable);
                    self.util_init = false;
                    let page = match self.cur_reading {
                        SensorReading::Temp => 0u8,
                        SensorReading::Vext => 1u8,
                        SensorReading::Vref => 2u8,
                        SensorReading::Gnd => 3u8,
                    };
                    context.settings.save_setting_byte(Setting::SensorPage, page);
                    context.to_menu();
                    return;
                }
            },
            Some(InputEvent::RightHeld) => {
                if self.settings_active {
                    self.cur_setting = self.cur_setting.next();
                } else {
                    self.settings_active = true;
                }
                update = true;
            },
            Some(InputEvent::LeftReleased) => {
                if self.settings_active {
                    self.decrement_cur_setting();
                } else {
                    self.toggle_reading_format();
                }
                update = true;
            },
            Some(InputEvent::RightReleased) => {
                if self.settings_active {
                    self.increment_cur_setting();
                } else {
                    self.cur_reading = self.cur_reading.next();
                    self.util_init = false;
                }
                update = true;
            },
            _ => {},
        }
        assert((*self, update) == ({
            let (s1, ev) = meter_event(s0, event);
            (s1, old(self).last_update < old(context).menu_counter || ev)
        }));
        // look for a new reading
        if !update && !self.settings_active {
            let reading = self.cur_reading;
            let settings = self.adc_settings;
            let sample = peripherals.adc_sample;
            if let Some(raw) = self.read_raw(reading, settings, sample, &mut peripherals.actions) {
                if raw != self.last_reading {
                    self.last_reading = raw;
                    update = true;
                }
            }
        } else {
            assert(peripherals.actions@ =~= a0 + seq![]);
        }
        if update {
            let mut buf = [0u8; NUM_CHARS];
            if self.settings_active {
                self.format_setting(&mut buf);
            } else {
                let last = self.last_reading;
                self.format_reading(last, &mut buf);
            }
            show_text(&mut peripherals.actions, buf);
        }
    }
}

/// The reading is kept: the byte a reading is saved as on leaving stands for that reading when
/// the meter starts.
pub proof fn lemma_reading_persists(r: SensorReading)
    ensures
        reading_from_byte(reading_byte(r)) == r,
{
}

} // verus!
