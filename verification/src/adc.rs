use crate::modes::Action;
use crate::utils::EnumCycle;
use vstd::prelude::*;

verus! {

/// The things the ADC can measure: the temperature sensor, the two lines of the external I2C
/// connector (SDA on AIN10, SCL on AIN11), the internal reference, and ground.
#[derive(Clone, Copy, Debug, PartialEq, Eq, Structural)]
pub enum AdcChannel {
    Temp,
    Vsda,
    Vscl,
    Vref,
    Gnd,
}

/// ADC resolution (ADC0.CTRLA.RESSEL).
#[derive(Clone, Copy, Debug, PartialEq, Eq, Structural)]
pub enum Resolution {
    Bits10,
    Bits8,
}

/// Samples accumulated per conversion (ADC0.CTRLB.SAMPNUM): 1, 2, 4, ..., 64.
#[derive(Clone, Copy, Debug, PartialEq, Eq, Structural)]
pub enum SampleNumber {
    Acc1,
    Acc2,
    Acc4,
    Acc8,
    Acc16,
    Acc32,
    Acc64,
}

/// ADC clock prescaler (ADC0.CTRLC.PRESC): 2, 4, ..., 256.
#[derive(Clone, Copy, Debug, PartialEq, Eq, Structural)]
pub enum Prescaler {
    Div2,
    Div4,
    Div8,
    Div16,
    Div32,
    Div64,
    Div128,
    Div256,
}

/// ADC reference selection (ADC0.CTRLC.REFSEL): the internal reference or Vdd.
#[derive(Clone, Copy, Debug, PartialEq, Eq, Structural)]
pub enum AdcReferenceVoltage {
    IntRef,
    VddRef,
}

/// Initial delay before the first sample (ADC0.CTRLD.INITDLY): 0, 16, ..., 256 cycles.
#[derive(Clone, Copy, Debug, PartialEq, Eq, Structural)]
pub enum InitDelay {
    Dly0,
    Dly16,
    Dly32,
    Dly64,
    Dly128,
    Dly256,
}

/// Internal reference voltage (VREF.CTRLA.ADC0REFSEL), in register order.
#[derive(Clone, Copy, Debug, PartialEq, Eq, Structural)]
pub enum IntReferenceVoltage {
    V0_55,
    V1_1,
    V2_5,
    V4_34,
    V1_5,
}

impl EnumCycle for AdcChannel {
    open spec fn spec_index(self) -> nat {
        match self {
            AdcChannel::Temp => 0,
            AdcChannel::Vsda => 1,
            AdcChannel::Vscl => 2,
            AdcChannel::Vref => 3,
            AdcChannel::Gnd => 4,
        }
    }

    proof fn lemma_index_bound(self) {
    }

    proof fn lemma_from_index(i: nat) {
    }

    proof fn lemma_at_own_index(self) {
    }

    open spec fn spec_count() -> nat {
        5
    }

    fn count() -> (c: u8) {
        5
    }

    fn to_u8(self) -> (r: u8) {
        match self {
            AdcChannel::Temp => 0,
            AdcChannel::Vsda => 1,
            AdcChannel::Vscl => 2,
            AdcChannel::Vref => 3,
            AdcChannel::Gnd => 4,
        }
    }

    open spec fn spec_from_index(i: nat) -> Self {
        if i == 0 {
            AdcChannel::Temp
        } else if i == 1 {
            AdcChannel::Vsda
        } else if i == 2 {
            AdcChannel::Vscl
        } else if i == 3 {
            AdcChannel::Vref
        } else {
            AdcChannel::Gnd
        }
    }

    fn from_u8(val: u8) -> (r: Self) {
        match val {
            0 => AdcChannel::Temp,
            1 => AdcChannel::Vsda,
            2 => AdcChannel::Vscl,
            3 => AdcChannel::Vref,
            _ => AdcChannel::Gnd,
        }
    }
}

impl EnumCycle for Resolution {
    open spec fn spec_index(self) -> nat {
        match self {
            Resolution::Bits10 => 0,
            Resolution::Bits8 => 1,
        }
    }

    proof fn lemma_index_bound(self) {
    }

    proof fn lemma_from_index(i: nat) {
    }

    proof fn lemma_at_own_index(self) {
    }

    open spec fn spec_count() -> nat {
        2
    }

    fn count() -> (c: u8) {
        2
    }

    fn to_u8(self) -> (r: u8) {
        match self {
            Resolution::Bits10 => 0,
            Resolution::Bits8 => 1,
        }
    }

    open spec fn spec_from_index(i: nat) -> Self {
        if i == 0 {
            Resolution::Bits10
        } else {
            Resolution::Bits8
        }
    }

    fn from_u8(val: u8) -> (r: Self) {
        match val {
            0 => Resolution::Bits10,
            _ => Resolution::Bits8,
        }
    }
}

impl EnumCycle for SampleNumber {
    open spec fn spec_index(self) -> nat {
        match self {
            SampleNumber::Acc1 => 0,
            SampleNumber::Acc2 => 1,
            SampleNumber::Acc4 => 2,
            SampleNumber::Acc8 => 3,
            SampleNumber::Acc16 => 4,
            SampleNumber::Acc32 => 5,
            SampleNumber::Acc64 => 6,
        }
    }

    proof fn lemma_index_bound(self) {
    }

    proof fn lemma_from_index(i: nat) {
    }

    proof fn lemma_at_own_index(self) {
    }

    open spec fn spec_count() -> nat {
        7
    }

    fn count() -> (c: u8) {
        7
    }

    fn to_u8(self) -> (r: u8) {
        match self {
            SampleNumber::Acc1 => 0,
            SampleNumber::Acc2 => 1,
            SampleNumber::Acc4 => 2,
            SampleNumber::Acc8 => 3,
            SampleNumber::Acc16 => 4,
            SampleNumber::Acc32 => 5,
            SampleNumber::Acc64 => 6,
        }
    }

    open spec fn spec_from_index(i: nat) -> Self {
        if i == 0 {
            SampleNumber::Acc1
        } else if i == 1 {
            SampleNumber::Acc2
        } else if i == 2 {
            SampleNumber::Acc4
        } else if i == 3 {
            SampleNumber::Acc8
        } else if i == 4 {
            SampleNumber::Acc16
        } else if i == 5 {
            SampleNumber::Acc32
        } else {
            SampleNumber::Acc64
        }
    }

    fn from_u8(val: u8) -> (r: Self) {
        match val {
            0 => SampleNumber::Acc1,
            1 => SampleNumber::Acc2,
            2 => SampleNumber::Acc4,
            3 => SampleNumber::Acc8,
            4 => SampleNumber::Acc16,
            5 => SampleNumber::Acc32,
            _ => SampleNumber::Acc64,
        }
    }
}

impl EnumCycle for Prescaler {
    open spec fn spec_index(self) -> nat {
        match self {
            Prescaler::Div2 => 0,
            Prescaler::Div4 => 1,
            Prescaler::Div8 => 2,
            Prescaler::Div16 => 3,
            Prescaler::Div32 => 4,
            Prescaler::Div64 => 5,
            Prescaler::Div128 => 6,
            Prescaler::Div256 => 7,
        }
    }

    proof fn lemma_index_bound(self) {
    }

    proof fn lemma_from_index(i: nat) {
    }

    proof fn lemma_at_own_index(self) {
    }

    open spec fn spec_count() -> nat {
        8
    }

    fn count() -> (c: u8) {
        8
    }

    fn to_u8(self) -> (r: u8) {
        match self {
            Prescaler::Div2 => 0,
            Prescaler::Div4 => 1,
            Prescaler::Div8 => 2,
            Prescaler::Div16 => 3,
            Prescaler::Div32 => 4,
            Prescaler::Div64 => 5,
            Prescaler::Div128 => 6,
            Prescaler::Div256 => 7,
        }
    }

    open spec fn spec_from_index(i: nat) -> Self {
        if i == 0 {
            Prescaler::Div2
        } else if i == 1 {
            Prescaler::Div4
        } else if i == 2 {
            Prescaler::Div8
        } else if i == 3 {
            Prescaler::Div16
        } else if i == 4 {
            Prescaler::Div32
        } else if i == 5 {
            Prescaler::Div64
        } else if i == 6 {
            Prescaler::Div128
        } else {
            Prescaler::Div256
        }
    }

    fn from_u8(val: u8) -> (r: Self) {
        match val {
            0 => Prescaler::Div2,
            1 => Prescaler::Div4,
            2 => Prescaler::Div8,
            3 => Prescaler::Div16,
            4 => Prescaler::Div32,
            5 => Prescaler::Div64,
            6 => Prescaler::Div128,
            _ => Prescaler::Div256,
        }
    }
}

impl EnumCycle for AdcReferenceVoltage {
    open spec fn spec_index(self) -> nat {
        match self {
            AdcReferenceVoltage::IntRef => 0,
            AdcReferenceVoltage::VddRef => 1,
        }
    }

    proof fn lemma_index_bound(self) {
    }

    proof fn lemma_from_index(i: nat) {
    }

    proof fn lemma_at_own_index(self) {
    }

    open spec fn spec_count() -> nat {
        2
    }

    fn count() -> (c: u8) {
        2
    }

    fn to_u8(self) -> (r: u8) {
        match self {
            AdcReferenceVoltage::IntRef => 0,
            AdcReferenceVoltage::VddRef => 1,
        }
    }

    open spec fn spec_from_index(i: nat) -> Self {
        if i == 0 {
            AdcReferenceVoltage::IntRef
        } else {
            AdcReferenceVoltage::VddRef
        }
    }

    fn from_u8(val: u8) -> (r: Self) {
        match val {
            0 => AdcReferenceVoltage::IntRef,
            _ => AdcReferenceVoltage::VddRef,
        }
    }
}

impl EnumCycle for InitDelay {
    open spec fn spec_index(self) -> nat {
        match self {
            InitDelay::Dly0 => 0,
            InitDelay::Dly16 => 1,
            InitDelay::Dly32 => 2,
            InitDelay::Dly64 => 3,
            InitDelay::Dly128 => 4,
            InitDelay::Dly256 => 5,
        }
    }

    proof fn lemma_index_bound(self) {
    }

    proof fn lemma_from_index(i: nat) {
    }

    proof fn lemma_at_own_index(self) {
    }

    open spec fn spec_count() -> nat {
        6
    }

    fn count() -> (c: u8) {
        6
    }

    fn to_u8(self) -> (r: u8) {
        match self {
            InitDelay::Dly0 => 0,
            InitDelay::Dly16 => 1,
            InitDelay::Dly32 => 2,
            InitDelay::Dly64 => 3,
            InitDelay::Dly128 => 4,
            InitDelay::Dly256 => 5,
        }
    }

    open spec fn spec_from_index(i: nat) -> Self {
        if i == 0 {
            InitDelay::Dly0
        } else if i == 1 {
            InitDelay::Dly16
        } else if i == 2 {
            InitDelay::Dly32
        } else if i == 3 {
            InitDelay::Dly64
        } else if i == 4 {
            InitDelay::Dly128
        } else {
            InitDelay::Dly256
        }
    }

    fn from_u8(val: u8) -> (r: Self) {
        match val {
            0 => InitDelay::Dly0,
            1 => InitDelay::Dly16,
            2 => InitDelay::Dly32,
            3 => InitDelay::Dly64,
            4 => InitDelay::Dly128,
            _ => InitDelay::Dly256,
        }
    }
}

impl EnumCycle for IntReferenceVoltage {
    open spec fn spec_index(self) -> nat {
        match self {
            IntReferenceVoltage::V0_55 => 0,
            IntReferenceVoltage::V1_1 => 1,
            IntReferenceVoltage::V2_5 => 2,
            IntReferenceVoltage::V4_34 => 3,
            IntReferenceVoltage::V1_5 => 4,
        }
    }

    proof fn lemma_index_bound(self) {
    }

    proof fn lemma_from_index(i: nat) {
    }

    proof fn lemma_at_own_index(self) {
    }

    open spec fn spec_count() -> nat {
        5
    }

    fn count() -> (c: u8) {
        5
    }

    fn to_u8(self) -> (r: u8) {
        match self {
            IntReferenceVoltage::V0_55 => 0,
            IntReferenceVoltage::V1_1 => 1,
            IntReferenceVoltage::V2_5 => 2,
            IntReferenceVoltage::V4_34 => 3,
            IntReferenceVoltage::V1_5 => 4,
        }
    }

    open spec fn spec_from_index(i: nat) -> Self {
        if i == 0 {
            IntReferenceVoltage::V0_55
        } else if i == 1 {
            IntReferenceVoltage::V1_1
        } else if i == 2 {
            IntReferenceVoltage::V2_5
        } else if i == 3 {
            IntReferenceVoltage::V4_34
        } else {
            IntReferenceVoltage::V1_5
        }
    }

    fn from_u8(val: u8) -> (r: Self) {
        match val {
            0 => IntReferenceVoltage::V0_55,
            1 => IntReferenceVoltage::V1_1,
            2 => IntReferenceVoltage::V2_5,
            3 => IntReferenceVoltage::V4_34,
            _ => IntReferenceVoltage::V1_5,
        }
    }
}

/// Internal reference voltages in units of 10 microvolts, in register order.
pub open spec fn vref_e5(v: IntReferenceVoltage) -> nat {
    match v {
        IntReferenceVoltage::V0_55 => 55000,
        IntReferenceVoltage::V1_1 => 110000,
        IntReferenceVoltage::V2_5 => 250000,
        IntReferenceVoltage::V4_34 => 434000,
        IntReferenceVoltage::V1_5 => 150000,
    }
}

/// Vdd in units of 10 microvolts (about 3.6 V from an LIR2032 cell).
pub const VREF_VDD_VALUE: u32 = 360000;

/// Divides the 10-microvolt figure down to hundredths of a volt.
pub const PRECISION_DIVISOR: u32 = 1000;

/// Configuration of the ADC peripheral.
#[derive(Clone, Copy, Debug, PartialEq, Eq, Structural)]
pub struct AdcSettings {
    pub resolution: Resolution,
    pub sample_number: SampleNumber,
    pub samp_cap: bool,
    pub prescaler: Prescaler,
    pub adc_ref_voltage: AdcReferenceVoltage,
    pub int_ref_voltage: IntReferenceVoltage,
    pub init_delay: InitDelay,
    /// automatic sampling delay variation
    pub asdv: bool,
    /// delay between samples, 4 bit
    pub sample_delay: u8,
    /// extends the sample length, 5 bit
    pub sample_length: u8,
}

impl AdcSettings {
    /// The settings the badge starts with: 10 bit, 64 samples, 2.5 V reference, slowest clock.
    pub open spec fn spec_default() -> AdcSettings {
        AdcSettings {
            resolution: Resolution::Bits10,
            sample_number: SampleNumber::Acc64,
            samp_cap: true,
            prescaler: Prescaler::Div256,
            adc_ref_voltage: AdcReferenceVoltage::IntRef,
            int_ref_voltage: IntReferenceVoltage::V2_5,
            init_delay: InitDelay::Dly256,
            asdv: false,
            sample_delay: 10,
            sample_length: 10,
        }
    }

    /// The settings the badge starts with.
    pub fn default() -> (r: Self)
        ensures
            r == Self::spec_default(),
    {
        AdcSettings {
            resolution: Resolution::Bits10,
            sample_number: SampleNumber::Acc64,
            samp_cap: true,
            prescaler: Prescaler::Div256,
            adc_ref_voltage: AdcReferenceVoltage::IntRef,
            int_ref_voltage: IntReferenceVoltage::V2_5,
            init_delay: InitDelay::Dly256,
            asdv: false,
            sample_delay: 10,
            sample_length: 10,
        }
    }
}

/// What the owner read from the ADC registers just before a call: whether a conversion is
/// running, and the result register.
#[derive(Clone, Copy, Debug, PartialEq, Eq, Structural)]
pub struct AdcSample {
    pub busy: bool,
    pub result: u16,
}

/// The ADC driver's state: the selected channel, the settings, and the factory calibration
/// of the temperature sensor (SIGROW.TEMPSENSE1 offset, SIGROW.TEMPSENSE0 gain).
#[derive(Clone, Copy, Debug, PartialEq, Eq, Structural)]
pub struct Adc {
    pub channel: Option<AdcChannel>,
    pub settings: AdcSettings,
    pub sigrow_offset: i8,
    pub sigrow_gain: u8,
}

/// The voltage, in hundredths of a volt, that a raw reading stands for: the raw reading times
/// the reference voltage, over the full-scale reading, computed in 32 bits as the device does.
pub open spec fn spec_voltage_from_raw(settings: AdcSettings, raw: u16) -> u16 {
    let vref = if settings.adc_ref_voltage == AdcReferenceVoltage::IntRef {
        vref_e5(settings.int_ref_voltage)
    } else {
        VREF_VDD_VALUE as nat
    };
    let raw_max: nat = match settings.resolution {
        Resolution::Bits10 => 1023,
        Resolution::Bits8 => 255,
    };
    ((((raw as nat * vref) % 0x1_0000_0000) / raw_max) / PRECISION_DIVISOR as nat) as u16
}

/// The temperature in Kelvin as the device computes it from a raw reading and the factory
/// calibration: `((raw - offset) * gain + 0x80) >> 8` in 32-bit arithmetic, cut to 16 bits.
pub open spec fn spec_temp_kelvin(raw: u16, offset: i8, gain: u8) -> nat {
    let scaled = ((raw as int - offset as int) * gain as int) % 0x1_0000_0000;
    ((((scaled + 0x80) % 0x1_0000_0000) / 256) % 0x1_0000) as nat
}

/// The temperature, in degrees Celsius (never below 0) or Fahrenheit, that a raw reading of
/// the temperature sensor stands for.
pub open spec fn spec_temp_from_raw(raw: u16, offset: i8, gain: u8, use_f: bool) -> u16 {
    let k = spec_temp_kelvin(raw, offset, gain);
    let c: nat = if k >= 273 {
        (k - 273) as nat
    } else {
        0
    };
    if use_f {
        ((c * 9 / 5 + 32) % 0x1_0000) as u16
    } else {
        c as u16
    }
}

/// The seed after mixing in the low four bits of one more reading.
pub open spec fn spec_mix_seed(seed: u32, reading: u16) -> u32 {
    (((seed as nat * 16) % 0x1_0000_0000) + reading as nat % 16) as u32
}

/// Shifts the seed four bits up and puts the low four bits of `reading` under it.
pub fn mix_seed(seed: u32, reading: u16) -> (r: u32)
    ensures
        r == spec_mix_seed(seed, reading),
{
    let r = (seed << 4u32) | (reading as u32 & 0b1111);
    proof {
        let lo = reading as u32;
        assert((seed << 4u32) | (lo & 15u32) == (((seed as nat * 16) % 0x1_0000_0000) + lo as nat
            % 16) as u32) by (bit_vector);
        assert(reading as nat % 16 == lo as nat % 16);
    }
    r
}

impl Adc {
    /// A driver with no channel selected, the default settings, and the given calibration.
    pub fn new(sigrow_offset: i8, sigrow_gain: u8) -> (r: Self)
        ensures
            r.channel is None,
            r.settings == AdcSettings::spec_default(),
            r.sigrow_offset == sigrow_offset,
            r.sigrow_gain == sigrow_gain,
    {
        Adc { channel: None, settings: AdcSettings::default(), sigrow_offset, sigrow_gain }
    }

    /// Writes the settings to the peripheral.
    pub fn apply_settings(&self, actions: &mut Vec<Action>)
        ensures
            final(actions)@ == old(actions)@.push(Action::AdcApply(self.settings)),
    {
        actions.push(Action::AdcApply(self.settings));
    }

    /// Turns the peripheral off; no channel is selected afterwards.
    pub fn disable(&mut self, actions: &mut Vec<Action>)
        ensures
            final(self).channel is None,
            final(self).settings == old(self).settings,
            final(self).sigrow_offset == old(self).sigrow_offset,
            final(self).sigrow_gain == old(self).sigrow_gain,
            final(actions)@ == old(actions)@.push(Action::AdcDisable),
    {
        actions.push(Action::AdcDisable);
        self.channel = None;
    }

    /// One non-blocking read of `channel`. While a conversion runs nothing is read. When the
    /// channel changes, the peripheral is switched to it (with the 1.1 V reference forced for the
    /// temperature sensor, and the settings put back when leaving it) and a conversion started.
    /// Otherwise, and also right after such a switch, the result register divided by the number
    /// of accumulated samples is the reading, and the next conversion is started.
    pub fn read_raw_nonblocking(
        &mut self,
        channel: AdcChannel,
        sample: AdcSample,
        actions: &mut Vec<Action>,
    ) -> (r: Option<u16>)
        ensures
            final(self).settings == old(self).settings,
            final(self).sigrow_offset == old(self).sigrow_offset,
            final(self).sigrow_gain == old(self).sigrow_gain,
            sample.busy ==> r is None && *final(self) == *old(self) && final(actions)@ == old(
                actions,
            )@,
            !sample.busy ==> {
                &&& final(self).channel == Some(channel)
                &&& r == Some(
                    (sample.result as nat / pow2_small(old(self).settings.sample_number.spec_index()))
                        as u16,
                )
                &&& final(actions)@ == old(actions)@ + switch_actions(
                    old(self).channel,
                    channel,
                    old(self).settings,
                ) + seq![Action::AdcStartConversion]
            },
    {
        if sample.busy {
            return None;
        }
        let current_channel: u8 = match self.channel {
            Some(c) => c.to_u8(),
            None => 0xFF,
        };
        let new_channel = channel.to_u8();
        let ghost a0 = actions@;
        if current_channel != new_channel {
            let is_temp_channel = new_channel == 0;
            let was_temp_channel = current_channel == 0;
            if is_temp_channel {
                let mut temp_settings = self.settings;
                temp_settings.int_ref_voltage = IntReferenceVoltage::V1_1;
                actions.push(Action::AdcApply(temp_settings));
            } else if was_temp_channel {
                actions.push(Action::AdcApply(self.settings));
            }
            actions.push(Action::AdcSelect(channel));
            actions.push(Action::AdcStartConversion);
            self.channel = Some(channel);
            proof {
                assert(channel.spec_index() != 0 ==> channel != AdcChannel::Temp);
                assert(was_temp_channel ==> old(self).channel == Some(AdcChannel::Temp));
            }
        }
        proof {
            assert(old(self).channel == Some(channel) <==> current_channel == new_channel);
        }
        let shift = self.settings.sample_number.to_u8();
        let acc_divisor: u16 = 1u16 << (shift as u16);
        proof {
            lemma_pow2_small_shift(shift);
        }
        let raw = sample.result / acc_divisor;
        actions.push(Action::AdcStartConversion);
        proof {
            assert(actions@ =~= a0 + switch_actions(old(self).channel, channel, old(self).settings)
                + seq![Action::AdcStartConversion]);
        }
        Some(raw)
    }

    /// The voltage, in hundredths of a volt, that `raw` stands for under the current settings.
    pub fn voltage_from_raw(&self, raw: u16) -> (r: u16)
        ensures
            r == spec_voltage_from_raw(self.settings, raw),
    {
        let vrefe5: u32 = if self.settings.adc_ref_voltage.to_u8() == 0 {
            match self.settings.int_ref_voltage {
                IntReferenceVoltage::V0_55 => 55000,
                IntReferenceVoltage::V1_1 => 110000,
                IntReferenceVoltage::V2_5 => 250000,
                IntReferenceVoltage::V4_34 => 434000,
                IntReferenceVoltage::V1_5 => 150000,
            }
        } else {
            VREF_VDD_VALUE
        };
        let raw_max: u32 = match self.settings.resolution {
            Resolution::Bits10 => 1023,
            Resolution::Bits8 => 255,
        };
        let product = (raw as u32).wrapping_mul(vrefe5);
        let r = ((product / raw_max) / PRECISION_DIVISOR) as u16;
        r
    }

    /// The temperature that a raw reading of the sensor stands for, in Celsius or (with
    /// `use_f`) Fahrenheit.
    pub fn temp_from_raw(&self, raw: u16, use_f: bool) -> (r: u16)
        ensures
            r == spec_temp_from_raw(raw, self.sigrow_offset, self.sigrow_gain, use_f),
    {
        let temp_k = temp_kelvin(raw, self.sigrow_offset, self.sigrow_gain);
        let temp_c = temp_k.saturating_sub(273);
        if use_f {
            let temp_f = (temp_c as u32 * 9 / 5) + 32;
            let r = (temp_f & 0xFFFF) as u16;
            proof {
                assert((temp_f & 0xFFFF) as u16 as nat == temp_f as nat % 0x1_0000) by (bit_vector);
            }
            r
        } else {
            temp_c
        }
    }

    /// Reads the temperature: see `read_raw_nonblocking` and `temp_from_raw`.
    pub fn read_temp_nonblocking(
        &mut self,
        use_f: bool,
        sample: AdcSample,
        actions: &mut Vec<Action>,
    ) -> (r: Option<u16>)
        ensures
            final(self).settings == old(self).settings,
            final(self).sigrow_offset == old(self).sigrow_offset,
            final(self).sigrow_gain == old(self).sigrow_gain,
            sample.busy ==> r is None && *final(self) == *old(self) && final(actions)@ == old(
                actions,
            )@,
            !sample.busy ==> {
                &&& final(self).channel == Some(AdcChannel::Temp)
                &&& r == Some(
                    spec_temp_from_raw(
                        (sample.result as nat / pow2_small(
                            old(self).settings.sample_number.spec_index(),
                        )) as u16,
                        old(self).sigrow_offset,
                        old(self).sigrow_gain,
                        use_f,
                    ),
                )
                &&& final(actions)@ == old(actions)@ + switch_actions(
                    old(self).channel,
                    AdcChannel::Temp,
                    old(self).settings,
                ) + seq![Action::AdcStartConversion]
            },
    {
        match self.read_raw_nonblocking(AdcChannel::Temp, sample, actions) {
            Some(raw) => Some(self.temp_from_raw(raw, use_f)),
            None => None,
        }
    }

    /// Reads a voltage: see `read_raw_nonblocking` and `voltage_from_raw`.
    pub fn read_voltage_nonblocking(
        &mut self,
        channel: AdcChannel,
        sample: AdcSample,
        actions: &mut Vec<Action>,
    ) -> (r: Option<u16>)
        ensures
            final(self).settings == old(self).settings,
            final(self).sigrow_offset == old(self).sigrow_offset,
            final(self).sigrow_gain == old(self).sigrow_gain,
            sample.busy ==> r is None && *final(self) == *old(self) && final(actions)@ == old(
                actions,
            )@,
            !sample.busy ==> {
                &&& final(self).channel == Some(channel)
                &&& r == Some(
                    spec_voltage_from_raw(
                        old(self).settings,
                        (sample.result as nat / pow2_small(
                            old(self).settings.sample_number.spec_index(),
                        )) as u16,
                    ),
                )
                &&& final(actions)@ == old(actions)@ + switch_actions(
                    old(self).channel,
                    channel,
                    old(self).settings,
                ) + seq![Action::AdcStartConversion]
            },
    {
        match self.read_raw_nonblocking(channel, sample, actions) {
            Some(raw) => Some(self.voltage_from_raw(raw)),
            None => None,
        }
    }
}

/// What switching from `current` to `channel` writes to the peripheral: nothing when the
/// channel stays; else the settings (with the 1.1 V reference for the temperature sensor, or
/// put back when leaving it), the channel, and the start of a conversion.
pub open spec fn switch_actions(
    current: Option<AdcChannel>,
    channel: AdcChannel,
    settings: AdcSettings,
) -> Seq<Action> {
    if current == Some(channel) {
        seq![]
    } else {
        let apply: Seq<Action> = if channel == AdcChannel::Temp {
            seq![Action::AdcApply(AdcSettings { int_ref_voltage: IntReferenceVoltage::V1_1, ..settings })]
        } else if current == Some(AdcChannel::Temp) {
            seq![Action::AdcApply(settings)]
        } else {
            seq![]
        };
        apply + seq![Action::AdcSelect(channel), Action::AdcStartConversion]
    }
}

/// `2^i` for small `i`.
pub open spec fn pow2_small(i: nat) -> nat
    decreases i,
{
    if i == 0 {
        1
    } else {
        2 * pow2_small((i - 1) as nat)
    }
}

proof fn lemma_pow2_small_shift(s: u8)
    requires
        s < 7,
    ensures
        (1u16 << (s as u16)) as nat == pow2_small(s as nat),
        (1u16 << (s as u16)) > 0,
{
    reveal_with_fuel(pow2_small, 8);
    if s == 0 {
        assert(1u16 << 0u16 == 1u16) by (bit_vector);
    } else if s == 1 {
        assert(1u16 << 1u16 == 2u16) by (bit_vector);
    } else if s == 2 {
        assert(1u16 << 2u16 == 4u16) by (bit_vector);
    } else if s == 3 {
        assert(1u16 << 3u16 == 8u16) by (bit_vector);
    } else if s == 4 {
        assert(1u16 << 4u16 == 16u16) by (bit_vector);
    } else if s == 5 {
        assert(1u16 << 5u16 == 32u16) by (bit_vector);
    } else {
        assert(1u16 << 6u16 == 64u16) by (bit_vector);
    }
}

/// The temperature in Kelvin as the device computes it (see `spec_temp_kelvin`).
pub(crate) fn temp_kelvin(raw: u16, offset: i8, gain: u8) -> (r: u16)
    ensures
        r as nat == spec_temp_kelvin(raw, offset, gain),
{
    let diff: i32 = raw as i32 - offset as i32;
    let diff_bits: u32 = if diff >= 0 {
        diff as u32
    } else {
        (0x1_0000_0000i64 + diff as i64) as u32
    };
    let scaled = diff_bits.wrapping_mul(gain as u32);
    let rounded = scaled.wrapping_add(0x80);
    let shifted = rounded >> 8u32;
    proof {
        let m: int = 0x1_0000_0000;
        let d = raw as int - offset as int;
        assert(diff_bits as int == d % m) by {
            if d >= 0 {
                vstd::arithmetic::div_mod::lemma_small_mod(d as nat, m as nat);
            } else {
                assert(d % m == d + m) by (nonlinear_arith)
                    requires
                        -m < d < 0,
                        m == 0x1_0000_0000,
                ;
            }
        }
        vstd::arithmetic::div_mod::lemma_mul_mod_noop_left(d, gain as int, m);
        assert(scaled as int == (d * gain as int) % m);
        assert(rounded as int == (scaled as int + 0x80) % m) by {
            if scaled as int + 0x80 >= m {
                assert((scaled as int + 0x80) % m == scaled as int + 0x80 - m) by (nonlinear_arith)
                    requires
                        m <= scaled as int + 0x80 < 2 * m,
                ;
            } else {
                vstd::arithmetic::div_mod::lemma_small_mod((scaled as int + 0x80) as nat, m as nat);
            }
        }
        assert(shifted == rounded / 256) by (bit_vector)
            requires
                shifted == rounded >> 8u32,
        ;
    }
    let r = (shifted & 0xFFFF) as u16;
    proof {
        assert((shifted & 0xFFFF) as u16 as nat == shifted as nat % 0x1_0000) by (bit_vector);
    }
    r
}

/// The Fahrenheit reading is the Celsius reading times 9/5 plus 32 (as a 16-bit value), and
/// the Celsius reading is never below 0.
pub proof fn lemma_fahrenheit_from_celsius(raw: u16, offset: i8, gain: u8)
    ensures
        spec_temp_from_raw(raw, offset, gain, true) as nat == (spec_temp_from_raw(
            raw,
            offset,
            gain,
            false,
        ) as nat * 9 / 5 + 32) % 0x1_0000,
{
}

} // verus!
