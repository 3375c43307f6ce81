use vstd::prelude::*;

verus! {

/// Configuration of the ADC peripheral.
#[derive(Clone, Copy, Debug, PartialEq, Eq, Structural)]
pub struct AdcSettings {
    pub resolution: Resolution,
    pub sample_number: SampleNumber,
    pub samp_cap: bool,
    /// also selects the internal reference voltage
    pub ref_voltage: ReferenceVoltage,
    pub clock_divider: ClockDivider,
    pub init_delay: DelayCycles,
    /// automatic sampling delay variation
    pub asdv: bool,
    /// delay between samples, 4 bit
    pub sample_delay: u8,
    /// extends the sample length, 5 bit
    pub sample_length: u8,
}

impl AdcSettings {
    /// The settings after reset: 10 bit, one sample, 1.1 V, clock divided by 128, no delays.
    pub open spec fn spec_default() -> AdcSettings {
        AdcSettings {
            resolution: Resolution::_10bit,
            sample_number: SampleNumber::Acc1,
            samp_cap: true,
            ref_voltage: ReferenceVoltage::VRef1_1V,
            clock_divider: ClockDivider::Factor128,
            init_delay: DelayCycles::Delay0,
            asdv: false,
            sample_delay: 0,
            sample_length: 0,
        }
    }
}

impl Default for AdcSettings {
    fn default() -> (r: Self)
        ensures
            r == AdcSettings::spec_default(),
    {
        AdcSettings {
            resolution: Resolution::default(),
            sample_number: SampleNumber::Acc1,
            // the 1.1 V reference is above 1 V
            samp_cap: true,
            ref_voltage: ReferenceVoltage::default(),
            clock_divider: ClockDivider::default(),
            init_delay: DelayCycles::Delay0,
            asdv: false,
            sample_delay: 0,
            sample_length: 0,
        }
    }
}

/// ADC resolution.
#[derive(Clone, Copy, Debug, PartialEq, Eq, Structural)]
pub enum Resolution {
    _10bit,
    _8bit,
}

impl Default for Resolution {
    fn default() -> (r: Self)
        ensures
            r == Resolution::_10bit,
    {
        Self::_10bit
    }
}

impl Resolution {
    /// The position of the value, from the lowest.
    pub open spec fn index(self) -> nat {
        match self {
            Resolution::_10bit => 0,
            Resolution::_8bit => 1,
        }
    }

    /// One step up, to the finer 10-bit resolution, staying there.
    pub open spec fn spec_next(self) -> Self {
        match self {
            Resolution::_8bit => Resolution::_10bit,
            Resolution::_10bit => Resolution::_10bit,
        }
    }

    /// One step down, to the coarser 8-bit resolution, staying there.
    pub open spec fn spec_prev(self) -> Self {
        match self {
            Resolution::_10bit => Resolution::_8bit,
            Resolution::_8bit => Resolution::_8bit,
        }
    }

    /// One step up, to the finer 10-bit resolution, staying there.
    pub fn next(&self) -> (r: Self)
        ensures
            r == self.spec_next(),
            r.index() == if self.index() > 0 {
                (self.index() - 1) as nat
            } else {
                self.index()
            },
    {
        match self {
            Resolution::_8bit => Resolution::_10bit,
            Resolution::_10bit => Resolution::_10bit,  // no wrap around
        }
    }

    /// One step down, to the coarser 8-bit resolution, staying there.
    pub fn prev(&self) -> (r: Self)
        ensures
            r == self.spec_prev(),
            r.index() == if self.index() + 1 < 2 {
                self.index() + 1
            } else {
                self.index()
            },
    {
        match self {
            Resolution::_10bit => Resolution::_8bit,
            Resolution::_8bit => Resolution::_8bit,  // no wrap around
        }
    }
}

/// Samples accumulated per conversion: 1 (no accumulation), 2, 4, ..., 64.
#[derive(Clone, Copy, Debug, PartialEq, Eq, Structural)]
pub enum SampleNumber {
    Acc1,
    Acc2,
    Acc4,
    Acc8,
    Acc16,
    Acc32,
    Acc64,
}

impl SampleNumber {
    /// The position of the value, from the lowest.
    pub open spec fn index(self) -> nat {
        match self {
            SampleNumber::Acc1 => 0,
            SampleNumber::Acc2 => 1,
            SampleNumber::Acc4 => 2,
            SampleNumber::Acc8 => 3,
            SampleNumber::Acc16 => 4,
            SampleNumber::Acc32 => 5,
            SampleNumber::Acc64 => 6,
        }
    }

    /// The next higher value, staying at the highest.
    pub open spec fn spec_next(self) -> Self {
        match self {
            SampleNumber::Acc1 => SampleNumber::Acc2,
            SampleNumber::Acc2 => SampleNumber::Acc4,
            SampleNumber::Acc4 => SampleNumber::Acc8,
            SampleNumber::Acc8 => SampleNumber::Acc16,
            SampleNumber::Acc16 => SampleNumber::Acc32,
            SampleNumber::Acc32 => SampleNumber::Acc64,
            SampleNumber::Acc64 => SampleNumber::Acc64,
        }
    }

    /// The next lower value, staying at the lowest.
    pub open spec fn spec_prev(self) -> Self {
        match self {
            SampleNumber::Acc64 => SampleNumber::Acc32,
            SampleNumber::Acc32 => SampleNumber::Acc16,
            SampleNumber::Acc16 => SampleNumber::Acc8,
            SampleNumber::Acc8 => SampleNumber::Acc4,
            SampleNumber::Acc4 => SampleNumber::Acc2,
            SampleNumber::Acc2 => SampleNumber::Acc1,
            SampleNumber::Acc1 => SampleNumber::Acc1,
        }
    }

    /// The next higher value, staying at the highest.
    pub fn next(&self) -> (r: Self)
        ensures
            r == self.spec_next(),
            r.index() == if self.index() + 1 < 7 {
                self.index() + 1
            } else {
                self.index()
            },
    {
        match self {
            SampleNumber::Acc1 => SampleNumber::Acc2,
            SampleNumber::Acc2 => SampleNumber::Acc4,
            SampleNumber::Acc4 => SampleNumber::Acc8,
            SampleNumber::Acc8 => SampleNumber::Acc16,
            SampleNumber::Acc16 => SampleNumber::Acc32,
            SampleNumber::Acc32 => SampleNumber::Acc64,
            SampleNumber::Acc64 => SampleNumber::Acc64,  // no wrap around
        }
    }

    /// The next lower value, staying at the lowest.
    pub fn prev(&self) -> (r: Self)
        ensures
            r == self.spec_prev(),
            r.index() == if self.index() > 0 {
                (self.index() - 1) as nat
            } else {
                self.index()
            },
    {
        match self {
            SampleNumber::Acc64 => SampleNumber::Acc32,
            SampleNumber::Acc32 => SampleNumber::Acc16,
            SampleNumber::Acc16 => SampleNumber::Acc8,
            SampleNumber::Acc8 => SampleNumber::Acc4,
            SampleNumber::Acc4 => SampleNumber::Acc2,
            SampleNumber::Acc2 => SampleNumber::Acc1,
            SampleNumber::Acc1 => SampleNumber::Acc1,  // no wrap around
        }
    }
}

/// The voltage reference of the ADC: an internal one (0.55 V to 4.34 V) or Vdd.
#[derive(Clone, Copy, Debug, PartialEq, Eq, Structural)]
pub enum ReferenceVoltage {
    VRef0_55V,
    VRef1_1V,
    VRef1_5V,
    VRef2_5V,
    VRef4_34V,
    Vdd,
}

impl Default for ReferenceVoltage {
    fn default() -> (r: Self)
        ensures
            r == ReferenceVoltage::VRef1_1V,
    {
        Self::VRef1_1V
    }
}

impl ReferenceVoltage {
    /// The position of the value, from the lowest.
    pub open spec fn index(self) -> nat {
        match self {
            ReferenceVoltage::VRef0_55V => 0,
            ReferenceVoltage::VRef1_1V => 1,
            ReferenceVoltage::VRef1_5V => 2,
            ReferenceVoltage::VRef2_5V => 3,
            ReferenceVoltage::VRef4_34V => 4,
            ReferenceVoltage::Vdd => 5,
        }
    }

    /// The next higher value, staying at the highest.
    pub open spec fn spec_next(self) -> Self {
        match self {
            ReferenceVoltage::VRef0_55V => ReferenceVoltage::VRef1_1V,
            ReferenceVoltage::VRef1_1V => ReferenceVoltage::VRef1_5V,
            ReferenceVoltage::VRef1_5V => ReferenceVoltage::VRef2_5V,
            ReferenceVoltage::VRef2_5V => ReferenceVoltage::VRef4_34V,
            ReferenceVoltage::VRef4_34V => ReferenceVoltage::Vdd,
            ReferenceVoltage::Vdd => ReferenceVoltage::Vdd,
        }
    }

    /// The next lower value, staying at the lowest.
    pub open spec fn spec_prev(self) -> Self {
        match self {
            ReferenceVoltage::Vdd => ReferenceVoltage::VRef4_34V,
            ReferenceVoltage::VRef4_34V => ReferenceVoltage::VRef2_5V,
            ReferenceVoltage::VRef2_5V => ReferenceVoltage::VRef1_5V,
            ReferenceVoltage::VRef1_5V => ReferenceVoltage::VRef1_1V,
            ReferenceVoltage::VRef1_1V => ReferenceVoltage::VRef0_55V,
            ReferenceVoltage::VRef0_55V => ReferenceVoltage::VRef0_55V,
        }
    }

    /// The next higher value, staying at the highest.
    pub fn next(&self) -> (r: Self)
        ensures
            r == self.spec_next(),
            r.index() == if self.index() + 1 < 6 {
                self.index() + 1
            } else {
                self.index()
            },
    {
        match self {
            ReferenceVoltage::VRef0_55V => ReferenceVoltage::VRef1_1V,
            ReferenceVoltage::VRef1_1V => ReferenceVoltage::VRef1_5V,
            ReferenceVoltage::VRef1_5V => ReferenceVoltage::VRef2_5V,
            ReferenceVoltage::VRef2_5V => ReferenceVoltage::VRef4_34V,
            ReferenceVoltage::VRef4_34V => ReferenceVoltage::Vdd,
            ReferenceVoltage::Vdd => ReferenceVoltage::Vdd,  // no wrap around
        }
    }

    /// The next lower value, staying at the lowest.
    pub fn prev(&self) -> (r: Self)
        ensures
            r == self.spec_prev(),
            r.index() == if self.index() > 0 {
                (self.index() - 1) as nat
            } else {
                self.index()
            },
    {
        match self {
            ReferenceVoltage::Vdd => ReferenceVoltage::VRef4_34V,
            ReferenceVoltage::VRef4_34V => ReferenceVoltage::VRef2_5V,
            ReferenceVoltage::VRef2_5V => ReferenceVoltage::VRef1_5V,
            ReferenceVoltage::VRef1_5V => ReferenceVoltage::VRef1_1V,
            ReferenceVoltage::VRef1_1V => ReferenceVoltage::VRef0_55V,
            ReferenceVoltage::VRef0_55V => ReferenceVoltage::VRef0_55V,  // no wrap around
        }
    }
}

/// Divider of the ADC clock: 2, 4, ..., 256 (128 by default).
#[derive(Clone, Copy, Debug, PartialEq, Eq, Structural)]
pub enum ClockDivider {
    Factor2,
    Factor4,
    Factor8,
    Factor16,
    Factor32,
    Factor64,
    Factor128,
    Factor256,
}

impl Default for ClockDivider {
    fn default() -> (r: Self)
        ensures
            r == ClockDivider::Factor128,
    {
        Self::Factor128
    }
}

impl ClockDivider {
    /// The position of the value, from the lowest.
    pub open spec fn index(self) -> nat {
        match self {
            ClockDivider::Factor2 => 0,
            ClockDivider::Factor4 => 1,
            ClockDivider::Factor8 => 2,
            ClockDivider::Factor16 => 3,
            ClockDivider::Factor32 => 4,
            ClockDivider::Factor64 => 5,
            ClockDivider::Factor128 => 6,
            ClockDivider::Factor256 => 7,
        }
    }

    /// The next higher value, staying at the highest.
    pub open spec fn spec_next(self) -> Self {
        match self {
            ClockDivider::Factor2 => ClockDivider::Factor4,
            ClockDivider::Factor4 => ClockDivider::Factor8,
            ClockDivider::Factor8 => ClockDivider::Factor16,
            ClockDivider::Factor16 => ClockDivider::Factor32,
            ClockDivider::Factor32 => ClockDivider::Factor64,
            ClockDivider::Factor64 => ClockDivider::Factor128,
            ClockDivider::Factor128 => ClockDivider::Factor256,
            ClockDivider::Factor256 => ClockDivider::Factor256,
        }
    }

    /// The next lower value, staying at the lowest.
    pub open spec fn spec_prev(self) -> Self {
        match self {
            ClockDivider::Factor256 => ClockDivider::Factor128,
            ClockDivider::Factor128 => ClockDivider::Factor64,
            ClockDivider::Factor64 => ClockDivider::Factor32,
            ClockDivider::Factor32 => ClockDivider::Factor16,
            ClockDivider::Factor16 => ClockDivider::Factor8,
            ClockDivider::Factor8 => ClockDivider::Factor4,
            ClockDivider::Factor4 => ClockDivider::Factor2,
            ClockDivider::Factor2 => ClockDivider::Factor2,
        }
    }

    /// The next higher value, staying at the highest.
    pub fn next(&self) -> (r: Self)
        ensures
            r == self.spec_next(),
            r.index() == if self.index() + 1 < 8 {
                self.index() + 1
            } else {
                self.index()
            },
    {
        match self {
            ClockDivider::Factor2 => ClockDivider::Factor4,
            ClockDivider::Factor4 => ClockDivider::Factor8,
            ClockDivider::Factor8 => ClockDivider::Factor16,
            ClockDivider::Factor16 => ClockDivider::Factor32,
            ClockDivider::Factor32 => ClockDivider::Factor64,
            ClockDivider::Factor64 => ClockDivider::Factor128,
            ClockDivider::Factor128 => ClockDivider::Factor256,
            ClockDivider::Factor256 => ClockDivider::Factor256,  // no wrap around
        }
    }

    /// The next lower value, staying at the lowest.
    pub fn prev(&self) -> (r: Self)
        ensures
            r == self.spec_prev(),
            r.index() == if self.index() > 0 {
                (self.index() - 1) as nat
            } else {
                self.index()
            },
    {
        match self {
            ClockDivider::Factor256 => ClockDivider::Factor128,
            ClockDivider::Factor128 => ClockDivider::Factor64,
            ClockDivider::Factor64 => ClockDivider::Factor32,
            ClockDivider::Factor32 => ClockDivider::Factor16,
            ClockDivider::Factor16 => ClockDivider::Factor8,
            ClockDivider::Factor8 => ClockDivider::Factor4,
            ClockDivider::Factor4 => ClockDivider::Factor2,
            ClockDivider::Factor2 => ClockDivider::Factor2,  // no wrap around
        }
    }
}

/// Cycles of the ADC clock before the first sample: 0, 16, ..., 256.
#[derive(Clone, Copy, Debug, PartialEq, Eq, Structural)]
pub enum DelayCycles {
    Delay0,
    Delay16,
    Delay32,
    Delay64,
    Delay128,
    Delay256,
}

impl DelayCycles {
    /// The position of the value, from the lowest.
    pub open spec fn index(self) -> nat {
        match self {
            DelayCycles::Delay0 => 0,
            DelayCycles::Delay16 => 1,
            DelayCycles::Delay32 => 2,
            DelayCycles::Delay64 => 3,
            DelayCycles::Delay128 => 4,
            DelayCycles::Delay256 => 5,
        }
    }

    /// The next higher value, staying at the highest.
    pub open spec fn spec_next(self) -> Self {
        match self {
            DelayCycles::Delay0 => DelayCycles::Delay16,
            DelayCycles::Delay16 => DelayCycles::Delay32,
            DelayCycles::Delay32 => DelayCycles::Delay64,
            DelayCycles::Delay64 => DelayCycles::Delay128,
            DelayCycles::Delay128 => DelayCycles::Delay256,
            DelayCycles::Delay256 => DelayCycles::Delay256,
        }
    }

    /// The next lower value, staying at the lowest.
    pub open spec fn spec_prev(self) -> Self {
        match self {
            DelayCycles::Delay256 => DelayCycles::Delay128,
            DelayCycles::Delay128 => DelayCycles::Delay64,
            DelayCycles::Delay64 => DelayCycles::Delay32,
            DelayCycles::Delay32 => DelayCycles::Delay16,
            DelayCycles::Delay16 => DelayCycles::Delay0,
            DelayCycles::Delay0 => DelayCycles::Delay0,
        }
    }

    /// The next higher value, staying at the highest.
    pub fn next(&self) -> (r: Self)
        ensures
            r == self.spec_next(),
            r.index() == if self.index() + 1 < 6 {
                self.index() + 1
            } else {
                self.index()
            },
    {
        match self {
            DelayCycles::Delay0 => DelayCycles::Delay16,
            DelayCycles::Delay16 => DelayCycles::Delay32,
            DelayCycles::Delay32 => DelayCycles::Delay64,
            DelayCycles::Delay64 => DelayCycles::Delay128,
            DelayCycles::Delay128 => DelayCycles::Delay256,
            DelayCycles::Delay256 => DelayCycles::Delay256,  // no wrap around
        }
    }

    /// The next lower value, staying at the lowest.
    pub fn prev(&self) -> (r: Self)
        ensures
            r == self.spec_prev(),
            r.index() == if self.index() > 0 {
                (self.index() - 1) as nat
            } else {
                self.index()
            },
    {
        match self {
            DelayCycles::Delay256 => DelayCycles::Delay128,
            DelayCycles::Delay128 => DelayCycles::Delay64,
            DelayCycles::Delay64 => DelayCycles::Delay32,
            DelayCycles::Delay32 => DelayCycles::Delay16,
            DelayCycles::Delay16 => DelayCycles::Delay0,
            DelayCycles::Delay0 => DelayCycles::Delay0,  // no wrap around
        }
    }
}

} // verus!
