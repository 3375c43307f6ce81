use vstd::prelude::*;

verus! {

/// What the readings screen of the meter measures; the external voltage is read on AIN10, the
/// SDA line of the external connector.
#[derive(Clone, Copy, Debug, PartialEq, Eq, Structural)]
pub enum SensorReading {
    Temp,
    Vext,
    Vref,
    Gnd,
}

/// The reading after `r`, wrapping around.
pub open spec fn reading_after(r: SensorReading) -> SensorReading {
    match r {
        SensorReading::Temp => SensorReading::Vext,
        SensorReading::Vext => SensorReading::Vref,
        SensorReading::Vref => SensorReading::Gnd,
        SensorReading::Gnd => SensorReading::Temp,
    }
}

impl SensorReading {
    /// The next reading (see `reading_after`).
    pub fn next(&self) -> (r: Self)
        ensures
            r == reading_after(*self),
    {
        match self {
            SensorReading::Temp => SensorReading::Vext,
            SensorReading::Vext => SensorReading::Vref,
            SensorReading::Vref => SensorReading::Gnd,
            SensorReading::Gnd => SensorReading::Temp,
        }
    }
}

/// The ADC setting that the settings screen changes.
#[derive(Clone, Copy, Debug, PartialEq, Eq, Structural)]
pub enum SensorSetting {
    Resolution,
    SampleNumber,
    SampCap,
    RefVoltage,
    Prescaler,
    InitDelay,
    SetAsdv,
    SampleDelay,
    SampleLength,
}

/// The setting after `s`, in declaration order, wrapping around.
pub open spec fn setting_after(s: SensorSetting) -> SensorSetting {
    match s {
        SensorSetting::Resolution => SensorSetting::SampleNumber,
        SensorSetting::SampleNumber => SensorSetting::SampCap,
        SensorSetting::SampCap => SensorSetting::RefVoltage,
        SensorSetting::RefVoltage => SensorSetting::Prescaler,
        SensorSetting::Prescaler => SensorSetting::InitDelay,
        SensorSetting::InitDelay => SensorSetting::SetAsdv,
        SensorSetting::SetAsdv => SensorSetting::SampleDelay,
        SensorSetting::SampleDelay => SensorSetting::SampleLength,
        SensorSetting::SampleLength => SensorSetting::Resolution,
    }
}

impl SensorSetting {
    /// The next setting (see `setting_after`).
    pub fn next(&self) -> (r: Self)
        ensures
            r == setting_after(*self),
    {
        match self {
            SensorSetting::Resolution => SensorSetting::SampleNumber,
            SensorSetting::SampleNumber => SensorSetting::SampCap,
            SensorSetting::SampCap => SensorSetting::RefVoltage,
            SensorSetting::RefVoltage => SensorSetting::Prescaler,
            SensorSetting::Prescaler => SensorSetting::InitDelay,
            SensorSetting::InitDelay => SensorSetting::SetAsdv,
            SensorSetting::SetAsdv => SensorSetting::SampleDelay,
            SensorSetting::SampleDelay => SensorSetting::SampleLength,
            SensorSetting::SampleLength => SensorSetting::Resolution,
        }
    }
}

} // verus!
