//! Status enumerations shared by the input, output and value objects:
//! event state, reliability and the common engineering units.

use vstd::prelude::*;

verus! {

/// Event state enumeration.
#[derive(Debug, Clone, Copy, PartialEq, Eq, Structural)]
pub enum EventState {
    Normal,
    Fault,
    Offnormal,
    HighLimit,
    LowLimit,
    LifeSafetyAlarm,
}

impl EventState {
    /// The enumerated value of this event state.
    pub fn code(self) -> (r: u32)
        ensures
            r == match self {
                EventState::Normal => 0u32,
                EventState::Fault => 1,
                EventState::Offnormal => 2,
                EventState::HighLimit => 3,
                EventState::LowLimit => 4,
                EventState::LifeSafetyAlarm => 5,
            },
    {
        match self {
            EventState::Normal => 0,
            EventState::Fault => 1,
            EventState::Offnormal => 2,
            EventState::HighLimit => 3,
            EventState::LowLimit => 4,
            EventState::LifeSafetyAlarm => 5,
        }
    }
}

/// Reliability enumeration.
#[derive(Debug, Clone, Copy, PartialEq, Eq, Structural)]
pub enum Reliability {
    NoFaultDetected,
    NoSensor,
    OverRange,
    UnderRange,
    OpenLoop,
    ShortedLoop,
    NoOutput,
    UnreliableOther,
    ProcessError,
    MultiStateFault,
    ConfigurationError,
}

impl Reliability {
    /// The enumerated value of this reliability.
    pub fn code(self) -> (r: u32)
        ensures
            r == match self {
                Reliability::NoFaultDetected => 0u32,
                Reliability::NoSensor => 1,
                Reliability::OverRange => 2,
                Reliability::UnderRange => 3,
                Reliability::OpenLoop => 4,
                Reliability::ShortedLoop => 5,
                Reliability::NoOutput => 6,
                Reliability::UnreliableOther => 7,
                Reliability::ProcessError => 8,
                Reliability::MultiStateFault => 9,
                Reliability::ConfigurationError => 10,
            },
    {
        match self {
            Reliability::NoFaultDetected => 0,
            Reliability::NoSensor => 1,
            Reliability::OverRange => 2,
            Reliability::UnderRange => 3,
            Reliability::OpenLoop => 4,
            Reliability::ShortedLoop => 5,
            Reliability::NoOutput => 6,
            Reliability::UnreliableOther => 7,
            Reliability::ProcessError => 8,
            Reliability::MultiStateFault => 9,
            Reliability::ConfigurationError => 10,
        }
    }
}

/// The engineering units most used by analog objects.
#[derive(Debug, Clone, Copy, PartialEq, Eq, Structural)]
pub enum EngineeringUnits {
    NoUnits,
    Percent,
    DegreesCelsius,
    DegreesFahrenheit,
    DegreesKelvin,
    Volts,
    Millivolts,
    Amperes,
    Milliamperes,
    Ohms,
    Watts,
    Kilowatts,
    Pascals,
    Kilopascals,
    MetersPerSecond,
    KilometersPerHour,
    CubicMetersPerSecond,
    LitersPerSecond,
}

impl EngineeringUnits {
    /// The enumerated value of this unit.
    pub fn code(self) -> (r: u32)
        ensures
            r == match self {
                EngineeringUnits::NoUnits => 95u32,
                EngineeringUnits::Percent => 98,
                EngineeringUnits::DegreesCelsius => 62,
                EngineeringUnits::DegreesFahrenheit => 64,
                EngineeringUnits::DegreesKelvin => 63,
                EngineeringUnits::Volts => 5,
                EngineeringUnits::Millivolts => 124,
                EngineeringUnits::Amperes => 2,
                EngineeringUnits::Milliamperes => 119,
                EngineeringUnits::Ohms => 4,
                EngineeringUnits::Watts => 47,
                EngineeringUnits::Kilowatts => 48,
                EngineeringUnits::Pascals => 53,
                EngineeringUnits::Kilopascals => 54,
                EngineeringUnits::MetersPerSecond => 74,
                EngineeringUnits::KilometersPerHour => 75,
                EngineeringUnits::CubicMetersPerSecond => 85,
                EngineeringUnits::LitersPerSecond => 126,
            },
    {
        match self {
            EngineeringUnits::NoUnits => 95,
            EngineeringUnits::Percent => 98,
            EngineeringUnits::DegreesCelsius => 62,
            EngineeringUnits::DegreesFahrenheit => 64,
            EngineeringUnits::DegreesKelvin => 63,
            EngineeringUnits::Volts => 5,
            EngineeringUnits::Millivolts => 124,
            EngineeringUnits::Amperes => 2,
            EngineeringUnits::Milliamperes => 119,
            EngineeringUnits::Ohms => 4,
            EngineeringUnits::Watts => 47,
            EngineeringUnits::Kilowatts => 48,
            EngineeringUnits::Pascals => 53,
            EngineeringUnits::Kilopascals => 54,
            EngineeringUnits::MetersPerSecond => 74,
            EngineeringUnits::KilometersPerHour => 75,
            EngineeringUnits::CubicMetersPerSecond => 85,
            EngineeringUnits::LitersPerSecond => 126,
        }
    }
}

} // verus!
