//! BACnet engineering units: every unit of the standard with its
//! enumerated value, its BACnet name and its symbol. Values 0-255 and
//! 47808-49999 are reserved for ASHRAE; 256-47807 and 50000-65535 are
//! free for others and stand as `Custom`; any other number outside the
//! standard list stands as `Reserved`.

use vstd::prelude::*;

use crate::text::{chars_of, concat, dec_text, push_decimal, text_of};

verus! {

/// Engineering units.
#[derive(Debug, Clone, Copy, PartialEq, Eq, Hash, Structural)]
pub enum EngineeringUnits {
    SquareMeters,
    SquareFeet,
    Milliamperes,
    Amperes,
    Ohms,
    Volts,
    Kilovolts,
    Megavolts,
    VoltAmperes,
    KilovoltAmperes,
    MegavoltAmperes,
    VoltAmperesReactive,
    KilovoltAmperesReactive,
    MegavoltAmperesReactive,
    DegreesPhase,
    PowerFactor,
    Joules,
    Kilojoules,
    WattHours,
    KilowattHours,
    Btus,
    Therms,
    TonHours,
    JoulesPerKilogramDryAir,
    BtusPerPoundDryAir,
    CyclesPerHour,
    CyclesPerMinute,
    Hertz,
    GramsOfWaterPerKilogramDryAir,
    PercentRelativeHumidity,
    Millimeters,
    Meters,
    Inches,
    Feet,
    WattsPerSquareFoot,
    WattsPerSquareMeter,
    Lumens,
    Luxes,
    FootCandles,
    Kilograms,
    PoundsMass,
    Tons,
    KilogramsPerSecond,
    KilogramsPerMinute,
    KilogramsPerHour,
    PoundsMassPerMinute,
    PoundsMassPerHour,
    Watts,
    Kilowatts,
    Megawatts,
    BtusPerHour,
    Horsepower,
    TonsRefrigeration,
    Pascals,
    Kilopascals,
    Bars,
    PoundsForcePerSquareInch,
    CentimetersOfWater,
    InchesOfWater,
    MillimetersOfMercury,
    CentimetersOfMercury,
    InchesOfMercury,
    DegreesCelsius,
    Kelvin,
    DegreesFahrenheit,
    DegreeDaysCelsius,
    DegreeDaysFahrenheit,
    Years,
    Months,
    Weeks,
    Days,
    Hours,
    Minutes,
    Seconds,
    MetersPerSecond,
    KilometersPerHour,
    FeetPerSecond,
    FeetPerMinute,
    MilesPerHour,
    CubicFeet,
    CubicMeters,
    ImperialGallons,
    Liters,
    UsGallons,
    CubicFeetPerMinute,
    CubicMetersPerSecond,
    ImperialGallonsPerMinute,
    LitersPerSecond,
    LitersPerMinute,
    UsGallonsPerMinute,
    DegreesAngular,
    DegreesCelsiusPerHour,
    DegreesCelsiusPerMinute,
    DegreesFahrenheitPerHour,
    DegreesFahrenheitPerMinute,
    NoUnits,
    PartsPerMillion,
    PartsPerBillion,
    Percent,
    PercentPerSecond,
    PerMinute,
    PerSecond,
    PsiPerDegreeFahrenheit,
    Radians,
    RevolutionsPerMinute,
    Currency1,
    Currency2,
    Currency3,
    Currency4,
    Currency5,
    Currency6,
    Currency7,
    Currency8,
    Currency9,
    Currency10,
    SquareInches,
    SquareCentimeters,
    BtusPerPound,
    Centimeters,
    PoundsMassPerSecond,
    DeltaDegreesFahrenheit,
    DeltaKelvin,
    Kiloohms,
    Megaohms,
    Millivolts,
    KilojoulesPerKilogram,
    Megajoules,
    JoulesPerKelvin,
    JoulesPerKilogramKelvin,
    Kilohertz,
    Megahertz,
    PerHour,
    Milliwatts,
    Hectopascals,
    Millibars,
    CubicMetersPerHour,
    LitersPerHour,
    KilowattHoursPerSquareMeter,
    KilowattHoursPerSquareFoot,
    MegajoulesPerSquareMeter,
    MegajoulesPerSquareFoot,
    WattsPerSquareMeterPerKelvin,
    CubicFeetPerSecond,
    PercentObscurationPerFoot,
    PercentObscurationPerMeter,
    Milliohms,
    MegawattHours,
    KiloBtus,
    MegaBtus,
    KilojoulesPerKilogramDryAir,
    MegajoulesPerKilogramDryAir,
    KilojoulesPerKelvin,
    MegajoulesPerKelvin,
    Newton,
    GramsPerSecond,
    GramsPerMinute,
    TonsPerHour,
    KiloBtusPerHour,
    HundredthsSeconds,
    Milliseconds,
    NewtonMeters,
    MillimetersPerSecond,
    MillimetersPerMinute,
    MetersPerMinute,
    MetersPerHour,
    CubicMetersPerMinute,
    MetersPerSecondPerSecond,
    AmperesPerMeter,
    AmperesPerSquareMeter,
    AmpereSquareMeters,
    Farads,
    Henrys,
    OhmMeters,
    Siemens,
    SiemensPerMeter,
    Teslas,
    VoltsPerKelvin,
    VoltsPerMeter,
    Webers,
    Candelas,
    CandelasPerSquareMeter,
    KelvinPerHour,
    KelvinPerMinute,
    JouleSeconds,
    RadiansPerSecond,
    SquareMetersPerNewton,
    KilogramsPerCubicMeter,
    NewtonSeconds,
    NewtonsPerMeter,
    WattsPerMeterPerKelvin,
    Microsiemens,
    CubicFeetPerHour,
    UsGallonsPerHour,
    Kilometers,
    Micrometers,
    Grams,
    Milligrams,
    Milliliters,
    MillilitersPerSecond,
    Decibels,
    DecibelsMillivolt,
    DecibelsVolt,
    Millisiemens,
    WattHoursReactive,
    KilowattHoursReactive,
    MegawattHoursReactive,
    MillimetersOfWater,
    PerMille,
    GramsPerGram,
    KilogramsPerKilogram,
    GramsPerKilogram,
    MilligramsPerGram,
    MilligramsPerKilogram,
    GramsPerMilliliter,
    GramsPerLiter,
    MilligramsPerLiter,
    MicrogramsPerLiter,
    GramsPerCubicMeter,
    MilligramsPerCubicMeter,
    MicrogramsPerCubicMeter,
    NanogramsPerCubicMeter,
    GramsPerCubicCentimeter,
    Becquerels,
    Kilobecquerels,
    Megabecquerels,
    Gray,
    Milligray,
    Microgray,
    Sieverts,
    Millisieverts,
    Microsieverts,
    MicrosievertsPerHour,
    DecibelsA,
    NephelometricTurbidityUnit,
    Ph,
    GramsPerSquareMeter,
    MinutesPerKelvin,
    OhmMeterSquaredPerMeter,
    AmpereSeconds,
    VoltAmpereHours,
    KilovoltAmpereHours,
    MegavoltAmpereHours,
    VoltAmpereHoursReactive,
    KilovoltAmpereHoursReactive,
    MegavoltAmpereHoursReactive,
    VoltSquareHours,
    AmpereSquareHours,
    JoulesPerHour,
    CubicFeetPerDay,
    CubicMetersPerDay,
    WattHoursPerCubicMeter,
    JoulesPerCubicMeter,
    MolePercent,
    PascalSeconds,
    MillionStandardCubicFeetPerMinute,
    StandardCubicFeetPerDay,
    MillionStandardCubicFeetPerDay,
    ThousandCubicFeetPerDay,
    ThousandStandardCubicFeetPerDay,
    PoundsMassPerDay,
    Millirems,
    MilliremsPerHour,
    DegreesLovibond,
    AlcoholByVolume,
    InternationalBitteringUnits,
    EuropeanBitternessUnits,
    DegreesPlato,
    SpecificGravity,
    EuropeanBrewingConvention,
    PerDay,
    PerMillisecond,
    Yards,
    Miles,
    NauticalMiles,
    Nanograms,
    Micrograms,
    MetricTonnes,
    ShortTons,
    LongTons,
    GramsPerHour,
    GramsPerDay,
    KilogramsPerDay,
    ShortTonsPerSecond,
    ShortTonsPerMinute,
    ShortTonsPerHour,
    ShortTonsPerDay,
    MetricTonnesPerSecond,
    MetricTonnesPerMinute,
    MetricTonnesPerHour,
    MetricTonnesPerDay,
    LongTonsPerSecond,
    LongTonsPerMinute,
    LongTonsPerHour,
    LongTonsPerDay,
    BtusPerSecond,
    BtusPerMinute,
    BtusPerDay,
    KiloBtusPerSecond,
    KiloBtusPerMinute,
    KiloBtusPerDay,
    MegaBtusPerSecond,
    MegaBtusPerMinute,
    MegaBtusPerHour,
    MegaBtusPerDay,
    JoulesPerSecond,
    JoulesPerMinute,
    JoulesPerDay,
    KilojoulesPerSecond,
    KilojoulesPerMinute,
    KilojoulesPerHour,
    KilojoulesPerDay,
    MegajoulesPerSecond,
    MegajoulesPerMinute,
    MegajoulesPerHour,
    MegajoulesPerDay,
    DegreesCelsiusPerDay,
    KelvinPerDay,
    DegreesFahrenheitPerDay,
    DeltaDegreesCelsius,
    MillionCubicFeetPerMinute,
    MillionCubicFeetPerDay,
    ImperialGallonsPerSecond,
    ImperialGallonsPerHour,
    ImperialGallonsPerDay,
    LitersPerDay,
    UsGallonsPerSecond,
    UsGallonsPerDay,
    PercentPerMinute,
    PercentPerHour,
    PercentPerDay,
    PerMillion,
    PerBillion,
    MicrogramsPerGram,
    NanogramsPerGram,
    MicrogramsPerKilogram,
    NanogramsPerKilogram,
    MilligramsPerMilliliter,
    MicrogramsPerMilliliter,
    NanogramsPerMilliliter,
    KilogramsPerLiter,
    NanogramsPerLiter,
    MilligramsPerCubicCentimeter,
    MicrogramsPerCubicCentimeter,
    NanogramsPerCubicCentimeter,
    BtuPerHourPerWatt,
    BtuPerWattHourSeasonal,
    CoefficientOfPerformance,
    CoefficientOfPerformanceSeasonal,
    KilowattPerTonRefrigeration,
    LumensPerWatt,
    PoundForceFeet,
    PoundForceInches,
    OunceForceInches,
    PoundsForcePerSquareInchAbsolute,
    PoundsForcePerSquareInchGauge,
    MicrosiemensPerCentimeter,
    MillisiemensPerCentimeter,
    MillisiemensPerMeter,
    MillionsOfUsGallons,
    MillionsOfImperialGallons,
    MillilitersPerMinute,
    MilsPerYear,
    MillimetersPerYear,
    PulsesPerMinute,
    ActiveEnergyPulseValue,
    ReactiveEnergyPulseValue,
    ApparentEnergyPulseValue,
    VoltSquaredHourPulseValue,
    AmpereSquaredHourPulseValue,
    CubicMeterPulseValue,
    Gigawatts,
    Gigajoules,
    Terajoules,
    GigawattHours,
    GigawattReactiveHours,
    BitsPerSecond,
    KilobitsPerSecond,
    MegabitsPerSecond,
    GigabitsPerSecond,
    BytesPerSecond,
    KilobytesPerSecond,
    MegabytesPerSecond,
    GigabytesPerSecond,
    Volume1,
    Volume2,
    Volume3,
    Volume4,
    Volume5,
    Volume6,
    Volume7,
    Volume8,
    Volume9,
    Volume10,
    VolumetricFlow1,
    VolumetricFlow2,
    VolumetricFlow3,
    VolumetricFlow4,
    VolumetricFlow5,
    VolumetricFlow6,
    VolumetricFlow7,
    VolumetricFlow8,
    VolumetricFlow9,
    VolumetricFlow10,
    SiteUnit1,
    SiteUnit2,
    SiteUnit3,
    SiteUnit4,
    SiteUnit5,
    SiteUnit6,
    SiteUnit7,
    SiteUnit8,
    SiteUnit9,
    SiteUnit10,
    ParticlesPerCubicFoot,
    ParticlesPerCubicMeter,
    PicocuriesPerLiter,
    BecquerelsPerCubicMeter,
    GrainsOfWaterPerPoundDryAir,
    DegreeHoursCelsius,
    DegreeHoursFahrenheit,
    DegreeMinutesCelsius,
    DegreeMinutesFahrenheit,
    DegreeSecondsCelsius,
    DegreeSecondsFahrenheit,
    Microseconds,
    Nanoseconds,
    Picoseconds,
    Reserved(EngineeringUnitsValue),
    Custom(EngineeringUnitsValue),
}

/// The number carried by a reserved or custom unit.
#[derive(Debug, Clone, Copy, PartialEq, Eq, Hash, Structural)]
pub struct EngineeringUnitsValue {
    value: u32,
}

impl EngineeringUnitsValue {
    /// The number `value`, as carried by a reserved or custom unit.
    pub fn new(value: u32) -> (r: Self)
        ensures
            r == units_value(value),
            r.spec_value() == value,
    {
        EngineeringUnitsValue { value }
    }

    /// The number carried.
    pub closed spec fn spec_value(&self) -> u32 {
        self.value
    }

    /// The number carried.
    pub fn value(&self) -> (r: u32)
        ensures
            r == self.spec_value(),
    {
        self.value
    }
}

/// The carrier of the number `v`.
pub closed spec fn units_value(v: u32) -> EngineeringUnitsValue {
    EngineeringUnitsValue { value: v }
}

/// A carrier is given by its number, and carries the number it is made of.
pub proof fn lemma_units_value(v: u32, c: EngineeringUnitsValue)
    ensures
        units_value(v).spec_value() == v,
        units_value(c.spec_value()) == c,
{
}

/// Whether a number lies in the ranges reserved for ASHRAE.
pub open spec fn reserved_unit_number(v: u32) -> bool {
    v <= 255 || (47808 <= v <= 49999) || v >= 65536
}

/// The enumerated value of a unit.
pub open spec fn unit_number(u: EngineeringUnits) -> u32 {
    match u {
        EngineeringUnits::SquareMeters => 0u32,
        EngineeringUnits::SquareFeet => 1u32,
        EngineeringUnits::Milliamperes => 2u32,
        EngineeringUnits::Amperes => 3u32,
        EngineeringUnits::Ohms => 4u32,
        EngineeringUnits::Volts => 5u32,
        EngineeringUnits::Kilovolts => 6u32,
        EngineeringUnits::Megavolts => 7u32,
        EngineeringUnits::VoltAmperes => 8u32,
        EngineeringUnits::KilovoltAmperes => 9u32,
        EngineeringUnits::MegavoltAmperes => 10u32,
        EngineeringUnits::VoltAmperesReactive => 11u32,
        EngineeringUnits::KilovoltAmperesReactive => 12u32,
        EngineeringUnits::MegavoltAmperesReactive => 13u32,
        EngineeringUnits::DegreesPhase => 14u32,
        EngineeringUnits::PowerFactor => 15u32,
        EngineeringUnits::Joules => 16u32,
        EngineeringUnits::Kilojoules => 17u32,
        EngineeringUnits::WattHours => 18u32,
        EngineeringUnits::KilowattHours => 19u32,
        EngineeringUnits::Btus => 20u32,
        EngineeringUnits::Therms => 21u32,
        EngineeringUnits::TonHours => 22u32,
        EngineeringUnits::JoulesPerKilogramDryAir => 23u32,
        EngineeringUnits::BtusPerPoundDryAir => 24u32,
        EngineeringUnits::CyclesPerHour => 25u32,
        EngineeringUnits::CyclesPerMinute => 26u32,
        EngineeringUnits::Hertz => 27u32,
        EngineeringUnits::GramsOfWaterPerKilogramDryAir => 28u32,
        EngineeringUnits::PercentRelativeHumidity => 29u32,
        EngineeringUnits::Millimeters => 30u32,
        EngineeringUnits::Meters => 31u32,
        EngineeringUnits::Inches => 32u32,
        EngineeringUnits::Feet => 33u32,
        EngineeringUnits::WattsPerSquareFoot => 34u32,
        EngineeringUnits::WattsPerSquareMeter => 35u32,
        EngineeringUnits::Lumens => 36u32,
        EngineeringUnits::Luxes => 37u32,
        EngineeringUnits::FootCandles => 38u32,
        EngineeringUnits::Kilograms => 39u32,
        EngineeringUnits::PoundsMass => 40u32,
        EngineeringUnits::Tons => 41u32,
        EngineeringUnits::KilogramsPerSecond => 42u32,
        EngineeringUnits::KilogramsPerMinute => 43u32,
        EngineeringUnits::KilogramsPerHour => 44u32,
        EngineeringUnits::PoundsMassPerMinute => 45u32,
        EngineeringUnits::PoundsMassPerHour => 46u32,
        EngineeringUnits::Watts => 47u32,
        EngineeringUnits::Kilowatts => 48u32,
        EngineeringUnits::Megawatts => 49u32,
        EngineeringUnits::BtusPerHour => 50u32,
        EngineeringUnits::Horsepower => 51u32,
        EngineeringUnits::TonsRefrigeration => 52u32,
        EngineeringUnits::Pascals => 53u32,
        EngineeringUnits::Kilopascals => 54u32,
        EngineeringUnits::Bars => 55u32,
        EngineeringUnits::PoundsForcePerSquareInch => 56u32,
        EngineeringUnits::CentimetersOfWater => 57u32,
        EngineeringUnits::InchesOfWater => 58u32,
        EngineeringUnits::MillimetersOfMercury => 59u32,
        EngineeringUnits::CentimetersOfMercury => 60u32,
        EngineeringUnits::InchesOfMercury => 61u32,
        EngineeringUnits::DegreesCelsius => 62u32,
        EngineeringUnits::Kelvin => 63u32,
        EngineeringUnits::DegreesFahrenheit => 64u32,
        EngineeringUnits::DegreeDaysCelsius => 65u32,
        EngineeringUnits::DegreeDaysFahrenheit => 66u32,
        EngineeringUnits::Years => 67u32,
        EngineeringUnits::Months => 68u32,
        EngineeringUnits::Weeks => 69u32,
        EngineeringUnits::Days => 70u32,
        EngineeringUnits::Hours => 71u32,
        EngineeringUnits::Minutes => 72u32,
        EngineeringUnits::Seconds => 73u32,
        EngineeringUnits::MetersPerSecond => 74u32,
        EngineeringUnits::KilometersPerHour => 75u32,
        EngineeringUnits::FeetPerSecond => 76u32,
        EngineeringUnits::FeetPerMinute => 77u32,
        EngineeringUnits::MilesPerHour => 78u32,
        EngineeringUnits::CubicFeet => 79u32,
        EngineeringUnits::CubicMeters => 80u32,
        EngineeringUnits::ImperialGallons => 81u32,
        EngineeringUnits::Liters => 82u32,
        EngineeringUnits::UsGallons => 83u32,
        EngineeringUnits::CubicFeetPerMinute => 84u32,
        EngineeringUnits::CubicMetersPerSecond => 85u32,
        EngineeringUnits::ImperialGallonsPerMinute => 86u32,
        EngineeringUnits::LitersPerSecond => 87u32,
        EngineeringUnits::LitersPerMinute => 88u32,
        EngineeringUnits::UsGallonsPerMinute => 89u32,
        EngineeringUnits::DegreesAngular => 90u32,
        EngineeringUnits::DegreesCelsiusPerHour => 91u32,
        EngineeringUnits::DegreesCelsiusPerMinute => 92u32,
        EngineeringUnits::DegreesFahrenheitPerHour => 93u32,
        EngineeringUnits::DegreesFahrenheitPerMinute => 94u32,
        EngineeringUnits::NoUnits => 95u32,
        EngineeringUnits::PartsPerMillion => 96u32,
        EngineeringUnits::PartsPerBillion => 97u32,
        EngineeringUnits::Percent => 98u32,
        EngineeringUnits::PercentPerSecond => 99u32,
        EngineeringUnits::PerMinute => 100u32,
        EngineeringUnits::PerSecond => 101u32,
        EngineeringUnits::PsiPerDegreeFahrenheit => 102u32,
        EngineeringUnits::Radians => 103u32,
        EngineeringUnits::RevolutionsPerMinute => 104u32,
        EngineeringUnits::Currency1 => 105u32,
        EngineeringUnits::Currency2 => 106u32,
        EngineeringUnits::Currency3 => 107u32,
        EngineeringUnits::Currency4 => 108u32,
        EngineeringUnits::Currency5 => 109u32,
        EngineeringUnits::Currency6 => 110u32,
        EngineeringUnits::Currency7 => 111u32,
        EngineeringUnits::Currency8 => 112u32,
        EngineeringUnits::Currency9 => 113u32,
        EngineeringUnits::Currency10 => 114u32,
        EngineeringUnits::SquareInches => 115u32,
        EngineeringUnits::SquareCentimeters => 116u32,
        EngineeringUnits::BtusPerPound => 117u32,
        EngineeringUnits::Centimeters => 118u32,
        EngineeringUnits::PoundsMassPerSecond => 119u32,
        EngineeringUnits::DeltaDegreesFahrenheit => 120u32,
        EngineeringUnits::DeltaKelvin => 121u32,
        EngineeringUnits::Kiloohms => 122u32,
        EngineeringUnits::Megaohms => 123u32,
        EngineeringUnits::Millivolts => 124u32,
        EngineeringUnits::KilojoulesPerKilogram => 125u32,
        EngineeringUnits::Megajoules => 126u32,
        EngineeringUnits::JoulesPerKelvin => 127u32,
        EngineeringUnits::JoulesPerKilogramKelvin => 128u32,
        EngineeringUnits::Kilohertz => 129u32,
        EngineeringUnits::Megahertz => 130u32,
        EngineeringUnits::PerHour => 131u32,
        EngineeringUnits::Milliwatts => 132u32,
        EngineeringUnits::Hectopascals => 133u32,
        EngineeringUnits::Millibars => 134u32,
        EngineeringUnits::CubicMetersPerHour => 135u32,
        EngineeringUnits::LitersPerHour => 136u32,
        EngineeringUnits::KilowattHoursPerSquareMeter => 137u32,
        EngineeringUnits::KilowattHoursPerSquareFoot => 138u32,
        EngineeringUnits::MegajoulesPerSquareMeter => 139u32,
        EngineeringUnits::MegajoulesPerSquareFoot => 140u32,
        EngineeringUnits::WattsPerSquareMeterPerKelvin => 141u32,
        EngineeringUnits::CubicFeetPerSecond => 142u32,
        EngineeringUnits::PercentObscurationPerFoot => 143u32,
        EngineeringUnits::PercentObscurationPerMeter => 144u32,
        EngineeringUnits::Milliohms => 145u32,
        EngineeringUnits::MegawattHours => 146u32,
        EngineeringUnits::KiloBtus => 147u32,
        EngineeringUnits::MegaBtus => 148u32,
        EngineeringUnits::KilojoulesPerKilogramDryAir => 149u32,
        EngineeringUnits::MegajoulesPerKilogramDryAir => 150u32,
        EngineeringUnits::KilojoulesPerKelvin => 151u32,
        EngineeringUnits::MegajoulesPerKelvin => 152u32,
        EngineeringUnits::Newton => 153u32,
        EngineeringUnits::GramsPerSecond => 154u32,
        EngineeringUnits::GramsPerMinute => 155u32,
        EngineeringUnits::TonsPerHour => 156u32,
        EngineeringUnits::KiloBtusPerHour => 157u32,
        EngineeringUnits::HundredthsSeconds => 158u32,
        EngineeringUnits::Milliseconds => 159u32,
        EngineeringUnits::NewtonMeters => 160u32,
        EngineeringUnits::MillimetersPerSecond => 161u32,
        EngineeringUnits::MillimetersPerMinute => 162u32,
        EngineeringUnits::MetersPerMinute => 163u32,
        EngineeringUnits::MetersPerHour => 164u32,
        EngineeringUnits::CubicMetersPerMinute => 165u32,
        EngineeringUnits::MetersPerSecondPerSecond => 166u32,
        EngineeringUnits::AmperesPerMeter => 167u32,
        EngineeringUnits::AmperesPerSquareMeter => 168u32,
        EngineeringUnits::AmpereSquareMeters => 169u32,
        EngineeringUnits::Farads => 170u32,
        EngineeringUnits::Henrys => 171u32,
        EngineeringUnits::OhmMeters => 172u32,
        EngineeringUnits::Siemens => 173u32,
        EngineeringUnits::SiemensPerMeter => 174u32,
        EngineeringUnits::Teslas => 175u32,
        EngineeringUnits::VoltsPerKelvin => 176u32,
        EngineeringUnits::VoltsPerMeter => 177u32,
        EngineeringUnits::Webers => 178u32,
        EngineeringUnits::Candelas => 179u32,
        EngineeringUnits::CandelasPerSquareMeter => 180u32,
        EngineeringUnits::KelvinPerHour => 181u32,
        EngineeringUnits::KelvinPerMinute => 182u32,
        EngineeringUnits::JouleSeconds => 183u32,
        EngineeringUnits::RadiansPerSecond => 184u32,
        EngineeringUnits::SquareMetersPerNewton => 185u32,
        EngineeringUnits::KilogramsPerCubicMeter => 186u32,
        EngineeringUnits::NewtonSeconds => 187u32,
        EngineeringUnits::NewtonsPerMeter => 188u32,
        EngineeringUnits::WattsPerMeterPerKelvin => 189u32,
        EngineeringUnits::Microsiemens => 190u32,
        EngineeringUnits::CubicFeetPerHour => 191u32,
        EngineeringUnits::UsGallonsPerHour => 192u32,
        EngineeringUnits::Kilometers => 193u32,
        EngineeringUnits::Micrometers => 194u32,
        EngineeringUnits::Grams => 195u32,
        EngineeringUnits::Milligrams => 196u32,
        EngineeringUnits::Milliliters => 197u32,
        EngineeringUnits::MillilitersPerSecond => 198u32,
        EngineeringUnits::Decibels => 199u32,
        EngineeringUnits::DecibelsMillivolt => 200u32,
        EngineeringUnits::DecibelsVolt => 201u32,
        EngineeringUnits::Millisiemens => 202u32,
        EngineeringUnits::WattHoursReactive => 203u32,
        EngineeringUnits::KilowattHoursReactive => 204u32,
        EngineeringUnits::MegawattHoursReactive => 205u32,
        EngineeringUnits::MillimetersOfWater => 206u32,
        EngineeringUnits::PerMille => 207u32,
        EngineeringUnits::GramsPerGram => 208u32,
        EngineeringUnits::KilogramsPerKilogram => 209u32,
        EngineeringUnits::GramsPerKilogram => 210u32,
        EngineeringUnits::MilligramsPerGram => 211u32,
        EngineeringUnits::MilligramsPerKilogram => 212u32,
        EngineeringUnits::GramsPerMilliliter => 213u32,
        EngineeringUnits::GramsPerLiter => 214u32,
        EngineeringUnits::MilligramsPerLiter => 215u32,
        EngineeringUnits::MicrogramsPerLiter => 216u32,
        EngineeringUnits::GramsPerCubicMeter => 217u32,
        EngineeringUnits::MilligramsPerCubicMeter => 218u32,
        EngineeringUnits::MicrogramsPerCubicMeter => 219u32,
        EngineeringUnits::NanogramsPerCubicMeter => 220u32,
        EngineeringUnits::GramsPerCubicCentimeter => 221u32,
        EngineeringUnits::Becquerels => 222u32,
        EngineeringUnits::Kilobecquerels => 223u32,
        EngineeringUnits::Megabecquerels => 224u32,
        EngineeringUnits::Gray => 225u32,
        EngineeringUnits::Milligray => 226u32,
        EngineeringUnits::Microgray => 227u32,
        EngineeringUnits::Sieverts => 228u32,
        EngineeringUnits::Millisieverts => 229u32,
        EngineeringUnits::Microsieverts => 230u32,
        EngineeringUnits::MicrosievertsPerHour => 231u32,
        EngineeringUnits::DecibelsA => 232u32,
        EngineeringUnits::NephelometricTurbidityUnit => 233u32,
        EngineeringUnits::Ph => 234u32,
        EngineeringUnits::GramsPerSquareMeter => 235u32,
        EngineeringUnits::MinutesPerKelvin => 236u32,
        EngineeringUnits::OhmMeterSquaredPerMeter => 237u32,
        EngineeringUnits::AmpereSeconds => 238u32,
        EngineeringUnits::VoltAmpereHours => 239u32,
        EngineeringUnits::KilovoltAmpereHours => 240u32,
        EngineeringUnits::MegavoltAmpereHours => 241u32,
        EngineeringUnits::VoltAmpereHoursReactive => 242u32,
        EngineeringUnits::KilovoltAmpereHoursReactive => 243u32,
        EngineeringUnits::MegavoltAmpereHoursReactive => 244u32,
        EngineeringUnits::VoltSquareHours => 245u32,
        EngineeringUnits::AmpereSquareHours => 246u32,
        EngineeringUnits::JoulesPerHour => 247u32,
        EngineeringUnits::CubicFeetPerDay => 248u32,
        EngineeringUnits::CubicMetersPerDay => 249u32,
        EngineeringUnits::WattHoursPerCubicMeter => 250u32,
        EngineeringUnits::JoulesPerCubicMeter => 251u32,
        EngineeringUnits::MolePercent => 252u32,
        EngineeringUnits::PascalSeconds => 253u32,
        EngineeringUnits::MillionStandardCubicFeetPerMinute => 254u32,
        EngineeringUnits::StandardCubicFeetPerDay => 47808u32,
        EngineeringUnits::MillionStandardCubicFeetPerDay => 47809u32,
        EngineeringUnits::ThousandCubicFeetPerDay => 47810u32,
        EngineeringUnits::ThousandStandardCubicFeetPerDay => 47811u32,
        EngineeringUnits::PoundsMassPerDay => 47812u32,
        EngineeringUnits::Millirems => 47814u32,
        EngineeringUnits::MilliremsPerHour => 47815u32,
        EngineeringUnits::DegreesLovibond => 47816u32,
        EngineeringUnits::AlcoholByVolume => 47817u32,
        EngineeringUnits::InternationalBitteringUnits => 47818u32,
        EngineeringUnits::EuropeanBitternessUnits => 47819u32,
        EngineeringUnits::DegreesPlato => 47820u32,
        EngineeringUnits::SpecificGravity => 47821u32,
        EngineeringUnits::EuropeanBrewingConvention => 47822u32,
        EngineeringUnits::PerDay => 47823u32,
        EngineeringUnits::PerMillisecond => 47824u32,
        EngineeringUnits::Yards => 47825u32,
        EngineeringUnits::Miles => 47826u32,
        EngineeringUnits::NauticalMiles => 47827u32,
        EngineeringUnits::Nanograms => 47828u32,
        EngineeringUnits::Micrograms => 47829u32,
        EngineeringUnits::MetricTonnes => 47830u32,
        EngineeringUnits::ShortTons => 47831u32,
        EngineeringUnits::LongTons => 47832u32,
        EngineeringUnits::GramsPerHour => 47833u32,
        EngineeringUnits::GramsPerDay => 47834u32,
        EngineeringUnits::KilogramsPerDay => 47835u32,
        EngineeringUnits::ShortTonsPerSecond => 47836u32,
        EngineeringUnits::ShortTonsPerMinute => 47837u32,
        EngineeringUnits::ShortTonsPerHour => 47838u32,
        EngineeringUnits::ShortTonsPerDay => 47839u32,
        EngineeringUnits::MetricTonnesPerSecond => 47840u32,
        EngineeringUnits::MetricTonnesPerMinute => 47841u32,
        EngineeringUnits::MetricTonnesPerHour => 47842u32,
        EngineeringUnits::MetricTonnesPerDay => 47843u32,
        EngineeringUnits::LongTonsPerSecond => 47844u32,
        EngineeringUnits::LongTonsPerMinute => 47845u32,
        EngineeringUnits::LongTonsPerHour => 47846u32,
        EngineeringUnits::LongTonsPerDay => 47847u32,
        EngineeringUnits::BtusPerSecond => 47848u32,
        EngineeringUnits::BtusPerMinute => 47849u32,
        EngineeringUnits::BtusPerDay => 47850u32,
        EngineeringUnits::KiloBtusPerSecond => 47851u32,
        EngineeringUnits::KiloBtusPerMinute => 47852u32,
        EngineeringUnits::KiloBtusPerDay => 47853u32,
        EngineeringUnits::MegaBtusPerSecond => 47854u32,
        EngineeringUnits::MegaBtusPerMinute => 47855u32,
        EngineeringUnits::MegaBtusPerHour => 47856u32,
        EngineeringUnits::MegaBtusPerDay => 47857u32,
        EngineeringUnits::JoulesPerSecond => 47858u32,
        EngineeringUnits::JoulesPerMinute => 47859u32,
        EngineeringUnits::JoulesPerDay => 47860u32,
        EngineeringUnits::KilojoulesPerSecond => 47861u32,
        EngineeringUnits::KilojoulesPerMinute => 47862u32,
        EngineeringUnits::KilojoulesPerHour => 47863u32,
        EngineeringUnits::KilojoulesPerDay => 47864u32,
        EngineeringUnits::MegajoulesPerSecond => 47865u32,
        EngineeringUnits::MegajoulesPerMinute => 47866u32,
        EngineeringUnits::MegajoulesPerHour => 47867u32,
        EngineeringUnits::MegajoulesPerDay => 47868u32,
        EngineeringUnits::DegreesCelsiusPerDay => 47869u32,
        EngineeringUnits::KelvinPerDay => 47870u32,
        EngineeringUnits::DegreesFahrenheitPerDay => 47871u32,
        EngineeringUnits::DeltaDegreesCelsius => 47872u32,
        EngineeringUnits::MillionCubicFeetPerMinute => 47873u32,
        EngineeringUnits::MillionCubicFeetPerDay => 47874u32,
        EngineeringUnits::ImperialGallonsPerSecond => 47875u32,
        EngineeringUnits::ImperialGallonsPerHour => 47876u32,
        EngineeringUnits::ImperialGallonsPerDay => 47877u32,
        EngineeringUnits::LitersPerDay => 47878u32,
        EngineeringUnits::UsGallonsPerSecond => 47879u32,
        EngineeringUnits::UsGallonsPerDay => 47880u32,
        EngineeringUnits::PercentPerMinute => 47881u32,
        EngineeringUnits::PercentPerHour => 47882u32,
        EngineeringUnits::PercentPerDay => 47883u32,
        EngineeringUnits::PerMillion => 47884u32,
        EngineeringUnits::PerBillion => 47885u32,
        EngineeringUnits::MicrogramsPerGram => 47886u32,
        EngineeringUnits::NanogramsPerGram => 47887u32,
        EngineeringUnits::MicrogramsPerKilogram => 47888u32,
        EngineeringUnits::NanogramsPerKilogram => 47889u32,
        EngineeringUnits::MilligramsPerMilliliter => 47890u32,
        EngineeringUnits::MicrogramsPerMilliliter => 47891u32,
        EngineeringUnits::NanogramsPerMilliliter => 47892u32,
        EngineeringUnits::KilogramsPerLiter => 47893u32,
        EngineeringUnits::NanogramsPerLiter => 47894u32,
        EngineeringUnits::MilligramsPerCubicCentimeter => 47895u32,
        EngineeringUnits::MicrogramsPerCubicCentimeter => 47896u32,
        EngineeringUnits::NanogramsPerCubicCentimeter => 47897u32,
        EngineeringUnits::BtuPerHourPerWatt => 47898u32,
        EngineeringUnits::BtuPerWattHourSeasonal => 47899u32,
        EngineeringUnits::CoefficientOfPerformance => 47900u32,
        EngineeringUnits::CoefficientOfPerformanceSeasonal => 47901u32,
        EngineeringUnits::KilowattPerTonRefrigeration => 47902u32,
        EngineeringUnits::LumensPerWatt => 47903u32,
        EngineeringUnits::PoundForceFeet => 47904u32,
        EngineeringUnits::PoundForceInches => 47905u32,
        EngineeringUnits::OunceForceInches => 47906u32,
        EngineeringUnits::PoundsForcePerSquareInchAbsolute => 47907u32,
        EngineeringUnits::PoundsForcePerSquareInchGauge => 47908u32,
        EngineeringUnits::MicrosiemensPerCentimeter => 47909u32,
        EngineeringUnits::MillisiemensPerCentimeter => 47910u32,
        EngineeringUnits::MillisiemensPerMeter => 47911u32,
        EngineeringUnits::MillionsOfUsGallons => 47912u32,
        EngineeringUnits::MillionsOfImperialGallons => 47913u32,
        EngineeringUnits::MillilitersPerMinute => 47914u32,
        EngineeringUnits::MilsPerYear => 47915u32,
        EngineeringUnits::MillimetersPerYear => 47916u32,
        EngineeringUnits::PulsesPerMinute => 47917u32,
        EngineeringUnits::ActiveEnergyPulseValue => 47918u32,
        EngineeringUnits::ReactiveEnergyPulseValue => 47919u32,
        EngineeringUnits::ApparentEnergyPulseValue => 47920u32,
        EngineeringUnits::VoltSquaredHourPulseValue => 47921u32,
        EngineeringUnits::AmpereSquaredHourPulseValue => 47922u32,
        EngineeringUnits::CubicMeterPulseValue => 47923u32,
        EngineeringUnits::Gigawatts => 47924u32,
        EngineeringUnits::Gigajoules => 47925u32,
        EngineeringUnits::Terajoules => 47926u32,
        EngineeringUnits::GigawattHours => 47927u32,
        EngineeringUnits::GigawattReactiveHours => 47928u32,
        EngineeringUnits::BitsPerSecond => 47929u32,
        EngineeringUnits::KilobitsPerSecond => 47930u32,
        EngineeringUnits::MegabitsPerSecond => 47931u32,
        EngineeringUnits::GigabitsPerSecond => 47932u32,
        EngineeringUnits::BytesPerSecond => 47933u32,
        EngineeringUnits::KilobytesPerSecond => 47934u32,
        EngineeringUnits::MegabytesPerSecond => 47935u32,
        EngineeringUnits::GigabytesPerSecond => 47936u32,
        EngineeringUnits::Volume1 => 47937u32,
        EngineeringUnits::Volume2 => 47938u32,
        EngineeringUnits::Volume3 => 47939u32,
        EngineeringUnits::Volume4 => 47940u32,
        EngineeringUnits::Volume5 => 47941u32,
        EngineeringUnits::Volume6 => 47942u32,
        EngineeringUnits::Volume7 => 47943u32,
        EngineeringUnits::Volume8 => 47944u32,
        EngineeringUnits::Volume9 => 47945u32,
        EngineeringUnits::Volume10 => 47946u32,
        EngineeringUnits::VolumetricFlow1 => 47947u32,
        EngineeringUnits::VolumetricFlow2 => 47948u32,
        EngineeringUnits::VolumetricFlow3 => 47949u32,
        EngineeringUnits::VolumetricFlow4 => 47950u32,
        EngineeringUnits::VolumetricFlow5 => 47951u32,
        EngineeringUnits::VolumetricFlow6 => 47952u32,
        EngineeringUnits::VolumetricFlow7 => 47953u32,
        EngineeringUnits::VolumetricFlow8 => 47954u32,
        EngineeringUnits::VolumetricFlow9 => 47955u32,
        EngineeringUnits::VolumetricFlow10 => 47956u32,
        EngineeringUnits::SiteUnit1 => 47958u32,
        EngineeringUnits::SiteUnit2 => 47959u32,
        EngineeringUnits::SiteUnit3 => 47960u32,
        EngineeringUnits::SiteUnit4 => 47961u32,
        EngineeringUnits::SiteUnit5 => 47962u32,
        EngineeringUnits::SiteUnit6 => 47963u32,
        EngineeringUnits::SiteUnit7 => 47964u32,
        EngineeringUnits::SiteUnit8 => 47965u32,
        EngineeringUnits::SiteUnit9 => 47966u32,
        EngineeringUnits::SiteUnit10 => 47967u32,
        EngineeringUnits::ParticlesPerCubicFoot => 47968u32,
        EngineeringUnits::ParticlesPerCubicMeter => 47969u32,
        EngineeringUnits::PicocuriesPerLiter => 47970u32,
        EngineeringUnits::BecquerelsPerCubicMeter => 47971u32,
        EngineeringUnits::GrainsOfWaterPerPoundDryAir => 47972u32,
        EngineeringUnits::DegreeHoursCelsius => 47973u32,
        EngineeringUnits::DegreeHoursFahrenheit => 47974u32,
        EngineeringUnits::DegreeMinutesCelsius => 47975u32,
        EngineeringUnits::DegreeMinutesFahrenheit => 47976u32,
        EngineeringUnits::DegreeSecondsCelsius => 47977u32,
        EngineeringUnits::DegreeSecondsFahrenheit => 47978u32,
        EngineeringUnits::Microseconds => 47979u32,
        EngineeringUnits::Nanoseconds => 47980u32,
        EngineeringUnits::Picoseconds => 47981u32,
        EngineeringUnits::Reserved(v) => v.spec_value(),
        EngineeringUnits::Custom(v) => v.spec_value(),
    }
}

/// The unit with enumerated value `v`: a standard unit, else reserved or
/// custom by range.
pub open spec fn unit_of_number(v: u32) -> EngineeringUnits {
    match v {
        0u32 => EngineeringUnits::SquareMeters,
        1u32 => EngineeringUnits::SquareFeet,
        2u32 => EngineeringUnits::Milliamperes,
        3u32 => EngineeringUnits::Amperes,
        4u32 => EngineeringUnits::Ohms,
        5u32 => EngineeringUnits::Volts,
        6u32 => EngineeringUnits::Kilovolts,
        7u32 => EngineeringUnits::Megavolts,
        8u32 => EngineeringUnits::VoltAmperes,
        9u32 => EngineeringUnits::KilovoltAmperes,
        10u32 => EngineeringUnits::MegavoltAmperes,
        11u32 => EngineeringUnits::VoltAmperesReactive,
        12u32 => EngineeringUnits::KilovoltAmperesReactive,
        13u32 => EngineeringUnits::MegavoltAmperesReactive,
        14u32 => EngineeringUnits::DegreesPhase,
        15u32 => EngineeringUnits::PowerFactor,
        16u32 => EngineeringUnits::Joules,
        17u32 => EngineeringUnits::Kilojoules,
        18u32 => EngineeringUnits::WattHours,
        19u32 => EngineeringUnits::KilowattHours,
        20u32 => EngineeringUnits::Btus,
        21u32 => EngineeringUnits::Therms,
        22u32 => EngineeringUnits::TonHours,
        23u32 => EngineeringUnits::JoulesPerKilogramDryAir,
        24u32 => EngineeringUnits::BtusPerPoundDryAir,
        25u32 => EngineeringUnits::CyclesPerHour,
        26u32 => EngineeringUnits::CyclesPerMinute,
        27u32 => EngineeringUnits::Hertz,
        28u32 => EngineeringUnits::GramsOfWaterPerKilogramDryAir,
        29u32 => EngineeringUnits::PercentRelativeHumidity,
        30u32 => EngineeringUnits::Millimeters,
        31u32 => EngineeringUnits::Meters,
        32u32 => EngineeringUnits::Inches,
        33u32 => EngineeringUnits::Feet,
        34u32 => EngineeringUnits::WattsPerSquareFoot,
        35u32 => EngineeringUnits::WattsPerSquareMeter,
        36u32 => EngineeringUnits::Lumens,
        37u32 => EngineeringUnits::Luxes,
        38u32 => EngineeringUnits::FootCandles,
        39u32 => EngineeringUnits::Kilograms,
        40u32 => EngineeringUnits::PoundsMass,
        41u32 => EngineeringUnits::Tons,
        42u32 => EngineeringUnits::KilogramsPerSecond,
        43u32 => EngineeringUnits::KilogramsPerMinute,
        44u32 => EngineeringUnits::KilogramsPerHour,
        45u32 => EngineeringUnits::PoundsMassPerMinute,
        46u32 => EngineeringUnits::PoundsMassPerHour,
        47u32 => EngineeringUnits::Watts,
        48u32 => EngineeringUnits::Kilowatts,
        49u32 => EngineeringUnits::Megawatts,
        50u32 => EngineeringUnits::BtusPerHour,
        51u32 => EngineeringUnits::Horsepower,
        52u32 => EngineeringUnits::TonsRefrigeration,
        53u32 => EngineeringUnits::Pascals,
        54u32 => EngineeringUnits::Kilopascals,
        55u32 => EngineeringUnits::Bars,
        56u32 => EngineeringUnits::PoundsForcePerSquareInch,
        57u32 => EngineeringUnits::CentimetersOfWater,
        58u32 => EngineeringUnits::InchesOfWater,
        59u32 => EngineeringUnits::MillimetersOfMercury,
        60u32 => EngineeringUnits::CentimetersOfMercury,
        61u32 => EngineeringUnits::InchesOfMercury,
        62u32 => EngineeringUnits::DegreesCelsius,
        63u32 => EngineeringUnits::Kelvin,
        64u32 => EngineeringUnits::DegreesFahrenheit,
        65u32 => EngineeringUnits::DegreeDaysCelsius,
        66u32 => EngineeringUnits::DegreeDaysFahrenheit,
        67u32 => EngineeringUnits::Years,
        68u32 => EngineeringUnits::Months,
        69u32 => EngineeringUnits::Weeks,
        70u32 => EngineeringUnits::Days,
        71u32 => EngineeringUnits::Hours,
        72u32 => EngineeringUnits::Minutes,
        73u32 => EngineeringUnits::Seconds,
        74u32 => EngineeringUnits::MetersPerSecond,
        75u32 => EngineeringUnits::KilometersPerHour,
        76u32 => EngineeringUnits::FeetPerSecond,
        77u32 => EngineeringUnits::FeetPerMinute,
        78u32 => EngineeringUnits::MilesPerHour,
        79u32 => EngineeringUnits::CubicFeet,
        80u32 => EngineeringUnits::CubicMeters,
        81u32 => EngineeringUnits::ImperialGallons,
        82u32 => EngineeringUnits::Liters,
        83u32 => EngineeringUnits::UsGallons,
        84u32 => EngineeringUnits::CubicFeetPerMinute,
        85u32 => EngineeringUnits::CubicMetersPerSecond,
        86u32 => EngineeringUnits::ImperialGallonsPerMinute,
        87u32 => EngineeringUnits::LitersPerSecond,
        88u32 => EngineeringUnits::LitersPerMinute,
        89u32 => EngineeringUnits::UsGallonsPerMinute,
        90u32 => EngineeringUnits::DegreesAngular,
        91u32 => EngineeringUnits::DegreesCelsiusPerHour,
        92u32 => EngineeringUnits::DegreesCelsiusPerMinute,
        93u32 => EngineeringUnits::DegreesFahrenheitPerHour,
        94u32 => EngineeringUnits::DegreesFahrenheitPerMinute,
        95u32 => EngineeringUnits::NoUnits,
        96u32 => EngineeringUnits::PartsPerMillion,
        97u32 => EngineeringUnits::PartsPerBillion,
        98u32 => EngineeringUnits::Percent,
        99u32 => EngineeringUnits::PercentPerSecond,
        100u32 => EngineeringUnits::PerMinute,
        101u32 => EngineeringUnits::PerSecond,
        102u32 => EngineeringUnits::PsiPerDegreeFahrenheit,
        103u32 => EngineeringUnits::Radians,
        104u32 => EngineeringUnits::RevolutionsPerMinute,
        105u32 => EngineeringUnits::Currency1,
        106u32 => EngineeringUnits::Currency2,
        107u32 => EngineeringUnits::Currency3,
        108u32 => EngineeringUnits::Currency4,
        109u32 => EngineeringUnits::Currency5,
        110u32 => EngineeringUnits::Currency6,
        111u32 => EngineeringUnits::Currency7,
        112u32 => EngineeringUnits::Currency8,
        113u32 => EngineeringUnits::Currency9,
        114u32 => EngineeringUnits::Currency10,
        115u32 => EngineeringUnits::SquareInches,
        116u32 => EngineeringUnits::SquareCentimeters,
        117u32 => EngineeringUnits::BtusPerPound,
        118u32 => EngineeringUnits::Centimeters,
        119u32 => EngineeringUnits::PoundsMassPerSecond,
        120u32 => EngineeringUnits::DeltaDegreesFahrenheit,
        121u32 => EngineeringUnits::DeltaKelvin,
        122u32 => EngineeringUnits::Kiloohms,
        123u32 => EngineeringUnits::Megaohms,
        124u32 => EngineeringUnits::Millivolts,
        125u32 => EngineeringUnits::KilojoulesPerKilogram,
        126u32 => EngineeringUnits::Megajoules,
        127u32 => EngineeringUnits::JoulesPerKelvin,
        128u32 => EngineeringUnits::JoulesPerKilogramKelvin,
        129u32 => EngineeringUnits::Kilohertz,
        130u32 => EngineeringUnits::Megahertz,
        131u32 => EngineeringUnits::PerHour,
        132u32 => EngineeringUnits::Milliwatts,
        133u32 => EngineeringUnits::Hectopascals,
        134u32 => EngineeringUnits::Millibars,
        135u32 => EngineeringUnits::CubicMetersPerHour,
        136u32 => EngineeringUnits::LitersPerHour,
        137u32 => EngineeringUnits::KilowattHoursPerSquareMeter,
        138u32 => EngineeringUnits::KilowattHoursPerSquareFoot,
        139u32 => EngineeringUnits::MegajoulesPerSquareMeter,
        140u32 => EngineeringUnits::MegajoulesPerSquareFoot,
        141u32 => EngineeringUnits::WattsPerSquareMeterPerKelvin,
        142u32 => EngineeringUnits::CubicFeetPerSecond,
        143u32 => EngineeringUnits::PercentObscurationPerFoot,
        144u32 => EngineeringUnits::PercentObscurationPerMeter,
        145u32 => EngineeringUnits::Milliohms,
        146u32 => EngineeringUnits::MegawattHours,
        147u32 => EngineeringUnits::KiloBtus,
        148u32 => EngineeringUnits::MegaBtus,
        149u32 => EngineeringUnits::KilojoulesPerKilogramDryAir,
        150u32 => EngineeringUnits::MegajoulesPerKilogramDryAir,
        151u32 => EngineeringUnits::KilojoulesPerKelvin,
        152u32 => EngineeringUnits::MegajoulesPerKelvin,
        153u32 => EngineeringUnits::Newton,
        154u32 => EngineeringUnits::GramsPerSecond,
        155u32 => EngineeringUnits::GramsPerMinute,
        156u32 => EngineeringUnits::TonsPerHour,
        157u32 => EngineeringUnits::KiloBtusPerHour,
        158u32 => EngineeringUnits::HundredthsSeconds,
        159u32 => EngineeringUnits::Milliseconds,
        160u32 => EngineeringUnits::NewtonMeters,
        161u32 => EngineeringUnits::MillimetersPerSecond,
        162u32 => EngineeringUnits::MillimetersPerMinute,
        163u32 => EngineeringUnits::MetersPerMinute,
        164u32 => EngineeringUnits::MetersPerHour,
        165u32 => EngineeringUnits::CubicMetersPerMinute,
        166u32 => EngineeringUnits::MetersPerSecondPerSecond,
        167u32 => EngineeringUnits::AmperesPerMeter,
        168u32 => EngineeringUnits::AmperesPerSquareMeter,
        169u32 => EngineeringUnits::AmpereSquareMeters,
        170u32 => EngineeringUnits::Farads,
        171u32 => EngineeringUnits::Henrys,
        172u32 => EngineeringUnits::OhmMeters,
        173u32 => EngineeringUnits::Siemens,
        174u32 => EngineeringUnits::SiemensPerMeter,
        175u32 => EngineeringUnits::Teslas,
        176u32 => EngineeringUnits::VoltsPerKelvin,
        177u32 => EngineeringUnits::VoltsPerMeter,
        178u32 => EngineeringUnits::Webers,
        179u32 => EngineeringUnits::Candelas,
        180u32 => EngineeringUnits::CandelasPerSquareMeter,
        181u32 => EngineeringUnits::KelvinPerHour,
        182u32 => EngineeringUnits::KelvinPerMinute,
        183u32 => EngineeringUnits::JouleSeconds,
        184u32 => EngineeringUnits::RadiansPerSecond,
        185u32 => EngineeringUnits::SquareMetersPerNewton,
        186u32 => EngineeringUnits::KilogramsPerCubicMeter,
        187u32 => EngineeringUnits::NewtonSeconds,
        188u32 => EngineeringUnits::NewtonsPerMeter,
        189u32 => EngineeringUnits::WattsPerMeterPerKelvin,
        190u32 => EngineeringUnits::Microsiemens,
        191u32 => EngineeringUnits::CubicFeetPerHour,
        192u32 => EngineeringUnits::UsGallonsPerHour,
        193u32 => EngineeringUnits::Kilometers,
        194u32 => EngineeringUnits::Micrometers,
        195u32 => EngineeringUnits::Grams,
        196u32 => EngineeringUnits::Milligrams,
        197u32 => EngineeringUnits::Milliliters,
        198u32 => EngineeringUnits::MillilitersPerSecond,
        199u32 => EngineeringUnits::Decibels,
        200u32 => EngineeringUnits::DecibelsMillivolt,
        201u32 => EngineeringUnits::DecibelsVolt,
        202u32 => EngineeringUnits::Millisiemens,
        203u32 => EngineeringUnits::WattHoursReactive,
        204u32 => EngineeringUnits::KilowattHoursReactive,
        205u32 => EngineeringUnits::MegawattHoursReactive,
        206u32 => EngineeringUnits::MillimetersOfWater,
        207u32 => EngineeringUnits::PerMille,
        208u32 => EngineeringUnits::GramsPerGram,
        209u32 => EngineeringUnits::KilogramsPerKilogram,
        210u32 => EngineeringUnits::GramsPerKilogram,
        211u32 => EngineeringUnits::MilligramsPerGram,
        212u32 => EngineeringUnits::MilligramsPerKilogram,
        213u32 => EngineeringUnits::GramsPerMilliliter,
        214u32 => EngineeringUnits::GramsPerLiter,
        215u32 => EngineeringUnits::MilligramsPerLiter,
        216u32 => EngineeringUnits::MicrogramsPerLiter,
        217u32 => EngineeringUnits::GramsPerCubicMeter,
        218u32 => EngineeringUnits::MilligramsPerCubicMeter,
        219u32 => EngineeringUnits::MicrogramsPerCubicMeter,
        220u32 => EngineeringUnits::NanogramsPerCubicMeter,
        221u32 => EngineeringUnits::GramsPerCubicCentimeter,
        222u32 => EngineeringUnits::Becquerels,
        223u32 => EngineeringUnits::Kilobecquerels,
        224u32 => EngineeringUnits::Megabecquerels,
        225u32 => EngineeringUnits::Gray,
        226u32 => EngineeringUnits::Milligray,
        227u32 => EngineeringUnits::Microgray,
        228u32 => EngineeringUnits::Sieverts,
        229u32 => EngineeringUnits::Millisieverts,
        230u32 => EngineeringUnits::Microsieverts,
        231u32 => EngineeringUnits::MicrosievertsPerHour,
        232u32 => EngineeringUnits::DecibelsA,
        233u32 => EngineeringUnits::NephelometricTurbidityUnit,
        234u32 => EngineeringUnits::Ph,
        235u32 => EngineeringUnits::GramsPerSquareMeter,
        236u32 => EngineeringUnits::MinutesPerKelvin,
        237u32 => EngineeringUnits::OhmMeterSquaredPerMeter,
        238u32 => EngineeringUnits::AmpereSeconds,
        239u32 => EngineeringUnits::VoltAmpereHours,
        240u32 => EngineeringUnits::KilovoltAmpereHours,
        241u32 => EngineeringUnits::MegavoltAmpereHours,
        242u32 => EngineeringUnits::VoltAmpereHoursReactive,
        243u32 => EngineeringUnits::KilovoltAmpereHoursReactive,
        244u32 => EngineeringUnits::MegavoltAmpereHoursReactive,
        245u32 => EngineeringUnits::VoltSquareHours,
        246u32 => EngineeringUnits::AmpereSquareHours,
        247u32 => EngineeringUnits::JoulesPerHour,
        248u32 => EngineeringUnits::CubicFeetPerDay,
        249u32 => EngineeringUnits::CubicMetersPerDay,
        250u32 => EngineeringUnits::WattHoursPerCubicMeter,
        251u32 => EngineeringUnits::JoulesPerCubicMeter,
        252u32 => EngineeringUnits::MolePercent,
        253u32 => EngineeringUnits::PascalSeconds,
        254u32 => EngineeringUnits::MillionStandardCubicFeetPerMinute,
        47808u32 => EngineeringUnits::StandardCubicFeetPerDay,
        47809u32 => EngineeringUnits::MillionStandardCubicFeetPerDay,
        47810u32 => EngineeringUnits::ThousandCubicFeetPerDay,
        47811u32 => EngineeringUnits::ThousandStandardCubicFeetPerDay,
        47812u32 => EngineeringUnits::PoundsMassPerDay,
        47814u32 => EngineeringUnits::Millirems,
        47815u32 => EngineeringUnits::MilliremsPerHour,
        47816u32 => EngineeringUnits::DegreesLovibond,
        47817u32 => EngineeringUnits::AlcoholByVolume,
        47818u32 => EngineeringUnits::InternationalBitteringUnits,
        47819u32 => EngineeringUnits::EuropeanBitternessUnits,
        47820u32 => EngineeringUnits::DegreesPlato,
        47821u32 => EngineeringUnits::SpecificGravity,
        47822u32 => EngineeringUnits::EuropeanBrewingConvention,
        47823u32 => EngineeringUnits::PerDay,
        47824u32 => EngineeringUnits::PerMillisecond,
        47825u32 => EngineeringUnits::Yards,
        47826u32 => EngineeringUnits::Miles,
        47827u32 => EngineeringUnits::NauticalMiles,
        47828u32 => EngineeringUnits::Nanograms,
        47829u32 => EngineeringUnits::Micrograms,
        47830u32 => EngineeringUnits::MetricTonnes,
        47831u32 => EngineeringUnits::ShortTons,
        47832u32 => EngineeringUnits::LongTons,
        47833u32 => EngineeringUnits::GramsPerHour,
        47834u32 => EngineeringUnits::GramsPerDay,
        47835u32 => EngineeringUnits::KilogramsPerDay,
        47836u32 => EngineeringUnits::ShortTonsPerSecond,
        47837u32 => EngineeringUnits::ShortTonsPerMinute,
        47838u32 => EngineeringUnits::ShortTonsPerHour,
        47839u32 => EngineeringUnits::ShortTonsPerDay,
        47840u32 => EngineeringUnits::MetricTonnesPerSecond,
        47841u32 => EngineeringUnits::MetricTonnesPerMinute,
        47842u32 => EngineeringUnits::MetricTonnesPerHour,
        47843u32 => EngineeringUnits::MetricTonnesPerDay,
        47844u32 => EngineeringUnits::LongTonsPerSecond,
        47845u32 => EngineeringUnits::LongTonsPerMinute,
        47846u32 => EngineeringUnits::LongTonsPerHour,
        47847u32 => EngineeringUnits::LongTonsPerDay,
        47848u32 => EngineeringUnits::BtusPerSecond,
        47849u32 => EngineeringUnits::BtusPerMinute,
        47850u32 => EngineeringUnits::BtusPerDay,
        47851u32 => EngineeringUnits::KiloBtusPerSecond,
        47852u32 => EngineeringUnits::KiloBtusPerMinute,
        47853u32 => EngineeringUnits::KiloBtusPerDay,
        47854u32 => EngineeringUnits::MegaBtusPerSecond,
        47855u32 => EngineeringUnits::MegaBtusPerMinute,
        47856u32 => EngineeringUnits::MegaBtusPerHour,
        47857u32 => EngineeringUnits::MegaBtusPerDay,
        47858u32 => EngineeringUnits::JoulesPerSecond,
        47859u32 => EngineeringUnits::JoulesPerMinute,
        47860u32 => EngineeringUnits::JoulesPerDay,
        47861u32 => EngineeringUnits::KilojoulesPerSecond,
        47862u32 => EngineeringUnits::KilojoulesPerMinute,
        47863u32 => EngineeringUnits::KilojoulesPerHour,
        47864u32 => EngineeringUnits::KilojoulesPerDay,
        47865u32 => EngineeringUnits::MegajoulesPerSecond,
        47866u32 => EngineeringUnits::MegajoulesPerMinute,
        47867u32 => EngineeringUnits::MegajoulesPerHour,
        47868u32 => EngineeringUnits::MegajoulesPerDay,
        47869u32 => EngineeringUnits::DegreesCelsiusPerDay,
        47870u32 => EngineeringUnits::KelvinPerDay,
        47871u32 => EngineeringUnits::DegreesFahrenheitPerDay,
        47872u32 => EngineeringUnits::DeltaDegreesCelsius,
        47873u32 => EngineeringUnits::MillionCubicFeetPerMinute,
        47874u32 => EngineeringUnits::MillionCubicFeetPerDay,
        47875u32 => EngineeringUnits::ImperialGallonsPerSecond,
        47876u32 => EngineeringUnits::ImperialGallonsPerHour,
        47877u32 => EngineeringUnits::ImperialGallonsPerDay,
        47878u32 => EngineeringUnits::LitersPerDay,
        47879u32 => EngineeringUnits::UsGallonsPerSecond,
        47880u32 => EngineeringUnits::UsGallonsPerDay,
        47881u32 => EngineeringUnits::PercentPerMinute,
        47882u32 => EngineeringUnits::PercentPerHour,
        47883u32 => EngineeringUnits::PercentPerDay,
        47884u32 => EngineeringUnits::PerMillion,
        47885u32 => EngineeringUnits::PerBillion,
        47886u32 => EngineeringUnits::MicrogramsPerGram,
        47887u32 => EngineeringUnits::NanogramsPerGram,
        47888u32 => EngineeringUnits::MicrogramsPerKilogram,
        47889u32 => EngineeringUnits::NanogramsPerKilogram,
        47890u32 => EngineeringUnits::MilligramsPerMilliliter,
        47891u32 => EngineeringUnits::MicrogramsPerMilliliter,
        47892u32 => EngineeringUnits::NanogramsPerMilliliter,
        47893u32 => EngineeringUnits::KilogramsPerLiter,
        47894u32 => EngineeringUnits::NanogramsPerLiter,
        47895u32 => EngineeringUnits::MilligramsPerCubicCentimeter,
        47896u32 => EngineeringUnits::MicrogramsPerCubicCentimeter,
        47897u32 => EngineeringUnits::NanogramsPerCubicCentimeter,
        47898u32 => EngineeringUnits::BtuPerHourPerWatt,
        47899u32 => EngineeringUnits::BtuPerWattHourSeasonal,
        47900u32 => EngineeringUnits::CoefficientOfPerformance,
        47901u32 => EngineeringUnits::CoefficientOfPerformanceSeasonal,
        47902u32 => EngineeringUnits::KilowattPerTonRefrigeration,
        47903u32 => EngineeringUnits::LumensPerWatt,
        47904u32 => EngineeringUnits::PoundForceFeet,
        47905u32 => EngineeringUnits::PoundForceInches,
        47906u32 => EngineeringUnits::OunceForceInches,
        47907u32 => EngineeringUnits::PoundsForcePerSquareInchAbsolute,
        47908u32 => EngineeringUnits::PoundsForcePerSquareInchGauge,
        47909u32 => EngineeringUnits::MicrosiemensPerCentimeter,
        47910u32 => EngineeringUnits::MillisiemensPerCentimeter,
        47911u32 => EngineeringUnits::MillisiemensPerMeter,
        47912u32 => EngineeringUnits::MillionsOfUsGallons,
        47913u32 => EngineeringUnits::MillionsOfImperialGallons,
        47914u32 => EngineeringUnits::MillilitersPerMinute,
        47915u32 => EngineeringUnits::MilsPerYear,
        47916u32 => EngineeringUnits::MillimetersPerYear,
        47917u32 => EngineeringUnits::PulsesPerMinute,
        47918u32 => EngineeringUnits::ActiveEnergyPulseValue,
        47919u32 => EngineeringUnits::ReactiveEnergyPulseValue,
        47920u32 => EngineeringUnits::ApparentEnergyPulseValue,
        47921u32 => EngineeringUnits::VoltSquaredHourPulseValue,
        47922u32 => EngineeringUnits::AmpereSquaredHourPulseValue,
        47923u32 => EngineeringUnits::CubicMeterPulseValue,
        47924u32 => EngineeringUnits::Gigawatts,
        47925u32 => EngineeringUnits::Gigajoules,
        47926u32 => EngineeringUnits::Terajoules,
        47927u32 => EngineeringUnits::GigawattHours,
        47928u32 => EngineeringUnits::GigawattReactiveHours,
        47929u32 => EngineeringUnits::BitsPerSecond,
        47930u32 => EngineeringUnits::KilobitsPerSecond,
        47931u32 => EngineeringUnits::MegabitsPerSecond,
        47932u32 => EngineeringUnits::GigabitsPerSecond,
        47933u32 => EngineeringUnits::BytesPerSecond,
        47934u32 => EngineeringUnits::KilobytesPerSecond,
        47935u32 => EngineeringUnits::MegabytesPerSecond,
        47936u32 => EngineeringUnits::GigabytesPerSecond,
        47937u32 => EngineeringUnits::Volume1,
        47938u32 => EngineeringUnits::Volume2,
        47939u32 => EngineeringUnits::Volume3,
        47940u32 => EngineeringUnits::Volume4,
        47941u32 => EngineeringUnits::Volume5,
        47942u32 => EngineeringUnits::Volume6,
        47943u32 => EngineeringUnits::Volume7,
        47944u32 => EngineeringUnits::Volume8,
        47945u32 => EngineeringUnits::Volume9,
        47946u32 => EngineeringUnits::Volume10,
        47947u32 => EngineeringUnits::VolumetricFlow1,
        47948u32 => EngineeringUnits::VolumetricFlow2,
        47949u32 => EngineeringUnits::VolumetricFlow3,
        47950u32 => EngineeringUnits::VolumetricFlow4,
        47951u32 => EngineeringUnits::VolumetricFlow5,
        47952u32 => EngineeringUnits::VolumetricFlow6,
        47953u32 => EngineeringUnits::VolumetricFlow7,
        47954u32 => EngineeringUnits::VolumetricFlow8,
        47955u32 => EngineeringUnits::VolumetricFlow9,
        47956u32 => EngineeringUnits::VolumetricFlow10,
        47958u32 => EngineeringUnits::SiteUnit1,
        47959u32 => EngineeringUnits::SiteUnit2,
        47960u32 => EngineeringUnits::SiteUnit3,
        47961u32 => EngineeringUnits::SiteUnit4,
        47962u32 => EngineeringUnits::SiteUnit5,
        47963u32 => EngineeringUnits::SiteUnit6,
        47964u32 => EngineeringUnits::SiteUnit7,
        47965u32 => EngineeringUnits::SiteUnit8,
        47966u32 => EngineeringUnits::SiteUnit9,
        47967u32 => EngineeringUnits::SiteUnit10,
        47968u32 => EngineeringUnits::ParticlesPerCubicFoot,
        47969u32 => EngineeringUnits::ParticlesPerCubicMeter,
        47970u32 => EngineeringUnits::PicocuriesPerLiter,
        47971u32 => EngineeringUnits::BecquerelsPerCubicMeter,
        47972u32 => EngineeringUnits::GrainsOfWaterPerPoundDryAir,
        47973u32 => EngineeringUnits::DegreeHoursCelsius,
        47974u32 => EngineeringUnits::DegreeHoursFahrenheit,
        47975u32 => EngineeringUnits::DegreeMinutesCelsius,
        47976u32 => EngineeringUnits::DegreeMinutesFahrenheit,
        47977u32 => EngineeringUnits::DegreeSecondsCelsius,
        47978u32 => EngineeringUnits::DegreeSecondsFahrenheit,
        47979u32 => EngineeringUnits::Microseconds,
        47980u32 => EngineeringUnits::Nanoseconds,
        47981u32 => EngineeringUnits::Picoseconds,
        _ => if reserved_unit_number(v) {
            EngineeringUnits::Reserved(units_value(v))
        } else {
            EngineeringUnits::Custom(units_value(v))
        },
    }
}

/// The BACnet name of a standard unit (empty for the others).
pub open spec fn standard_unit_name(u: EngineeringUnits) -> Seq<char> {
    match u {
        EngineeringUnits::SquareMeters => "square-meters"@,
        EngineeringUnits::SquareFeet => "square-feet"@,
        EngineeringUnits::Milliamperes => "milliamperes"@,
        EngineeringUnits::Amperes => "amperes"@,
        EngineeringUnits::Ohms => "ohms"@,
        EngineeringUnits::Volts => "volts"@,
        EngineeringUnits::Kilovolts => "kilovolts"@,
        EngineeringUnits::Megavolts => "megavolts"@,
        EngineeringUnits::VoltAmperes => "volt-amperes"@,
        EngineeringUnits::KilovoltAmperes => "kilovolt-amperes"@,
        EngineeringUnits::MegavoltAmperes => "megavolt-amperes"@,
        EngineeringUnits::VoltAmperesReactive => "volt-amperes-reactive"@,
        EngineeringUnits::KilovoltAmperesReactive => "kilovolt-amperes-reactive"@,
        EngineeringUnits::MegavoltAmperesReactive => "megavolt-amperes-reactive"@,
        EngineeringUnits::DegreesPhase => "degrees-phase"@,
        EngineeringUnits::PowerFactor => "power-factor"@,
        EngineeringUnits::Joules => "joules"@,
        EngineeringUnits::Kilojoules => "kilojoules"@,
        EngineeringUnits::WattHours => "watt-hours"@,
        EngineeringUnits::KilowattHours => "kilowatt-hours"@,
        EngineeringUnits::Btus => "btus"@,
        EngineeringUnits::Therms => "therms"@,
        EngineeringUnits::TonHours => "ton-hours"@,
        EngineeringUnits::JoulesPerKilogramDryAir => "joules-per-kilogram-dry-air"@,
        EngineeringUnits::BtusPerPoundDryAir => "btus-per-pound-dry-air"@,
        EngineeringUnits::CyclesPerHour => "cycles-per-hour"@,
        EngineeringUnits::CyclesPerMinute => "cycles-per-minute"@,
        EngineeringUnits::Hertz => "hertz"@,
        EngineeringUnits::GramsOfWaterPerKilogramDryAir => "grams-of-water-per-kilogram-dry-air"@,
        EngineeringUnits::PercentRelativeHumidity => "percent-relative-humidity"@,
        EngineeringUnits::Millimeters => "millimeters"@,
        EngineeringUnits::Meters => "meters"@,
        EngineeringUnits::Inches => "inches"@,
        EngineeringUnits::Feet => "feet"@,
        EngineeringUnits::WattsPerSquareFoot => "watts-per-square-foot"@,
        EngineeringUnits::WattsPerSquareMeter => "watts-per-square-meter"@,
        EngineeringUnits::Lumens => "lumens"@,
        EngineeringUnits::Luxes => "luxes"@,
        EngineeringUnits::FootCandles => "foot-candles"@,
        EngineeringUnits::Kilograms => "kilograms"@,
        EngineeringUnits::PoundsMass => "pounds-mass"@,
        EngineeringUnits::Tons => "tons"@,
        EngineeringUnits::KilogramsPerSecond => "kilograms-per-second"@,
        EngineeringUnits::KilogramsPerMinute => "kilograms-per-minute"@,
        EngineeringUnits::KilogramsPerHour => "kilograms-per-hour"@,
        EngineeringUnits::PoundsMassPerMinute => "pounds-mass-per-minute"@,
        EngineeringUnits::PoundsMassPerHour => "pounds-mass-per-hour"@,
        EngineeringUnits::Watts => "watts"@,
        EngineeringUnits::Kilowatts => "kilowatts"@,
        EngineeringUnits::Megawatts => "megawatts"@,
        EngineeringUnits::BtusPerHour => "btus-per-hour"@,
        EngineeringUnits::Horsepower => "horsepower"@,
        EngineeringUnits::TonsRefrigeration => "tons-refrigeration"@,
        EngineeringUnits::Pascals => "pascals"@,
        EngineeringUnits::Kilopascals => "kilopascals"@,
        EngineeringUnits::Bars => "bars"@,
        EngineeringUnits::PoundsForcePerSquareInch => "pounds-force-per-square-inch"@,
        EngineeringUnits::CentimetersOfWater => "centimeters-of-water"@,
        EngineeringUnits::InchesOfWater => "inches-of-water"@,
        EngineeringUnits::MillimetersOfMercury => "millimeters-of-mercury"@,
        EngineeringUnits::CentimetersOfMercury => "centimeters-of-mercury"@,
        EngineeringUnits::InchesOfMercury => "inches-of-mercury"@,
        EngineeringUnits::DegreesCelsius => "degrees-celsius"@,
        EngineeringUnits::Kelvin => "kelvin"@,
        EngineeringUnits::DegreesFahrenheit => "degrees-fahrenheit"@,
        EngineeringUnits::DegreeDaysCelsius => "degree-days-celsius"@,
        EngineeringUnits::DegreeDaysFahrenheit => "degree-days-fahrenheit"@,
        EngineeringUnits::Years => "years"@,
        EngineeringUnits::Months => "months"@,
        EngineeringUnits::Weeks => "weeks"@,
        EngineeringUnits::Days => "days"@,
        EngineeringUnits::Hours => "hours"@,
        EngineeringUnits::Minutes => "minutes"@,
        EngineeringUnits::Seconds => "seconds"@,
        EngineeringUnits::MetersPerSecond => "meters-per-second"@,
        EngineeringUnits::KilometersPerHour => "kilometers-per-hour"@,
        EngineeringUnits::FeetPerSecond => "feet-per-second"@,
        EngineeringUnits::FeetPerMinute => "feet-per-minute"@,
        EngineeringUnits::MilesPerHour => "miles-per-hour"@,
        EngineeringUnits::CubicFeet => "cubic-feet"@,
        EngineeringUnits::CubicMeters => "cubic-meters"@,
        EngineeringUnits::ImperialGallons => "imperial-gallons"@,
        EngineeringUnits::Liters => "liters"@,
        EngineeringUnits::UsGallons => "us-gallons"@,
        EngineeringUnits::CubicFeetPerMinute => "cubic-feet-per-minute"@,
        EngineeringUnits::CubicMetersPerSecond => "cubic-meters-per-second"@,
        EngineeringUnits::ImperialGallonsPerMinute => "imperial-gallons-per-minute"@,
        EngineeringUnits::LitersPerSecond => "liters-per-second"@,
        EngineeringUnits::LitersPerMinute => "liters-per-minute"@,
        EngineeringUnits::UsGallonsPerMinute => "us-gallons-per-minute"@,
        EngineeringUnits::DegreesAngular => "degrees-angular"@,
        EngineeringUnits::DegreesCelsiusPerHour => "degrees-celsius-per-hour"@,
        EngineeringUnits::DegreesCelsiusPerMinute => "degrees-celsius-per-minute"@,
        EngineeringUnits::DegreesFahrenheitPerHour => "degrees-fahrenheit-per-hour"@,
        EngineeringUnits::DegreesFahrenheitPerMinute => "degrees-fahrenheit-per-minute"@,
        EngineeringUnits::NoUnits => "no-units"@,
        EngineeringUnits::PartsPerMillion => "parts-per-million"@,
        EngineeringUnits::PartsPerBillion => "parts-per-billion"@,
        EngineeringUnits::Percent => "percent"@,
        EngineeringUnits::PercentPerSecond => "percent-per-second"@,
        EngineeringUnits::PerMinute => "per-minute"@,
        EngineeringUnits::PerSecond => "per-second"@,
        EngineeringUnits::PsiPerDegreeFahrenheit => "psi-per-degree-fahrenheit"@,
        EngineeringUnits::Radians => "radians"@,
        EngineeringUnits::RevolutionsPerMinute => "revolutions-per-minute"@,
        EngineeringUnits::Currency1 => "currency1"@,
        EngineeringUnits::Currency2 => "currency2"@,
        EngineeringUnits::Currency3 => "currency3"@,
        EngineeringUnits::Currency4 => "currency4"@,
        EngineeringUnits::Currency5 => "currency5"@,
        EngineeringUnits::Currency6 => "currency6"@,
        EngineeringUnits::Currency7 => "currency7"@,
        EngineeringUnits::Currency8 => "currency8"@,
        EngineeringUnits::Currency9 => "currency9"@,
        EngineeringUnits::Currency10 => "currency10"@,
        EngineeringUnits::SquareInches => "square-inches"@,
        EngineeringUnits::SquareCentimeters => "square-centimeters"@,
        EngineeringUnits::BtusPerPound => "btus-per-pound"@,
        EngineeringUnits::Centimeters => "centimeters"@,
        EngineeringUnits::PoundsMassPerSecond => "pounds-mass-per-second"@,
        EngineeringUnits::DeltaDegreesFahrenheit => "delta-degrees-fahrenheit"@,
        EngineeringUnits::DeltaKelvin => "delta-kelvin"@,
        EngineeringUnits::Kiloohms => "kilohms"@,
        EngineeringUnits::Megaohms => "megohms"@,
        EngineeringUnits::Millivolts => "millivolts"@,
        EngineeringUnits::KilojoulesPerKilogram => "kilojoules-per-kilogram"@,
        EngineeringUnits::Megajoules => "megajoules"@,
        EngineeringUnits::JoulesPerKelvin => "joules-per-kelvin"@,
        EngineeringUnits::JoulesPerKilogramKelvin => "joules-per-kilogram-per-kelvin"@,
        EngineeringUnits::Kilohertz => "kilohertz"@,
        EngineeringUnits::Megahertz => "megahertz"@,
        EngineeringUnits::PerHour => "per-hour"@,
        EngineeringUnits::Milliwatts => "milliwatts"@,
        EngineeringUnits::Hectopascals => "hectopascals"@,
        EngineeringUnits::Millibars => "millibars"@,
        EngineeringUnits::CubicMetersPerHour => "cubic-meters-per-hour"@,
        EngineeringUnits::LitersPerHour => "liters-per-hour"@,
        EngineeringUnits::KilowattHoursPerSquareMeter => "kilowatt-hours-per-square-meter"@,
        EngineeringUnits::KilowattHoursPerSquareFoot => "kilowatt-hours-per-square-foot"@,
        EngineeringUnits::MegajoulesPerSquareMeter => "megajoules-per-square-meter"@,
        EngineeringUnits::MegajoulesPerSquareFoot => "megajoules-per-square-foot"@,
        EngineeringUnits::WattsPerSquareMeterPerKelvin => "watts-per-square-meter-per-kelvin"@,
        EngineeringUnits::CubicFeetPerSecond => "cubic-feet-per-second"@,
        EngineeringUnits::PercentObscurationPerFoot => "percent-obscuration-per-foot"@,
        EngineeringUnits::PercentObscurationPerMeter => "percent-obscuration-per-meter"@,
        EngineeringUnits::Milliohms => "milliohms"@,
        EngineeringUnits::MegawattHours => "megawatt-hours"@,
        EngineeringUnits::KiloBtus => "kilo-btus"@,
        EngineeringUnits::MegaBtus => "mega-btus"@,
        EngineeringUnits::KilojoulesPerKilogramDryAir => "kilojoules-per-kilogram-dry-air"@,
        EngineeringUnits::MegajoulesPerKilogramDryAir => "megajoules-per-kilogram-dry-air"@,
        EngineeringUnits::KilojoulesPerKelvin => "kilojoules-per-kelvin"@,
        EngineeringUnits::MegajoulesPerKelvin => "megajoules-per-kelvin"@,
        EngineeringUnits::Newton => "newton"@,
        EngineeringUnits::GramsPerSecond => "grams-per-second"@,
        EngineeringUnits::GramsPerMinute => "grams-per-minute"@,
        EngineeringUnits::TonsPerHour => "tons-per-hour"@,
        EngineeringUnits::KiloBtusPerHour => "kilo-btus-per-hour"@,
        EngineeringUnits::HundredthsSeconds => "hundredths-seconds"@,
        EngineeringUnits::Milliseconds => "milliseconds"@,
        EngineeringUnits::NewtonMeters => "newton-meters"@,
        EngineeringUnits::MillimetersPerSecond => "millimeters-per-second"@,
        EngineeringUnits::MillimetersPerMinute => "millimeters-per-minute"@,
        EngineeringUnits::MetersPerMinute => "meters-per-minute"@,
        EngineeringUnits::MetersPerHour => "meters-per-hour"@,
        EngineeringUnits::CubicMetersPerMinute => "cubic-meters-per-minute"@,
        EngineeringUnits::MetersPerSecondPerSecond => "meters-per-second-per-second"@,
        EngineeringUnits::AmperesPerMeter => "amperes-per-meter"@,
        EngineeringUnits::AmperesPerSquareMeter => "amperes-per-square-meter"@,
        EngineeringUnits::AmpereSquareMeters => "ampere-square-meters"@,
        EngineeringUnits::Farads => "farads"@,
        EngineeringUnits::Henrys => "henrys"@,
        EngineeringUnits::OhmMeters => "ohm-meters"@,
        EngineeringUnits::Siemens => "siemens"@,
        EngineeringUnits::SiemensPerMeter => "siemens-per-meter"@,
        EngineeringUnits::Teslas => "teslas"@,
        EngineeringUnits::VoltsPerKelvin => "volts-per-kelvin"@,
        EngineeringUnits::VoltsPerMeter => "volts-per-meter"@,
        EngineeringUnits::Webers => "webers"@,
        EngineeringUnits::Candelas => "candelas"@,
        EngineeringUnits::CandelasPerSquareMeter => "candelas-per-square-meter"@,
        EngineeringUnits::KelvinPerHour => "kelvin-per-hour"@,
        EngineeringUnits::KelvinPerMinute => "kelvin-per-minute"@,
        EngineeringUnits::JouleSeconds => "joule-seconds"@,
        EngineeringUnits::RadiansPerSecond => "radians-per-second"@,
        EngineeringUnits::SquareMetersPerNewton => "square-meters-per-newton"@,
        EngineeringUnits::KilogramsPerCubicMeter => "kilograms-per-cubic-meter"@,
        EngineeringUnits::NewtonSeconds => "newton-seconds"@,
        EngineeringUnits::NewtonsPerMeter => "newtons-per-meter"@,
        EngineeringUnits::WattsPerMeterPerKelvin => "watts-per-meter-per-kelvin"@,
        EngineeringUnits::Microsiemens => "micro-siemens"@,
        EngineeringUnits::CubicFeetPerHour => "cubic-feet-per-hour"@,
        EngineeringUnits::UsGallonsPerHour => "us-gallons-per-hour"@,
        EngineeringUnits::Kilometers => "kilometers"@,
        EngineeringUnits::Micrometers => "micrometers"@,
        EngineeringUnits::Grams => "grams"@,
        EngineeringUnits::Milligrams => "milligrams"@,
        EngineeringUnits::Milliliters => "milliliters"@,
        EngineeringUnits::MillilitersPerSecond => "milliliters-per-second"@,
        EngineeringUnits::Decibels => "decibels"@,
        EngineeringUnits::DecibelsMillivolt => "decibels-millivolt"@,
        EngineeringUnits::DecibelsVolt => "decibels-volt"@,
        EngineeringUnits::Millisiemens => "millisiemens"@,
        EngineeringUnits::WattHoursReactive => "watt-reactive-hours"@,
        EngineeringUnits::KilowattHoursReactive => "kilowatt-reactive-hours"@,
        EngineeringUnits::MegawattHoursReactive => "megawatt-reactive-hours"@,
        EngineeringUnits::MillimetersOfWater => "millimeters-of-water"@,
        EngineeringUnits::PerMille => "per-mille"@,
        EngineeringUnits::GramsPerGram => "grams-per-gram"@,
        EngineeringUnits::KilogramsPerKilogram => "kilograms-per-kilogram"@,
        EngineeringUnits::GramsPerKilogram => "grams-per-kilogram"@,
        EngineeringUnits::MilligramsPerGram => "milligrams-per-gram"@,
        EngineeringUnits::MilligramsPerKilogram => "milligrams-per-kilogram"@,
        EngineeringUnits::GramsPerMilliliter => "grams-per-milliliter"@,
        EngineeringUnits::GramsPerLiter => "grams-per-liter"@,
        EngineeringUnits::MilligramsPerLiter => "milligrams-per-liter"@,
        EngineeringUnits::MicrogramsPerLiter => "micrograms-per-liter"@,
        EngineeringUnits::GramsPerCubicMeter => "grams-per-cubic-meter"@,
        EngineeringUnits::MilligramsPerCubicMeter => "milligrams-per-cubic-meter"@,
        EngineeringUnits::MicrogramsPerCubicMeter => "micrograms-per-cubic-meter"@,
        EngineeringUnits::NanogramsPerCubicMeter => "nanograms-per-cubic-meter"@,
        EngineeringUnits::GramsPerCubicCentimeter => "grams-per-cubic-centimeter"@,
        EngineeringUnits::Becquerels => "becquerels"@,
        EngineeringUnits::Kilobecquerels => "kilobecquerels"@,
        EngineeringUnits::Megabecquerels => "megabecquerels"@,
        EngineeringUnits::Gray => "gray"@,
        EngineeringUnits::Milligray => "milligray"@,
        EngineeringUnits::Microgray => "microgray"@,
        EngineeringUnits::Sieverts => "sieverts"@,
        EngineeringUnits::Millisieverts => "millisieverts"@,
        EngineeringUnits::Microsieverts => "microsieverts"@,
        EngineeringUnits::MicrosievertsPerHour => "microsieverts-per-hour"@,
        EngineeringUnits::DecibelsA => "decibels-a"@,
        EngineeringUnits::NephelometricTurbidityUnit => "nephelometric-turbidity-unit"@,
        EngineeringUnits::Ph => "pH"@,
        EngineeringUnits::GramsPerSquareMeter => "grams-per-square-meter"@,
        EngineeringUnits::MinutesPerKelvin => "minutes-per-kelvin"@,
        EngineeringUnits::OhmMeterSquaredPerMeter => "ohm-meter-squared-per-meter"@,
        EngineeringUnits::AmpereSeconds => "ampere-seconds"@,
        EngineeringUnits::VoltAmpereHours => "volt-ampere-hours"@,
        EngineeringUnits::KilovoltAmpereHours => "kilovolt-ampere-hours"@,
        EngineeringUnits::MegavoltAmpereHours => "megavolt-ampere-hours"@,
        EngineeringUnits::VoltAmpereHoursReactive => "volt-ampere-hours-reactive"@,
        EngineeringUnits::KilovoltAmpereHoursReactive => "kilovolt-ampere-hours-reactive"@,
        EngineeringUnits::MegavoltAmpereHoursReactive => "megavolt-ampere-hours-reactive"@,
        EngineeringUnits::VoltSquareHours => "volt-square-hours"@,
        EngineeringUnits::AmpereSquareHours => "ampere-square-hours"@,
        EngineeringUnits::JoulesPerHour => "joules-per-hour"@,
        EngineeringUnits::CubicFeetPerDay => "cubic-feet-per-day"@,
        EngineeringUnits::CubicMetersPerDay => "cubic-meters-per-day"@,
        EngineeringUnits::WattHoursPerCubicMeter => "watt-hours-per-cubic-meter"@,
        EngineeringUnits::JoulesPerCubicMeter => "joules-per-cubic-meter"@,
        EngineeringUnits::MolePercent => "mole-percent"@,
        EngineeringUnits::PascalSeconds => "pascal-seconds"@,
        EngineeringUnits::MillionStandardCubicFeetPerMinute => "million-standard-cubic-feet-per-minute"@,
        EngineeringUnits::StandardCubicFeetPerDay => "standard-cubic-feet-per-day"@,
        EngineeringUnits::MillionStandardCubicFeetPerDay => "million-standard-cubic-feet-per-day"@,
        EngineeringUnits::ThousandCubicFeetPerDay => "thousand-cubic-feet-per-day"@,
        EngineeringUnits::ThousandStandardCubicFeetPerDay => "thousand-standard-cubic-feet-per-day"@,
        EngineeringUnits::PoundsMassPerDay => "pounds-mass-per-day"@,
        EngineeringUnits::Millirems => "millirems"@,
        EngineeringUnits::MilliremsPerHour => "millirems-per-hour"@,
        EngineeringUnits::DegreesLovibond => "degrees-lovibond"@,
        EngineeringUnits::AlcoholByVolume => "alcohol-by-volume"@,
        EngineeringUnits::InternationalBitteringUnits => "international-bittering-units"@,
        EngineeringUnits::EuropeanBitternessUnits => "european-bitterness-units"@,
        EngineeringUnits::DegreesPlato => "degrees-plato"@,
        EngineeringUnits::SpecificGravity => "specific-gravity"@,
        EngineeringUnits::EuropeanBrewingConvention => "european-brewing-convention"@,
        EngineeringUnits::PerDay => "per-day"@,
        EngineeringUnits::PerMillisecond => "per-millisecond"@,
        EngineeringUnits::Yards => "yards"@,
        EngineeringUnits::Miles => "miles"@,
        EngineeringUnits::NauticalMiles => "nautical-miles"@,
        EngineeringUnits::Nanograms => "nanograms"@,
        EngineeringUnits::Micrograms => "micrograms"@,
        EngineeringUnits::MetricTonnes => "metric-tonnes"@,
        EngineeringUnits::ShortTons => "short-tons"@,
        EngineeringUnits::LongTons => "long-tons"@,
        EngineeringUnits::GramsPerHour => "grams-per-hour"@,
        EngineeringUnits::GramsPerDay => "grams-per-day"@,
        EngineeringUnits::KilogramsPerDay => "kilograms-per-day"@,
        EngineeringUnits::ShortTonsPerSecond => "short-tons-per-second"@,
        EngineeringUnits::ShortTonsPerMinute => "short-tons-per-minute"@,
        EngineeringUnits::ShortTonsPerHour => "short-tons-per-hour"@,
        EngineeringUnits::ShortTonsPerDay => "short-tons-per-day"@,
        EngineeringUnits::MetricTonnesPerSecond => "metric-tonnes-per-second"@,
        EngineeringUnits::MetricTonnesPerMinute => "metric-tonnes-per-minute"@,
        EngineeringUnits::MetricTonnesPerHour => "metric-tonnes-per-hour"@,
        EngineeringUnits::MetricTonnesPerDay => "metric-tonnes-per-day"@,
        EngineeringUnits::LongTonsPerSecond => "long-tons-per-second"@,
        EngineeringUnits::LongTonsPerMinute => "long-tons-per-minute"@,
        EngineeringUnits::LongTonsPerHour => "long-tons-per-hour"@,
        EngineeringUnits::LongTonsPerDay => "long-tons-per-day"@,
        EngineeringUnits::BtusPerSecond => "btus-per-second"@,
        EngineeringUnits::BtusPerMinute => "btus-per-minute"@,
        EngineeringUnits::BtusPerDay => "btus-per-day"@,
        EngineeringUnits::KiloBtusPerSecond => "kilo-btus-per-second"@,
        EngineeringUnits::KiloBtusPerMinute => "kilo-btus-per-minute"@,
        EngineeringUnits::KiloBtusPerDay => "kilo-btus-per-day"@,
        EngineeringUnits::MegaBtusPerSecond => "mega-btus-per-second"@,
        EngineeringUnits::MegaBtusPerMinute => "mega-btus-per-minute"@,
        EngineeringUnits::MegaBtusPerHour => "mega-btus-per-hour"@,
        EngineeringUnits::MegaBtusPerDay => "mega-btus-per-day"@,
        EngineeringUnits::JoulesPerSecond => "joules-per-second"@,
        EngineeringUnits::JoulesPerMinute => "joules-per-minute"@,
        EngineeringUnits::JoulesPerDay => "joules-per-day"@,
        EngineeringUnits::KilojoulesPerSecond => "kilojoules-per-second"@,
        EngineeringUnits::KilojoulesPerMinute => "kilojoules-per-minute"@,
        EngineeringUnits::KilojoulesPerHour => "kilojoules-per-hour"@,
        EngineeringUnits::KilojoulesPerDay => "kilojoules-per-day"@,
        EngineeringUnits::MegajoulesPerSecond => "megajoules-per-second"@,
        EngineeringUnits::MegajoulesPerMinute => "megajoules-per-minute"@,
        EngineeringUnits::MegajoulesPerHour => "megajoules-per-hour"@,
        EngineeringUnits::MegajoulesPerDay => "megajoules-per-day"@,
        EngineeringUnits::DegreesCelsiusPerDay => "degrees-celsius-per-day"@,
        EngineeringUnits::KelvinPerDay => "kelvin-per-day"@,
        EngineeringUnits::DegreesFahrenheitPerDay => "degrees-fahrenheit-per-day"@,
        EngineeringUnits::DeltaDegreesCelsius => "delta-degrees-celsius"@,
        EngineeringUnits::MillionCubicFeetPerMinute => "million-cubic-feet-per-minute"@,
        EngineeringUnits::MillionCubicFeetPerDay => "million-cubic-feet-per-day"@,
        EngineeringUnits::ImperialGallonsPerSecond => "imperial-gallons-per-second"@,
        EngineeringUnits::ImperialGallonsPerHour => "imperial-gallons-per-hour"@,
        EngineeringUnits::ImperialGallonsPerDay => "imperial-gallons-per-day"@,
        EngineeringUnits::LitersPerDay => "liters-per-day"@,
        EngineeringUnits::UsGallonsPerSecond => "us-gallons-per-second"@,
        EngineeringUnits::UsGallonsPerDay => "us-gallons-per-day"@,
        EngineeringUnits::PercentPerMinute => "percent-per-minute"@,
        EngineeringUnits::PercentPerHour => "percent-per-hour"@,
        EngineeringUnits::PercentPerDay => "percent-per-day"@,
        EngineeringUnits::PerMillion => "per-million"@,
        EngineeringUnits::PerBillion => "per-billion"@,
        EngineeringUnits::MicrogramsPerGram => "micrograms-per-gram"@,
        EngineeringUnits::NanogramsPerGram => "nanograms-per-gram"@,
        EngineeringUnits::MicrogramsPerKilogram => "micrograms-per-kilogram"@,
        EngineeringUnits::NanogramsPerKilogram => "nanograms-per-kilogram"@,
        EngineeringUnits::MilligramsPerMilliliter => "milligrams-per-milliliter"@,
        EngineeringUnits::MicrogramsPerMilliliter => "micrograms-per-milliliter"@,
        EngineeringUnits::NanogramsPerMilliliter => "nanograms-per-milliliter"@,
        EngineeringUnits::KilogramsPerLiter => "kilograms-per-liter"@,
        EngineeringUnits::NanogramsPerLiter => "nanograms-per-liter"@,
        EngineeringUnits::MilligramsPerCubicCentimeter => "milligrams-per-cubic-centimeter"@,
        EngineeringUnits::MicrogramsPerCubicCentimeter => "micrograms-per-cubic-centimeter"@,
        EngineeringUnits::NanogramsPerCubicCentimeter => "nanograms-per-cubic-centimeter"@,
        EngineeringUnits::BtuPerHourPerWatt => "btu-per-hour-per-watt"@,
        EngineeringUnits::BtuPerWattHourSeasonal => "btu-per-watt-hour-seasonal"@,
        EngineeringUnits::CoefficientOfPerformance => "coefficient-of-performance"@,
        EngineeringUnits::CoefficientOfPerformanceSeasonal => "coefficient-of-performance-seasonal"@,
        EngineeringUnits::KilowattPerTonRefrigeration => "kilowatt-per-ton-refrigeration"@,
        EngineeringUnits::LumensPerWatt => "lumens-per-watt"@,
        EngineeringUnits::PoundForceFeet => "pound-force-feet"@,
        EngineeringUnits::PoundForceInches => "pound-force-inches"@,
        EngineeringUnits::OunceForceInches => "ounce-force-inches"@,
        EngineeringUnits::PoundsForcePerSquareInchAbsolute => "pounds-force-per-square-inch-absolute"@,
        EngineeringUnits::PoundsForcePerSquareInchGauge => "pounds-force-per-square-inch-gauge"@,
        EngineeringUnits::MicrosiemensPerCentimeter => "microsiemens-per-centimeter"@,
        EngineeringUnits::MillisiemensPerCentimeter => "millisiemens-per-centimeter"@,
        EngineeringUnits::MillisiemensPerMeter => "millisiemens-per-meter"@,
        EngineeringUnits::MillionsOfUsGallons => "millions-of-us-gallons"@,
        EngineeringUnits::MillionsOfImperialGallons => "millions-of-imperial-gallons"@,
        EngineeringUnits::MillilitersPerMinute => "milliliters-per-minute"@,
        EngineeringUnits::MilsPerYear => "mils-per-year"@,
        EngineeringUnits::MillimetersPerYear => "millimeters-per-year"@,
        EngineeringUnits::PulsesPerMinute => "pulses-per-minute"@,
        EngineeringUnits::ActiveEnergyPulseValue => "active-energy-pulse-value"@,
        EngineeringUnits::ReactiveEnergyPulseValue => "reactive-energy-pulse-value"@,
        EngineeringUnits::ApparentEnergyPulseValue => "apparent-energy-pulse-value"@,
        EngineeringUnits::VoltSquaredHourPulseValue => "volt-squared-hour-pulse-value"@,
        EngineeringUnits::AmpereSquaredHourPulseValue => "ampere-squared-hour-pulse-value"@,
        EngineeringUnits::CubicMeterPulseValue => "cubic-meter-pulse-value"@,
        EngineeringUnits::Gigawatts => "gigawatts"@,
        EngineeringUnits::Gigajoules => "gigajoules"@,
        EngineeringUnits::Terajoules => "terajoules"@,
        EngineeringUnits::GigawattHours => "gigawatt-hours"@,
        EngineeringUnits::GigawattReactiveHours => "gigawatt-reactive-hours"@,
        EngineeringUnits::BitsPerSecond => "bits-per-second"@,
        EngineeringUnits::KilobitsPerSecond => "kilobits-per-second"@,
        EngineeringUnits::MegabitsPerSecond => "megabits-per-second"@,
        EngineeringUnits::GigabitsPerSecond => "gigabits-per-second"@,
        EngineeringUnits::BytesPerSecond => "bytes-per-second"@,
        EngineeringUnits::KilobytesPerSecond => "kilobytes-per-second"@,
        EngineeringUnits::MegabytesPerSecond => "megabytes-per-second"@,
        EngineeringUnits::GigabytesPerSecond => "gigabytes-per-second"@,
        EngineeringUnits::Volume1 => "volume1"@,
        EngineeringUnits::Volume2 => "volume2"@,
        EngineeringUnits::Volume3 => "volume3"@,
        EngineeringUnits::Volume4 => "volume4"@,
        EngineeringUnits::Volume5 => "volume5"@,
        EngineeringUnits::Volume6 => "volume6"@,
        EngineeringUnits::Volume7 => "volume7"@,
        EngineeringUnits::Volume8 => "volume8"@,
        EngineeringUnits::Volume9 => "volume9"@,
        EngineeringUnits::Volume10 => "volume10"@,
        EngineeringUnits::VolumetricFlow1 => "volumetric-flow1"@,
        EngineeringUnits::VolumetricFlow2 => "volumetric-flow2"@,
        EngineeringUnits::VolumetricFlow3 => "volumetric-flow3"@,
        EngineeringUnits::VolumetricFlow4 => "volumetric-flow4"@,
        EngineeringUnits::VolumetricFlow5 => "volumetric-flow5"@,
        EngineeringUnits::VolumetricFlow6 => "volumetric-flow6"@,
        EngineeringUnits::VolumetricFlow7 => "volumetric-flow7"@,
        EngineeringUnits::VolumetricFlow8 => "volumetric-flow8"@,
        EngineeringUnits::VolumetricFlow9 => "volumetric-flow9"@,
        EngineeringUnits::VolumetricFlow10 => "volumetric-flow10"@,
        EngineeringUnits::SiteUnit1 => "site-unit1"@,
        EngineeringUnits::SiteUnit2 => "site-unit2"@,
        EngineeringUnits::SiteUnit3 => "site-unit3"@,
        EngineeringUnits::SiteUnit4 => "site-unit4"@,
        EngineeringUnits::SiteUnit5 => "site-unit5"@,
        EngineeringUnits::SiteUnit6 => "site-unit6"@,
        EngineeringUnits::SiteUnit7 => "site-unit7"@,
        EngineeringUnits::SiteUnit8 => "site-unit8"@,
        EngineeringUnits::SiteUnit9 => "site-unit9"@,
        EngineeringUnits::SiteUnit10 => "site-unit10"@,
        EngineeringUnits::ParticlesPerCubicFoot => "particles-per-cubic-foot"@,
        EngineeringUnits::ParticlesPerCubicMeter => "particles-per-cubic-meter"@,
        EngineeringUnits::PicocuriesPerLiter => "picocuries-per-liter"@,
        EngineeringUnits::BecquerelsPerCubicMeter => "becquerels-per-cubic-meter"@,
        EngineeringUnits::GrainsOfWaterPerPoundDryAir => "grains-of-water-per-pound-dry-air"@,
        EngineeringUnits::DegreeHoursCelsius => "degree-hours-celsius"@,
        EngineeringUnits::DegreeHoursFahrenheit => "degree-hours-fahrenheit"@,
        EngineeringUnits::DegreeMinutesCelsius => "degree-minutes-celsius"@,
        EngineeringUnits::DegreeMinutesFahrenheit => "degree-minutes-fahrenheit"@,
        EngineeringUnits::DegreeSecondsCelsius => "degree-seconds-celsius"@,
        EngineeringUnits::DegreeSecondsFahrenheit => "degree-seconds-fahrenheit"@,
        EngineeringUnits::Microseconds => "microseconds"@,
        EngineeringUnits::Nanoseconds => "nanoseconds"@,
        EngineeringUnits::Picoseconds => "picoseconds"@,
        _ => Seq::empty(),
    }
}

/// The BACnet name of a unit; "Reserved(n)" or "Custom(n)" for the others.
pub open spec fn unit_name(u: EngineeringUnits) -> Seq<char> {
    match u {
        EngineeringUnits::Reserved(v) => "Reserved("@ + dec_text(v.spec_value() as nat) + ")"@,
        EngineeringUnits::Custom(v) => "Custom("@ + dec_text(v.spec_value() as nat) + ")"@,
        _ => standard_unit_name(u),
    }
}

/// The symbol of a unit (empty where it has none).
pub open spec fn unit_symbol_text(u: EngineeringUnits) -> Seq<char> {
    match u {
        EngineeringUnits::SquareMeters => "m²"@,
        EngineeringUnits::SquareFeet => "ft²"@,
        EngineeringUnits::Milliamperes => "mA"@,
        EngineeringUnits::Amperes => "A"@,
        EngineeringUnits::Ohms => "Ω"@,
        EngineeringUnits::Volts => "V"@,
        EngineeringUnits::Kilovolts => "kV"@,
        EngineeringUnits::Megavolts => "MV"@,
        EngineeringUnits::VoltAmperes => "VA"@,
        EngineeringUnits::KilovoltAmperes => "kVA"@,
        EngineeringUnits::MegavoltAmperes => "MVA"@,
        EngineeringUnits::VoltAmperesReactive => "var"@,
        EngineeringUnits::KilovoltAmperesReactive => "kvar"@,
        EngineeringUnits::MegavoltAmperesReactive => "Mvar"@,
        EngineeringUnits::DegreesPhase => "°"@,
        EngineeringUnits::PowerFactor => "cos φ"@,
        EngineeringUnits::Joules => "J"@,
        EngineeringUnits::Kilojoules => "kJ"@,
        EngineeringUnits::WattHours => "W·h"@,
        EngineeringUnits::KilowattHours => "kW·h"@,
        EngineeringUnits::Btus => "Btu"@,
        EngineeringUnits::Therms => "thm"@,
        EngineeringUnits::TonHours => "ton·h"@,
        EngineeringUnits::JoulesPerKilogramDryAir => "J/kg dry air"@,
        EngineeringUnits::BtusPerPoundDryAir => "Btu/lb dry air"@,
        EngineeringUnits::CyclesPerHour => "cph"@,
        EngineeringUnits::CyclesPerMinute => "cpm"@,
        EngineeringUnits::Hertz => "Hz"@,
        EngineeringUnits::GramsOfWaterPerKilogramDryAir => "g/kg dry air"@,
        EngineeringUnits::PercentRelativeHumidity => "% RH"@,
        EngineeringUnits::Millimeters => "mm"@,
        EngineeringUnits::Meters => "m"@,
        EngineeringUnits::Inches => "in"@,
        EngineeringUnits::Feet => "ft"@,
        EngineeringUnits::WattsPerSquareFoot => "W/ft²"@,
        EngineeringUnits::WattsPerSquareMeter => "W/m²"@,
        EngineeringUnits::Lumens => "lm"@,
        EngineeringUnits::Luxes => "lx"@,
        EngineeringUnits::FootCandles => "fc"@,
        EngineeringUnits::Kilograms => "kg"@,
        EngineeringUnits::PoundsMass => "lbm"@,
        EngineeringUnits::Tons => "ton"@,
        EngineeringUnits::KilogramsPerSecond => "kg/s"@,
        EngineeringUnits::KilogramsPerMinute => "kg/min"@,
        EngineeringUnits::KilogramsPerHour => "kg/h"@,
        EngineeringUnits::PoundsMassPerMinute => "lbm/min"@,
        EngineeringUnits::PoundsMassPerHour => "lbm/h"@,
        EngineeringUnits::Watts => "W"@,
        EngineeringUnits::Kilowatts => "kW"@,
        EngineeringUnits::Megawatts => "MW"@,
        EngineeringUnits::BtusPerHour => "Btu/h"@,
        EngineeringUnits::Horsepower => "hp"@,
        EngineeringUnits::TonsRefrigeration => "ton ref"@,
        EngineeringUnits::Pascals => "Pa"@,
        EngineeringUnits::Kilopascals => "kPa"@,
        EngineeringUnits::Bars => "bar"@,
        EngineeringUnits::PoundsForcePerSquareInch => "psi"@,
        EngineeringUnits::CentimetersOfWater => "cmH₂O"@,
        EngineeringUnits::InchesOfWater => "inH₂O"@,
        EngineeringUnits::MillimetersOfMercury => "mmHg"@,
        EngineeringUnits::CentimetersOfMercury => "cmHg"@,
        EngineeringUnits::InchesOfMercury => "inHg"@,
        EngineeringUnits::DegreesCelsius => "°C"@,
        EngineeringUnits::Kelvin => "K"@,
        EngineeringUnits::DegreesFahrenheit => "°F"@,
        EngineeringUnits::DegreeDaysCelsius => "°C·day"@,
        EngineeringUnits::DegreeDaysFahrenheit => "°F·day"@,
        EngineeringUnits::Years => "yr"@,
        EngineeringUnits::Months => "mo"@,
        EngineeringUnits::Weeks => "wk"@,
        EngineeringUnits::Days => "day"@,
        EngineeringUnits::Hours => "h"@,
        EngineeringUnits::Minutes => "min"@,
        EngineeringUnits::Seconds => "s"@,
        EngineeringUnits::MetersPerSecond => "m/s"@,
        EngineeringUnits::KilometersPerHour => "km/h"@,
        EngineeringUnits::FeetPerSecond => "ft/s"@,
        EngineeringUnits::FeetPerMinute => "ft/min"@,
        EngineeringUnits::MilesPerHour => "mph"@,
        EngineeringUnits::CubicFeet => "ft³"@,
        EngineeringUnits::CubicMeters => "m³"@,
        EngineeringUnits::ImperialGallons => "gal (UK)"@,
        EngineeringUnits::Liters => "L"@,
        EngineeringUnits::UsGallons => "gal (US)"@,
        EngineeringUnits::CubicFeetPerMinute => "cfm"@,
        EngineeringUnits::CubicMetersPerSecond => "m³/s"@,
        EngineeringUnits::ImperialGallonsPerMinute => "gpm (UK)"@,
        EngineeringUnits::LitersPerSecond => "L/s"@,
        EngineeringUnits::LitersPerMinute => "L/min"@,
        EngineeringUnits::UsGallonsPerMinute => "gpm (US)"@,
        EngineeringUnits::DegreesAngular => "°"@,
        EngineeringUnits::DegreesCelsiusPerHour => "°C/h"@,
        EngineeringUnits::DegreesCelsiusPerMinute => "°C/min"@,
        EngineeringUnits::DegreesFahrenheitPerHour => "°F/h"@,
        EngineeringUnits::DegreesFahrenheitPerMinute => "°F/min"@,
        EngineeringUnits::NoUnits => ""@,
        EngineeringUnits::PartsPerMillion => "ppm"@,
        EngineeringUnits::PartsPerBillion => "ppb"@,
        EngineeringUnits::Percent => "%"@,
        EngineeringUnits::PercentPerSecond => "%/s"@,
        EngineeringUnits::PerMinute => "/min"@,
        EngineeringUnits::PerSecond => "/s"@,
        EngineeringUnits::PsiPerDegreeFahrenheit => "psi/°F"@,
        EngineeringUnits::Radians => "rad"@,
        EngineeringUnits::RevolutionsPerMinute => "rpm"@,
        EngineeringUnits::Currency1 => ""@,
        EngineeringUnits::Currency2 => ""@,
        EngineeringUnits::Currency3 => ""@,
        EngineeringUnits::Currency4 => ""@,
        EngineeringUnits::Currency5 => ""@,
        EngineeringUnits::Currency6 => ""@,
        EngineeringUnits::Currency7 => ""@,
        EngineeringUnits::Currency8 => ""@,
        EngineeringUnits::Currency9 => ""@,
        EngineeringUnits::Currency10 => ""@,
        EngineeringUnits::SquareInches => "in²"@,
        EngineeringUnits::SquareCentimeters => "cm²"@,
        EngineeringUnits::BtusPerPound => "Btu/lb"@,
        EngineeringUnits::Centimeters => "cm"@,
        EngineeringUnits::PoundsMassPerSecond => "lbm/s"@,
        EngineeringUnits::DeltaDegreesFahrenheit => "Δ°F"@,
        EngineeringUnits::DeltaKelvin => "ΔK"@,
        EngineeringUnits::Kiloohms => "kΩ"@,
        EngineeringUnits::Megaohms => "MΩ"@,
        EngineeringUnits::Millivolts => "mV"@,
        EngineeringUnits::KilojoulesPerKilogram => "kJ/kg"@,
        EngineeringUnits::Megajoules => "MJ"@,
        EngineeringUnits::JoulesPerKelvin => "J/K"@,
        EngineeringUnits::JoulesPerKilogramKelvin => "J/(kg·K)"@,
        EngineeringUnits::Kilohertz => "kHz"@,
        EngineeringUnits::Megahertz => "MHz"@,
        EngineeringUnits::PerHour => "/h"@,
        EngineeringUnits::Milliwatts => "mW"@,
        EngineeringUnits::Hectopascals => "hPa"@,
        EngineeringUnits::Millibars => "mbar"@,
        EngineeringUnits::CubicMetersPerHour => "m³/h"@,
        EngineeringUnits::LitersPerHour => "L/h"@,
        EngineeringUnits::KilowattHoursPerSquareMeter => "kWh/m²"@,
        EngineeringUnits::KilowattHoursPerSquareFoot => "kWh/ft²"@,
        EngineeringUnits::MegajoulesPerSquareMeter => "MJ/m²"@,
        EngineeringUnits::MegajoulesPerSquareFoot => "MJ/ft²"@,
        EngineeringUnits::WattsPerSquareMeterPerKelvin => "W/(m²·K)"@,
        EngineeringUnits::CubicFeetPerSecond => "ft³/s"@,
        EngineeringUnits::PercentObscurationPerFoot => "%/ft"@,
        EngineeringUnits::PercentObscurationPerMeter => "%/m"@,
        EngineeringUnits::Milliohms => "mΩ"@,
        EngineeringUnits::MegawattHours => "MW·h"@,
        EngineeringUnits::KiloBtus => "kBtu"@,
        EngineeringUnits::MegaBtus => "MBtu"@,
        EngineeringUnits::KilojoulesPerKilogramDryAir => "kJ/kg dry air"@,
        EngineeringUnits::MegajoulesPerKilogramDryAir => "MJ/kg dry air"@,
        EngineeringUnits::KilojoulesPerKelvin => "kJ/K"@,
        EngineeringUnits::MegajoulesPerKelvin => "MJ/K"@,
        EngineeringUnits::Newton => "N"@,
        EngineeringUnits::GramsPerSecond => "g/s"@,
        EngineeringUnits::GramsPerMinute => "g/min"@,
        EngineeringUnits::TonsPerHour => "ton/h"@,
        EngineeringUnits::KiloBtusPerHour => "kBtu/h"@,
        EngineeringUnits::HundredthsSeconds => "cs"@,
        EngineeringUnits::Milliseconds => "ms"@,
        EngineeringUnits::NewtonMeters => "N·m"@,
        EngineeringUnits::MillimetersPerSecond => "mm/s"@,
        EngineeringUnits::MillimetersPerMinute => "mm/min"@,
        EngineeringUnits::MetersPerMinute => "m/min"@,
        EngineeringUnits::MetersPerHour => "m/h"@,
        EngineeringUnits::CubicMetersPerMinute => "m³/min"@,
        EngineeringUnits::MetersPerSecondPerSecond => "m/s²"@,
        EngineeringUnits::AmperesPerMeter => "A/m"@,
        EngineeringUnits::AmperesPerSquareMeter => "A/m²"@,
        EngineeringUnits::AmpereSquareMeters => "A·m²"@,
        EngineeringUnits::Farads => "F"@,
        EngineeringUnits::Henrys => "H"@,
        EngineeringUnits::OhmMeters => "Ω·m"@,
        EngineeringUnits::Siemens => "S"@,
        EngineeringUnits::SiemensPerMeter => "S/m"@,
        EngineeringUnits::Teslas => "T"@,
        EngineeringUnits::VoltsPerKelvin => "V/K"@,
        EngineeringUnits::VoltsPerMeter => "V/m"@,
        EngineeringUnits::Webers => "Wb"@,
        EngineeringUnits::Candelas => "cd"@,
        EngineeringUnits::CandelasPerSquareMeter => "cd/m²"@,
        EngineeringUnits::KelvinPerHour => "K/h"@,
        EngineeringUnits::KelvinPerMinute => "K/min"@,
        EngineeringUnits::JouleSeconds => "J·s"@,
        EngineeringUnits::RadiansPerSecond => "rad/s"@,
        EngineeringUnits::SquareMetersPerNewton => "m²/N"@,
        EngineeringUnits::KilogramsPerCubicMeter => "kg/m³"@,
        EngineeringUnits::NewtonSeconds => "N·s"@,
        EngineeringUnits::NewtonsPerMeter => "N/m"@,
        EngineeringUnits::WattsPerMeterPerKelvin => "W/(m·K)"@,
        EngineeringUnits::Microsiemens => "µS"@,
        EngineeringUnits::CubicFeetPerHour => "cfh"@,
        EngineeringUnits::UsGallonsPerHour => "gph (US)"@,
        EngineeringUnits::Kilometers => "km"@,
        EngineeringUnits::Micrometers => "µm"@,
        EngineeringUnits::Grams => "g"@,
        EngineeringUnits::Milligrams => "mg"@,
        EngineeringUnits::Milliliters => "mL"@,
        EngineeringUnits::MillilitersPerSecond => "mL/s"@,
        EngineeringUnits::Decibels => "dB"@,
        EngineeringUnits::DecibelsMillivolt => "dBmV"@,
        EngineeringUnits::DecibelsVolt => "dBV"@,
        EngineeringUnits::Millisiemens => "mS"@,
        EngineeringUnits::WattHoursReactive => "var·h"@,
        EngineeringUnits::KilowattHoursReactive => "kvar·h"@,
        EngineeringUnits::MegawattHoursReactive => "Mvar·h"@,
        EngineeringUnits::MillimetersOfWater => "mmH₂O"@,
        EngineeringUnits::PerMille => "‰"@,
        EngineeringUnits::GramsPerGram => "g/g"@,
        EngineeringUnits::KilogramsPerKilogram => "kg/kg"@,
        EngineeringUnits::GramsPerKilogram => "g/kg"@,
        EngineeringUnits::MilligramsPerGram => "mg/g"@,
        EngineeringUnits::MilligramsPerKilogram => "mg/kg"@,
        EngineeringUnits::GramsPerMilliliter => "g/mL"@,
        EngineeringUnits::GramsPerLiter => "g/L"@,
        EngineeringUnits::MilligramsPerLiter => "mg/L"@,
        EngineeringUnits::MicrogramsPerLiter => "µg/L"@,
        EngineeringUnits::GramsPerCubicMeter => "g/m³"@,
        EngineeringUnits::MilligramsPerCubicMeter => "mg/m³"@,
        EngineeringUnits::MicrogramsPerCubicMeter => "µg/m³"@,
        EngineeringUnits::NanogramsPerCubicMeter => "ng/m³"@,
        EngineeringUnits::GramsPerCubicCentimeter => "g/cm³"@,
        EngineeringUnits::Becquerels => "Bq"@,
        EngineeringUnits::Kilobecquerels => "kBq"@,
        EngineeringUnits::Megabecquerels => "MBq"@,
        EngineeringUnits::Gray => "Gy"@,
        EngineeringUnits::Milligray => "mGy"@,
        EngineeringUnits::Microgray => "µGy"@,
        EngineeringUnits::Sieverts => "Sv"@,
        EngineeringUnits::Millisieverts => "mSv"@,
        EngineeringUnits::Microsieverts => "µSv"@,
        EngineeringUnits::MicrosievertsPerHour => "µSv/h"@,
        EngineeringUnits::DecibelsA => "dBA"@,
        EngineeringUnits::NephelometricTurbidityUnit => "NTU"@,
        EngineeringUnits::Ph => "pH"@,
        EngineeringUnits::GramsPerSquareMeter => "g/m²"@,
        EngineeringUnits::MinutesPerKelvin => "min/K"@,
        EngineeringUnits::OhmMeterSquaredPerMeter => "Ω·m²/m"@,
        EngineeringUnits::AmpereSeconds => "A·s"@,
        EngineeringUnits::VoltAmpereHours => "VAh"@,
        EngineeringUnits::KilovoltAmpereHours => "kVAh"@,
        EngineeringUnits::MegavoltAmpereHours => "MVAh"@,
        EngineeringUnits::VoltAmpereHoursReactive => "varh"@,
        EngineeringUnits::KilovoltAmpereHoursReactive => "kvarh"@,
        EngineeringUnits::MegavoltAmpereHoursReactive => "Mvarh"@,
        EngineeringUnits::VoltSquareHours => "V²·h"@,
        EngineeringUnits::AmpereSquareHours => "A²·h"@,
        EngineeringUnits::JoulesPerHour => "J/h"@,
        EngineeringUnits::CubicFeetPerDay => "cfd"@,
        EngineeringUnits::CubicMetersPerDay => "m³/day"@,
        EngineeringUnits::WattHoursPerCubicMeter => "Wh/m³"@,
        EngineeringUnits::JoulesPerCubicMeter => "J/m³"@,
        EngineeringUnits::MolePercent => "mol%"@,
        EngineeringUnits::PascalSeconds => "Pa·s"@,
        EngineeringUnits::MillionStandardCubicFeetPerMinute => "MMscfm"@,
        EngineeringUnits::StandardCubicFeetPerDay => "scfd"@,
        EngineeringUnits::MillionStandardCubicFeetPerDay => "MMscfd"@,
        EngineeringUnits::ThousandCubicFeetPerDay => "kcfd"@,
        EngineeringUnits::ThousandStandardCubicFeetPerDay => "kscfd"@,
        EngineeringUnits::PoundsMassPerDay => "lbm/day"@,
        EngineeringUnits::Millirems => "mrem"@,
        EngineeringUnits::MilliremsPerHour => "mrem/h"@,
        EngineeringUnits::DegreesLovibond => ""@,
        EngineeringUnits::AlcoholByVolume => ""@,
        EngineeringUnits::InternationalBitteringUnits => ""@,
        EngineeringUnits::EuropeanBitternessUnits => ""@,
        EngineeringUnits::DegreesPlato => ""@,
        EngineeringUnits::SpecificGravity => ""@,
        EngineeringUnits::EuropeanBrewingConvention => ""@,
        EngineeringUnits::PerDay => ""@,
        EngineeringUnits::PerMillisecond => ""@,
        EngineeringUnits::Yards => ""@,
        EngineeringUnits::Miles => ""@,
        EngineeringUnits::NauticalMiles => ""@,
        EngineeringUnits::Nanograms => "ng"@,
        EngineeringUnits::Micrograms => "µg"@,
        EngineeringUnits::MetricTonnes => ""@,
        EngineeringUnits::ShortTons => ""@,
        EngineeringUnits::LongTons => ""@,
        EngineeringUnits::GramsPerHour => ""@,
        EngineeringUnits::GramsPerDay => ""@,
        EngineeringUnits::KilogramsPerDay => ""@,
        EngineeringUnits::ShortTonsPerSecond => ""@,
        EngineeringUnits::ShortTonsPerMinute => ""@,
        EngineeringUnits::ShortTonsPerHour => ""@,
        EngineeringUnits::ShortTonsPerDay => ""@,
        EngineeringUnits::MetricTonnesPerSecond => ""@,
        EngineeringUnits::MetricTonnesPerMinute => ""@,
        EngineeringUnits::MetricTonnesPerHour => ""@,
        EngineeringUnits::MetricTonnesPerDay => ""@,
        EngineeringUnits::LongTonsPerSecond => ""@,
        EngineeringUnits::LongTonsPerMinute => ""@,
        EngineeringUnits::LongTonsPerHour => ""@,
        EngineeringUnits::LongTonsPerDay => ""@,
        EngineeringUnits::BtusPerSecond => ""@,
        EngineeringUnits::BtusPerMinute => ""@,
        EngineeringUnits::BtusPerDay => ""@,
        EngineeringUnits::KiloBtusPerSecond => ""@,
        EngineeringUnits::KiloBtusPerMinute => ""@,
        EngineeringUnits::KiloBtusPerDay => ""@,
        EngineeringUnits::MegaBtusPerSecond => ""@,
        EngineeringUnits::MegaBtusPerMinute => ""@,
        EngineeringUnits::MegaBtusPerHour => ""@,
        EngineeringUnits::MegaBtusPerDay => ""@,
        EngineeringUnits::JoulesPerSecond => ""@,
        EngineeringUnits::JoulesPerMinute => ""@,
        EngineeringUnits::JoulesPerDay => ""@,
        EngineeringUnits::KilojoulesPerSecond => ""@,
        EngineeringUnits::KilojoulesPerMinute => ""@,
        EngineeringUnits::KilojoulesPerHour => ""@,
        EngineeringUnits::KilojoulesPerDay => ""@,
        EngineeringUnits::MegajoulesPerSecond => ""@,
        EngineeringUnits::MegajoulesPerMinute => ""@,
        EngineeringUnits::MegajoulesPerHour => ""@,
        EngineeringUnits::MegajoulesPerDay => ""@,
        EngineeringUnits::DegreesCelsiusPerDay => ""@,
        EngineeringUnits::KelvinPerDay => ""@,
        EngineeringUnits::DegreesFahrenheitPerDay => ""@,
        EngineeringUnits::DeltaDegreesCelsius => ""@,
        EngineeringUnits::MillionCubicFeetPerMinute => ""@,
        EngineeringUnits::MillionCubicFeetPerDay => ""@,
        EngineeringUnits::ImperialGallonsPerSecond => ""@,
        EngineeringUnits::ImperialGallonsPerHour => ""@,
        EngineeringUnits::ImperialGallonsPerDay => ""@,
        EngineeringUnits::LitersPerDay => ""@,
        EngineeringUnits::UsGallonsPerSecond => ""@,
        EngineeringUnits::UsGallonsPerDay => ""@,
        EngineeringUnits::PercentPerMinute => ""@,
        EngineeringUnits::PercentPerHour => ""@,
        EngineeringUnits::PercentPerDay => ""@,
        EngineeringUnits::PerMillion => ""@,
        EngineeringUnits::PerBillion => ""@,
        EngineeringUnits::MicrogramsPerGram => ""@,
        EngineeringUnits::NanogramsPerGram => ""@,
        EngineeringUnits::MicrogramsPerKilogram => ""@,
        EngineeringUnits::NanogramsPerKilogram => ""@,
        EngineeringUnits::MilligramsPerMilliliter => ""@,
        EngineeringUnits::MicrogramsPerMilliliter => ""@,
        EngineeringUnits::NanogramsPerMilliliter => ""@,
        EngineeringUnits::KilogramsPerLiter => ""@,
        EngineeringUnits::NanogramsPerLiter => ""@,
        EngineeringUnits::MilligramsPerCubicCentimeter => ""@,
        EngineeringUnits::MicrogramsPerCubicCentimeter => ""@,
        EngineeringUnits::NanogramsPerCubicCentimeter => ""@,
        EngineeringUnits::BtuPerHourPerWatt => ""@,
        EngineeringUnits::BtuPerWattHourSeasonal => ""@,
        EngineeringUnits::CoefficientOfPerformance => ""@,
        EngineeringUnits::CoefficientOfPerformanceSeasonal => ""@,
        EngineeringUnits::KilowattPerTonRefrigeration => ""@,
        EngineeringUnits::LumensPerWatt => ""@,
        EngineeringUnits::PoundForceFeet => ""@,
        EngineeringUnits::PoundForceInches => ""@,
        EngineeringUnits::OunceForceInches => ""@,
        EngineeringUnits::PoundsForcePerSquareInchAbsolute => ""@,
        EngineeringUnits::PoundsForcePerSquareInchGauge => ""@,
        EngineeringUnits::MicrosiemensPerCentimeter => ""@,
        EngineeringUnits::MillisiemensPerCentimeter => ""@,
        EngineeringUnits::MillisiemensPerMeter => ""@,
        EngineeringUnits::MillionsOfUsGallons => ""@,
        EngineeringUnits::MillionsOfImperialGallons => ""@,
        EngineeringUnits::MillilitersPerMinute => ""@,
        EngineeringUnits::MilsPerYear => ""@,
        EngineeringUnits::MillimetersPerYear => ""@,
        EngineeringUnits::PulsesPerMinute => ""@,
        EngineeringUnits::ActiveEnergyPulseValue => ""@,
        EngineeringUnits::ReactiveEnergyPulseValue => ""@,
        EngineeringUnits::ApparentEnergyPulseValue => ""@,
        EngineeringUnits::VoltSquaredHourPulseValue => ""@,
        EngineeringUnits::AmpereSquaredHourPulseValue => ""@,
        EngineeringUnits::CubicMeterPulseValue => ""@,
        EngineeringUnits::Gigawatts => ""@,
        EngineeringUnits::Gigajoules => "GJ"@,
        EngineeringUnits::Terajoules => "TJ"@,
        EngineeringUnits::GigawattHours => "GW·h"@,
        EngineeringUnits::GigawattReactiveHours => "Gvar·h"@,
        EngineeringUnits::BitsPerSecond => ""@,
        EngineeringUnits::KilobitsPerSecond => ""@,
        EngineeringUnits::MegabitsPerSecond => ""@,
        EngineeringUnits::GigabitsPerSecond => ""@,
        EngineeringUnits::BytesPerSecond => ""@,
        EngineeringUnits::KilobytesPerSecond => ""@,
        EngineeringUnits::MegabytesPerSecond => ""@,
        EngineeringUnits::GigabytesPerSecond => ""@,
        EngineeringUnits::Volume1 => ""@,
        EngineeringUnits::Volume2 => ""@,
        EngineeringUnits::Volume3 => ""@,
        EngineeringUnits::Volume4 => ""@,
        EngineeringUnits::Volume5 => ""@,
        EngineeringUnits::Volume6 => ""@,
        EngineeringUnits::Volume7 => ""@,
        EngineeringUnits::Volume8 => ""@,
        EngineeringUnits::Volume9 => ""@,
        EngineeringUnits::Volume10 => ""@,
        EngineeringUnits::VolumetricFlow1 => ""@,
        EngineeringUnits::VolumetricFlow2 => ""@,
        EngineeringUnits::VolumetricFlow3 => ""@,
        EngineeringUnits::VolumetricFlow4 => ""@,
        EngineeringUnits::VolumetricFlow5 => ""@,
        EngineeringUnits::VolumetricFlow6 => ""@,
        EngineeringUnits::VolumetricFlow7 => ""@,
        EngineeringUnits::VolumetricFlow8 => ""@,
        EngineeringUnits::VolumetricFlow9 => ""@,
        EngineeringUnits::VolumetricFlow10 => ""@,
        EngineeringUnits::SiteUnit1 => ""@,
        EngineeringUnits::SiteUnit2 => ""@,
        EngineeringUnits::SiteUnit3 => ""@,
        EngineeringUnits::SiteUnit4 => ""@,
        EngineeringUnits::SiteUnit5 => ""@,
        EngineeringUnits::SiteUnit6 => ""@,
        EngineeringUnits::SiteUnit7 => ""@,
        EngineeringUnits::SiteUnit8 => ""@,
        EngineeringUnits::SiteUnit9 => ""@,
        EngineeringUnits::SiteUnit10 => ""@,
        EngineeringUnits::ParticlesPerCubicFoot => ""@,
        EngineeringUnits::ParticlesPerCubicMeter => ""@,
        EngineeringUnits::PicocuriesPerLiter => ""@,
        EngineeringUnits::BecquerelsPerCubicMeter => ""@,
        EngineeringUnits::GrainsOfWaterPerPoundDryAir => ""@,
        EngineeringUnits::DegreeHoursCelsius => ""@,
        EngineeringUnits::DegreeHoursFahrenheit => ""@,
        EngineeringUnits::DegreeMinutesCelsius => ""@,
        EngineeringUnits::DegreeMinutesFahrenheit => ""@,
        EngineeringUnits::DegreeSecondsCelsius => ""@,
        EngineeringUnits::DegreeSecondsFahrenheit => ""@,
        EngineeringUnits::Microseconds => ""@,
        EngineeringUnits::Nanoseconds => ""@,
        EngineeringUnits::Picoseconds => ""@,
        _ => ""@,
    }
}

/// Whether a unit is written in its one form: a reserved or custom unit
/// never carries a standard number, and each carries a number of its range.
pub open spec fn unit_canonical(u: EngineeringUnits) -> bool {
    match u {
        EngineeringUnits::Reserved(v) => unit_of_number(v.spec_value()) is Reserved,
        EngineeringUnits::Custom(v) => unit_of_number(v.spec_value()) is Custom,
        _ => true,
    }
}

impl Default for EngineeringUnits {
    fn default() -> (r: Self)
        ensures
            r == EngineeringUnits::NoUnits,
    {
        EngineeringUnits::NoUnits
    }
}

impl From<EngineeringUnits> for u32 {
    fn from(value: EngineeringUnits) -> (r: Self) {
        match value {
            EngineeringUnits::SquareMeters => 0,
            EngineeringUnits::SquareFeet => 1,
            EngineeringUnits::Milliamperes => 2,
            EngineeringUnits::Amperes => 3,
            EngineeringUnits::Ohms => 4,
            EngineeringUnits::Volts => 5,
            EngineeringUnits::Kilovolts => 6,
            EngineeringUnits::Megavolts => 7,
            EngineeringUnits::VoltAmperes => 8,
            EngineeringUnits::KilovoltAmperes => 9,
            EngineeringUnits::MegavoltAmperes => 10,
            EngineeringUnits::VoltAmperesReactive => 11,
            EngineeringUnits::KilovoltAmperesReactive => 12,
            EngineeringUnits::MegavoltAmperesReactive => 13,
            EngineeringUnits::DegreesPhase => 14,
            EngineeringUnits::PowerFactor => 15,
            EngineeringUnits::Joules => 16,
            EngineeringUnits::Kilojoules => 17,
            EngineeringUnits::WattHours => 18,
            EngineeringUnits::KilowattHours => 19,
            EngineeringUnits::Btus => 20,
            EngineeringUnits::Therms => 21,
            EngineeringUnits::TonHours => 22,
            EngineeringUnits::JoulesPerKilogramDryAir => 23,
            EngineeringUnits::BtusPerPoundDryAir => 24,
            EngineeringUnits::CyclesPerHour => 25,
            EngineeringUnits::CyclesPerMinute => 26,
            EngineeringUnits::Hertz => 27,
            EngineeringUnits::GramsOfWaterPerKilogramDryAir => 28,
            EngineeringUnits::PercentRelativeHumidity => 29,
            EngineeringUnits::Millimeters => 30,
            EngineeringUnits::Meters => 31,
            EngineeringUnits::Inches => 32,
            EngineeringUnits::Feet => 33,
            EngineeringUnits::WattsPerSquareFoot => 34,
            EngineeringUnits::WattsPerSquareMeter => 35,
            EngineeringUnits::Lumens => 36,
            EngineeringUnits::Luxes => 37,
            EngineeringUnits::FootCandles => 38,
            EngineeringUnits::Kilograms => 39,
            EngineeringUnits::PoundsMass => 40,
            EngineeringUnits::Tons => 41,
            EngineeringUnits::KilogramsPerSecond => 42,
            EngineeringUnits::KilogramsPerMinute => 43,
            EngineeringUnits::KilogramsPerHour => 44,
            EngineeringUnits::PoundsMassPerMinute => 45,
            EngineeringUnits::PoundsMassPerHour => 46,
            EngineeringUnits::Watts => 47,
            EngineeringUnits::Kilowatts => 48,
            EngineeringUnits::Megawatts => 49,
            EngineeringUnits::BtusPerHour => 50,
            EngineeringUnits::Horsepower => 51,
            EngineeringUnits::TonsRefrigeration => 52,
            EngineeringUnits::Pascals => 53,
            EngineeringUnits::Kilopascals => 54,
            EngineeringUnits::Bars => 55,
            EngineeringUnits::PoundsForcePerSquareInch => 56,
            EngineeringUnits::CentimetersOfWater => 57,
            EngineeringUnits::InchesOfWater => 58,
            EngineeringUnits::MillimetersOfMercury => 59,
            EngineeringUnits::CentimetersOfMercury => 60,
            EngineeringUnits::InchesOfMercury => 61,
            EngineeringUnits::DegreesCelsius => 62,
            EngineeringUnits::Kelvin => 63,
            EngineeringUnits::DegreesFahrenheit => 64,
            EngineeringUnits::DegreeDaysCelsius => 65,
            EngineeringUnits::DegreeDaysFahrenheit => 66,
            EngineeringUnits::Years => 67,
            EngineeringUnits::Months => 68,
            EngineeringUnits::Weeks => 69,
            EngineeringUnits::Days => 70,
            EngineeringUnits::Hours => 71,
            EngineeringUnits::Minutes => 72,
            EngineeringUnits::Seconds => 73,
            EngineeringUnits::MetersPerSecond => 74,
            EngineeringUnits::KilometersPerHour => 75,
            EngineeringUnits::FeetPerSecond => 76,
            EngineeringUnits::FeetPerMinute => 77,
            EngineeringUnits::MilesPerHour => 78,
            EngineeringUnits::CubicFeet => 79,
            EngineeringUnits::CubicMeters => 80,
            EngineeringUnits::ImperialGallons => 81,
            EngineeringUnits::Liters => 82,
            EngineeringUnits::UsGallons => 83,
            EngineeringUnits::CubicFeetPerMinute => 84,
            EngineeringUnits::CubicMetersPerSecond => 85,
            EngineeringUnits::ImperialGallonsPerMinute => 86,
            EngineeringUnits::LitersPerSecond => 87,
            EngineeringUnits::LitersPerMinute => 88,
            EngineeringUnits::UsGallonsPerMinute => 89,
            EngineeringUnits::DegreesAngular => 90,
            EngineeringUnits::DegreesCelsiusPerHour => 91,
            EngineeringUnits::DegreesCelsiusPerMinute => 92,
            EngineeringUnits::DegreesFahrenheitPerHour => 93,
            EngineeringUnits::DegreesFahrenheitPerMinute => 94,
            EngineeringUnits::NoUnits => 95,
            EngineeringUnits::PartsPerMillion => 96,
            EngineeringUnits::PartsPerBillion => 97,
            EngineeringUnits::Percent => 98,
            EngineeringUnits::PercentPerSecond => 99,
            EngineeringUnits::PerMinute => 100,
            EngineeringUnits::PerSecond => 101,
            EngineeringUnits::PsiPerDegreeFahrenheit => 102,
            EngineeringUnits::Radians => 103,
            EngineeringUnits::RevolutionsPerMinute => 104,
            EngineeringUnits::Currency1 => 105,
            EngineeringUnits::Currency2 => 106,
            EngineeringUnits::Currency3 => 107,
            EngineeringUnits::Currency4 => 108,
            EngineeringUnits::Currency5 => 109,
            EngineeringUnits::Currency6 => 110,
            EngineeringUnits::Currency7 => 111,
            EngineeringUnits::Currency8 => 112,
            EngineeringUnits::Currency9 => 113,
            EngineeringUnits::Currency10 => 114,
            EngineeringUnits::SquareInches => 115,
            EngineeringUnits::SquareCentimeters => 116,
            EngineeringUnits::BtusPerPound => 117,
            EngineeringUnits::Centimeters => 118,
            EngineeringUnits::PoundsMassPerSecond => 119,
            EngineeringUnits::DeltaDegreesFahrenheit => 120,
            EngineeringUnits::DeltaKelvin => 121,
            EngineeringUnits::Kiloohms => 122,
            EngineeringUnits::Megaohms => 123,
            EngineeringUnits::Millivolts => 124,
            EngineeringUnits::KilojoulesPerKilogram => 125,
            EngineeringUnits::Megajoules => 126,
            EngineeringUnits::JoulesPerKelvin => 127,
            EngineeringUnits::JoulesPerKilogramKelvin => 128,
            EngineeringUnits::Kilohertz => 129,
            EngineeringUnits::Megahertz => 130,
            EngineeringUnits::PerHour => 131,
            EngineeringUnits::Milliwatts => 132,
            EngineeringUnits::Hectopascals => 133,
            EngineeringUnits::Millibars => 134,
            EngineeringUnits::CubicMetersPerHour => 135,
            EngineeringUnits::LitersPerHour => 136,
            EngineeringUnits::KilowattHoursPerSquareMeter => 137,
            EngineeringUnits::KilowattHoursPerSquareFoot => 138,
            EngineeringUnits::MegajoulesPerSquareMeter => 139,
            EngineeringUnits::MegajoulesPerSquareFoot => 140,
            EngineeringUnits::WattsPerSquareMeterPerKelvin => 141,
            EngineeringUnits::CubicFeetPerSecond => 142,
            EngineeringUnits::PercentObscurationPerFoot => 143,
            EngineeringUnits::PercentObscurationPerMeter => 144,
            EngineeringUnits::Milliohms => 145,
            EngineeringUnits::MegawattHours => 146,
            EngineeringUnits::KiloBtus => 147,
            EngineeringUnits::MegaBtus => 148,
            EngineeringUnits::KilojoulesPerKilogramDryAir => 149,
            EngineeringUnits::MegajoulesPerKilogramDryAir => 150,
            EngineeringUnits::KilojoulesPerKelvin => 151,
            EngineeringUnits::MegajoulesPerKelvin => 152,
            EngineeringUnits::Newton => 153,
            EngineeringUnits::GramsPerSecond => 154,
            EngineeringUnits::GramsPerMinute => 155,
            EngineeringUnits::TonsPerHour => 156,
            EngineeringUnits::KiloBtusPerHour => 157,
            EngineeringUnits::HundredthsSeconds => 158,
            EngineeringUnits::Milliseconds => 159,
            EngineeringUnits::NewtonMeters => 160,
            EngineeringUnits::MillimetersPerSecond => 161,
            EngineeringUnits::MillimetersPerMinute => 162,
            EngineeringUnits::MetersPerMinute => 163,
            EngineeringUnits::MetersPerHour => 164,
            EngineeringUnits::CubicMetersPerMinute => 165,
            EngineeringUnits::MetersPerSecondPerSecond => 166,
            EngineeringUnits::AmperesPerMeter => 167,
            EngineeringUnits::AmperesPerSquareMeter => 168,
            EngineeringUnits::AmpereSquareMeters => 169,
            EngineeringUnits::Farads => 170,
            EngineeringUnits::Henrys => 171,
            EngineeringUnits::OhmMeters => 172,
            EngineeringUnits::Siemens => 173,
            EngineeringUnits::SiemensPerMeter => 174,
            EngineeringUnits::Teslas => 175,
            EngineeringUnits::VoltsPerKelvin => 176,
            EngineeringUnits::VoltsPerMeter => 177,
            EngineeringUnits::Webers => 178,
            EngineeringUnits::Candelas => 179,
            EngineeringUnits::CandelasPerSquareMeter => 180,
            EngineeringUnits::KelvinPerHour => 181,
            EngineeringUnits::KelvinPerMinute => 182,
            EngineeringUnits::JouleSeconds => 183,
            EngineeringUnits::RadiansPerSecond => 184,
            EngineeringUnits::SquareMetersPerNewton => 185,
            EngineeringUnits::KilogramsPerCubicMeter => 186,
            EngineeringUnits::NewtonSeconds => 187,
            EngineeringUnits::NewtonsPerMeter => 188,
            EngineeringUnits::WattsPerMeterPerKelvin => 189,
            EngineeringUnits::Microsiemens => 190,
            EngineeringUnits::CubicFeetPerHour => 191,
            EngineeringUnits::UsGallonsPerHour => 192,
            EngineeringUnits::Kilometers => 193,
            EngineeringUnits::Micrometers => 194,
            EngineeringUnits::Grams => 195,
            EngineeringUnits::Milligrams => 196,
            EngineeringUnits::Milliliters => 197,
            EngineeringUnits::MillilitersPerSecond => 198,
            EngineeringUnits::Decibels => 199,
            EngineeringUnits::DecibelsMillivolt => 200,
            EngineeringUnits::DecibelsVolt => 201,
            EngineeringUnits::Millisiemens => 202,
            EngineeringUnits::WattHoursReactive => 203,
            EngineeringUnits::KilowattHoursReactive => 204,
            EngineeringUnits::MegawattHoursReactive => 205,
            EngineeringUnits::MillimetersOfWater => 206,
            EngineeringUnits::PerMille => 207,
            EngineeringUnits::GramsPerGram => 208,
            EngineeringUnits::KilogramsPerKilogram => 209,
            EngineeringUnits::GramsPerKilogram => 210,
            EngineeringUnits::MilligramsPerGram => 211,
            EngineeringUnits::MilligramsPerKilogram => 212,
            EngineeringUnits::GramsPerMilliliter => 213,
            EngineeringUnits::GramsPerLiter => 214,
            EngineeringUnits::MilligramsPerLiter => 215,
            EngineeringUnits::MicrogramsPerLiter => 216,
            EngineeringUnits::GramsPerCubicMeter => 217,
            EngineeringUnits::MilligramsPerCubicMeter => 218,
            EngineeringUnits::MicrogramsPerCubicMeter => 219,
            EngineeringUnits::NanogramsPerCubicMeter => 220,
            EngineeringUnits::GramsPerCubicCentimeter => 221,
            EngineeringUnits::Becquerels => 222,
            EngineeringUnits::Kilobecquerels => 223,
            EngineeringUnits::Megabecquerels => 224,
            EngineeringUnits::Gray => 225,
            EngineeringUnits::Milligray => 226,
            EngineeringUnits::Microgray => 227,
            EngineeringUnits::Sieverts => 228,
            EngineeringUnits::Millisieverts => 229,
            EngineeringUnits::Microsieverts => 230,
            EngineeringUnits::MicrosievertsPerHour => 231,
            EngineeringUnits::DecibelsA => 232,
            EngineeringUnits::NephelometricTurbidityUnit => 233,
            EngineeringUnits::Ph => 234,
            EngineeringUnits::GramsPerSquareMeter => 235,
            EngineeringUnits::MinutesPerKelvin => 236,
            EngineeringUnits::OhmMeterSquaredPerMeter => 237,
            EngineeringUnits::AmpereSeconds => 238,
            EngineeringUnits::VoltAmpereHours => 239,
            EngineeringUnits::KilovoltAmpereHours => 240,
            EngineeringUnits::MegavoltAmpereHours => 241,
            EngineeringUnits::VoltAmpereHoursReactive => 242,
            EngineeringUnits::KilovoltAmpereHoursReactive => 243,
            EngineeringUnits::MegavoltAmpereHoursReactive => 244,
            EngineeringUnits::VoltSquareHours => 245,
            EngineeringUnits::AmpereSquareHours => 246,
            EngineeringUnits::JoulesPerHour => 247,
            EngineeringUnits::CubicFeetPerDay => 248,
            EngineeringUnits::CubicMetersPerDay => 249,
            EngineeringUnits::WattHoursPerCubicMeter => 250,
            EngineeringUnits::JoulesPerCubicMeter => 251,
            EngineeringUnits::MolePercent => 252,
            EngineeringUnits::PascalSeconds => 253,
            EngineeringUnits::MillionStandardCubicFeetPerMinute => 254,
            EngineeringUnits::StandardCubicFeetPerDay => 47808,
            EngineeringUnits::MillionStandardCubicFeetPerDay => 47809,
            EngineeringUnits::ThousandCubicFeetPerDay => 47810,
            EngineeringUnits::ThousandStandardCubicFeetPerDay => 47811,
            EngineeringUnits::PoundsMassPerDay => 47812,
            EngineeringUnits::Millirems => 47814,
            EngineeringUnits::MilliremsPerHour => 47815,
            EngineeringUnits::DegreesLovibond => 47816,
            EngineeringUnits::AlcoholByVolume => 47817,
            EngineeringUnits::InternationalBitteringUnits => 47818,
            EngineeringUnits::EuropeanBitternessUnits => 47819,
            EngineeringUnits::DegreesPlato => 47820,
            EngineeringUnits::SpecificGravity => 47821,
            EngineeringUnits::EuropeanBrewingConvention => 47822,
            EngineeringUnits::PerDay => 47823,
            EngineeringUnits::PerMillisecond => 47824,
            EngineeringUnits::Yards => 47825,
            EngineeringUnits::Miles => 47826,
            EngineeringUnits::NauticalMiles => 47827,
            EngineeringUnits::Nanograms => 47828,
            EngineeringUnits::Micrograms => 47829,
            EngineeringUnits::MetricTonnes => 47830,
            EngineeringUnits::ShortTons => 47831,
            EngineeringUnits::LongTons => 47832,
            EngineeringUnits::GramsPerHour => 47833,
            EngineeringUnits::GramsPerDay => 47834,
            EngineeringUnits::KilogramsPerDay => 47835,
            EngineeringUnits::ShortTonsPerSecond => 47836,
            EngineeringUnits::ShortTonsPerMinute => 47837,
            EngineeringUnits::ShortTonsPerHour => 47838,
            EngineeringUnits::ShortTonsPerDay => 47839,
            EngineeringUnits::MetricTonnesPerSecond => 47840,
            EngineeringUnits::MetricTonnesPerMinute => 47841,
            EngineeringUnits::MetricTonnesPerHour => 47842,
            EngineeringUnits::MetricTonnesPerDay => 47843,
            EngineeringUnits::LongTonsPerSecond => 47844,
            EngineeringUnits::LongTonsPerMinute => 47845,
            EngineeringUnits::LongTonsPerHour => 47846,
            EngineeringUnits::LongTonsPerDay => 47847,
            EngineeringUnits::BtusPerSecond => 47848,
            EngineeringUnits::BtusPerMinute => 47849,
            EngineeringUnits::BtusPerDay => 47850,
            EngineeringUnits::KiloBtusPerSecond => 47851,
            EngineeringUnits::KiloBtusPerMinute => 47852,
            EngineeringUnits::KiloBtusPerDay => 47853,
            EngineeringUnits::MegaBtusPerSecond => 47854,
            EngineeringUnits::MegaBtusPerMinute => 47855,
            EngineeringUnits::MegaBtusPerHour => 47856,
            EngineeringUnits::MegaBtusPerDay => 47857,
            EngineeringUnits::JoulesPerSecond => 47858,
            EngineeringUnits::JoulesPerMinute => 47859,
            EngineeringUnits::JoulesPerDay => 47860,
            EngineeringUnits::KilojoulesPerSecond => 47861,
            EngineeringUnits::KilojoulesPerMinute => 47862,
            EngineeringUnits::KilojoulesPerHour => 47863,
            EngineeringUnits::KilojoulesPerDay => 47864,
            EngineeringUnits::MegajoulesPerSecond => 47865,
            EngineeringUnits::MegajoulesPerMinute => 47866,
            EngineeringUnits::MegajoulesPerHour => 47867,
            EngineeringUnits::MegajoulesPerDay => 47868,
            EngineeringUnits::DegreesCelsiusPerDay => 47869,
            EngineeringUnits::KelvinPerDay => 47870,
            EngineeringUnits::DegreesFahrenheitPerDay => 47871,
            EngineeringUnits::DeltaDegreesCelsius => 47872,
            EngineeringUnits::MillionCubicFeetPerMinute => 47873,
            EngineeringUnits::MillionCubicFeetPerDay => 47874,
            EngineeringUnits::ImperialGallonsPerSecond => 47875,
            EngineeringUnits::ImperialGallonsPerHour => 47876,
            EngineeringUnits::ImperialGallonsPerDay => 47877,
            EngineeringUnits::LitersPerDay => 47878,
            EngineeringUnits::UsGallonsPerSecond => 47879,
            EngineeringUnits::UsGallonsPerDay => 47880,
            EngineeringUnits::PercentPerMinute => 47881,
            EngineeringUnits::PercentPerHour => 47882,
            EngineeringUnits::PercentPerDay => 47883,
            EngineeringUnits::PerMillion => 47884,
            EngineeringUnits::PerBillion => 47885,
            EngineeringUnits::MicrogramsPerGram => 47886,
            EngineeringUnits::NanogramsPerGram => 47887,
            EngineeringUnits::MicrogramsPerKilogram => 47888,
            EngineeringUnits::NanogramsPerKilogram => 47889,
            EngineeringUnits::MilligramsPerMilliliter => 47890,
            EngineeringUnits::MicrogramsPerMilliliter => 47891,
            EngineeringUnits::NanogramsPerMilliliter => 47892,
            EngineeringUnits::KilogramsPerLiter => 47893,
            EngineeringUnits::NanogramsPerLiter => 47894,
            EngineeringUnits::MilligramsPerCubicCentimeter => 47895,
            EngineeringUnits::MicrogramsPerCubicCentimeter => 47896,
            EngineeringUnits::NanogramsPerCubicCentimeter => 47897,
            EngineeringUnits::BtuPerHourPerWatt => 47898,
            EngineeringUnits::BtuPerWattHourSeasonal => 47899,
            EngineeringUnits::CoefficientOfPerformance => 47900,
            EngineeringUnits::CoefficientOfPerformanceSeasonal => 47901,
            EngineeringUnits::KilowattPerTonRefrigeration => 47902,
            EngineeringUnits::LumensPerWatt => 47903,
            EngineeringUnits::PoundForceFeet => 47904,
            EngineeringUnits::PoundForceInches => 47905,
            EngineeringUnits::OunceForceInches => 47906,
            EngineeringUnits::PoundsForcePerSquareInchAbsolute => 47907,
            EngineeringUnits::PoundsForcePerSquareInchGauge => 47908,
            EngineeringUnits::MicrosiemensPerCentimeter => 47909,
            EngineeringUnits::MillisiemensPerCentimeter => 47910,
            EngineeringUnits::MillisiemensPerMeter => 47911,
            EngineeringUnits::MillionsOfUsGallons => 47912,
            EngineeringUnits::MillionsOfImperialGallons => 47913,
            EngineeringUnits::MillilitersPerMinute => 47914,
            EngineeringUnits::MilsPerYear => 47915,
            EngineeringUnits::MillimetersPerYear => 47916,
            EngineeringUnits::PulsesPerMinute => 47917,
            EngineeringUnits::ActiveEnergyPulseValue => 47918,
            EngineeringUnits::ReactiveEnergyPulseValue => 47919,
            EngineeringUnits::ApparentEnergyPulseValue => 47920,
            EngineeringUnits::VoltSquaredHourPulseValue => 47921,
            EngineeringUnits::AmpereSquaredHourPulseValue => 47922,
            EngineeringUnits::CubicMeterPulseValue => 47923,
            EngineeringUnits::Gigawatts => 47924,
            EngineeringUnits::Gigajoules => 47925,
            EngineeringUnits::Terajoules => 47926,
            EngineeringUnits::GigawattHours => 47927,
            EngineeringUnits::GigawattReactiveHours => 47928,
            EngineeringUnits::BitsPerSecond => 47929,
            EngineeringUnits::KilobitsPerSecond => 47930,
            EngineeringUnits::MegabitsPerSecond => 47931,
            EngineeringUnits::GigabitsPerSecond => 47932,
            EngineeringUnits::BytesPerSecond => 47933,
            EngineeringUnits::KilobytesPerSecond => 47934,
            EngineeringUnits::MegabytesPerSecond => 47935,
            EngineeringUnits::GigabytesPerSecond => 47936,
            EngineeringUnits::Volume1 => 47937,
            EngineeringUnits::Volume2 => 47938,
            EngineeringUnits::Volume3 => 47939,
            EngineeringUnits::Volume4 => 47940,
            EngineeringUnits::Volume5 => 47941,
            EngineeringUnits::Volume6 => 47942,
            EngineeringUnits::Volume7 => 47943,
            EngineeringUnits::Volume8 => 47944,
            EngineeringUnits::Volume9 => 47945,
            EngineeringUnits::Volume10 => 47946,
            EngineeringUnits::VolumetricFlow1 => 47947,
            EngineeringUnits::VolumetricFlow2 => 47948,
            EngineeringUnits::VolumetricFlow3 => 47949,
            EngineeringUnits::VolumetricFlow4 => 47950,
            EngineeringUnits::VolumetricFlow5 => 47951,
            EngineeringUnits::VolumetricFlow6 => 47952,
            EngineeringUnits::VolumetricFlow7 => 47953,
            EngineeringUnits::VolumetricFlow8 => 47954,
            EngineeringUnits::VolumetricFlow9 => 47955,
            EngineeringUnits::VolumetricFlow10 => 47956,
            EngineeringUnits::SiteUnit1 => 47958,
            EngineeringUnits::SiteUnit2 => 47959,
            EngineeringUnits::SiteUnit3 => 47960,
            EngineeringUnits::SiteUnit4 => 47961,
            EngineeringUnits::SiteUnit5 => 47962,
            EngineeringUnits::SiteUnit6 => 47963,
            EngineeringUnits::SiteUnit7 => 47964,
            EngineeringUnits::SiteUnit8 => 47965,
            EngineeringUnits::SiteUnit9 => 47966,
            EngineeringUnits::SiteUnit10 => 47967,
            EngineeringUnits::ParticlesPerCubicFoot => 47968,
            EngineeringUnits::ParticlesPerCubicMeter => 47969,
            EngineeringUnits::PicocuriesPerLiter => 47970,
            EngineeringUnits::BecquerelsPerCubicMeter => 47971,
            EngineeringUnits::GrainsOfWaterPerPoundDryAir => 47972,
            EngineeringUnits::DegreeHoursCelsius => 47973,
            EngineeringUnits::DegreeHoursFahrenheit => 47974,
            EngineeringUnits::DegreeMinutesCelsius => 47975,
            EngineeringUnits::DegreeMinutesFahrenheit => 47976,
            EngineeringUnits::DegreeSecondsCelsius => 47977,
            EngineeringUnits::DegreeSecondsFahrenheit => 47978,
            EngineeringUnits::Microseconds => 47979,
            EngineeringUnits::Nanoseconds => 47980,
            EngineeringUnits::Picoseconds => 47981,
            EngineeringUnits::Reserved(v) => v.value(),
            EngineeringUnits::Custom(v) => v.value(),
        }
    }
}

impl vstd::std_specs::convert::FromSpecImpl<EngineeringUnits> for u32 {
    open spec fn obeys_from_spec() -> bool {
        true
    }

    open spec fn from_spec(value: EngineeringUnits) -> u32 {
        unit_number(value)
    }
}

impl From<u32> for EngineeringUnits {
    fn from(value: u32) -> (r: Self) {
        match value {
            0 => EngineeringUnits::SquareMeters,
            1 => EngineeringUnits::SquareFeet,
            2 => EngineeringUnits::Milliamperes,
            3 => EngineeringUnits::Amperes,
            4 => EngineeringUnits::Ohms,
            5 => EngineeringUnits::Volts,
            6 => EngineeringUnits::Kilovolts,
            7 => EngineeringUnits::Megavolts,
            8 => EngineeringUnits::VoltAmperes,
            9 => EngineeringUnits::KilovoltAmperes,
            10 => EngineeringUnits::MegavoltAmperes,
            11 => EngineeringUnits::VoltAmperesReactive,
            12 => EngineeringUnits::KilovoltAmperesReactive,
            13 => EngineeringUnits::MegavoltAmperesReactive,
            14 => EngineeringUnits::DegreesPhase,
            15 => EngineeringUnits::PowerFactor,
            16 => EngineeringUnits::Joules,
            17 => EngineeringUnits::Kilojoules,
            18 => EngineeringUnits::WattHours,
            19 => EngineeringUnits::KilowattHours,
            20 => EngineeringUnits::Btus,
            21 => EngineeringUnits::Therms,
            22 => EngineeringUnits::TonHours,
            23 => EngineeringUnits::JoulesPerKilogramDryAir,
            24 => EngineeringUnits::BtusPerPoundDryAir,
            25 => EngineeringUnits::CyclesPerHour,
            26 => EngineeringUnits::CyclesPerMinute,
            27 => EngineeringUnits::Hertz,
            28 => EngineeringUnits::GramsOfWaterPerKilogramDryAir,
            29 => EngineeringUnits::PercentRelativeHumidity,
            30 => EngineeringUnits::Millimeters,
            31 => EngineeringUnits::Meters,
            32 => EngineeringUnits::Inches,
            33 => EngineeringUnits::Feet,
            34 => EngineeringUnits::WattsPerSquareFoot,
            35 => EngineeringUnits::WattsPerSquareMeter,
            36 => EngineeringUnits::Lumens,
            37 => EngineeringUnits::Luxes,
            38 => EngineeringUnits::FootCandles,
            39 => EngineeringUnits::Kilograms,
            40 => EngineeringUnits::PoundsMass,
            41 => EngineeringUnits::Tons,
            42 => EngineeringUnits::KilogramsPerSecond,
            43 => EngineeringUnits::KilogramsPerMinute,
            44 => EngineeringUnits::KilogramsPerHour,
            45 => EngineeringUnits::PoundsMassPerMinute,
            46 => EngineeringUnits::PoundsMassPerHour,
            47 => EngineeringUnits::Watts,
            48 => EngineeringUnits::Kilowatts,
            49 => EngineeringUnits::Megawatts,
            50 => EngineeringUnits::BtusPerHour,
            51 => EngineeringUnits::Horsepower,
            52 => EngineeringUnits::TonsRefrigeration,
            53 => EngineeringUnits::Pascals,
            54 => EngineeringUnits::Kilopascals,
            55 => EngineeringUnits::Bars,
            56 => EngineeringUnits::PoundsForcePerSquareInch,
            57 => EngineeringUnits::CentimetersOfWater,
            58 => EngineeringUnits::InchesOfWater,
            59 => EngineeringUnits::MillimetersOfMercury,
            60 => EngineeringUnits::CentimetersOfMercury,
            61 => EngineeringUnits::InchesOfMercury,
            62 => EngineeringUnits::DegreesCelsius,
            63 => EngineeringUnits::Kelvin,
            64 => EngineeringUnits::DegreesFahrenheit,
            65 => EngineeringUnits::DegreeDaysCelsius,
            66 => EngineeringUnits::DegreeDaysFahrenheit,
            67 => EngineeringUnits::Years,
            68 => EngineeringUnits::Months,
            69 => EngineeringUnits::Weeks,
            70 => EngineeringUnits::Days,
            71 => EngineeringUnits::Hours,
            72 => EngineeringUnits::Minutes,
            73 => EngineeringUnits::Seconds,
            74 => EngineeringUnits::MetersPerSecond,
            75 => EngineeringUnits::KilometersPerHour,
            76 => EngineeringUnits::FeetPerSecond,
            77 => EngineeringUnits::FeetPerMinute,
            78 => EngineeringUnits::MilesPerHour,
            79 => EngineeringUnits::CubicFeet,
            80 => EngineeringUnits::CubicMeters,
            81 => EngineeringUnits::ImperialGallons,
            82 => EngineeringUnits::Liters,
            83 => EngineeringUnits::UsGallons,
            84 => EngineeringUnits::CubicFeetPerMinute,
            85 => EngineeringUnits::CubicMetersPerSecond,
            86 => EngineeringUnits::ImperialGallonsPerMinute,
            87 => EngineeringUnits::LitersPerSecond,
            88 => EngineeringUnits::LitersPerMinute,
            89 => EngineeringUnits::UsGallonsPerMinute,
            90 => EngineeringUnits::DegreesAngular,
            91 => EngineeringUnits::DegreesCelsiusPerHour,
            92 => EngineeringUnits::DegreesCelsiusPerMinute,
            93 => EngineeringUnits::DegreesFahrenheitPerHour,
            94 => EngineeringUnits::DegreesFahrenheitPerMinute,
            95 => EngineeringUnits::NoUnits,
            96 => EngineeringUnits::PartsPerMillion,
            97 => EngineeringUnits::PartsPerBillion,
            98 => EngineeringUnits::Percent,
            99 => EngineeringUnits::PercentPerSecond,
            100 => EngineeringUnits::PerMinute,
            101 => EngineeringUnits::PerSecond,
            102 => EngineeringUnits::PsiPerDegreeFahrenheit,
            103 => EngineeringUnits::Radians,
            104 => EngineeringUnits::RevolutionsPerMinute,
            105 => EngineeringUnits::Currency1,
            106 => EngineeringUnits::Currency2,
            107 => EngineeringUnits::Currency3,
            108 => EngineeringUnits::Currency4,
            109 => EngineeringUnits::Currency5,
            110 => EngineeringUnits::Currency6,
            111 => EngineeringUnits::Currency7,
            112 => EngineeringUnits::Currency8,
            113 => EngineeringUnits::Currency9,
            114 => EngineeringUnits::Currency10,
            115 => EngineeringUnits::SquareInches,
            116 => EngineeringUnits::SquareCentimeters,
            117 => EngineeringUnits::BtusPerPound,
            118 => EngineeringUnits::Centimeters,
            119 => EngineeringUnits::PoundsMassPerSecond,
            120 => EngineeringUnits::DeltaDegreesFahrenheit,
            121 => EngineeringUnits::DeltaKelvin,
            122 => EngineeringUnits::Kiloohms,
            123 => EngineeringUnits::Megaohms,
            124 => EngineeringUnits::Millivolts,
            125 => EngineeringUnits::KilojoulesPerKilogram,
            126 => EngineeringUnits::Megajoules,
            127 => EngineeringUnits::JoulesPerKelvin,
            128 => EngineeringUnits::JoulesPerKilogramKelvin,
            129 => EngineeringUnits::Kilohertz,
            130 => EngineeringUnits::Megahertz,
            131 => EngineeringUnits::PerHour,
            132 => EngineeringUnits::Milliwatts,
            133 => EngineeringUnits::Hectopascals,
            134 => EngineeringUnits::Millibars,
            135 => EngineeringUnits::CubicMetersPerHour,
            136 => EngineeringUnits::LitersPerHour,
            137 => EngineeringUnits::KilowattHoursPerSquareMeter,
            138 => EngineeringUnits::KilowattHoursPerSquareFoot,
            139 => EngineeringUnits::MegajoulesPerSquareMeter,
            140 => EngineeringUnits::MegajoulesPerSquareFoot,
            141 => EngineeringUnits::WattsPerSquareMeterPerKelvin,
            142 => EngineeringUnits::CubicFeetPerSecond,
            143 => EngineeringUnits::PercentObscurationPerFoot,
            144 => EngineeringUnits::PercentObscurationPerMeter,
            145 => EngineeringUnits::Milliohms,
            146 => EngineeringUnits::MegawattHours,
            147 => EngineeringUnits::KiloBtus,
            148 => EngineeringUnits::MegaBtus,
            149 => EngineeringUnits::KilojoulesPerKilogramDryAir,
            150 => EngineeringUnits::MegajoulesPerKilogramDryAir,
            151 => EngineeringUnits::KilojoulesPerKelvin,
            152 => EngineeringUnits::MegajoulesPerKelvin,
            153 => EngineeringUnits::Newton,
            154 => EngineeringUnits::GramsPerSecond,
            155 => EngineeringUnits::GramsPerMinute,
            156 => EngineeringUnits::TonsPerHour,
            157 => EngineeringUnits::KiloBtusPerHour,
            158 => EngineeringUnits::HundredthsSeconds,
            159 => EngineeringUnits::Milliseconds,
            160 => EngineeringUnits::NewtonMeters,
            161 => EngineeringUnits::MillimetersPerSecond,
            162 => EngineeringUnits::MillimetersPerMinute,
            163 => EngineeringUnits::MetersPerMinute,
            164 => EngineeringUnits::MetersPerHour,
            165 => EngineeringUnits::CubicMetersPerMinute,
            166 => EngineeringUnits::MetersPerSecondPerSecond,
            167 => EngineeringUnits::AmperesPerMeter,
            168 => EngineeringUnits::AmperesPerSquareMeter,
            169 => EngineeringUnits::AmpereSquareMeters,
            170 => EngineeringUnits::Farads,
            171 => EngineeringUnits::Henrys,
            172 => EngineeringUnits::OhmMeters,
            173 => EngineeringUnits::Siemens,
            174 => EngineeringUnits::SiemensPerMeter,
            175 => EngineeringUnits::Teslas,
            176 => EngineeringUnits::VoltsPerKelvin,
            177 => EngineeringUnits::VoltsPerMeter,
            178 => EngineeringUnits::Webers,
            179 => EngineeringUnits::Candelas,
            180 => EngineeringUnits::CandelasPerSquareMeter,
            181 => EngineeringUnits::KelvinPerHour,
            182 => EngineeringUnits::KelvinPerMinute,
            183 => EngineeringUnits::JouleSeconds,
            184 => EngineeringUnits::RadiansPerSecond,
            185 => EngineeringUnits::SquareMetersPerNewton,
            186 => EngineeringUnits::KilogramsPerCubicMeter,
            187 => EngineeringUnits::NewtonSeconds,
            188 => EngineeringUnits::NewtonsPerMeter,
            189 => EngineeringUnits::WattsPerMeterPerKelvin,
            190 => EngineeringUnits::Microsiemens,
            191 => EngineeringUnits::CubicFeetPerHour,
            192 => EngineeringUnits::UsGallonsPerHour,
            193 => EngineeringUnits::Kilometers,
            194 => EngineeringUnits::Micrometers,
            195 => EngineeringUnits::Grams,
            196 => EngineeringUnits::Milligrams,
            197 => EngineeringUnits::Milliliters,
            198 => EngineeringUnits::MillilitersPerSecond,
            199 => EngineeringUnits::Decibels,
            200 => EngineeringUnits::DecibelsMillivolt,
            201 => EngineeringUnits::DecibelsVolt,
            202 => EngineeringUnits::Millisiemens,
            203 => EngineeringUnits::WattHoursReactive,
            204 => EngineeringUnits::KilowattHoursReactive,
            205 => EngineeringUnits::MegawattHoursReactive,
            206 => EngineeringUnits::MillimetersOfWater,
            207 => EngineeringUnits::PerMille,
            208 => EngineeringUnits::GramsPerGram,
            209 => EngineeringUnits::KilogramsPerKilogram,
            210 => EngineeringUnits::GramsPerKilogram,
            211 => EngineeringUnits::MilligramsPerGram,
            212 => EngineeringUnits::MilligramsPerKilogram,
            213 => EngineeringUnits::GramsPerMilliliter,
            214 => EngineeringUnits::GramsPerLiter,
            215 => EngineeringUnits::MilligramsPerLiter,
            216 => EngineeringUnits::MicrogramsPerLiter,
            217 => EngineeringUnits::GramsPerCubicMeter,
            218 => EngineeringUnits::MilligramsPerCubicMeter,
            219 => EngineeringUnits::MicrogramsPerCubicMeter,
            220 => EngineeringUnits::NanogramsPerCubicMeter,
            221 => EngineeringUnits::GramsPerCubicCentimeter,
            222 => EngineeringUnits::Becquerels,
            223 => EngineeringUnits::Kilobecquerels,
            224 => EngineeringUnits::Megabecquerels,
            225 => EngineeringUnits::Gray,
            226 => EngineeringUnits::Milligray,
            227 => EngineeringUnits::Microgray,
            228 => EngineeringUnits::Sieverts,
            229 => EngineeringUnits::Millisieverts,
            230 => EngineeringUnits::Microsieverts,
            231 => EngineeringUnits::MicrosievertsPerHour,
            232 => EngineeringUnits::DecibelsA,
            233 => EngineeringUnits::NephelometricTurbidityUnit,
            234 => EngineeringUnits::Ph,
            235 => EngineeringUnits::GramsPerSquareMeter,
            236 => EngineeringUnits::MinutesPerKelvin,
            237 => EngineeringUnits::OhmMeterSquaredPerMeter,
            238 => EngineeringUnits::AmpereSeconds,
            239 => EngineeringUnits::VoltAmpereHours,
            240 => EngineeringUnits::KilovoltAmpereHours,
            241 => EngineeringUnits::MegavoltAmpereHours,
            242 => EngineeringUnits::VoltAmpereHoursReactive,
            243 => EngineeringUnits::KilovoltAmpereHoursReactive,
            244 => EngineeringUnits::MegavoltAmpereHoursReactive,
            245 => EngineeringUnits::VoltSquareHours,
            246 => EngineeringUnits::AmpereSquareHours,
            247 => EngineeringUnits::JoulesPerHour,
            248 => EngineeringUnits::CubicFeetPerDay,
            249 => EngineeringUnits::CubicMetersPerDay,
            250 => EngineeringUnits::WattHoursPerCubicMeter,
            251 => EngineeringUnits::JoulesPerCubicMeter,
            252 => EngineeringUnits::MolePercent,
            253 => EngineeringUnits::PascalSeconds,
            254 => EngineeringUnits::MillionStandardCubicFeetPerMinute,
            47808 => EngineeringUnits::StandardCubicFeetPerDay,
            47809 => EngineeringUnits::MillionStandardCubicFeetPerDay,
            47810 => EngineeringUnits::ThousandCubicFeetPerDay,
            47811 => EngineeringUnits::ThousandStandardCubicFeetPerDay,
            47812 => EngineeringUnits::PoundsMassPerDay,
            47814 => EngineeringUnits::Millirems,
            47815 => EngineeringUnits::MilliremsPerHour,
            47816 => EngineeringUnits::DegreesLovibond,
            47817 => EngineeringUnits::AlcoholByVolume,
            47818 => EngineeringUnits::InternationalBitteringUnits,
            47819 => EngineeringUnits::EuropeanBitternessUnits,
            47820 => EngineeringUnits::DegreesPlato,
            47821 => EngineeringUnits::SpecificGravity,
            47822 => EngineeringUnits::EuropeanBrewingConvention,
            47823 => EngineeringUnits::PerDay,
            47824 => EngineeringUnits::PerMillisecond,
            47825 => EngineeringUnits::Yards,
            47826 => EngineeringUnits::Miles,
            47827 => EngineeringUnits::NauticalMiles,
            47828 => EngineeringUnits::Nanograms,
            47829 => EngineeringUnits::Micrograms,
            47830 => EngineeringUnits::MetricTonnes,
            47831 => EngineeringUnits::ShortTons,
            47832 => EngineeringUnits::LongTons,
            47833 => EngineeringUnits::GramsPerHour,
            47834 => EngineeringUnits::GramsPerDay,
            47835 => EngineeringUnits::KilogramsPerDay,
            47836 => EngineeringUnits::ShortTonsPerSecond,
            47837 => EngineeringUnits::ShortTonsPerMinute,
            47838 => EngineeringUnits::ShortTonsPerHour,
            47839 => EngineeringUnits::ShortTonsPerDay,
            47840 => EngineeringUnits::MetricTonnesPerSecond,
            47841 => EngineeringUnits::MetricTonnesPerMinute,
            47842 => EngineeringUnits::MetricTonnesPerHour,
            47843 => EngineeringUnits::MetricTonnesPerDay,
            47844 => EngineeringUnits::LongTonsPerSecond,
            47845 => EngineeringUnits::LongTonsPerMinute,
            47846 => EngineeringUnits::LongTonsPerHour,
            47847 => EngineeringUnits::LongTonsPerDay,
            47848 => EngineeringUnits::BtusPerSecond,
            47849 => EngineeringUnits::BtusPerMinute,
            47850 => EngineeringUnits::BtusPerDay,
            47851 => EngineeringUnits::KiloBtusPerSecond,
            47852 => EngineeringUnits::KiloBtusPerMinute,
            47853 => EngineeringUnits::KiloBtusPerDay,
            47854 => EngineeringUnits::MegaBtusPerSecond,
            47855 => EngineeringUnits::MegaBtusPerMinute,
            47856 => EngineeringUnits::MegaBtusPerHour,
            47857 => EngineeringUnits::MegaBtusPerDay,
            47858 => EngineeringUnits::JoulesPerSecond,
            47859 => EngineeringUnits::JoulesPerMinute,
            47860 => EngineeringUnits::JoulesPerDay,
            47861 => EngineeringUnits::KilojoulesPerSecond,
            47862 => EngineeringUnits::KilojoulesPerMinute,
            47863 => EngineeringUnits::KilojoulesPerHour,
            47864 => EngineeringUnits::KilojoulesPerDay,
            47865 => EngineeringUnits::MegajoulesPerSecond,
            47866 => EngineeringUnits::MegajoulesPerMinute,
            47867 => EngineeringUnits::MegajoulesPerHour,
            47868 => EngineeringUnits::MegajoulesPerDay,
            47869 => EngineeringUnits::DegreesCelsiusPerDay,
            47870 => EngineeringUnits::KelvinPerDay,
            47871 => EngineeringUnits::DegreesFahrenheitPerDay,
            47872 => EngineeringUnits::DeltaDegreesCelsius,
            47873 => EngineeringUnits::MillionCubicFeetPerMinute,
            47874 => EngineeringUnits::MillionCubicFeetPerDay,
            47875 => EngineeringUnits::ImperialGallonsPerSecond,
            47876 => EngineeringUnits::ImperialGallonsPerHour,
            47877 => EngineeringUnits::ImperialGallonsPerDay,
            47878 => EngineeringUnits::LitersPerDay,
            47879 => EngineeringUnits::UsGallonsPerSecond,
            47880 => EngineeringUnits::UsGallonsPerDay,
            47881 => EngineeringUnits::PercentPerMinute,
            47882 => EngineeringUnits::PercentPerHour,
            47883 => EngineeringUnits::PercentPerDay,
            47884 => EngineeringUnits::PerMillion,
            47885 => EngineeringUnits::PerBillion,
            47886 => EngineeringUnits::MicrogramsPerGram,
            47887 => EngineeringUnits::NanogramsPerGram,
            47888 => EngineeringUnits::MicrogramsPerKilogram,
            47889 => EngineeringUnits::NanogramsPerKilogram,
            47890 => EngineeringUnits::MilligramsPerMilliliter,
            47891 => EngineeringUnits::MicrogramsPerMilliliter,
            47892 => EngineeringUnits::NanogramsPerMilliliter,
            47893 => EngineeringUnits::KilogramsPerLiter,
            47894 => EngineeringUnits::NanogramsPerLiter,
            47895 => EngineeringUnits::MilligramsPerCubicCentimeter,
            47896 => EngineeringUnits::MicrogramsPerCubicCentimeter,
            47897 => EngineeringUnits::NanogramsPerCubicCentimeter,
            47898 => EngineeringUnits::BtuPerHourPerWatt,
            47899 => EngineeringUnits::BtuPerWattHourSeasonal,
            47900 => EngineeringUnits::CoefficientOfPerformance,
            47901 => EngineeringUnits::CoefficientOfPerformanceSeasonal,
            47902 => EngineeringUnits::KilowattPerTonRefrigeration,
            47903 => EngineeringUnits::LumensPerWatt,
            47904 => EngineeringUnits::PoundForceFeet,
            47905 => EngineeringUnits::PoundForceInches,
            47906 => EngineeringUnits::OunceForceInches,
            47907 => EngineeringUnits::PoundsForcePerSquareInchAbsolute,
            47908 => EngineeringUnits::PoundsForcePerSquareInchGauge,
            47909 => EngineeringUnits::MicrosiemensPerCentimeter,
            47910 => EngineeringUnits::MillisiemensPerCentimeter,
            47911 => EngineeringUnits::MillisiemensPerMeter,
            47912 => EngineeringUnits::MillionsOfUsGallons,
            47913 => EngineeringUnits::MillionsOfImperialGallons,
            47914 => EngineeringUnits::MillilitersPerMinute,
            47915 => EngineeringUnits::MilsPerYear,
            47916 => EngineeringUnits::MillimetersPerYear,
            47917 => EngineeringUnits::PulsesPerMinute,
            47918 => EngineeringUnits::ActiveEnergyPulseValue,
            47919 => EngineeringUnits::ReactiveEnergyPulseValue,
            47920 => EngineeringUnits::ApparentEnergyPulseValue,
            47921 => EngineeringUnits::VoltSquaredHourPulseValue,
            47922 => EngineeringUnits::AmpereSquaredHourPulseValue,
            47923 => EngineeringUnits::CubicMeterPulseValue,
            47924 => EngineeringUnits::Gigawatts,
            47925 => EngineeringUnits::Gigajoules,
            47926 => EngineeringUnits::Terajoules,
            47927 => EngineeringUnits::GigawattHours,
            47928 => EngineeringUnits::GigawattReactiveHours,
            47929 => EngineeringUnits::BitsPerSecond,
            47930 => EngineeringUnits::KilobitsPerSecond,
            47931 => EngineeringUnits::MegabitsPerSecond,
            47932 => EngineeringUnits::GigabitsPerSecond,
            47933 => EngineeringUnits::BytesPerSecond,
            47934 => EngineeringUnits::KilobytesPerSecond,
            47935 => EngineeringUnits::MegabytesPerSecond,
            47936 => EngineeringUnits::GigabytesPerSecond,
            47937 => EngineeringUnits::Volume1,
            47938 => EngineeringUnits::Volume2,
            47939 => EngineeringUnits::Volume3,
            47940 => EngineeringUnits::Volume4,
            47941 => EngineeringUnits::Volume5,
            47942 => EngineeringUnits::Volume6,
            47943 => EngineeringUnits::Volume7,
            47944 => EngineeringUnits::Volume8,
            47945 => EngineeringUnits::Volume9,
            47946 => EngineeringUnits::Volume10,
            47947 => EngineeringUnits::VolumetricFlow1,
            47948 => EngineeringUnits::VolumetricFlow2,
            47949 => EngineeringUnits::VolumetricFlow3,
            47950 => EngineeringUnits::VolumetricFlow4,
            47951 => EngineeringUnits::VolumetricFlow5,
            47952 => EngineeringUnits::VolumetricFlow6,
            47953 => EngineeringUnits::VolumetricFlow7,
            47954 => EngineeringUnits::VolumetricFlow8,
            47955 => EngineeringUnits::VolumetricFlow9,
            47956 => EngineeringUnits::VolumetricFlow10,
            47958 => EngineeringUnits::SiteUnit1,
            47959 => EngineeringUnits::SiteUnit2,
            47960 => EngineeringUnits::SiteUnit3,
            47961 => EngineeringUnits::SiteUnit4,
            47962 => EngineeringUnits::SiteUnit5,
            47963 => EngineeringUnits::SiteUnit6,
            47964 => EngineeringUnits::SiteUnit7,
            47965 => EngineeringUnits::SiteUnit8,
            47966 => EngineeringUnits::SiteUnit9,
            47967 => EngineeringUnits::SiteUnit10,
            47968 => EngineeringUnits::ParticlesPerCubicFoot,
            47969 => EngineeringUnits::ParticlesPerCubicMeter,
            47970 => EngineeringUnits::PicocuriesPerLiter,
            47971 => EngineeringUnits::BecquerelsPerCubicMeter,
            47972 => EngineeringUnits::GrainsOfWaterPerPoundDryAir,
            47973 => EngineeringUnits::DegreeHoursCelsius,
            47974 => EngineeringUnits::DegreeHoursFahrenheit,
            47975 => EngineeringUnits::DegreeMinutesCelsius,
            47976 => EngineeringUnits::DegreeMinutesFahrenheit,
            47977 => EngineeringUnits::DegreeSecondsCelsius,
            47978 => EngineeringUnits::DegreeSecondsFahrenheit,
            47979 => EngineeringUnits::Microseconds,
            47980 => EngineeringUnits::Nanoseconds,
            47981 => EngineeringUnits::Picoseconds,
            _ => if value <= 255 || (47808 <= value && value <= 49999) || value >= 65536 {
                EngineeringUnits::Reserved(EngineeringUnitsValue::new(value))
            } else {
                EngineeringUnits::Custom(EngineeringUnitsValue::new(value))
            },
        }
    }
}

impl vstd::std_specs::convert::FromSpecImpl<u32> for EngineeringUnits {
    open spec fn obeys_from_spec() -> bool {
        true
    }

    open spec fn from_spec(value: u32) -> EngineeringUnits {
        unit_of_number(value)
    }
}

/// The unit of a number carries that number back.
#[verifier::rlimit(100)]
#[verifier::spinoff_prover]
pub proof fn lemma_unit_number_round_trip(v: u32)
    ensures
        unit_number(unit_of_number(v)) == v,
        unit_canonical(unit_of_number(v)),
{
}

/// A unit in its one form is the unit of its number.
pub proof fn lemma_unit_round_trip(u: EngineeringUnits)
    requires
        unit_canonical(u),
    ensures
        unit_of_number(unit_number(u)) == u,
{
}

/// "Reserved(n)" or "Custom(n)".
fn numbered_name(prefix: &str, v: u32) -> (r: String)
    ensures
        r@ == prefix@ + dec_text(v as nat) + ")"@,
{
    let mut digits: Vec<char> = Vec::new();
    push_decimal(&mut digits, v as u64);
    let d = text_of(&digits);
    concat(concat(chars_of(prefix), d.as_str()), ")")
}

impl EngineeringUnits {
    /// The BACnet name of this unit.
    pub fn bacnet_name(&self) -> (r: String)
        ensures
            r@ == unit_name(*self),
    {
        match self {
            EngineeringUnits::SquareMeters => chars_of("square-meters"),
            EngineeringUnits::SquareFeet => chars_of("square-feet"),
            EngineeringUnits::Milliamperes => chars_of("milliamperes"),
            EngineeringUnits::Amperes => chars_of("amperes"),
            EngineeringUnits::Ohms => chars_of("ohms"),
            EngineeringUnits::Volts => chars_of("volts"),
            EngineeringUnits::Kilovolts => chars_of("kilovolts"),
            EngineeringUnits::Megavolts => chars_of("megavolts"),
            EngineeringUnits::VoltAmperes => chars_of("volt-amperes"),
            EngineeringUnits::KilovoltAmperes => chars_of("kilovolt-amperes"),
            EngineeringUnits::MegavoltAmperes => chars_of("megavolt-amperes"),
            EngineeringUnits::VoltAmperesReactive => chars_of("volt-amperes-reactive"),
            EngineeringUnits::KilovoltAmperesReactive => chars_of("kilovolt-amperes-reactive"),
            EngineeringUnits::MegavoltAmperesReactive => chars_of("megavolt-amperes-reactive"),
            EngineeringUnits::DegreesPhase => chars_of("degrees-phase"),
            EngineeringUnits::PowerFactor => chars_of("power-factor"),
            EngineeringUnits::Joules => chars_of("joules"),
            EngineeringUnits::Kilojoules => chars_of("kilojoules"),
            EngineeringUnits::WattHours => chars_of("watt-hours"),
            EngineeringUnits::KilowattHours => chars_of("kilowatt-hours"),
            EngineeringUnits::Btus => chars_of("btus"),
            EngineeringUnits::Therms => chars_of("therms"),
            EngineeringUnits::TonHours => chars_of("ton-hours"),
            EngineeringUnits::JoulesPerKilogramDryAir => chars_of("joules-per-kilogram-dry-air"),
            EngineeringUnits::BtusPerPoundDryAir => chars_of("btus-per-pound-dry-air"),
            EngineeringUnits::CyclesPerHour => chars_of("cycles-per-hour"),
            EngineeringUnits::CyclesPerMinute => chars_of("cycles-per-minute"),
            EngineeringUnits::Hertz => chars_of("hertz"),
            EngineeringUnits::GramsOfWaterPerKilogramDryAir => chars_of("grams-of-water-per-kilogram-dry-air"),
            EngineeringUnits::PercentRelativeHumidity => chars_of("percent-relative-humidity"),
            EngineeringUnits::Millimeters => chars_of("millimeters"),
            EngineeringUnits::Meters => chars_of("meters"),
            EngineeringUnits::Inches => chars_of("inches"),
            EngineeringUnits::Feet => chars_of("feet"),
            EngineeringUnits::WattsPerSquareFoot => chars_of("watts-per-square-foot"),
            EngineeringUnits::WattsPerSquareMeter => chars_of("watts-per-square-meter"),
            EngineeringUnits::Lumens => chars_of("lumens"),
            EngineeringUnits::Luxes => chars_of("luxes"),
            EngineeringUnits::FootCandles => chars_of("foot-candles"),
            EngineeringUnits::Kilograms => chars_of("kilograms"),
            EngineeringUnits::PoundsMass => chars_of("pounds-mass"),
            EngineeringUnits::Tons => chars_of("tons"),
            EngineeringUnits::KilogramsPerSecond => chars_of("kilograms-per-second"),
            EngineeringUnits::KilogramsPerMinute => chars_of("kilograms-per-minute"),
            EngineeringUnits::KilogramsPerHour => chars_of("kilograms-per-hour"),
            EngineeringUnits::PoundsMassPerMinute => chars_of("pounds-mass-per-minute"),
            EngineeringUnits::PoundsMassPerHour => chars_of("pounds-mass-per-hour"),
            EngineeringUnits::Watts => chars_of("watts"),
            EngineeringUnits::Kilowatts => chars_of("kilowatts"),
            EngineeringUnits::Megawatts => chars_of("megawatts"),
            EngineeringUnits::BtusPerHour => chars_of("btus-per-hour"),
            EngineeringUnits::Horsepower => chars_of("horsepower"),
            EngineeringUnits::TonsRefrigeration => chars_of("tons-refrigeration"),
            EngineeringUnits::Pascals => chars_of("pascals"),
            EngineeringUnits::Kilopascals => chars_of("kilopascals"),
            EngineeringUnits::Bars => chars_of("bars"),
            EngineeringUnits::PoundsForcePerSquareInch => chars_of("pounds-force-per-square-inch"),
            EngineeringUnits::CentimetersOfWater => chars_of("centimeters-of-water"),
            EngineeringUnits::InchesOfWater => chars_of("inches-of-water"),
            EngineeringUnits::MillimetersOfMercury => chars_of("millimeters-of-mercury"),
            EngineeringUnits::CentimetersOfMercury => chars_of("centimeters-of-mercury"),
            EngineeringUnits::InchesOfMercury => chars_of("inches-of-mercury"),
            EngineeringUnits::DegreesCelsius => chars_of("degrees-celsius"),
            EngineeringUnits::Kelvin => chars_of("kelvin"),
            EngineeringUnits::DegreesFahrenheit => chars_of("degrees-fahrenheit"),
            EngineeringUnits::DegreeDaysCelsius => chars_of("degree-days-celsius"),
            EngineeringUnits::DegreeDaysFahrenheit => chars_of("degree-days-fahrenheit"),
            EngineeringUnits::Years => chars_of("years"),
            EngineeringUnits::Months => chars_of("months"),
            EngineeringUnits::Weeks => chars_of("weeks"),
            EngineeringUnits::Days => chars_of("days"),
            EngineeringUnits::Hours => chars_of("hours"),
            EngineeringUnits::Minutes => chars_of("minutes"),
            EngineeringUnits::Seconds => chars_of("seconds"),
            EngineeringUnits::MetersPerSecond => chars_of("meters-per-second"),
            EngineeringUnits::KilometersPerHour => chars_of("kilometers-per-hour"),
            EngineeringUnits::FeetPerSecond => chars_of("feet-per-second"),
            EngineeringUnits::FeetPerMinute => chars_of("feet-per-minute"),
            EngineeringUnits::MilesPerHour => chars_of("miles-per-hour"),
            EngineeringUnits::CubicFeet => chars_of("cubic-feet"),
            EngineeringUnits::CubicMeters => chars_of("cubic-meters"),
            EngineeringUnits::ImperialGallons => chars_of("imperial-gallons"),
            EngineeringUnits::Liters => chars_of("liters"),
            EngineeringUnits::UsGallons => chars_of("us-gallons"),
            EngineeringUnits::CubicFeetPerMinute => chars_of("cubic-feet-per-minute"),
            EngineeringUnits::CubicMetersPerSecond => chars_of("cubic-meters-per-second"),
            EngineeringUnits::ImperialGallonsPerMinute => chars_of("imperial-gallons-per-minute"),
            EngineeringUnits::LitersPerSecond => chars_of("liters-per-second"),
            EngineeringUnits::LitersPerMinute => chars_of("liters-per-minute"),
            EngineeringUnits::UsGallonsPerMinute => chars_of("us-gallons-per-minute"),
            EngineeringUnits::DegreesAngular => chars_of("degrees-angular"),
            EngineeringUnits::DegreesCelsiusPerHour => chars_of("degrees-celsius-per-hour"),
            EngineeringUnits::DegreesCelsiusPerMinute => chars_of("degrees-celsius-per-minute"),
            EngineeringUnits::DegreesFahrenheitPerHour => chars_of("degrees-fahrenheit-per-hour"),
            EngineeringUnits::DegreesFahrenheitPerMinute => chars_of("degrees-fahrenheit-per-minute"),
            EngineeringUnits::NoUnits => chars_of("no-units"),
            EngineeringUnits::PartsPerMillion => chars_of("parts-per-million"),
            EngineeringUnits::PartsPerBillion => chars_of("parts-per-billion"),
            EngineeringUnits::Percent => chars_of("percent"),
            EngineeringUnits::PercentPerSecond => chars_of("percent-per-second"),
            EngineeringUnits::PerMinute => chars_of("per-minute"),
            EngineeringUnits::PerSecond => chars_of("per-second"),
            EngineeringUnits::PsiPerDegreeFahrenheit => chars_of("psi-per-degree-fahrenheit"),
            EngineeringUnits::Radians => chars_of("radians"),
            EngineeringUnits::RevolutionsPerMinute => chars_of("revolutions-per-minute"),
            EngineeringUnits::Currency1 => chars_of("currency1"),
            EngineeringUnits::Currency2 => chars_of("currency2"),
            EngineeringUnits::Currency3 => chars_of("currency3"),
            EngineeringUnits::Currency4 => chars_of("currency4"),
            EngineeringUnits::Currency5 => chars_of("currency5"),
            EngineeringUnits::Currency6 => chars_of("currency6"),
            EngineeringUnits::Currency7 => chars_of("currency7"),
            EngineeringUnits::Currency8 => chars_of("currency8"),
            EngineeringUnits::Currency9 => chars_of("currency9"),
            EngineeringUnits::Currency10 => chars_of("currency10"),
            EngineeringUnits::SquareInches => chars_of("square-inches"),
            EngineeringUnits::SquareCentimeters => chars_of("square-centimeters"),
            EngineeringUnits::BtusPerPound => chars_of("btus-per-pound"),
            EngineeringUnits::Centimeters => chars_of("centimeters"),
            EngineeringUnits::PoundsMassPerSecond => chars_of("pounds-mass-per-second"),
            EngineeringUnits::DeltaDegreesFahrenheit => chars_of("delta-degrees-fahrenheit"),
            EngineeringUnits::DeltaKelvin => chars_of("delta-kelvin"),
            EngineeringUnits::Kiloohms => chars_of("kilohms"),
            EngineeringUnits::Megaohms => chars_of("megohms"),
            EngineeringUnits::Millivolts => chars_of("millivolts"),
            EngineeringUnits::KilojoulesPerKilogram => chars_of("kilojoules-per-kilogram"),
            EngineeringUnits::Megajoules => chars_of("megajoules"),
            EngineeringUnits::JoulesPerKelvin => chars_of("joules-per-kelvin"),
            EngineeringUnits::JoulesPerKilogramKelvin => chars_of("joules-per-kilogram-per-kelvin"),
            EngineeringUnits::Kilohertz => chars_of("kilohertz"),
            EngineeringUnits::Megahertz => chars_of("megahertz"),
            EngineeringUnits::PerHour => chars_of("per-hour"),
            EngineeringUnits::Milliwatts => chars_of("milliwatts"),
            EngineeringUnits::Hectopascals => chars_of("hectopascals"),
            EngineeringUnits::Millibars => chars_of("millibars"),
            EngineeringUnits::CubicMetersPerHour => chars_of("cubic-meters-per-hour"),
            EngineeringUnits::LitersPerHour => chars_of("liters-per-hour"),
            EngineeringUnits::KilowattHoursPerSquareMeter => chars_of("kilowatt-hours-per-square-meter"),
            EngineeringUnits::KilowattHoursPerSquareFoot => chars_of("kilowatt-hours-per-square-foot"),
            EngineeringUnits::MegajoulesPerSquareMeter => chars_of("megajoules-per-square-meter"),
            EngineeringUnits::MegajoulesPerSquareFoot => chars_of("megajoules-per-square-foot"),
            EngineeringUnits::WattsPerSquareMeterPerKelvin => chars_of("watts-per-square-meter-per-kelvin"),
            EngineeringUnits::CubicFeetPerSecond => chars_of("cubic-feet-per-second"),
            EngineeringUnits::PercentObscurationPerFoot => chars_of("percent-obscuration-per-foot"),
            EngineeringUnits::PercentObscurationPerMeter => chars_of("percent-obscuration-per-meter"),
            EngineeringUnits::Milliohms => chars_of("milliohms"),
            EngineeringUnits::MegawattHours => chars_of("megawatt-hours"),
            EngineeringUnits::KiloBtus => chars_of("kilo-btus"),
            EngineeringUnits::MegaBtus => chars_of("mega-btus"),
            EngineeringUnits::KilojoulesPerKilogramDryAir => chars_of("kilojoules-per-kilogram-dry-air"),
            EngineeringUnits::MegajoulesPerKilogramDryAir => chars_of("megajoules-per-kilogram-dry-air"),
            EngineeringUnits::KilojoulesPerKelvin => chars_of("kilojoules-per-kelvin"),
            EngineeringUnits::MegajoulesPerKelvin => chars_of("megajoules-per-kelvin"),
            EngineeringUnits::Newton => chars_of("newton"),
            EngineeringUnits::GramsPerSecond => chars_of("grams-per-second"),
            EngineeringUnits::GramsPerMinute => chars_of("grams-per-minute"),
            EngineeringUnits::TonsPerHour => chars_of("tons-per-hour"),
            EngineeringUnits::KiloBtusPerHour => chars_of("kilo-btus-per-hour"),
            EngineeringUnits::HundredthsSeconds => chars_of("hundredths-seconds"),
            EngineeringUnits::Milliseconds => chars_of("milliseconds"),
            EngineeringUnits::NewtonMeters => chars_of("newton-meters"),
            EngineeringUnits::MillimetersPerSecond => chars_of("millimeters-per-second"),
            EngineeringUnits::MillimetersPerMinute => chars_of("millimeters-per-minute"),
            EngineeringUnits::MetersPerMinute => chars_of("meters-per-minute"),
            EngineeringUnits::MetersPerHour => chars_of("meters-per-hour"),
            EngineeringUnits::CubicMetersPerMinute => chars_of("cubic-meters-per-minute"),
            EngineeringUnits::MetersPerSecondPerSecond => chars_of("meters-per-second-per-second"),
            EngineeringUnits::AmperesPerMeter => chars_of("amperes-per-meter"),
            EngineeringUnits::AmperesPerSquareMeter => chars_of("amperes-per-square-meter"),
            EngineeringUnits::AmpereSquareMeters => chars_of("ampere-square-meters"),
            EngineeringUnits::Farads => chars_of("farads"),
            EngineeringUnits::Henrys => chars_of("henrys"),
            EngineeringUnits::OhmMeters => chars_of("ohm-meters"),
            EngineeringUnits::Siemens => chars_of("siemens"),
            EngineeringUnits::SiemensPerMeter => chars_of("siemens-per-meter"),
            EngineeringUnits::Teslas => chars_of("teslas"),
            EngineeringUnits::VoltsPerKelvin => chars_of("volts-per-kelvin"),
            EngineeringUnits::VoltsPerMeter => chars_of("volts-per-meter"),
            EngineeringUnits::Webers => chars_of("webers"),
            EngineeringUnits::Candelas => chars_of("candelas"),
            EngineeringUnits::CandelasPerSquareMeter => chars_of("candelas-per-square-meter"),
            EngineeringUnits::KelvinPerHour => chars_of("kelvin-per-hour"),
            EngineeringUnits::KelvinPerMinute => chars_of("kelvin-per-minute"),
            EngineeringUnits::JouleSeconds => chars_of("joule-seconds"),
            EngineeringUnits::RadiansPerSecond => chars_of("radians-per-second"),
            EngineeringUnits::SquareMetersPerNewton => chars_of("square-meters-per-newton"),
            EngineeringUnits::KilogramsPerCubicMeter => chars_of("kilograms-per-cubic-meter"),
            EngineeringUnits::NewtonSeconds => chars_of("newton-seconds"),
            EngineeringUnits::NewtonsPerMeter => chars_of("newtons-per-meter"),
            EngineeringUnits::WattsPerMeterPerKelvin => chars_of("watts-per-meter-per-kelvin"),
            EngineeringUnits::Microsiemens => chars_of("micro-siemens"),
            EngineeringUnits::CubicFeetPerHour => chars_of("cubic-feet-per-hour"),
            EngineeringUnits::UsGallonsPerHour => chars_of("us-gallons-per-hour"),
            EngineeringUnits::Kilometers => chars_of("kilometers"),
            EngineeringUnits::Micrometers => chars_of("micrometers"),
            EngineeringUnits::Grams => chars_of("grams"),
            EngineeringUnits::Milligrams => chars_of("milligrams"),
            EngineeringUnits::Milliliters => chars_of("milliliters"),
            EngineeringUnits::MillilitersPerSecond => chars_of("milliliters-per-second"),
            EngineeringUnits::Decibels => chars_of("decibels"),
            EngineeringUnits::DecibelsMillivolt => chars_of("decibels-millivolt"),
            EngineeringUnits::DecibelsVolt => chars_of("decibels-volt"),
            EngineeringUnits::Millisiemens => chars_of("millisiemens"),
            EngineeringUnits::WattHoursReactive => chars_of("watt-reactive-hours"),
            EngineeringUnits::KilowattHoursReactive => chars_of("kilowatt-reactive-hours"),
            EngineeringUnits::MegawattHoursReactive => chars_of("megawatt-reactive-hours"),
            EngineeringUnits::MillimetersOfWater => chars_of("millimeters-of-water"),
            EngineeringUnits::PerMille => chars_of("per-mille"),
            EngineeringUnits::GramsPerGram => chars_of("grams-per-gram"),
            EngineeringUnits::KilogramsPerKilogram => chars_of("kilograms-per-kilogram"),
            EngineeringUnits::GramsPerKilogram => chars_of("grams-per-kilogram"),
            EngineeringUnits::MilligramsPerGram => chars_of("milligrams-per-gram"),
            EngineeringUnits::MilligramsPerKilogram => chars_of("milligrams-per-kilogram"),
            EngineeringUnits::GramsPerMilliliter => chars_of("grams-per-milliliter"),
            EngineeringUnits::GramsPerLiter => chars_of("grams-per-liter"),
            EngineeringUnits::MilligramsPerLiter => chars_of("milligrams-per-liter"),
            EngineeringUnits::MicrogramsPerLiter => chars_of("micrograms-per-liter"),
            EngineeringUnits::GramsPerCubicMeter => chars_of("grams-per-cubic-meter"),
            EngineeringUnits::MilligramsPerCubicMeter => chars_of("milligrams-per-cubic-meter"),
            EngineeringUnits::MicrogramsPerCubicMeter => chars_of("micrograms-per-cubic-meter"),
            EngineeringUnits::NanogramsPerCubicMeter => chars_of("nanograms-per-cubic-meter"),
            EngineeringUnits::GramsPerCubicCentimeter => chars_of("grams-per-cubic-centimeter"),
            EngineeringUnits::Becquerels => chars_of("becquerels"),
            EngineeringUnits::Kilobecquerels => chars_of("kilobecquerels"),
            EngineeringUnits::Megabecquerels => chars_of("megabecquerels"),
            EngineeringUnits::Gray => chars_of("gray"),
            EngineeringUnits::Milligray => chars_of("milligray"),
            EngineeringUnits::Microgray => chars_of("microgray"),
            EngineeringUnits::Sieverts => chars_of("sieverts"),
            EngineeringUnits::Millisieverts => chars_of("millisieverts"),
            EngineeringUnits::Microsieverts => chars_of("microsieverts"),
            EngineeringUnits::MicrosievertsPerHour => chars_of("microsieverts-per-hour"),
            EngineeringUnits::DecibelsA => chars_of("decibels-a"),
            EngineeringUnits::NephelometricTurbidityUnit => chars_of("nephelometric-turbidity-unit"),
            EngineeringUnits::Ph => chars_of("pH"),
            EngineeringUnits::GramsPerSquareMeter => chars_of("grams-per-square-meter"),
            EngineeringUnits::MinutesPerKelvin => chars_of("minutes-per-kelvin"),
            EngineeringUnits::OhmMeterSquaredPerMeter => chars_of("ohm-meter-squared-per-meter"),
            EngineeringUnits::AmpereSeconds => chars_of("ampere-seconds"),
            EngineeringUnits::VoltAmpereHours => chars_of("volt-ampere-hours"),
            EngineeringUnits::KilovoltAmpereHours => chars_of("kilovolt-ampere-hours"),
            EngineeringUnits::MegavoltAmpereHours => chars_of("megavolt-ampere-hours"),
            EngineeringUnits::VoltAmpereHoursReactive => chars_of("volt-ampere-hours-reactive"),
            EngineeringUnits::KilovoltAmpereHoursReactive => chars_of("kilovolt-ampere-hours-reactive"),
            EngineeringUnits::MegavoltAmpereHoursReactive => chars_of("megavolt-ampere-hours-reactive"),
            EngineeringUnits::VoltSquareHours => chars_of("volt-square-hours"),
            EngineeringUnits::AmpereSquareHours => chars_of("ampere-square-hours"),
            EngineeringUnits::JoulesPerHour => chars_of("joules-per-hour"),
            EngineeringUnits::CubicFeetPerDay => chars_of("cubic-feet-per-day"),
            EngineeringUnits::CubicMetersPerDay => chars_of("cubic-meters-per-day"),
            EngineeringUnits::WattHoursPerCubicMeter => chars_of("watt-hours-per-cubic-meter"),
            EngineeringUnits::JoulesPerCubicMeter => chars_of("joules-per-cubic-meter"),
            EngineeringUnits::MolePercent => chars_of("mole-percent"),
            EngineeringUnits::PascalSeconds => chars_of("pascal-seconds"),
            EngineeringUnits::MillionStandardCubicFeetPerMinute => chars_of("million-standard-cubic-feet-per-minute"),
            EngineeringUnits::StandardCubicFeetPerDay => chars_of("standard-cubic-feet-per-day"),
            EngineeringUnits::MillionStandardCubicFeetPerDay => chars_of("million-standard-cubic-feet-per-day"),
            EngineeringUnits::ThousandCubicFeetPerDay => chars_of("thousand-cubic-feet-per-day"),
            EngineeringUnits::ThousandStandardCubicFeetPerDay => chars_of("thousand-standard-cubic-feet-per-day"),
            EngineeringUnits::PoundsMassPerDay => chars_of("pounds-mass-per-day"),
            EngineeringUnits::Millirems => chars_of("millirems"),
            EngineeringUnits::MilliremsPerHour => chars_of("millirems-per-hour"),
            EngineeringUnits::DegreesLovibond => chars_of("degrees-lovibond"),
            EngineeringUnits::AlcoholByVolume => chars_of("alcohol-by-volume"),
            EngineeringUnits::InternationalBitteringUnits => chars_of("international-bittering-units"),
            EngineeringUnits::EuropeanBitternessUnits => chars_of("european-bitterness-units"),
            EngineeringUnits::DegreesPlato => chars_of("degrees-plato"),
            EngineeringUnits::SpecificGravity => chars_of("specific-gravity"),
            EngineeringUnits::EuropeanBrewingConvention => chars_of("european-brewing-convention"),
            EngineeringUnits::PerDay => chars_of("per-day"),
            EngineeringUnits::PerMillisecond => chars_of("per-millisecond"),
            EngineeringUnits::Yards => chars_of("yards"),
            EngineeringUnits::Miles => chars_of("miles"),
            EngineeringUnits::NauticalMiles => chars_of("nautical-miles"),
            EngineeringUnits::Nanograms => chars_of("nanograms"),
            EngineeringUnits::Micrograms => chars_of("micrograms"),
            EngineeringUnits::MetricTonnes => chars_of("metric-tonnes"),
            EngineeringUnits::ShortTons => chars_of("short-tons"),
            EngineeringUnits::LongTons => chars_of("long-tons"),
            EngineeringUnits::GramsPerHour => chars_of("grams-per-hour"),
            EngineeringUnits::GramsPerDay => chars_of("grams-per-day"),
            EngineeringUnits::KilogramsPerDay => chars_of("kilograms-per-day"),
            EngineeringUnits::ShortTonsPerSecond => chars_of("short-tons-per-second"),
            EngineeringUnits::ShortTonsPerMinute => chars_of("short-tons-per-minute"),
            EngineeringUnits::ShortTonsPerHour => chars_of("short-tons-per-hour"),
            EngineeringUnits::ShortTonsPerDay => chars_of("short-tons-per-day"),
            EngineeringUnits::MetricTonnesPerSecond => chars_of("metric-tonnes-per-second"),
            EngineeringUnits::MetricTonnesPerMinute => chars_of("metric-tonnes-per-minute"),
            EngineeringUnits::MetricTonnesPerHour => chars_of("metric-tonnes-per-hour"),
            EngineeringUnits::MetricTonnesPerDay => chars_of("metric-tonnes-per-day"),
            EngineeringUnits::LongTonsPerSecond => chars_of("long-tons-per-second"),
            EngineeringUnits::LongTonsPerMinute => chars_of("long-tons-per-minute"),
            EngineeringUnits::LongTonsPerHour => chars_of("long-tons-per-hour"),
            EngineeringUnits::LongTonsPerDay => chars_of("long-tons-per-day"),
            EngineeringUnits::BtusPerSecond => chars_of("btus-per-second"),
            EngineeringUnits::BtusPerMinute => chars_of("btus-per-minute"),
            EngineeringUnits::BtusPerDay => chars_of("btus-per-day"),
            EngineeringUnits::KiloBtusPerSecond => chars_of("kilo-btus-per-second"),
            EngineeringUnits::KiloBtusPerMinute => chars_of("kilo-btus-per-minute"),
            EngineeringUnits::KiloBtusPerDay => chars_of("kilo-btus-per-day"),
            EngineeringUnits::MegaBtusPerSecond => chars_of("mega-btus-per-second"),
            EngineeringUnits::MegaBtusPerMinute => chars_of("mega-btus-per-minute"),
            EngineeringUnits::MegaBtusPerHour => chars_of("mega-btus-per-hour"),
            EngineeringUnits::MegaBtusPerDay => chars_of("mega-btus-per-day"),
            EngineeringUnits::JoulesPerSecond => chars_of("joules-per-second"),
            EngineeringUnits::JoulesPerMinute => chars_of("joules-per-minute"),
            EngineeringUnits::JoulesPerDay => chars_of("joules-per-day"),
            EngineeringUnits::KilojoulesPerSecond => chars_of("kilojoules-per-second"),
            EngineeringUnits::KilojoulesPerMinute => chars_of("kilojoules-per-minute"),
            EngineeringUnits::KilojoulesPerHour => chars_of("kilojoules-per-hour"),
            EngineeringUnits::KilojoulesPerDay => chars_of("kilojoules-per-day"),
            EngineeringUnits::MegajoulesPerSecond => chars_of("megajoules-per-second"),
            EngineeringUnits::MegajoulesPerMinute => chars_of("megajoules-per-minute"),
            EngineeringUnits::MegajoulesPerHour => chars_of("megajoules-per-hour"),
            EngineeringUnits::MegajoulesPerDay => chars_of("megajoules-per-day"),
            EngineeringUnits::DegreesCelsiusPerDay => chars_of("degrees-celsius-per-day"),
            EngineeringUnits::KelvinPerDay => chars_of("kelvin-per-day"),
            EngineeringUnits::DegreesFahrenheitPerDay => chars_of("degrees-fahrenheit-per-day"),
            EngineeringUnits::DeltaDegreesCelsius => chars_of("delta-degrees-celsius"),
            EngineeringUnits::MillionCubicFeetPerMinute => chars_of("million-cubic-feet-per-minute"),
            EngineeringUnits::MillionCubicFeetPerDay => chars_of("million-cubic-feet-per-day"),
            EngineeringUnits::ImperialGallonsPerSecond => chars_of("imperial-gallons-per-second"),
            EngineeringUnits::ImperialGallonsPerHour => chars_of("imperial-gallons-per-hour"),
            EngineeringUnits::ImperialGallonsPerDay => chars_of("imperial-gallons-per-day"),
            EngineeringUnits::LitersPerDay => chars_of("liters-per-day"),
            EngineeringUnits::UsGallonsPerSecond => chars_of("us-gallons-per-second"),
            EngineeringUnits::UsGallonsPerDay => chars_of("us-gallons-per-day"),
            EngineeringUnits::PercentPerMinute => chars_of("percent-per-minute"),
            EngineeringUnits::PercentPerHour => chars_of("percent-per-hour"),
            EngineeringUnits::PercentPerDay => chars_of("percent-per-day"),
            EngineeringUnits::PerMillion => chars_of("per-million"),
            EngineeringUnits::PerBillion => chars_of("per-billion"),
            EngineeringUnits::MicrogramsPerGram => chars_of("micrograms-per-gram"),
            EngineeringUnits::NanogramsPerGram => chars_of("nanograms-per-gram"),
            EngineeringUnits::MicrogramsPerKilogram => chars_of("micrograms-per-kilogram"),
            EngineeringUnits::NanogramsPerKilogram => chars_of("nanograms-per-kilogram"),
            EngineeringUnits::MilligramsPerMilliliter => chars_of("milligrams-per-milliliter"),
            EngineeringUnits::MicrogramsPerMilliliter => chars_of("micrograms-per-milliliter"),
            EngineeringUnits::NanogramsPerMilliliter => chars_of("nanograms-per-milliliter"),
            EngineeringUnits::KilogramsPerLiter => chars_of("kilograms-per-liter"),
            EngineeringUnits::NanogramsPerLiter => chars_of("nanograms-per-liter"),
            EngineeringUnits::MilligramsPerCubicCentimeter => chars_of("milligrams-per-cubic-centimeter"),
            EngineeringUnits::MicrogramsPerCubicCentimeter => chars_of("micrograms-per-cubic-centimeter"),
            EngineeringUnits::NanogramsPerCubicCentimeter => chars_of("nanograms-per-cubic-centimeter"),
            EngineeringUnits::BtuPerHourPerWatt => chars_of("btu-per-hour-per-watt"),
            EngineeringUnits::BtuPerWattHourSeasonal => chars_of("btu-per-watt-hour-seasonal"),
            EngineeringUnits::CoefficientOfPerformance => chars_of("coefficient-of-performance"),
            EngineeringUnits::CoefficientOfPerformanceSeasonal => chars_of("coefficient-of-performance-seasonal"),
            EngineeringUnits::KilowattPerTonRefrigeration => chars_of("kilowatt-per-ton-refrigeration"),
            EngineeringUnits::LumensPerWatt => chars_of("lumens-per-watt"),
            EngineeringUnits::PoundForceFeet => chars_of("pound-force-feet"),
            EngineeringUnits::PoundForceInches => chars_of("pound-force-inches"),
            EngineeringUnits::OunceForceInches => chars_of("ounce-force-inches"),
            EngineeringUnits::PoundsForcePerSquareInchAbsolute => chars_of("pounds-force-per-square-inch-absolute"),
            EngineeringUnits::PoundsForcePerSquareInchGauge => chars_of("pounds-force-per-square-inch-gauge"),
            EngineeringUnits::MicrosiemensPerCentimeter => chars_of("microsiemens-per-centimeter"),
            EngineeringUnits::MillisiemensPerCentimeter => chars_of("millisiemens-per-centimeter"),
            EngineeringUnits::MillisiemensPerMeter => chars_of("millisiemens-per-meter"),
            EngineeringUnits::MillionsOfUsGallons => chars_of("millions-of-us-gallons"),
            EngineeringUnits::MillionsOfImperialGallons => chars_of("millions-of-imperial-gallons"),
            EngineeringUnits::MillilitersPerMinute => chars_of("milliliters-per-minute"),
            EngineeringUnits::MilsPerYear => chars_of("mils-per-year"),
            EngineeringUnits::MillimetersPerYear => chars_of("millimeters-per-year"),
            EngineeringUnits::PulsesPerMinute => chars_of("pulses-per-minute"),
            EngineeringUnits::ActiveEnergyPulseValue => chars_of("active-energy-pulse-value"),
            EngineeringUnits::ReactiveEnergyPulseValue => chars_of("reactive-energy-pulse-value"),
            EngineeringUnits::ApparentEnergyPulseValue => chars_of("apparent-energy-pulse-value"),
            EngineeringUnits::VoltSquaredHourPulseValue => chars_of("volt-squared-hour-pulse-value"),
            EngineeringUnits::AmpereSquaredHourPulseValue => chars_of("ampere-squared-hour-pulse-value"),
            EngineeringUnits::CubicMeterPulseValue => chars_of("cubic-meter-pulse-value"),
            EngineeringUnits::Gigawatts => chars_of("gigawatts"),
            EngineeringUnits::Gigajoules => chars_of("gigajoules"),
            EngineeringUnits::Terajoules => chars_of("terajoules"),
            EngineeringUnits::GigawattHours => chars_of("gigawatt-hours"),
            EngineeringUnits::GigawattReactiveHours => chars_of("gigawatt-reactive-hours"),
            EngineeringUnits::BitsPerSecond => chars_of("bits-per-second"),
            EngineeringUnits::KilobitsPerSecond => chars_of("kilobits-per-second"),
            EngineeringUnits::MegabitsPerSecond => chars_of("megabits-per-second"),
            EngineeringUnits::GigabitsPerSecond => chars_of("gigabits-per-second"),
            EngineeringUnits::BytesPerSecond => chars_of("bytes-per-second"),
            EngineeringUnits::KilobytesPerSecond => chars_of("kilobytes-per-second"),
            EngineeringUnits::MegabytesPerSecond => chars_of("megabytes-per-second"),
            EngineeringUnits::GigabytesPerSecond => chars_of("gigabytes-per-second"),
            EngineeringUnits::Volume1 => chars_of("volume1"),
            EngineeringUnits::Volume2 => chars_of("volume2"),
            EngineeringUnits::Volume3 => chars_of("volume3"),
            EngineeringUnits::Volume4 => chars_of("volume4"),
            EngineeringUnits::Volume5 => chars_of("volume5"),
            EngineeringUnits::Volume6 => chars_of("volume6"),
            EngineeringUnits::Volume7 => chars_of("volume7"),
            EngineeringUnits::Volume8 => chars_of("volume8"),
            EngineeringUnits::Volume9 => chars_of("volume9"),
            EngineeringUnits::Volume10 => chars_of("volume10"),
            EngineeringUnits::VolumetricFlow1 => chars_of("volumetric-flow1"),
            EngineeringUnits::VolumetricFlow2 => chars_of("volumetric-flow2"),
            EngineeringUnits::VolumetricFlow3 => chars_of("volumetric-flow3"),
            EngineeringUnits::VolumetricFlow4 => chars_of("volumetric-flow4"),
            EngineeringUnits::VolumetricFlow5 => chars_of("volumetric-flow5"),
            EngineeringUnits::VolumetricFlow6 => chars_of("volumetric-flow6"),
            EngineeringUnits::VolumetricFlow7 => chars_of("volumetric-flow7"),
            EngineeringUnits::VolumetricFlow8 => chars_of("volumetric-flow8"),
            EngineeringUnits::VolumetricFlow9 => chars_of("volumetric-flow9"),
            EngineeringUnits::VolumetricFlow10 => chars_of("volumetric-flow10"),
            EngineeringUnits::SiteUnit1 => chars_of("site-unit1"),
            EngineeringUnits::SiteUnit2 => chars_of("site-unit2"),
            EngineeringUnits::SiteUnit3 => chars_of("site-unit3"),
            EngineeringUnits::SiteUnit4 => chars_of("site-unit4"),
            EngineeringUnits::SiteUnit5 => chars_of("site-unit5"),
            EngineeringUnits::SiteUnit6 => chars_of("site-unit6"),
            EngineeringUnits::SiteUnit7 => chars_of("site-unit7"),
            EngineeringUnits::SiteUnit8 => chars_of("site-unit8"),
            EngineeringUnits::SiteUnit9 => chars_of("site-unit9"),
            EngineeringUnits::SiteUnit10 => chars_of("site-unit10"),
            EngineeringUnits::ParticlesPerCubicFoot => chars_of("particles-per-cubic-foot"),
            EngineeringUnits::ParticlesPerCubicMeter => chars_of("particles-per-cubic-meter"),
            EngineeringUnits::PicocuriesPerLiter => chars_of("picocuries-per-liter"),
            EngineeringUnits::BecquerelsPerCubicMeter => chars_of("becquerels-per-cubic-meter"),
            EngineeringUnits::GrainsOfWaterPerPoundDryAir => chars_of("grains-of-water-per-pound-dry-air"),
            EngineeringUnits::DegreeHoursCelsius => chars_of("degree-hours-celsius"),
            EngineeringUnits::DegreeHoursFahrenheit => chars_of("degree-hours-fahrenheit"),
            EngineeringUnits::DegreeMinutesCelsius => chars_of("degree-minutes-celsius"),
            EngineeringUnits::DegreeMinutesFahrenheit => chars_of("degree-minutes-fahrenheit"),
            EngineeringUnits::DegreeSecondsCelsius => chars_of("degree-seconds-celsius"),
            EngineeringUnits::DegreeSecondsFahrenheit => chars_of("degree-seconds-fahrenheit"),
            EngineeringUnits::Microseconds => chars_of("microseconds"),
            EngineeringUnits::Nanoseconds => chars_of("nanoseconds"),
            EngineeringUnits::Picoseconds => chars_of("picoseconds"),
            EngineeringUnits::Reserved(v) => numbered_name("Reserved(", v.value()),
            EngineeringUnits::Custom(v) => numbered_name("Custom(", v.value()),
        }
    }

    /// The symbol of this unit ("" where it has none).
    pub fn unit_symbol(&self) -> (r: &str)
        ensures
            r@ == unit_symbol_text(*self),
    {
        match self {
            EngineeringUnits::SquareMeters => "m²",
            EngineeringUnits::SquareFeet => "ft²",
            EngineeringUnits::Milliamperes => "mA",
            EngineeringUnits::Amperes => "A",
            EngineeringUnits::Ohms => "Ω",
            EngineeringUnits::Volts => "V",
            EngineeringUnits::Kilovolts => "kV",
            EngineeringUnits::Megavolts => "MV",
            EngineeringUnits::VoltAmperes => "VA",
            EngineeringUnits::KilovoltAmperes => "kVA",
            EngineeringUnits::MegavoltAmperes => "MVA",
            EngineeringUnits::VoltAmperesReactive => "var",
            EngineeringUnits::KilovoltAmperesReactive => "kvar",
            EngineeringUnits::MegavoltAmperesReactive => "Mvar",
            EngineeringUnits::DegreesPhase => "°",
            EngineeringUnits::PowerFactor => "cos φ",
            EngineeringUnits::Joules => "J",
            EngineeringUnits::Kilojoules => "kJ",
            EngineeringUnits::WattHours => "W·h",
            EngineeringUnits::KilowattHours => "kW·h",
            EngineeringUnits::Btus => "Btu",
            EngineeringUnits::Therms => "thm",
            EngineeringUnits::TonHours => "ton·h",
            EngineeringUnits::JoulesPerKilogramDryAir => "J/kg dry air",
            EngineeringUnits::BtusPerPoundDryAir => "Btu/lb dry air",
            EngineeringUnits::CyclesPerHour => "cph",
            EngineeringUnits::CyclesPerMinute => "cpm",
            EngineeringUnits::Hertz => "Hz",
            EngineeringUnits::GramsOfWaterPerKilogramDryAir => "g/kg dry air",
            EngineeringUnits::PercentRelativeHumidity => "% RH",
            EngineeringUnits::Millimeters => "mm",
            EngineeringUnits::Meters => "m",
            EngineeringUnits::Inches => "in",
            EngineeringUnits::Feet => "ft",
            EngineeringUnits::WattsPerSquareFoot => "W/ft²",
            EngineeringUnits::WattsPerSquareMeter => "W/m²",
            EngineeringUnits::Lumens => "lm",
            EngineeringUnits::Luxes => "lx",
            EngineeringUnits::FootCandles => "fc",
            EngineeringUnits::Kilograms => "kg",
            EngineeringUnits::PoundsMass => "lbm",
            EngineeringUnits::Tons => "ton",
            EngineeringUnits::KilogramsPerSecond => "kg/s",
            EngineeringUnits::KilogramsPerMinute => "kg/min",
            EngineeringUnits::KilogramsPerHour => "kg/h",
            EngineeringUnits::PoundsMassPerMinute => "lbm/min",
            EngineeringUnits::PoundsMassPerHour => "lbm/h",
            EngineeringUnits::Watts => "W",
            EngineeringUnits::Kilowatts => "kW",
            EngineeringUnits::Megawatts => "MW",
            EngineeringUnits::BtusPerHour => "Btu/h",
            EngineeringUnits::Horsepower => "hp",
            EngineeringUnits::TonsRefrigeration => "ton ref",
            EngineeringUnits::Pascals => "Pa",
            EngineeringUnits::Kilopascals => "kPa",
            EngineeringUnits::Bars => "bar",
            EngineeringUnits::PoundsForcePerSquareInch => "psi",
            EngineeringUnits::CentimetersOfWater => "cmH₂O",
            EngineeringUnits::InchesOfWater => "inH₂O",
            EngineeringUnits::MillimetersOfMercury => "mmHg",
            EngineeringUnits::CentimetersOfMercury => "cmHg",
            EngineeringUnits::InchesOfMercury => "inHg",
            EngineeringUnits::DegreesCelsius => "°C",
            EngineeringUnits::Kelvin => "K",
            EngineeringUnits::DegreesFahrenheit => "°F",
            EngineeringUnits::DegreeDaysCelsius => "°C·day",
            EngineeringUnits::DegreeDaysFahrenheit => "°F·day",
            EngineeringUnits::Years => "yr",
            EngineeringUnits::Months => "mo",
            EngineeringUnits::Weeks => "wk",
            EngineeringUnits::Days => "day",
            EngineeringUnits::Hours => "h",
            EngineeringUnits::Minutes => "min",
            EngineeringUnits::Seconds => "s",
            EngineeringUnits::MetersPerSecond => "m/s",
            EngineeringUnits::KilometersPerHour => "km/h",
            EngineeringUnits::FeetPerSecond => "ft/s",
            EngineeringUnits::FeetPerMinute => "ft/min",
            EngineeringUnits::MilesPerHour => "mph",
            EngineeringUnits::CubicFeet => "ft³",
            EngineeringUnits::CubicMeters => "m³",
            EngineeringUnits::ImperialGallons => "gal (UK)",
            EngineeringUnits::Liters => "L",
            EngineeringUnits::UsGallons => "gal (US)",
            EngineeringUnits::CubicFeetPerMinute => "cfm",
            EngineeringUnits::CubicMetersPerSecond => "m³/s",
            EngineeringUnits::ImperialGallonsPerMinute => "gpm (UK)",
            EngineeringUnits::LitersPerSecond => "L/s",
            EngineeringUnits::LitersPerMinute => "L/min",
            EngineeringUnits::UsGallonsPerMinute => "gpm (US)",
            EngineeringUnits::DegreesAngular => "°",
            EngineeringUnits::DegreesCelsiusPerHour => "°C/h",
            EngineeringUnits::DegreesCelsiusPerMinute => "°C/min",
            EngineeringUnits::DegreesFahrenheitPerHour => "°F/h",
            EngineeringUnits::DegreesFahrenheitPerMinute => "°F/min",
            EngineeringUnits::NoUnits => "",
            EngineeringUnits::PartsPerMillion => "ppm",
            EngineeringUnits::PartsPerBillion => "ppb",
            EngineeringUnits::Percent => "%",
            EngineeringUnits::PercentPerSecond => "%/s",
            EngineeringUnits::PerMinute => "/min",
            EngineeringUnits::PerSecond => "/s",
            EngineeringUnits::PsiPerDegreeFahrenheit => "psi/°F",
            EngineeringUnits::Radians => "rad",
            EngineeringUnits::RevolutionsPerMinute => "rpm",
            EngineeringUnits::Currency1 => "",
            EngineeringUnits::Currency2 => "",
            EngineeringUnits::Currency3 => "",
            EngineeringUnits::Currency4 => "",
            EngineeringUnits::Currency5 => "",
            EngineeringUnits::Currency6 => "",
            EngineeringUnits::Currency7 => "",
            EngineeringUnits::Currency8 => "",
            EngineeringUnits::Currency9 => "",
            EngineeringUnits::Currency10 => "",
            EngineeringUnits::SquareInches => "in²",
            EngineeringUnits::SquareCentimeters => "cm²",
            EngineeringUnits::BtusPerPound => "Btu/lb",
            EngineeringUnits::Centimeters => "cm",
            EngineeringUnits::PoundsMassPerSecond => "lbm/s",
            EngineeringUnits::DeltaDegreesFahrenheit => "Δ°F",
            EngineeringUnits::DeltaKelvin => "ΔK",
            EngineeringUnits::Kiloohms => "kΩ",
            EngineeringUnits::Megaohms => "MΩ",
            EngineeringUnits::Millivolts => "mV",
            EngineeringUnits::KilojoulesPerKilogram => "kJ/kg",
            EngineeringUnits::Megajoules => "MJ",
            EngineeringUnits::JoulesPerKelvin => "J/K",
            EngineeringUnits::JoulesPerKilogramKelvin => "J/(kg·K)",
            EngineeringUnits::Kilohertz => "kHz",
            EngineeringUnits::Megahertz => "MHz",
            EngineeringUnits::PerHour => "/h",
            EngineeringUnits::Milliwatts => "mW",
            EngineeringUnits::Hectopascals => "hPa",
            EngineeringUnits::Millibars => "mbar",
            EngineeringUnits::CubicMetersPerHour => "m³/h",
            EngineeringUnits::LitersPerHour => "L/h",
            EngineeringUnits::KilowattHoursPerSquareMeter => "kWh/m²",
            EngineeringUnits::KilowattHoursPerSquareFoot => "kWh/ft²",
            EngineeringUnits::MegajoulesPerSquareMeter => "MJ/m²",
            EngineeringUnits::MegajoulesPerSquareFoot => "MJ/ft²",
            EngineeringUnits::WattsPerSquareMeterPerKelvin => "W/(m²·K)",
            EngineeringUnits::CubicFeetPerSecond => "ft³/s",
            EngineeringUnits::PercentObscurationPerFoot => "%/ft",
            EngineeringUnits::PercentObscurationPerMeter => "%/m",
            EngineeringUnits::Milliohms => "mΩ",
            EngineeringUnits::MegawattHours => "MW·h",
            EngineeringUnits::KiloBtus => "kBtu",
            EngineeringUnits::MegaBtus => "MBtu",
            EngineeringUnits::KilojoulesPerKilogramDryAir => "kJ/kg dry air",
            EngineeringUnits::MegajoulesPerKilogramDryAir => "MJ/kg dry air",
            EngineeringUnits::KilojoulesPerKelvin => "kJ/K",
            EngineeringUnits::MegajoulesPerKelvin => "MJ/K",
            EngineeringUnits::Newton => "N",
            EngineeringUnits::GramsPerSecond => "g/s",
            EngineeringUnits::GramsPerMinute => "g/min",
            EngineeringUnits::TonsPerHour => "ton/h",
            EngineeringUnits::KiloBtusPerHour => "kBtu/h",
            EngineeringUnits::HundredthsSeconds => "cs",
            EngineeringUnits::Milliseconds => "ms",
            EngineeringUnits::NewtonMeters => "N·m",
            EngineeringUnits::MillimetersPerSecond => "mm/s",
            EngineeringUnits::MillimetersPerMinute => "mm/min",
            EngineeringUnits::MetersPerMinute => "m/min",
            EngineeringUnits::MetersPerHour => "m/h",
            EngineeringUnits::CubicMetersPerMinute => "m³/min",
            EngineeringUnits::MetersPerSecondPerSecond => "m/s²",
            EngineeringUnits::AmperesPerMeter => "A/m",
            EngineeringUnits::AmperesPerSquareMeter => "A/m²",
            EngineeringUnits::AmpereSquareMeters => "A·m²",
            EngineeringUnits::Farads => "F",
            EngineeringUnits::Henrys => "H",
            EngineeringUnits::OhmMeters => "Ω·m",
            EngineeringUnits::Siemens => "S",
            EngineeringUnits::SiemensPerMeter => "S/m",
            EngineeringUnits::Teslas => "T",
            EngineeringUnits::VoltsPerKelvin => "V/K",
            EngineeringUnits::VoltsPerMeter => "V/m",
            EngineeringUnits::Webers => "Wb",
            EngineeringUnits::Candelas => "cd",
            EngineeringUnits::CandelasPerSquareMeter => "cd/m²",
            EngineeringUnits::KelvinPerHour => "K/h",
            EngineeringUnits::KelvinPerMinute => "K/min",
            EngineeringUnits::JouleSeconds => "J·s",
            EngineeringUnits::RadiansPerSecond => "rad/s",
            EngineeringUnits::SquareMetersPerNewton => "m²/N",
            EngineeringUnits::KilogramsPerCubicMeter => "kg/m³",
            EngineeringUnits::NewtonSeconds => "N·s",
            EngineeringUnits::NewtonsPerMeter => "N/m",
            EngineeringUnits::WattsPerMeterPerKelvin => "W/(m·K)",
            EngineeringUnits::Microsiemens => "µS",
            EngineeringUnits::CubicFeetPerHour => "cfh",
            EngineeringUnits::UsGallonsPerHour => "gph (US)",
            EngineeringUnits::Kilometers => "km",
            EngineeringUnits::Micrometers => "µm",
            EngineeringUnits::Grams => "g",
            EngineeringUnits::Milligrams => "mg",
            EngineeringUnits::Milliliters => "mL",
            EngineeringUnits::MillilitersPerSecond => "mL/s",
            EngineeringUnits::Decibels => "dB",
            EngineeringUnits::DecibelsMillivolt => "dBmV",
            EngineeringUnits::DecibelsVolt => "dBV",
            EngineeringUnits::Millisiemens => "mS",
            EngineeringUnits::WattHoursReactive => "var·h",
            EngineeringUnits::KilowattHoursReactive => "kvar·h",
            EngineeringUnits::MegawattHoursReactive => "Mvar·h",
            EngineeringUnits::MillimetersOfWater => "mmH₂O",
            EngineeringUnits::PerMille => "‰",
            EngineeringUnits::GramsPerGram => "g/g",
            EngineeringUnits::KilogramsPerKilogram => "kg/kg",
            EngineeringUnits::GramsPerKilogram => "g/kg",
            EngineeringUnits::MilligramsPerGram => "mg/g",
            EngineeringUnits::MilligramsPerKilogram => "mg/kg",
            EngineeringUnits::GramsPerMilliliter => "g/mL",
            EngineeringUnits::GramsPerLiter => "g/L",
            EngineeringUnits::MilligramsPerLiter => "mg/L",
            EngineeringUnits::MicrogramsPerLiter => "µg/L",
            EngineeringUnits::GramsPerCubicMeter => "g/m³",
            EngineeringUnits::MilligramsPerCubicMeter => "mg/m³",
            EngineeringUnits::MicrogramsPerCubicMeter => "µg/m³",
            EngineeringUnits::NanogramsPerCubicMeter => "ng/m³",
            EngineeringUnits::GramsPerCubicCentimeter => "g/cm³",
            EngineeringUnits::Becquerels => "Bq",
            EngineeringUnits::Kilobecquerels => "kBq",
            EngineeringUnits::Megabecquerels => "MBq",
            EngineeringUnits::Gray => "Gy",
            EngineeringUnits::Milligray => "mGy",
            EngineeringUnits::Microgray => "µGy",
            EngineeringUnits::Sieverts => "Sv",
            EngineeringUnits::Millisieverts => "mSv",
            EngineeringUnits::Microsieverts => "µSv",
            EngineeringUnits::MicrosievertsPerHour => "µSv/h",
            EngineeringUnits::DecibelsA => "dBA",
            EngineeringUnits::NephelometricTurbidityUnit => "NTU",
            EngineeringUnits::Ph => "pH",
            EngineeringUnits::GramsPerSquareMeter => "g/m²",
            EngineeringUnits::MinutesPerKelvin => "min/K",
            EngineeringUnits::OhmMeterSquaredPerMeter => "Ω·m²/m",
            EngineeringUnits::AmpereSeconds => "A·s",
            EngineeringUnits::VoltAmpereHours => "VAh",
            EngineeringUnits::KilovoltAmpereHours => "kVAh",
            EngineeringUnits::MegavoltAmpereHours => "MVAh",
            EngineeringUnits::VoltAmpereHoursReactive => "varh",
            EngineeringUnits::KilovoltAmpereHoursReactive => "kvarh",
            EngineeringUnits::MegavoltAmpereHoursReactive => "Mvarh",
            EngineeringUnits::VoltSquareHours => "V²·h",
            EngineeringUnits::AmpereSquareHours => "A²·h",
            EngineeringUnits::JoulesPerHour => "J/h",
            EngineeringUnits::CubicFeetPerDay => "cfd",
            EngineeringUnits::CubicMetersPerDay => "m³/day",
            EngineeringUnits::WattHoursPerCubicMeter => "Wh/m³",
            EngineeringUnits::JoulesPerCubicMeter => "J/m³",
            EngineeringUnits::MolePercent => "mol%",
            EngineeringUnits::PascalSeconds => "Pa·s",
            EngineeringUnits::MillionStandardCubicFeetPerMinute => "MMscfm",
            EngineeringUnits::StandardCubicFeetPerDay => "scfd",
            EngineeringUnits::MillionStandardCubicFeetPerDay => "MMscfd",
            EngineeringUnits::ThousandCubicFeetPerDay => "kcfd",
            EngineeringUnits::ThousandStandardCubicFeetPerDay => "kscfd",
            EngineeringUnits::PoundsMassPerDay => "lbm/day",
            EngineeringUnits::Millirems => "mrem",
            EngineeringUnits::MilliremsPerHour => "mrem/h",
            EngineeringUnits::DegreesLovibond => "",
            EngineeringUnits::AlcoholByVolume => "",
            EngineeringUnits::InternationalBitteringUnits => "",
            EngineeringUnits::EuropeanBitternessUnits => "",
            EngineeringUnits::DegreesPlato => "",
            EngineeringUnits::SpecificGravity => "",
            EngineeringUnits::EuropeanBrewingConvention => "",
            EngineeringUnits::PerDay => "",
            EngineeringUnits::PerMillisecond => "",
            EngineeringUnits::Yards => "",
            EngineeringUnits::Miles => "",
            EngineeringUnits::NauticalMiles => "",
            EngineeringUnits::Nanograms => "ng",
            EngineeringUnits::Micrograms => "µg",
            EngineeringUnits::MetricTonnes => "",
            EngineeringUnits::ShortTons => "",
            EngineeringUnits::LongTons => "",
            EngineeringUnits::GramsPerHour => "",
            EngineeringUnits::GramsPerDay => "",
            EngineeringUnits::KilogramsPerDay => "",
            EngineeringUnits::ShortTonsPerSecond => "",
            EngineeringUnits::ShortTonsPerMinute => "",
            EngineeringUnits::ShortTonsPerHour => "",
            EngineeringUnits::ShortTonsPerDay => "",
            EngineeringUnits::MetricTonnesPerSecond => "",
            EngineeringUnits::MetricTonnesPerMinute => "",
            EngineeringUnits::MetricTonnesPerHour => "",
            EngineeringUnits::MetricTonnesPerDay => "",
            EngineeringUnits::LongTonsPerSecond => "",
            EngineeringUnits::LongTonsPerMinute => "",
            EngineeringUnits::LongTonsPerHour => "",
            EngineeringUnits::LongTonsPerDay => "",
            EngineeringUnits::BtusPerSecond => "",
            EngineeringUnits::BtusPerMinute => "",
            EngineeringUnits::BtusPerDay => "",
            EngineeringUnits::KiloBtusPerSecond => "",
            EngineeringUnits::KiloBtusPerMinute => "",
            EngineeringUnits::KiloBtusPerDay => "",
            EngineeringUnits::MegaBtusPerSecond => "",
            EngineeringUnits::MegaBtusPerMinute => "",
            EngineeringUnits::MegaBtusPerHour => "",
            EngineeringUnits::MegaBtusPerDay => "",
            EngineeringUnits::JoulesPerSecond => "",
            EngineeringUnits::JoulesPerMinute => "",
            EngineeringUnits::JoulesPerDay => "",
            EngineeringUnits::KilojoulesPerSecond => "",
            EngineeringUnits::KilojoulesPerMinute => "",
            EngineeringUnits::KilojoulesPerHour => "",
            EngineeringUnits::KilojoulesPerDay => "",
            EngineeringUnits::MegajoulesPerSecond => "",
            EngineeringUnits::MegajoulesPerMinute => "",
            EngineeringUnits::MegajoulesPerHour => "",
            EngineeringUnits::MegajoulesPerDay => "",
            EngineeringUnits::DegreesCelsiusPerDay => "",
            EngineeringUnits::KelvinPerDay => "",
            EngineeringUnits::DegreesFahrenheitPerDay => "",
            EngineeringUnits::DeltaDegreesCelsius => "",
            EngineeringUnits::MillionCubicFeetPerMinute => "",
            EngineeringUnits::MillionCubicFeetPerDay => "",
            EngineeringUnits::ImperialGallonsPerSecond => "",
            EngineeringUnits::ImperialGallonsPerHour => "",
            EngineeringUnits::ImperialGallonsPerDay => "",
            EngineeringUnits::LitersPerDay => "",
            EngineeringUnits::UsGallonsPerSecond => "",
            EngineeringUnits::UsGallonsPerDay => "",
            EngineeringUnits::PercentPerMinute => "",
            EngineeringUnits::PercentPerHour => "",
            EngineeringUnits::PercentPerDay => "",
            EngineeringUnits::PerMillion => "",
            EngineeringUnits::PerBillion => "",
            EngineeringUnits::MicrogramsPerGram => "",
            EngineeringUnits::NanogramsPerGram => "",
            EngineeringUnits::MicrogramsPerKilogram => "",
            EngineeringUnits::NanogramsPerKilogram => "",
            EngineeringUnits::MilligramsPerMilliliter => "",
            EngineeringUnits::MicrogramsPerMilliliter => "",
            EngineeringUnits::NanogramsPerMilliliter => "",
            EngineeringUnits::KilogramsPerLiter => "",
            EngineeringUnits::NanogramsPerLiter => "",
            EngineeringUnits::MilligramsPerCubicCentimeter => "",
            EngineeringUnits::MicrogramsPerCubicCentimeter => "",
            EngineeringUnits::NanogramsPerCubicCentimeter => "",
            EngineeringUnits::BtuPerHourPerWatt => "",
            EngineeringUnits::BtuPerWattHourSeasonal => "",
            EngineeringUnits::CoefficientOfPerformance => "",
            EngineeringUnits::CoefficientOfPerformanceSeasonal => "",
            EngineeringUnits::KilowattPerTonRefrigeration => "",
            EngineeringUnits::LumensPerWatt => "",
            EngineeringUnits::PoundForceFeet => "",
            EngineeringUnits::PoundForceInches => "",
            EngineeringUnits::OunceForceInches => "",
            EngineeringUnits::PoundsForcePerSquareInchAbsolute => "",
            EngineeringUnits::PoundsForcePerSquareInchGauge => "",
            EngineeringUnits::MicrosiemensPerCentimeter => "",
            EngineeringUnits::MillisiemensPerCentimeter => "",
            EngineeringUnits::MillisiemensPerMeter => "",
            EngineeringUnits::MillionsOfUsGallons => "",
            EngineeringUnits::MillionsOfImperialGallons => "",
            EngineeringUnits::MillilitersPerMinute => "",
            EngineeringUnits::MilsPerYear => "",
            EngineeringUnits::MillimetersPerYear => "",
            EngineeringUnits::PulsesPerMinute => "",
            EngineeringUnits::ActiveEnergyPulseValue => "",
            EngineeringUnits::ReactiveEnergyPulseValue => "",
            EngineeringUnits::ApparentEnergyPulseValue => "",
            EngineeringUnits::VoltSquaredHourPulseValue => "",
            EngineeringUnits::AmpereSquaredHourPulseValue => "",
            EngineeringUnits::CubicMeterPulseValue => "",
            EngineeringUnits::Gigawatts => "",
            EngineeringUnits::Gigajoules => "GJ",
            EngineeringUnits::Terajoules => "TJ",
            EngineeringUnits::GigawattHours => "GW·h",
            EngineeringUnits::GigawattReactiveHours => "Gvar·h",
            EngineeringUnits::BitsPerSecond => "",
            EngineeringUnits::KilobitsPerSecond => "",
            EngineeringUnits::MegabitsPerSecond => "",
            EngineeringUnits::GigabitsPerSecond => "",
            EngineeringUnits::BytesPerSecond => "",
            EngineeringUnits::KilobytesPerSecond => "",
            EngineeringUnits::MegabytesPerSecond => "",
            EngineeringUnits::GigabytesPerSecond => "",
            EngineeringUnits::Volume1 => "",
            EngineeringUnits::Volume2 => "",
            EngineeringUnits::Volume3 => "",
            EngineeringUnits::Volume4 => "",
            EngineeringUnits::Volume5 => "",
            EngineeringUnits::Volume6 => "",
            EngineeringUnits::Volume7 => "",
            EngineeringUnits::Volume8 => "",
            EngineeringUnits::Volume9 => "",
            EngineeringUnits::Volume10 => "",
            EngineeringUnits::VolumetricFlow1 => "",
            EngineeringUnits::VolumetricFlow2 => "",
            EngineeringUnits::VolumetricFlow3 => "",
            EngineeringUnits::VolumetricFlow4 => "",
            EngineeringUnits::VolumetricFlow5 => "",
            EngineeringUnits::VolumetricFlow6 => "",
            EngineeringUnits::VolumetricFlow7 => "",
            EngineeringUnits::VolumetricFlow8 => "",
            EngineeringUnits::VolumetricFlow9 => "",
            EngineeringUnits::VolumetricFlow10 => "",
            EngineeringUnits::SiteUnit1 => "",
            EngineeringUnits::SiteUnit2 => "",
            EngineeringUnits::SiteUnit3 => "",
            EngineeringUnits::SiteUnit4 => "",
            EngineeringUnits::SiteUnit5 => "",
            EngineeringUnits::SiteUnit6 => "",
            EngineeringUnits::SiteUnit7 => "",
            EngineeringUnits::SiteUnit8 => "",
            EngineeringUnits::SiteUnit9 => "",
            EngineeringUnits::SiteUnit10 => "",
            EngineeringUnits::ParticlesPerCubicFoot => "",
            EngineeringUnits::ParticlesPerCubicMeter => "",
            EngineeringUnits::PicocuriesPerLiter => "",
            EngineeringUnits::BecquerelsPerCubicMeter => "",
            EngineeringUnits::GrainsOfWaterPerPoundDryAir => "",
            EngineeringUnits::DegreeHoursCelsius => "",
            EngineeringUnits::DegreeHoursFahrenheit => "",
            EngineeringUnits::DegreeMinutesCelsius => "",
            EngineeringUnits::DegreeMinutesFahrenheit => "",
            EngineeringUnits::DegreeSecondsCelsius => "",
            EngineeringUnits::DegreeSecondsFahrenheit => "",
            EngineeringUnits::Microseconds => "",
            EngineeringUnits::Nanoseconds => "",
            EngineeringUnits::Picoseconds => "",
            _ => "",
        }
    }
}

} // verus!
