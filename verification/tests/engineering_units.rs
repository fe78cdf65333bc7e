//! Engineering units: values, names and symbols.

use bacnet_rs::object::engineering_units::{EngineeringUnits, EngineeringUnitsValue};


#[test]
fn test_from_u32() {
    // Test standard ASHRAE units
    assert_eq!(EngineeringUnits::from(95), EngineeringUnits::NoUnits);
    assert_eq!(EngineeringUnits::from(62), EngineeringUnits::DegreesCelsius);
    assert_eq!(
        EngineeringUnits::from(64),
        EngineeringUnits::DegreesFahrenheit
    );

    // Test custom units (256-47807)
    let custom1 = EngineeringUnits::from(1000);
    assert!(matches!(custom1, EngineeringUnits::Custom(_)));
    assert_eq!(u32::from(custom1), 1000);

    // Test reserved units
    let reserved1 = EngineeringUnits::from(100);
    assert!(matches!(reserved1, EngineeringUnits::PerMinute));
    assert_eq!(u32::from(reserved1), 100);
}

#[test]
fn test_to_u32() {
    assert_eq!(u32::from(EngineeringUnits::NoUnits), 95);
    assert_eq!(u32::from(EngineeringUnits::DegreesCelsius), 62);
    assert_eq!(
        u32::from(EngineeringUnits::Custom(EngineeringUnitsValue::new(1000))),
        1000
    );
}

#[test]
fn test_roundtrip() {
    // Standard units should roundtrip
    let celsius = EngineeringUnits::DegreesCelsius;
    assert_eq!(EngineeringUnits::from(u32::from(celsius)), celsius);

    // Custom units should roundtrip
    let custom = EngineeringUnits::from(12345);
    assert_eq!(EngineeringUnits::from(u32::from(custom)), custom);
}

#[test]
fn test_default() {
    assert_eq!(EngineeringUnits::default(), EngineeringUnits::NoUnits);
}

#[test]
fn test_bacnet_name() {
    assert_eq!(
        EngineeringUnits::DegreesCelsius.bacnet_name(),
        "degrees-celsius"
    );
    assert_eq!(EngineeringUnits::NoUnits.bacnet_name(), "no-units");
    assert_eq!(EngineeringUnits::from(1000).bacnet_name(), "Custom(1000)");
}

#[test]
fn test_unit_symbol() {
    assert_eq!(EngineeringUnits::DegreesCelsius.unit_symbol(), "°C");
    assert_eq!(EngineeringUnits::NoUnits.unit_symbol(), "");
    assert_eq!(EngineeringUnits::from(1000).unit_symbol(), "");
}

#[test]
fn test_newly_added_units() {
    // Verify the 13 previously missing units
    assert_eq!(u32::from(EngineeringUnits::PerMinute), 100);
    assert_eq!(u32::from(EngineeringUnits::PerSecond), 101);
    assert_eq!(u32::from(EngineeringUnits::Nanograms), 47828);
    assert_eq!(u32::from(EngineeringUnits::Micrograms), 47829);
    assert_eq!(u32::from(EngineeringUnits::KelvinPerDay), 47870);
    assert_eq!(u32::from(EngineeringUnits::ImperialGallonsPerHour), 47876);
    assert_eq!(u32::from(EngineeringUnits::ImperialGallonsPerDay), 47877);
    assert_eq!(u32::from(EngineeringUnits::MicrogramsPerGram), 47886);
    assert_eq!(u32::from(EngineeringUnits::NanogramsPerGram), 47887);
    assert_eq!(u32::from(EngineeringUnits::Gigajoules), 47925);
    assert_eq!(u32::from(EngineeringUnits::Terajoules), 47926);
    assert_eq!(u32::from(EngineeringUnits::GigawattHours), 47927);
    assert_eq!(u32::from(EngineeringUnits::GigawattReactiveHours), 47928);
}

#[test]
fn test_corrected_names() {
    // Verify name corrections match ASHRAE 135-2024
    assert_eq!(EngineeringUnits::Kiloohms.bacnet_name(), "kilohms");
    assert_eq!(
        EngineeringUnits::JoulesPerKilogramKelvin.bacnet_name(),
        "joules-per-kilogram-per-kelvin"
    );
    assert_eq!(
        EngineeringUnits::Microsiemens.bacnet_name(),
        "micro-siemens"
    );
    assert_eq!(
        EngineeringUnits::WattHoursReactive.bacnet_name(),
        "watt-reactive-hours"
    );
    assert_eq!(
        EngineeringUnits::KilowattHoursReactive.bacnet_name(),
        "kilowatt-reactive-hours"
    );
    assert_eq!(
        EngineeringUnits::MegawattHoursReactive.bacnet_name(),
        "megawatt-reactive-hours"
    );
    assert_eq!(EngineeringUnits::Ph.bacnet_name(), "pH");
}

#[test]
fn every_number_round_trips() {
    for v in (0u32..70_000).chain([u32::MAX - 1, u32::MAX]) {
        let unit = EngineeringUnits::from(v);
        assert_eq!(u32::from(unit), v);
        assert_eq!(EngineeringUnits::from(u32::from(unit)), unit);
    }
}

#[test]
fn ranges_decide_reserved_or_custom() {
    assert!(matches!(EngineeringUnits::from(255), EngineeringUnits::Reserved(_)));
    assert!(matches!(EngineeringUnits::from(256), EngineeringUnits::Custom(_)));
    assert!(matches!(EngineeringUnits::from(47807), EngineeringUnits::Custom(_)));
    assert!(matches!(EngineeringUnits::from(49999), EngineeringUnits::Reserved(_)));
    assert!(matches!(EngineeringUnits::from(50000), EngineeringUnits::Custom(_)));
    assert!(matches!(EngineeringUnits::from(65535), EngineeringUnits::Custom(_)));
    assert!(matches!(EngineeringUnits::from(65536), EngineeringUnits::Reserved(_)));
    assert_eq!(EngineeringUnits::from(65536).bacnet_name(), "Reserved(65536)");
    assert_eq!(EngineeringUnitsValue::new(5).value(), 5);
}
