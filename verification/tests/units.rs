use cookbook_core::units::{MassUnit, TemperatureUnit, TimeUnit, UnitError, VolumeUnit};

#[test]
fn abbreviations_round_trip() {
    for u in TimeUnit::all() {
        assert_eq!(TimeUnit::from_abbreviation(u.abbreviation()), Ok(u));
    }
    for u in TemperatureUnit::all() {
        assert_eq!(TemperatureUnit::from_abbreviation(u.abbreviation()), Ok(u));
    }
    for u in MassUnit::all() {
        assert_eq!(MassUnit::from_abbreviation(u.abbreviation()), Ok(u));
    }
    for u in VolumeUnit::all() {
        assert_eq!(VolumeUnit::from_abbreviation(u.abbreviation()), Ok(u));
    }
}

#[test]
fn known_abbreviations() {
    assert_eq!(TimeUnit::from_abbreviation("min"), Ok(TimeUnit::Minute));
    assert_eq!(TemperatureUnit::from_abbreviation("°C"), Ok(TemperatureUnit::DegreeCelsius));
    assert_eq!(MassUnit::from_abbreviation("kg"), Ok(MassUnit::Kilogram));
    assert_eq!(VolumeUnit::from_abbreviation("tsp"), Ok(VolumeUnit::Teaspoon));
    assert_eq!(VolumeUnit::Liter.abbreviation(), "L");
}

#[test]
fn unit_errors() {
    assert_eq!(TimeUnit::from_abbreviation("placeholder"), Err(UnitError::NotSpecified));
    assert_eq!(MassUnit::from_abbreviation("placeholder"), Err(UnitError::NotSpecified));
    assert_eq!(TimeUnit::from_abbreviation("fortnight"), Err(UnitError::Unrecognized));
    assert_eq!(VolumeUnit::from_abbreviation(""), Err(UnitError::Unrecognized));
}

#[test]
fn unit_lists_have_every_unit_once() {
    assert_eq!(TimeUnit::all().len(), 17);
    assert_eq!(TemperatureUnit::all().len(), 16);
    assert_eq!(MassUnit::all().len(), 15);
    assert_eq!(VolumeUnit::all().len(), 48);
}

#[test]
fn minutes_are_written_m_or_min() {
    assert_eq!(TimeUnit::from_abbreviation("m"), Ok(TimeUnit::Minute));
    assert_eq!(TimeUnit::from_abbreviation("min"), Ok(TimeUnit::Minute));
    assert_eq!(TimeUnit::Minute.abbreviation(), "min");
}

#[test]
fn unit_listing_has_four_sections_with_every_unit() {
    let l = cookbook_core::units::unit_listing();
    let heads: Vec<&str> = l.iter().map(|s| s.heading.as_str()).collect();
    assert_eq!(heads, vec!["Time Units", "Temperature Interval Units", "Mass Units", "Volume Units"]);
    assert_eq!(l[0].units.len(), 17);
    assert_eq!(l[0].units[15], ("minute".to_string(), "min".to_string()));
    assert!(l[1].units.contains(&("degree Celsius".to_string(), "°C".to_string())));
    assert!(l[2].units.contains(&("kilogram".to_string(), "kg".to_string())));
    assert!(l[3].units.contains(&("Imperial fluid ounce".to_string(), "fl oz (UK)".to_string())));
    for (_, a) in &l[0].units {
        assert!(TimeUnit::from_abbreviation(a).is_ok());
    }
    for (_, a) in &l[3].units {
        assert!(VolumeUnit::from_abbreviation(a).is_ok());
    }
}
