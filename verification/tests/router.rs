use convert_moves::fields::{setter_for, spells, Field};

fn routed(name: &str) -> Option<Field> {
    setter_for(name.to_string())
}

#[test]
fn every_recognised_name_is_routed() {
    assert_eq!(routed("DateTime"), Some(Field::LocalTime));
    assert_eq!(routed("GPSAltitude"), Some(Field::Altitude));
    assert_eq!(routed("Latitude"), Some(Field::Latitude));
    assert_eq!(routed("Longitude"), Some(Field::Longitude));
    assert_eq!(routed("VerticalSpeed"), Some(Field::VerticalSpeed));
    assert_eq!(routed("Cadence"), Some(Field::Cadence));
    assert_eq!(routed("HR"), Some(Field::HeartRate));
    assert_eq!(routed("Temperature"), Some(Field::Temperature));
    assert_eq!(routed("SeaLevelPressure"), Some(Field::SeaLevelPressure));
    assert_eq!(routed("Altitude"), Some(Field::Altitude));
    assert_eq!(routed("Distance"), Some(Field::Distance));
    assert_eq!(routed("Speed"), Some(Field::Speed));
    assert_eq!(routed("Time"), Some(Field::ElapsedTime));
    assert_eq!(routed("SampleType"), Some(Field::SampleType));
    assert_eq!(routed("UTC"), Some(Field::TimeUtc));
}

#[test]
fn two_names_feed_the_altitude() {
    assert_eq!(routed("GPSAltitude"), routed("Altitude"));
}

#[test]
fn other_names_are_routed_nowhere() {
    assert_eq!(routed(""), None);
    assert_eq!(routed("Sample"), None);
    assert_eq!(routed("EHPE"), None);
    assert_eq!(routed("Energy"), None);
    assert_eq!(routed("Speed "), None);
    assert_eq!(routed("GPSSpeed"), None);
}

#[test]
fn names_are_compared_with_their_case() {
    assert_eq!(routed("hr"), None);
    assert_eq!(routed("utc"), None);
    assert_eq!(routed("latitude"), None);
    assert_eq!(routed("DATETIME"), None);
}

#[test]
fn spelling_is_exact() {
    assert!(spells(&"periodic".to_string(), "periodic"));
    assert!(!spells(&"Periodic".to_string(), "periodic"));
    assert!(!spells(&"periodic ".to_string(), "periodic"));
    assert!(spells(&String::new(), ""));
}
