use convert_moves::fields::Field;
use convert_moves::sample_rec::SampleRec;

fn text(value: &str) -> String {
    value.to_string()
}

#[test]
fn a_new_record_is_empty() {
    let rec = SampleRec::default();
    assert_eq!(rec.local_time, "");
    assert_eq!(rec.latitude_ster, "");
    assert_eq!(rec.longitude_ster, "");
    assert_eq!(rec.vertical_speed_mps, "");
    assert_eq!(rec.cadence_ffs, "");
    assert_eq!(rec.hr_bps, "");
    assert_eq!(rec.temperature_k, "");
    assert_eq!(rec.sea_level_pressure_pa, "");
    assert_eq!(rec.altitude_m, "");
    assert_eq!(rec.distance_m, "");
    assert_eq!(rec.speed_mps, "");
    assert_eq!(rec.elapsed_time_sec, "");
    assert_eq!(rec.sample_type, "");
    assert_eq!(rec.time_utc, "");
    assert!(!rec.is_periodic());
    assert!(!rec.has_cadence());
}

#[test]
fn each_setter_stores_its_own_field() {
    let mut rec = SampleRec::default();
    rec.local_time(text("a"));
    rec.latitude_ster(text("b"));
    rec.longitude_ster(text("c"));
    rec.vertical_speed_mps(text("d"));
    rec.cadence_ffs(text("e"));
    rec.hr_bps(text("f"));
    rec.temperature_k(text("g"));
    rec.sea_level_pressure_pa(text("h"));
    rec.altitude_m(text("i"));
    rec.distance_m(text("j"));
    rec.speed_mps(text("k"));
    rec.elapsed_time_sec(text("l"));
    rec.sample_type(text("m"));
    rec.time_utc(text("n"));
    assert_eq!(rec.local_time, "a");
    assert_eq!(rec.latitude_ster, "b");
    assert_eq!(rec.longitude_ster, "c");
    assert_eq!(rec.vertical_speed_mps, "d");
    assert_eq!(rec.cadence_ffs, "e");
    assert_eq!(rec.hr_bps, "f");
    assert_eq!(rec.temperature_k, "g");
    assert_eq!(rec.sea_level_pressure_pa, "h");
    assert_eq!(rec.altitude_m, "i");
    assert_eq!(rec.distance_m, "j");
    assert_eq!(rec.speed_mps, "k");
    assert_eq!(rec.elapsed_time_sec, "l");
    assert_eq!(rec.sample_type, "m");
    assert_eq!(rec.time_utc, "n");
}

#[test]
fn set_overwrites_one_field_and_keeps_the_others() {
    let mut rec = SampleRec::default();
    rec.set(Field::HeartRate, text("1.2"));
    rec.set(Field::Altitude, text("12.5"));
    rec.set(Field::HeartRate, text("1.4"));
    assert_eq!(rec.hr_bps, "1.4");
    assert_eq!(rec.altitude_m, "12.5");
    assert_eq!(rec.cadence_ffs, "");
    rec.set(Field::LocalTime, text("2021-03-05T10:00:00"));
    rec.set(Field::Latitude, text("0.5"));
    rec.set(Field::Longitude, text("0.25"));
    rec.set(Field::VerticalSpeed, text("0"));
    rec.set(Field::Cadence, text("1.5"));
    rec.set(Field::Temperature, text("300"));
    rec.set(Field::SeaLevelPressure, text("101325"));
    rec.set(Field::Distance, text("7"));
    rec.set(Field::Speed, text("2"));
    rec.set(Field::ElapsedTime, text("9"));
    rec.set(Field::SampleType, text("periodic"));
    rec.set(Field::TimeUtc, text("2021-03-05T18:00:00Z"));
    assert_eq!(rec.local_time, "2021-03-05T10:00:00");
    assert_eq!(rec.latitude_ster, "0.5");
    assert_eq!(rec.longitude_ster, "0.25");
    assert_eq!(rec.vertical_speed_mps, "0");
    assert_eq!(rec.cadence_ffs, "1.5");
    assert_eq!(rec.hr_bps, "1.4");
    assert_eq!(rec.temperature_k, "300");
    assert_eq!(rec.sea_level_pressure_pa, "101325");
    assert_eq!(rec.altitude_m, "12.5");
    assert_eq!(rec.distance_m, "7");
    assert_eq!(rec.speed_mps, "2");
    assert_eq!(rec.elapsed_time_sec, "9");
    assert_eq!(rec.sample_type, "periodic");
    assert_eq!(rec.time_utc, "2021-03-05T18:00:00Z");
}

#[test]
fn periodic_is_an_exact_word() {
    let mut rec = SampleRec::default();
    rec.sample_type(text("periodic"));
    assert!(rec.is_periodic());
    rec.sample_type(text("Periodic"));
    assert!(!rec.is_periodic());
    rec.sample_type(text(" periodic"));
    assert!(!rec.is_periodic());
    rec.sample_type(text("gps-base"));
    assert!(!rec.is_periodic());
    rec.sample_type(text(""));
    assert!(!rec.is_periodic());
}

#[test]
fn cadence_is_there_when_its_text_is_not_empty() {
    let mut rec = SampleRec::default();
    rec.cadence_ffs(text("1.5"));
    assert!(rec.has_cadence());
    rec.cadence_ffs(text("no number"));
    assert!(rec.has_cadence());
    rec.cadence_ffs(text(" "));
    assert!(rec.has_cadence());
    rec.cadence_ffs(text(""));
    assert!(!rec.has_cadence());
}

#[test]
fn a_snapshot_keeps_what_the_record_held() {
    let mut rec = SampleRec::default();
    rec.hr_bps(text("1.2"));
    let snapshot = rec.snapshot();
    rec.hr_bps(text("1.9"));
    assert_eq!(snapshot.hr_bps, "1.2");
    assert_eq!(rec.hr_bps, "1.9");
}
