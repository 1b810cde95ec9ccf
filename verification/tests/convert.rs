use convert_moves::converter::{
    select, write_track, ConversionError, Dropped, MoveConverter, Record, Selection, Written,
};
use convert_moves::sample_rec::SampleRec;
use convert_moves::stream::Token;
use convert_moves::track_point::{Cause, FieldError, Measure, Readings};

fn number(text: &str) -> Option<f64> {
    text.parse::<f64>().ok()
}

fn shown(value: f64) -> String {
    format!("{}", value as f32)
}

fn rounded(value: f64) -> i32 {
    value.round() as i32
}

fn degrees(native: f64) -> f64 {
    native * 180.0 / std::f64::consts::PI
}

/// The numeric stage: every text read as a number and converted to its unit.
fn readings_for(s: &SampleRec) -> Readings {
    Readings {
        latitude_degrees: number(&s.latitude_ster).map(|v| shown(degrees(v))),
        longitude_degrees: number(&s.longitude_ster).map(|v| shown(degrees(v))),
        cadence_ffm: number(&s.cadence_ffs).map(|v| rounded(v * 60.0)),
        hr_bpm: number(&s.hr_bps).map(|v| rounded(v * 60.0)),
        temperature_c: number(&s.temperature_k).map(|v| shown(v - 273.16)),
        distance_m: number(&s.distance_m).map(shown),
        altitude_m: number(&s.altitude_m).map(shown),
        sea_level_pressure_millibar: number(&s.sea_level_pressure_pa).map(|v| rounded(v / 100.0)),
        speed_mps: number(&s.speed_mps).map(shown),
        vertical_speed_mps: number(&s.vertical_speed_mps).map(shown),
    }
}

fn selected(input: &str) -> Result<Selection, ConversionError> {
    MoveConverter::new(input.as_bytes().to_vec()).convert()
}

fn converted(input: &str) -> Result<Written, ConversionError> {
    let selection = selected(input)?;
    let records: Vec<Record> = selection
        .samples
        .into_iter()
        .map(|sample| {
            let readings = readings_for(&sample);
            Record { sample, readings }
        })
        .collect();
    write_track(selection.writer, &records)
}

/// The document of a track without points: the segment is an empty element.
fn empty_document() -> String {
    let head = HEAD.strip_suffix("    <trkseg>\r\n").unwrap();
    format!("{}    <trkseg />\r\n  </trk>\r\n</gpx>", head)
}

fn text_of(written: &Written) -> String {
    String::from_utf8(written.document.clone()).unwrap()
}

fn count(text: &str, part: &str) -> usize {
    text.matches(part).count()
}

const HEAD: &str = "<?xml version=\"1.0\" encoding=\"utf-8\" standalone=\"no\"?>\r\n<gpx xmlns=\"http://www.topografix.com/GPX/1/1\" xmlns:gpxdata=\"http://www.cluetrust.com/XML/GPXDATA/1/0\" xmlns:gpxtpx=\"http://www.garmin.com/xmlschemas/TrackPointExtension/v1\" xmlns:xsi=\"http://www.w3.org/2001/XMLSchema-instance\" version=\"1.1\" creator=\"Movescount - http://www.movescount.com\" xsi:schemaLocation=\"http://www.topografix.com/GPX/1/1 http://www.topografix.com/GPX/1/1/gpx.xsd http://www.cluetrust.com/XML/GPXDATA/1/0 http://www.cluetrust.com/Schemas/gpxdata10.xsd http://www.garmin.com/xmlschemas/TrackPointExtension/v1 http://www.garmin.com/xmlschemas/TrackPointExtensionv1.xsd\">\r\n  <trk>\r\n    <name>Move</name>\r\n    <trkseg>\r\n";

const TAIL: &str = "    </trkseg>\r\n  </trk>\r\n</gpx>";

const ONE_SAMPLE: &str = "<?xml version=\"1.0\" encoding=\"utf-8\"?>
<sml><DeviceLog><Header><DateTime>2021-03-05T10:00:00</DateTime></Header>
<Samples>
<Sample><Latitude>0.0</Latitude><Longitude>0.0</Longitude><Cadence></Cadence><HR>1.2</HR>
<Temperature>300.0</Temperature><SeaLevelPressure>101325</SeaLevelPressure>
<Altitude>12.5</Altitude><Distance>0</Distance><Speed>2.5</Speed><VerticalSpeed>0</VerticalSpeed>
<SampleType>periodic</SampleType><UTC>2021-03-05T18:00:00Z</UTC></Sample>
</Samples></DeviceLog></sml>";

#[test]
fn one_periodic_sample_becomes_one_track_point() {
    let written = converted(ONE_SAMPLE).unwrap();
    assert_eq!(written.file_name, "Move_2021_03_05_10_00_00_Running.gpx");
    assert!(written.dropped.is_empty());
    let point = "      <trkpt lat=\"0\" lon=\"0\">\r\n        <ele>12.5</ele>\r\n        <time>2021-03-05T18:00:00.000Z</time>\r\n        <extensions>\r\n          <gpxtpx:TrackPointExtension>\r\n            <gpxtpx:hr>72</gpxtpx:hr>\r\n          </gpxtpx:TrackPointExtension>\r\n          <gpxdata:temp>26.84</gpxdata:temp>\r\n          <gpxdata:seaLevelPressure>1013</gpxdata:seaLevelPressure>\r\n          <gpxdata:speed>2.5</gpxdata:speed>\r\n          <gpxdata:verticalSpeed>0</gpxdata:verticalSpeed>\r\n        </extensions>\r\n      </trkpt>\r\n";
    assert_eq!(text_of(&written), format!("{}{}{}", HEAD, point, TAIL));
}

#[test]
fn a_local_time_with_a_blank_names_the_file() {
    let input = "<r><DateTime>2021-03-05 10:00:00</DateTime><Sample><Latitude>0.0</Latitude><Longitude>0.0</Longitude><HR>1.2</HR><Temperature>300.0</Temperature><SeaLevelPressure>101325</SeaLevelPressure><Altitude>5</Altitude><Distance>1</Distance><Speed>2</Speed><VerticalSpeed>0</VerticalSpeed><SampleType>periodic</SampleType><UTC>2021-03-05T18:00:00Z</UTC></Sample></r>";
    let written = converted(input).unwrap();
    assert_eq!(written.file_name, "Move_2021_03_05_10_00_00_Running.gpx");
    assert!(written.dropped.is_empty());
    let point = "      <trkpt lat=\"0\" lon=\"0\">\r\n        <ele>5</ele>\r\n        <time>2021-03-05T18:00:00.000Z</time>\r\n        <extensions>\r\n          <gpxtpx:TrackPointExtension>\r\n            <gpxtpx:hr>72</gpxtpx:hr>\r\n          </gpxtpx:TrackPointExtension>\r\n          <gpxdata:temp>26.84</gpxdata:temp>\r\n          <gpxdata:seaLevelPressure>1013</gpxdata:seaLevelPressure>\r\n          <gpxdata:speed>2</gpxdata:speed>\r\n          <gpxdata:verticalSpeed>0</gpxdata:verticalSpeed>\r\n        </extensions>\r\n      </trkpt>\r\n";
    let text = text_of(&written);
    assert_eq!(text, format!("{}{}{}", HEAD, point, TAIL));
    assert_eq!(count(&text, "<trkpt "), 1);
    assert_eq!(count(&text, "gpxdata:cadence"), 0);
    assert_eq!(count(&text, "gpxdata:distance"), 0);
    assert_eq!(count(&text, "gpxdata:altitude"), 0);
    let same = converted(&input.replace("2021-03-05 10:00:00", "2021-03-05T10:00:00")).unwrap();
    assert_eq!(same.file_name, written.file_name);
    assert_eq!(same.document, written.document);
}

#[test]
fn a_sample_without_cadence_has_no_cadence_distance_or_altitude_extension() {
    let text = text_of(&converted(ONE_SAMPLE).unwrap());
    assert_eq!(count(&text, "<trkpt "), 1);
    assert_eq!(count(&text, "gpxdata:cadence"), 0);
    assert_eq!(count(&text, "gpxdata:distance"), 0);
    assert_eq!(count(&text, "gpxdata:altitude"), 0);
    assert_eq!(count(&text, "<ele>12.5</ele>"), 1);
    assert_eq!(count(&text, "<gpxtpx:hr>72</gpxtpx:hr>"), 1);
}

#[test]
fn a_sample_with_cadence_has_all_three() {
    let input = ONE_SAMPLE.replace("<Cadence></Cadence>", "<Cadence>1.5</Cadence>");
    let text = text_of(&converted(&input).unwrap());
    let extensions = "          </gpxtpx:TrackPointExtension>\r\n          <gpxdata:cadence>90</gpxdata:cadence>\r\n          <gpxdata:temp>26.84</gpxdata:temp>\r\n          <gpxdata:distance>0</gpxdata:distance>\r\n          <gpxdata:altitude>12.5</gpxdata:altitude>\r\n          <gpxdata:seaLevelPressure>1013</gpxdata:seaLevelPressure>\r\n";
    assert_eq!(count(&text, extensions), 1);
}

#[test]
fn a_sample_without_heart_rate_has_no_heart_rate_element() {
    let with = text_of(&converted(ONE_SAMPLE).unwrap());
    let without = text_of(&converted(&ONE_SAMPLE.replace("<HR>1.2</HR>", "<HR></HR>")).unwrap());
    assert_eq!(count(&without, "gpxtpx:hr"), 0);
    assert_eq!(
        count(&without, "          <gpxtpx:TrackPointExtension />\r\n"),
        1
    );
    let hr = "          <gpxtpx:TrackPointExtension>\r\n            <gpxtpx:hr>72</gpxtpx:hr>\r\n          </gpxtpx:TrackPointExtension>\r\n";
    assert_eq!(with.replace(hr, "          <gpxtpx:TrackPointExtension />\r\n"), without);
}

#[test]
fn a_stream_without_periodic_sample_holds_no_data() {
    let input = ONE_SAMPLE.replace("periodic", "gps-base");
    assert!(matches!(converted(&input), Err(ConversionError::NoData)));
    let empty = "<sml><DeviceLog><Samples></Samples></DeviceLog></sml>";
    assert!(matches!(converted(empty), Err(ConversionError::NoData)));
    assert!(matches!(select(&Vec::new(), None), Err(ConversionError::NoData)));
}

#[test]
fn a_stream_that_is_not_xml_is_malformed() {
    assert!(matches!(converted("no markup at all"), Err(ConversionError::Malformed(_))));
    assert!(matches!(converted(""), Err(ConversionError::Malformed(_))));
    let cut = &ONE_SAMPLE[..ONE_SAMPLE.len() - 12];
    match converted(cut) {
        Err(ConversionError::Malformed(message)) => assert!(!message.is_empty()),
        _ => panic!("a stream that breaks off converts"),
    }
    let crossed = ONE_SAMPLE.replace("</Samples></DeviceLog>", "</DeviceLog></Samples>");
    assert!(matches!(converted(&crossed), Err(ConversionError::Malformed(_))));
}

#[test]
fn a_local_time_that_is_no_date_is_fatal() {
    let input = ONE_SAMPLE.replace("2021-03-05T10:00:00", "five past ten");
    match converted(&input) {
        Err(ConversionError::BadLocalTime(text)) => assert_eq!(text, "five past ten"),
        _ => panic!("a file was named"),
    }
    let missing = ONE_SAMPLE.replace("<DateTime>2021-03-05T10:00:00</DateTime>", "");
    match converted(&missing) {
        Err(ConversionError::BadLocalTime(text)) => assert_eq!(text, ""),
        _ => panic!("a file was named"),
    }
}

#[test]
fn a_bad_local_time_is_reported_before_a_later_fault() {
    let tokens = vec![
        Token::Start("SampleType".to_string()),
        Token::Characters("periodic".to_string()),
        Token::End("SampleType".to_string()),
        Token::End("Sample".to_string()),
    ];
    let fault = Some("1:1 Unexpected end of stream".to_string());
    assert!(matches!(select(&tokens, fault.clone()), Err(ConversionError::BadLocalTime(_))));
    assert!(matches!(select(&tokens[..3].to_vec(), fault), Err(ConversionError::Malformed(_))));
}

#[test]
fn a_local_time_without_periodic_sample_is_not_read() {
    let input = ONE_SAMPLE.replace("2021-03-05T10:00:00", "never").replace("periodic", "lap");
    assert!(matches!(converted(&input), Err(ConversionError::NoData)));
}

const THREE_SAMPLES: &str = "<sml><Header><DateTime>2021-03-05T10:00:00</DateTime></Header><Samples>
<Sample><Cadence>1.5</Cadence><Latitude>1.0</Latitude><Longitude>-0.5</Longitude><HR>1.2</HR>
<Temperature>300.0</Temperature><SeaLevelPressure>101325</SeaLevelPressure>
<Altitude>12.5</Altitude><Distance>0</Distance><Speed>2.5</Speed><VerticalSpeed>0</VerticalSpeed>
<SampleType>periodic</SampleType><UTC>2021-03-05T18:00:00Z</UTC></Sample>
<Sample><Altitude>twelve</Altitude><Distance>3</Distance><UTC>2021-03-05T18:00:01Z</UTC></Sample>
<Sample><Altitude>13.5</Altitude><Distance>6</Distance><UTC>2021-03-05T18:00:02Z</UTC></Sample>
</Samples></sml>";

#[test]
fn a_record_with_a_malformed_altitude_is_dropped_alone() {
    let written = converted(THREE_SAMPLES).unwrap();
    assert_eq!(
        written.dropped,
        vec![Dropped {
            index: 1,
            failure: FieldError { field: Measure::Altitude, cause: Cause::NotANumber },
        }]
    );
    assert_eq!(written.dropped[0].failure.field.name(), "altitude");
    let text = text_of(&written);
    assert_eq!(count(&text, "<trkpt "), 2);
    assert_eq!(count(&text, "<ele>12.5</ele>"), 1);
    assert_eq!(count(&text, "<ele>13.5</ele>"), 1);
    assert_eq!(count(&text, "<gpxdata:distance>0</gpxdata:distance>"), 1);
    assert_eq!(count(&text, "<gpxdata:distance>3</gpxdata:distance>"), 0);
    assert_eq!(count(&text, "<gpxdata:distance>6</gpxdata:distance>"), 1);
    assert!(text.starts_with(HEAD));
    assert!(text.ends_with(TAIL));
    let good = text_of(&converted(&THREE_SAMPLES.replace("<Sample><Altitude>twelve</Altitude><Distance>3</Distance><UTC>2021-03-05T18:00:01Z</UTC></Sample>", "")).unwrap());
    assert_eq!(text, good);
}

#[test]
fn degrees_are_native_units_times_180_over_pi() {
    let text = text_of(&converted(THREE_SAMPLES).unwrap());
    assert_eq!(count(&text, "<trkpt lat=\"57.29578\" lon=\"-28.64789\">"), 2);
    assert_eq!(shown(degrees(1.0)), "57.29578");
    assert_eq!(shown(degrees(0.0)), "0");
    assert_eq!(shown(degrees(std::f64::consts::PI)), "180");
}

#[test]
fn celsius_is_kelvin_less_273_16() {
    assert_eq!(shown(300.0 - 273.16), "26.84");
    assert_eq!(shown(273.16 - 273.16), "0");
    assert_eq!(shown(0.0 - 273.16), "-273.16");
}

#[test]
fn a_rate_beyond_sixteen_bits_drops_the_record() {
    let input = ONE_SAMPLE.replace("<HR>1.2</HR>", "<HR>1092.27</HR>");
    let written = converted(&input).unwrap();
    assert_eq!(
        written.dropped,
        vec![Dropped {
            index: 0,
            failure: FieldError { field: Measure::HeartRate, cause: Cause::OutOfRange },
        }]
    );
    assert_eq!(text_of(&written), empty_document());
    let input = ONE_SAMPLE.replace("101325", "6553600");
    let written = converted(&input).unwrap();
    assert_eq!(written.dropped[0].failure, FieldError { field: Measure::SeaLevelPressure, cause: Cause::OutOfRange });
    let input = ONE_SAMPLE.replace("101325", "6553549");
    let written = converted(&input).unwrap();
    assert!(written.dropped.is_empty());
    assert_eq!(count(&text_of(&written), "<gpxdata:seaLevelPressure>65535</gpxdata:seaLevelPressure>"), 1);
}

#[test]
fn only_the_first_sample_is_emitted_until_cadence_appears() {
    let mut input = String::from("<sml><DateTime>2021-03-05T10:00:00</DateTime>");
    for second in 0..5 {
        input.push_str(&format!(
            "<Sample><Latitude>0</Latitude><Longitude>0</Longitude><Temperature>300</Temperature><SeaLevelPressure>101325</SeaLevelPressure><Altitude>1</Altitude><Distance>{}</Distance><Speed>1</Speed><VerticalSpeed>0</VerticalSpeed><SampleType>periodic</SampleType><UTC>2021-03-05T18:00:0{}Z</UTC>{}</Sample>",
            second,
            second,
            if second == 3 { "<Cadence>1.5</Cadence>" } else { "" }
        ));
    }
    input.push_str("</sml>");
    let selection = selected(&input).unwrap();
    let times: Vec<String> = selection.samples.iter().map(|s| s.time_utc.clone()).collect();
    assert_eq!(
        times,
        vec!["2021-03-05T18:00:00Z", "2021-03-05T18:00:03Z", "2021-03-05T18:00:04Z"]
    );
    assert_eq!(selection.writer.file_name(), "Move_2021_03_05_10_00_00_Running.gpx");
}

#[test]
fn records_may_be_converted_without_any_sample() {
    let selection = selected(ONE_SAMPLE).unwrap();
    let written = write_track(selection.writer, &Vec::new()).unwrap();
    assert_eq!(text_of(&written), empty_document());
    assert!(written.dropped.is_empty());
}

#[test]
fn text_is_escaped_by_the_emitter() {
    let selection = selected(ONE_SAMPLE).unwrap();
    let mut records = Vec::new();
    for sample in selection.samples {
        let mut readings = readings_for(&sample);
        readings.speed_mps = Some("<2 & >1".to_string());
        readings.latitude_degrees = Some("\"0\"".to_string());
        records.push(Record { sample, readings });
    }
    let text = text_of(&write_track(selection.writer, &records).unwrap());
    assert_eq!(count(&text, "<gpxdata:speed>&lt;2 &amp; &gt;1</gpxdata:speed>"), 1);
    assert_eq!(count(&text, "<trkpt lat=\"&quot;0&quot;\" lon=\"0\">"), 1);
}
