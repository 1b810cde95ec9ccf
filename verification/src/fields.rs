//! The tag router: which accumulator field an element's character data feeds.

use vstd::prelude::*;

verus! {

/// One slot of the sample accumulator.
#[derive(Clone, Copy, Debug, PartialEq, Eq, Structural)]
pub enum Field {
    /// Device-local date and time; only names the output file.
    LocalTime,
    /// Latitude in the device's angular unit.
    Latitude,
    /// Longitude in the device's angular unit.
    Longitude,
    /// Vertical speed in metres per second.
    VerticalSpeed,
    /// Cadence in events per second; may be empty.
    Cadence,
    /// Heart rate in events per second; may be empty.
    HeartRate,
    /// Temperature in Kelvin.
    Temperature,
    /// Sea-level pressure in Pascal.
    SeaLevelPressure,
    /// Altitude in metres; two element names feed it.
    Altitude,
    /// Distance in metres.
    Distance,
    /// Speed in metres per second.
    Speed,
    /// Elapsed time in seconds.
    ElapsedTime,
    /// The kind of sample.
    SampleType,
    /// The absolute UTC time of the fix.
    TimeUtc,
}

/// The field that the element called `name` feeds, if it is one of the fifteen
/// recognised names. Names are compared exactly, letter case included.
pub open spec fn route(name: Seq<char>) -> Option<Field> {
    if name == "DateTime"@ {
        Some(Field::LocalTime)
    } else if name == "GPSAltitude"@ {
        Some(Field::Altitude)
    } else if name == "Latitude"@ {
        Some(Field::Latitude)
    } else if name == "Longitude"@ {
        Some(Field::Longitude)
    } else if name == "VerticalSpeed"@ {
        Some(Field::VerticalSpeed)
    } else if name == "Cadence"@ {
        Some(Field::Cadence)
    } else if name == "HR"@ {
        Some(Field::HeartRate)
    } else if name == "Temperature"@ {
        Some(Field::Temperature)
    } else if name == "SeaLevelPressure"@ {
        Some(Field::SeaLevelPressure)
    } else if name == "Altitude"@ {
        Some(Field::Altitude)
    } else if name == "Distance"@ {
        Some(Field::Distance)
    } else if name == "Speed"@ {
        Some(Field::Speed)
    } else if name == "Time"@ {
        Some(Field::ElapsedTime)
    } else if name == "SampleType"@ {
        Some(Field::SampleType)
    } else if name == "UTC"@ {
        Some(Field::TimeUtc)
    } else {
        None
    }
}

/// Whether `text` spells exactly `word`.
pub fn spells(text: &String, word: &str) -> (same: bool)
    ensures
        same == (text@ == word@),
{
    let owned: String = word.to_owned();
    *text == owned
}

/// Routes an element name to the field it feeds; `None` for every other name.
pub fn setter_for(name: String) -> (field: Option<Field>)
    ensures
        field == route(name@),
{
    if spells(&name, "DateTime") {
        Some(Field::LocalTime)
    } else if spells(&name, "GPSAltitude") {
        Some(Field::Altitude)
    } else if spells(&name, "Latitude") {
        Some(Field::Latitude)
    } else if spells(&name, "Longitude") {
        Some(Field::Longitude)
    } else if spells(&name, "VerticalSpeed") {
        Some(Field::VerticalSpeed)
    } else if spells(&name, "Cadence") {
        Some(Field::Cadence)
    } else if spells(&name, "HR") {
        Some(Field::HeartRate)
    } else if spells(&name, "Temperature") {
        Some(Field::Temperature)
    } else if spells(&name, "SeaLevelPressure") {
        Some(Field::SeaLevelPressure)
    } else if spells(&name, "Altitude") {
        Some(Field::Altitude)
    } else if spells(&name, "Distance") {
        Some(Field::Distance)
    } else if spells(&name, "Speed") {
        Some(Field::Speed)
    } else if spells(&name, "Time") {
        Some(Field::ElapsedTime)
    } else if spells(&name, "SampleType") {
        Some(Field::SampleType)
    } else if spells(&name, "UTC") {
        Some(Field::TimeUtc)
    } else {
        None
    }
}

} // verus!
