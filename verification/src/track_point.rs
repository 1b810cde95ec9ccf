//! Conversion and validation: from an accumulator snapshot to a track point, or to the
//! first field that fails.
//!
//! Fractional arithmetic is not done here. A numeric stage reads each text as a number
//! and converts its unit; its outcome comes in as [`Readings`]. This module decides what
//! becomes of a record: which fields may be absent, which values must fit sixteen bits,
//! in which order the fields are checked, and which failure is reported.

use crate::calendar::{parse_utc_time, stamp_at, utc_time_of};
use crate::sample_rec::{SampleRec, SampleRecView};
use vstd::prelude::*;

verus! {

/// A measure of a track point.
#[derive(Clone, Copy, Debug, PartialEq, Eq, Structural)]
pub enum Measure {
    Cadence,
    HeartRate,
    Latitude,
    Longitude,
    Time,
    Temperature,
    Distance,
    Altitude,
    SeaLevelPressure,
    Speed,
    VerticalSpeed,
}

/// Why a field failed.
#[derive(Clone, Copy, Debug, PartialEq, Eq, Structural)]
pub enum Cause {
    /// The text is not a number.
    NotANumber,
    /// The converted value does not fit an unsigned sixteen-bit integer.
    OutOfRange,
    /// The text is not a time stamp.
    BadTime,
}

/// The failure of one record: the first field that failed, and why.
#[derive(Clone, Copy, Debug, PartialEq, Eq, Structural)]
pub struct FieldError {
    pub field: Measure,
    pub cause: Cause,
}

impl Measure {
    /// The name by which a diagnostic calls this measure.
    pub open spec fn label(self) -> Seq<char> {
        match self {
            Measure::Cadence => "cadence"@,
            Measure::HeartRate => "hr"@,
            Measure::Latitude => "latitude"@,
            Measure::Longitude => "longitude"@,
            Measure::Time => "time"@,
            Measure::Temperature => "temperature"@,
            Measure::Distance => "distance"@,
            Measure::Altitude => "altitude"@,
            Measure::SeaLevelPressure => "sea level pressure"@,
            Measure::Speed => "speed"@,
            Measure::VerticalSpeed => "vertical speed"@,
        }
    }

    /// The name by which a diagnostic calls this measure.
    pub fn name(&self) -> (name: &'static str)
        ensures
            name@ == self.label(),
    {
        match self {
            Measure::Cadence => "cadence",
            Measure::HeartRate => "hr",
            Measure::Latitude => "latitude",
            Measure::Longitude => "longitude",
            Measure::Time => "time",
            Measure::Temperature => "temperature",
            Measure::Distance => "distance",
            Measure::Altitude => "altitude",
            Measure::SeaLevelPressure => "sea level pressure",
            Measure::Speed => "speed",
            Measure::VerticalSpeed => "vertical speed",
        }
    }
}

/// What the numeric stage made of one snapshot. For each measure: `None` where the
/// text is not a number; otherwise the converted value, as decimal text for a fractional
/// measure and rounded to the nearest integer for a rate per minute and for the pressure.
#[derive(Clone, Debug, PartialEq, Eq)]
pub struct Readings {
    /// Latitude in degrees.
    pub latitude_degrees: Option<String>,
    /// Longitude in degrees.
    pub longitude_degrees: Option<String>,
    /// Cadence in steps per minute, rounded; not read where the cadence text is empty.
    pub cadence_ffm: Option<i32>,
    /// Heart rate in beats per minute, rounded; not read where the text is empty.
    pub hr_bpm: Option<i32>,
    /// Temperature in degrees Celsius.
    pub temperature_c: Option<String>,
    /// Distance in metres.
    pub distance_m: Option<String>,
    /// Altitude in metres.
    pub altitude_m: Option<String>,
    /// Sea-level pressure in millibar, rounded.
    pub sea_level_pressure_millibar: Option<i32>,
    /// Speed in metres per second.
    pub speed_mps: Option<String>,
    /// Vertical speed in metres per second.
    pub vertical_speed_mps: Option<String>,
}

/// [`Readings`] with its texts as sequences of characters.
pub struct ReadingsView {
    pub latitude_degrees: Option<Seq<char>>,
    pub longitude_degrees: Option<Seq<char>>,
    pub cadence_ffm: Option<i32>,
    pub hr_bpm: Option<i32>,
    pub temperature_c: Option<Seq<char>>,
    pub distance_m: Option<Seq<char>>,
    pub altitude_m: Option<Seq<char>>,
    pub sea_level_pressure_millibar: Option<i32>,
    pub speed_mps: Option<Seq<char>>,
    pub vertical_speed_mps: Option<Seq<char>>,
}

impl View for Readings {
    type V = ReadingsView;

    open spec fn view(&self) -> ReadingsView {
        ReadingsView {
            latitude_degrees: self.latitude_degrees.deep_view(),
            longitude_degrees: self.longitude_degrees.deep_view(),
            cadence_ffm: self.cadence_ffm,
            hr_bpm: self.hr_bpm,
            temperature_c: self.temperature_c.deep_view(),
            distance_m: self.distance_m.deep_view(),
            altitude_m: self.altitude_m.deep_view(),
            sea_level_pressure_millibar: self.sea_level_pressure_millibar,
            speed_mps: self.speed_mps.deep_view(),
            vertical_speed_mps: self.vertical_speed_mps.deep_view(),
        }
    }
}

impl DeepView for Readings {
    type V = ReadingsView;

    open spec fn deep_view(&self) -> ReadingsView {
        self@
    }
}

/// A validated, unit-converted fix, ready to be written.
#[derive(Clone, Debug, PartialEq, Eq)]
pub struct TrkPt {
    /// Latitude in degrees.
    pub latitude_degrees: String,
    /// Longitude in degrees.
    pub longitude_degrees: String,
    /// The time of the fix in UTC: RFC 3339 with milliseconds and `Z`.
    pub time_utc: String,
    /// Heart rate in beats per minute, where the sample had one.
    pub hr_bpm: Option<u16>,
    /// Cadence in steps per minute, where the sample had one.
    pub cadence_ffm: Option<u16>,
    /// Temperature in degrees Celsius.
    pub temperature_c: String,
    /// Distance in metres.
    pub distance_m: String,
    /// Altitude in metres.
    pub altitude_m: String,
    /// Sea-level pressure in millibar.
    pub sea_level_pressure_millibar: u16,
    /// Speed in metres per second.
    pub speed_mps: String,
    /// Vertical speed in metres per second.
    pub vertical_speed_mps: String,
}

/// A [`TrkPt`] with its texts as sequences of characters.
pub struct TrkPtView {
    pub latitude_degrees: Seq<char>,
    pub longitude_degrees: Seq<char>,
    pub time_utc: Seq<char>,
    pub hr_bpm: Option<u16>,
    pub cadence_ffm: Option<u16>,
    pub temperature_c: Seq<char>,
    pub distance_m: Seq<char>,
    pub altitude_m: Seq<char>,
    pub sea_level_pressure_millibar: u16,
    pub speed_mps: Seq<char>,
    pub vertical_speed_mps: Seq<char>,
}

impl View for TrkPt {
    type V = TrkPtView;

    open spec fn view(&self) -> TrkPtView {
        TrkPtView {
            latitude_degrees: self.latitude_degrees@,
            longitude_degrees: self.longitude_degrees@,
            time_utc: self.time_utc@,
            hr_bpm: self.hr_bpm,
            cadence_ffm: self.cadence_ffm,
            temperature_c: self.temperature_c@,
            distance_m: self.distance_m@,
            altitude_m: self.altitude_m@,
            sea_level_pressure_millibar: self.sea_level_pressure_millibar,
            speed_mps: self.speed_mps@,
            vertical_speed_mps: self.vertical_speed_mps@,
        }
    }
}

/// Whether a rounded value fits an unsigned sixteen-bit integer.
pub open spec fn fits_u16(rounded: int) -> bool {
    0 <= rounded <= 0xffff
}

/// Why an optional rate fails, if it does. An empty text is no failure: the rate is
/// absent, whatever the reading.
pub open spec fn rate_failure(text: Seq<char>, rounded: Option<i32>) -> Option<Cause> {
    if text.len() == 0 {
        None
    } else {
        match rounded {
            None => Some(Cause::NotANumber),
            Some(v) => if fits_u16(v as int) {
                None
            } else {
                Some(Cause::OutOfRange)
            },
        }
    }
}

/// The rate per minute of a text that did not fail: absent for an empty text.
pub open spec fn rate_of(text: Seq<char>, rounded: Option<i32>) -> Option<u16> {
    if text.len() == 0 {
        None
    } else {
        match rounded {
            Some(v) => Some(v as u16),
            None => None,
        }
    }
}

/// Why a required fractional field fails, if it does.
pub open spec fn number_failure(reading: Option<Seq<char>>) -> Option<Cause> {
    if reading is Some {
        None
    } else {
        Some(Cause::NotANumber)
    }
}

/// Why the pressure fails, if it does.
pub open spec fn pressure_failure(rounded: Option<i32>) -> Option<Cause> {
    match rounded {
        None => Some(Cause::NotANumber),
        Some(v) => if fits_u16(v as int) {
            None
        } else {
            Some(Cause::OutOfRange)
        },
    }
}

/// Why `measure` fails for this snapshot and these readings, if it does.
pub open spec fn failure_of(measure: Measure, sample: SampleRecView, readings: ReadingsView)
    -> Option<Cause> {
    match measure {
        Measure::Cadence => rate_failure(sample.cadence_ffs, readings.cadence_ffm),
        Measure::HeartRate => rate_failure(sample.hr_bps, readings.hr_bpm),
        Measure::Latitude => number_failure(readings.latitude_degrees),
        Measure::Longitude => number_failure(readings.longitude_degrees),
        Measure::Time => if utc_time_of(sample.time_utc) is Some {
            None
        } else {
            Some(Cause::BadTime)
        },
        Measure::Temperature => number_failure(readings.temperature_c),
        Measure::Distance => number_failure(readings.distance_m),
        Measure::Altitude => number_failure(readings.altitude_m),
        Measure::SeaLevelPressure => pressure_failure(readings.sea_level_pressure_millibar),
        Measure::Speed => number_failure(readings.speed_mps),
        Measure::VerticalSpeed => number_failure(readings.vertical_speed_mps),
    }
}

/// The measures in the order in which they are checked.
pub open spec fn checking_order() -> Seq<Measure> {
    seq![
        Measure::Cadence,
        Measure::HeartRate,
        Measure::Latitude,
        Measure::Longitude,
        Measure::Time,
        Measure::Temperature,
        Measure::Distance,
        Measure::Altitude,
        Measure::SeaLevelPressure,
        Measure::Speed,
        Measure::VerticalSpeed,
    ]
}

/// The failure of the first measure, from position `from` of the checking order on,
/// that fails.
pub open spec fn first_failure_from(from: int, sample: SampleRecView, readings: ReadingsView)
    -> Option<FieldError>
    decreases checking_order().len() - from,
{
    if from < 0 || from >= checking_order().len() {
        None
    } else {
        let measure = checking_order()[from];
        match failure_of(measure, sample, readings) {
            Some(cause) => Some(FieldError { field: measure, cause }),
            None => first_failure_from(from + 1, sample, readings),
        }
    }
}

/// The failure of the record: that of the first measure in checking order that fails.
pub open spec fn first_failure(sample: SampleRecView, readings: ReadingsView) -> Option<
    FieldError,
> {
    first_failure_from(0, sample, readings)
}

/// The track point of a record in which no measure fails.
pub open spec fn assembled(sample: SampleRecView, readings: ReadingsView) -> TrkPtView {
    TrkPtView {
        latitude_degrees: readings.latitude_degrees->0,
        longitude_degrees: readings.longitude_degrees->0,
        time_utc: utc_time_of(sample.time_utc)->0.rfc3339_millis(),
        hr_bpm: rate_of(sample.hr_bps, readings.hr_bpm),
        cadence_ffm: rate_of(sample.cadence_ffs, readings.cadence_ffm),
        temperature_c: readings.temperature_c->0,
        distance_m: readings.distance_m->0,
        altitude_m: readings.altitude_m->0,
        sea_level_pressure_millibar: readings.sea_level_pressure_millibar->0 as u16,
        speed_mps: readings.speed_mps->0,
        vertical_speed_mps: readings.vertical_speed_mps->0,
    }
}

/// What becomes of a record: its track point, or its first failure.
pub open spec fn track_point_of(sample: SampleRecView, readings: ReadingsView) -> Result<
    TrkPtView,
    FieldError,
> {
    match first_failure(sample, readings) {
        Some(failure) => Err(failure),
        None => Ok(assembled(sample, readings)),
    }
}

/// A rounded count per minute as an unsigned sixteen-bit integer, if it fits.
pub fn seconds_from_minutes(rounded: i32) -> (converted: Result<u16, Cause>)
    ensures
        converted == if fits_u16(rounded as int) {
            Ok::<u16, Cause>(rounded as u16)
        } else {
            Err::<u16, Cause>(Cause::OutOfRange)
        },
{
    if 0 <= rounded && rounded <= 0xffff {
        Ok(rounded as u16)
    } else {
        Err(Cause::OutOfRange)
    }
}

/// Beats per minute from the rounded product of beats per second and sixty.
pub fn bpm_from_bps(rounded: i32) -> (bpm: Result<u16, Cause>)
    ensures
        bpm == if fits_u16(rounded as int) {
            Ok::<u16, Cause>(rounded as u16)
        } else {
            Err::<u16, Cause>(Cause::OutOfRange)
        },
{
    seconds_from_minutes(rounded)
}

/// Steps per minute from the rounded product of steps per second and sixty.
pub fn ffm_from_ffs(rounded: i32) -> (ffm: Result<u16, Cause>)
    ensures
        ffm == if fits_u16(rounded as int) {
            Ok::<u16, Cause>(rounded as u16)
        } else {
            Err::<u16, Cause>(Cause::OutOfRange)
        },
{
    seconds_from_minutes(rounded)
}

/// Millibar from the rounded hundredth of a pressure in Pascal.
pub fn millibar_from_pa(rounded: i32) -> (millibar: Result<u16, Cause>)
    ensures
        millibar == if fits_u16(rounded as int) {
            Ok::<u16, Cause>(rounded as u16)
        } else {
            Err::<u16, Cause>(Cause::OutOfRange)
        },
{
    if 0 <= rounded && rounded <= 0xffff {
        Ok(rounded as u16)
    } else {
        Err(Cause::OutOfRange)
    }
}

/// An optional rate: absent for an empty text, otherwise the reading, which must be a
/// number that fits sixteen bits.
pub fn optional_rate(text: &String, rounded: Option<i32>) -> (rate: Result<Option<u16>, Cause>)
    ensures
        rate == match rate_failure(text@, rounded) {
            Some(cause) => Err::<Option<u16>, Cause>(cause),
            None => Ok::<Option<u16>, Cause>(rate_of(text@, rounded)),
        },
{
    if text.as_str().is_empty() {
        Ok(None)
    } else {
        match rounded {
            None => Err(Cause::NotANumber),
            Some(v) => match seconds_from_minutes(v) {
                Ok(rate) => Ok(Some(rate)),
                Err(cause) => Err(cause),
            },
        }
    }
}

/// A required fractional field: the reading's text, which must be there.
pub fn required_number(reading: &Option<String>) -> (text: Result<String, Cause>)
    ensures
        text is Ok == number_failure(reading.deep_view()) is None,
        text matches Ok(t) ==> Some(t@) == reading.deep_view(),
        text matches Err(cause) ==> Some(cause) == number_failure(reading.deep_view()),
{
    match reading {
        Some(text) => Ok(text.clone()),
        None => Err(Cause::NotANumber),
    }
}

impl TrkPt {
    /// The latitude in degrees, as it is written.
    pub fn latitude(&self) -> (text: String)
        ensures
            text@ == self@.latitude_degrees,
    {
        self.latitude_degrees.clone()
    }

    /// The longitude in degrees, as it is written.
    pub fn longitude(&self) -> (text: String)
        ensures
            text@ == self@.longitude_degrees,
    {
        self.longitude_degrees.clone()
    }

    /// The time of the fix, as it is written.
    pub fn time(&self) -> (text: String)
        ensures
            text@ == self@.time_utc,
    {
        self.time_utc.clone()
    }

    /// Converts and validates one snapshot. The measures are checked in a fixed order
    /// and the first failure is the record's; a record without failure gives its track
    /// point.
    pub fn try_from(sample: &SampleRec, readings: &Readings) -> (converted: Result<
        TrkPt,
        FieldError,
    >)
        ensures
            converted is Ok == track_point_of(sample@, readings@) is Ok,
            converted matches Ok(point) ==> Ok::<TrkPtView, FieldError>(point@) == track_point_of(
                sample@,
                readings@,
            ),
            converted matches Err(failure) ==> Err::<TrkPtView, FieldError>(failure)
                == track_point_of(sample@, readings@),
    {
        proof {
            reveal_with_fuel(first_failure_from, 12);
        }
        let cadence_ffm = match optional_rate(&sample.cadence_ffs, readings.cadence_ffm) {
            Ok(rate) => rate,
            Err(cause) => return Err(FieldError { field: Measure::Cadence, cause }),
        };
        let hr_bpm = match optional_rate(&sample.hr_bps, readings.hr_bpm) {
            Ok(rate) => rate,
            Err(cause) => return Err(FieldError { field: Measure::HeartRate, cause }),
        };
        let latitude_degrees = match required_number(&readings.latitude_degrees) {
            Ok(text) => text,
            Err(cause) => return Err(FieldError { field: Measure::Latitude, cause }),
        };
        let longitude_degrees = match required_number(&readings.longitude_degrees) {
            Ok(text) => text,
            Err(cause) => return Err(FieldError { field: Measure::Longitude, cause }),
        };
        let time_utc = match parse_utc_time(sample.time_utc.as_str()) {
            Some(time) => match stamp_at(&time) {
                Some(text) => text,
                None => return Err(FieldError { field: Measure::Time, cause: Cause::BadTime }),
            },
            None => return Err(FieldError { field: Measure::Time, cause: Cause::BadTime }),
        };
        let temperature_c = match required_number(&readings.temperature_c) {
            Ok(text) => text,
            Err(cause) => return Err(FieldError { field: Measure::Temperature, cause }),
        };
        let distance_m = match required_number(&readings.distance_m) {
            Ok(text) => text,
            Err(cause) => return Err(FieldError { field: Measure::Distance, cause }),
        };
        let altitude_m = match required_number(&readings.altitude_m) {
            Ok(text) => text,
            Err(cause) => return Err(FieldError { field: Measure::Altitude, cause }),
        };
        let sea_level_pressure_millibar = match readings.sea_level_pressure_millibar {
            None => return Err(
                FieldError { field: Measure::SeaLevelPressure, cause: Cause::NotANumber },
            ),
            Some(rounded) => match millibar_from_pa(rounded) {
                Ok(millibar) => millibar,
                Err(cause) => return Err(FieldError { field: Measure::SeaLevelPressure, cause }),
            },
        };
        let speed_mps = match required_number(&readings.speed_mps) {
            Ok(text) => text,
            Err(cause) => return Err(FieldError { field: Measure::Speed, cause }),
        };
        let vertical_speed_mps = match required_number(&readings.vertical_speed_mps) {
            Ok(text) => text,
            Err(cause) => return Err(FieldError { field: Measure::VerticalSpeed, cause }),
        };
        Ok(
            TrkPt {
                latitude_degrees,
                longitude_degrees,
                time_utc,
                hr_bpm,
                cadence_ffm,
                temperature_c,
                distance_m,
                altitude_m,
                sea_level_pressure_millibar,
                speed_mps,
                vertical_speed_mps,
            },
        )
    }
}

/// A record fails by the measure at position `at` of the checking order exactly if
/// that measure fails and none before it does; its cause is the cause reported.
pub proof fn lemma_first_failure(sample: SampleRecView, readings: ReadingsView, at: int)
    requires
        0 <= at < checking_order().len(),
        failure_of(checking_order()[at], sample, readings) is Some,
        forall|before: int|
            0 <= before < at ==> failure_of(
                #[trigger] checking_order()[before],
                sample,
                readings,
            ) is None,
    ensures
        track_point_of(sample, readings) == Err::<TrkPtView, FieldError>(
            FieldError {
                field: checking_order()[at],
                cause: failure_of(checking_order()[at], sample, readings)->0,
            },
        ),
{
    lemma_first_failure_from(sample, readings, 0, at);
}

/// The search for the first failure, started at or before a failing measure that no
/// failing measure precedes, ends at that measure.
proof fn lemma_first_failure_from(
    sample: SampleRecView,
    readings: ReadingsView,
    from: int,
    at: int,
)
    requires
        0 <= from <= at < checking_order().len(),
        failure_of(checking_order()[at], sample, readings) is Some,
        forall|before: int|
            0 <= before < at ==> failure_of(
                #[trigger] checking_order()[before],
                sample,
                readings,
            ) is None,
    ensures
        first_failure_from(from, sample, readings) == Some(
            FieldError {
                field: checking_order()[at],
                cause: failure_of(checking_order()[at], sample, readings)->0,
            },
        ),
    decreases at - from,
{
    if from < at {
        assert(failure_of(checking_order()[from], sample, readings) is None);
        lemma_first_failure_from(sample, readings, from + 1, at);
    }
}

/// A record converts exactly if none of its measures fails.
pub proof fn lemma_converts(sample: SampleRecView, readings: ReadingsView)
    ensures
        track_point_of(sample, readings) is Ok == (forall|at: int|
            0 <= at < checking_order().len() ==> failure_of(
                #[trigger] checking_order()[at],
                sample,
                readings,
            ) is None),
{
    reveal_with_fuel(first_failure_from, 12);
    if track_point_of(sample, readings) is Ok {
        assert forall|at: int| 0 <= at < checking_order().len() implies failure_of(
            #[trigger] checking_order()[at],
            sample,
            readings,
        ) is None by {
            assert(at == 0 || at == 1 || at == 2 || at == 3 || at == 4 || at == 5 || at == 6
                || at == 7 || at == 8 || at == 9 || at == 10);
        }
    } else {
        let failure = first_failure(sample, readings)->0;
        let order = checking_order();
        assert(exists|at: int|
            0 <= at < order.len() && failure_of(#[trigger] order[at], sample, readings) is Some)
            by {
            if failure_of(order[0], sample, readings) is Some {
            } else if failure_of(order[1], sample, readings) is Some {
            } else if failure_of(order[2], sample, readings) is Some {
            } else if failure_of(order[3], sample, readings) is Some {
            } else if failure_of(order[4], sample, readings) is Some {
            } else if failure_of(order[5], sample, readings) is Some {
            } else if failure_of(order[6], sample, readings) is Some {
            } else if failure_of(order[7], sample, readings) is Some {
            } else if failure_of(order[8], sample, readings) is Some {
            } else if failure_of(order[9], sample, readings) is Some {
            } else {
                assert(failure_of(order[10], sample, readings) is Some);
            }
        }
    }
}

/// A record whose cadence text is empty converts, if at all, to a point without
/// cadence; one whose heart rate text is empty, to a point without heart rate.
pub proof fn lemma_empty_text_is_absent(sample: SampleRecView, readings: ReadingsView)
    requires
        track_point_of(sample, readings) is Ok,
    ensures
        sample.cadence_ffs.len() == 0 ==> track_point_of(sample, readings)->Ok_0.cadence_ffm
            is None,
        sample.hr_bps.len() == 0 ==> track_point_of(sample, readings)->Ok_0.hr_bpm is None,
        sample.cadence_ffs.len() > 0 ==> track_point_of(sample, readings)->Ok_0.cadence_ffm
            is Some,
        sample.hr_bps.len() > 0 ==> track_point_of(sample, readings)->Ok_0.hr_bpm is Some,
{
    lemma_converts(sample, readings);
    assert(failure_of(checking_order()[0], sample, readings) is None);
    assert(failure_of(checking_order()[1], sample, readings) is None);
}

} // verus!
