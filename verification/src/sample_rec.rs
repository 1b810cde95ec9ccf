//! The sample accumulator: the last text seen for every recognised field.
//!
//! One record lives for a whole input stream. Nothing ever clears it, so a field that a
//! sample block does not supply keeps the text of an earlier block.

use crate::fields::{spells, Field};
use vstd::prelude::*;

verus! {

/// The texts that a [`SampleRec`] holds, as sequences of characters.
pub struct SampleRecView {
    pub local_time: Seq<char>,
    pub latitude_ster: Seq<char>,
    pub longitude_ster: Seq<char>,
    pub vertical_speed_mps: Seq<char>,
    pub cadence_ffs: Seq<char>,
    pub hr_bps: Seq<char>,
    pub temperature_k: Seq<char>,
    pub sea_level_pressure_pa: Seq<char>,
    pub altitude_m: Seq<char>,
    pub distance_m: Seq<char>,
    pub speed_mps: Seq<char>,
    pub elapsed_time_sec: Seq<char>,
    pub sample_type: Seq<char>,
    pub time_utc: Seq<char>,
}

impl SampleRecView {
    /// The record in which every field is empty.
    pub open spec fn empty() -> SampleRecView {
        SampleRecView {
            local_time: Seq::empty(),
            latitude_ster: Seq::empty(),
            longitude_ster: Seq::empty(),
            vertical_speed_mps: Seq::empty(),
            cadence_ffs: Seq::empty(),
            hr_bps: Seq::empty(),
            temperature_k: Seq::empty(),
            sea_level_pressure_pa: Seq::empty(),
            altitude_m: Seq::empty(),
            distance_m: Seq::empty(),
            speed_mps: Seq::empty(),
            elapsed_time_sec: Seq::empty(),
            sample_type: Seq::empty(),
            time_utc: Seq::empty(),
        }
    }

    /// The text stored for `field`.
    pub open spec fn get(self, field: Field) -> Seq<char> {
        match field {
            Field::LocalTime => self.local_time,
            Field::Latitude => self.latitude_ster,
            Field::Longitude => self.longitude_ster,
            Field::VerticalSpeed => self.vertical_speed_mps,
            Field::Cadence => self.cadence_ffs,
            Field::HeartRate => self.hr_bps,
            Field::Temperature => self.temperature_k,
            Field::SeaLevelPressure => self.sea_level_pressure_pa,
            Field::Altitude => self.altitude_m,
            Field::Distance => self.distance_m,
            Field::Speed => self.speed_mps,
            Field::ElapsedTime => self.elapsed_time_sec,
            Field::SampleType => self.sample_type,
            Field::TimeUtc => self.time_utc,
        }
    }

    /// This record with the text of `field` replaced by `text`; every other field as it was.
    pub open spec fn with(self, field: Field, text: Seq<char>) -> SampleRecView {
        match field {
            Field::LocalTime => SampleRecView { local_time: text, ..self },
            Field::Latitude => SampleRecView { latitude_ster: text, ..self },
            Field::Longitude => SampleRecView { longitude_ster: text, ..self },
            Field::VerticalSpeed => SampleRecView { vertical_speed_mps: text, ..self },
            Field::Cadence => SampleRecView { cadence_ffs: text, ..self },
            Field::HeartRate => SampleRecView { hr_bps: text, ..self },
            Field::Temperature => SampleRecView { temperature_k: text, ..self },
            Field::SeaLevelPressure => SampleRecView { sea_level_pressure_pa: text, ..self },
            Field::Altitude => SampleRecView { altitude_m: text, ..self },
            Field::Distance => SampleRecView { distance_m: text, ..self },
            Field::Speed => SampleRecView { speed_mps: text, ..self },
            Field::ElapsedTime => SampleRecView { elapsed_time_sec: text, ..self },
            Field::SampleType => SampleRecView { sample_type: text, ..self },
            Field::TimeUtc => SampleRecView { time_utc: text, ..self },
        }
    }

    /// Whether the sample type is exactly `periodic`.
    pub open spec fn is_periodic(self) -> bool {
        self.sample_type == "periodic"@
    }

    /// Whether the cadence text is not empty.
    pub open spec fn has_cadence(self) -> bool {
        self.cadence_ffs.len() > 0
    }
}

/// The accumulator itself: one text per field, as last seen in the stream.
#[derive(Clone, Debug, PartialEq, Eq)]
pub struct SampleRec {
    pub local_time: String,
    pub latitude_ster: String,
    pub longitude_ster: String,
    pub vertical_speed_mps: String,
    pub cadence_ffs: String,
    pub hr_bps: String,
    pub temperature_k: String,
    pub sea_level_pressure_pa: String,
    pub altitude_m: String,
    pub distance_m: String,
    pub speed_mps: String,
    pub elapsed_time_sec: String,
    pub sample_type: String,
    pub time_utc: String,
}

impl View for SampleRec {
    type V = SampleRecView;

    open spec fn view(&self) -> SampleRecView {
        SampleRecView {
            local_time: self.local_time@,
            latitude_ster: self.latitude_ster@,
            longitude_ster: self.longitude_ster@,
            vertical_speed_mps: self.vertical_speed_mps@,
            cadence_ffs: self.cadence_ffs@,
            hr_bps: self.hr_bps@,
            temperature_k: self.temperature_k@,
            sea_level_pressure_pa: self.sea_level_pressure_pa@,
            altitude_m: self.altitude_m@,
            distance_m: self.distance_m@,
            speed_mps: self.speed_mps@,
            elapsed_time_sec: self.elapsed_time_sec@,
            sample_type: self.sample_type@,
            time_utc: self.time_utc@,
        }
    }
}

impl DeepView for SampleRec {
    type V = SampleRecView;

    open spec fn deep_view(&self) -> SampleRecView {
        self@
    }
}

impl Default for SampleRec {
    fn default() -> (rec: SampleRec)
        ensures
            rec@ == SampleRecView::empty(),
    {
        SampleRec {
            local_time: String::new(),
            latitude_ster: String::new(),
            longitude_ster: String::new(),
            vertical_speed_mps: String::new(),
            cadence_ffs: String::new(),
            hr_bps: String::new(),
            temperature_k: String::new(),
            sea_level_pressure_pa: String::new(),
            altitude_m: String::new(),
            distance_m: String::new(),
            speed_mps: String::new(),
            elapsed_time_sec: String::new(),
            sample_type: String::new(),
            time_utc: String::new(),
        }
    }
}

impl SampleRec {
    /// Stores the device-local date and time.
    pub fn local_time(&mut self, value: String)
        ensures
            final(self)@ == old(self)@.with(Field::LocalTime, value@),
    {
        self.local_time = value;
    }

    /// Stores the latitude.
    pub fn latitude_ster(&mut self, value: String)
        ensures
            final(self)@ == old(self)@.with(Field::Latitude, value@),
    {
        self.latitude_ster = value;
    }

    /// Stores the longitude.
    pub fn longitude_ster(&mut self, value: String)
        ensures
            final(self)@ == old(self)@.with(Field::Longitude, value@),
    {
        self.longitude_ster = value;
    }

    /// Stores the vertical speed.
    pub fn vertical_speed_mps(&mut self, value: String)
        ensures
            final(self)@ == old(self)@.with(Field::VerticalSpeed, value@),
    {
        self.vertical_speed_mps = value;
    }

    /// Stores the cadence.
    pub fn cadence_ffs(&mut self, value: String)
        ensures
            final(self)@ == old(self)@.with(Field::Cadence, value@),
    {
        self.cadence_ffs = value;
    }

    /// Stores the heart rate.
    pub fn hr_bps(&mut self, value: String)
        ensures
            final(self)@ == old(self)@.with(Field::HeartRate, value@),
    {
        self.hr_bps = value;
    }

    /// Stores the temperature.
    pub fn temperature_k(&mut self, value: String)
        ensures
            final(self)@ == old(self)@.with(Field::Temperature, value@),
    {
        self.temperature_k = value;
    }

    /// Stores the sea-level pressure.
    pub fn sea_level_pressure_pa(&mut self, value: String)
        ensures
            final(self)@ == old(self)@.with(Field::SeaLevelPressure, value@),
    {
        self.sea_level_pressure_pa = value;
    }

    /// Stores the altitude.
    pub fn altitude_m(&mut self, value: String)
        ensures
            final(self)@ == old(self)@.with(Field::Altitude, value@),
    {
        self.altitude_m = value;
    }

    /// Stores the distance.
    pub fn distance_m(&mut self, value: String)
        ensures
            final(self)@ == old(self)@.with(Field::Distance, value@),
    {
        self.distance_m = value;
    }

    /// Stores the speed.
    pub fn speed_mps(&mut self, value: String)
        ensures
            final(self)@ == old(self)@.with(Field::Speed, value@),
    {
        self.speed_mps = value;
    }

    /// Stores the elapsed time.
    pub fn elapsed_time_sec(&mut self, value: String)
        ensures
            final(self)@ == old(self)@.with(Field::ElapsedTime, value@),
    {
        self.elapsed_time_sec = value;
    }

    /// Stores the sample type.
    pub fn sample_type(&mut self, value: String)
        ensures
            final(self)@ == old(self)@.with(Field::SampleType, value@),
    {
        self.sample_type = value;
    }

    /// Stores the absolute UTC time.
    pub fn time_utc(&mut self, value: String)
        ensures
            final(self)@ == old(self)@.with(Field::TimeUtc, value@),
    {
        self.time_utc = value;
    }

    /// Overwrites the text of `field` with `value` and leaves every other field alone.
    pub fn set(&mut self, field: Field, value: String)
        ensures
            final(self)@ == old(self)@.with(field, value@),
            final(self)@.get(field) == value@,
    {
        match field {
            Field::LocalTime => self.local_time(value),
            Field::Latitude => self.latitude_ster(value),
            Field::Longitude => self.longitude_ster(value),
            Field::VerticalSpeed => self.vertical_speed_mps(value),
            Field::Cadence => self.cadence_ffs(value),
            Field::HeartRate => self.hr_bps(value),
            Field::Temperature => self.temperature_k(value),
            Field::SeaLevelPressure => self.sea_level_pressure_pa(value),
            Field::Altitude => self.altitude_m(value),
            Field::Distance => self.distance_m(value),
            Field::Speed => self.speed_mps(value),
            Field::ElapsedTime => self.elapsed_time_sec(value),
            Field::SampleType => self.sample_type(value),
            Field::TimeUtc => self.time_utc(value),
        }
    }

    /// A copy of the record as it stands now.
    pub fn snapshot(&self) -> (copy: SampleRec)
        ensures
            copy@ == self@,
    {
        SampleRec {
            local_time: self.local_time.clone(),
            latitude_ster: self.latitude_ster.clone(),
            longitude_ster: self.longitude_ster.clone(),
            vertical_speed_mps: self.vertical_speed_mps.clone(),
            cadence_ffs: self.cadence_ffs.clone(),
            hr_bps: self.hr_bps.clone(),
            temperature_k: self.temperature_k.clone(),
            sea_level_pressure_pa: self.sea_level_pressure_pa.clone(),
            altitude_m: self.altitude_m.clone(),
            distance_m: self.distance_m.clone(),
            speed_mps: self.speed_mps.clone(),
            elapsed_time_sec: self.elapsed_time_sec.clone(),
            sample_type: self.sample_type.clone(),
            time_utc: self.time_utc.clone(),
        }
    }

    /// Whether the stored sample type is exactly `periodic`.
    pub fn is_periodic(&self) -> (periodic: bool)
        ensures
            periodic == self@.is_periodic(),
    {
        spells(&self.sample_type, "periodic")
    }

    /// Whether a cadence text is stored.
    pub fn has_cadence(&self) -> (present: bool)
        ensures
            present == self@.has_cadence(),
    {
        !self.cadence_ffs.as_str().is_empty()
    }
}

} // verus!
