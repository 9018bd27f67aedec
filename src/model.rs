use vstd::prelude::*;

use crate::timestamp::Timestamp;

verus! {

/// A decoding failure: the document was malformed, or a field held a value
/// that does not fit the model.
#[derive(Debug, Clone, PartialEq, Eq)]
pub enum Error {
    /// The document could not be decoded; holds the decoder's message.
    Parse(String),
    /// A date and time could not be read; holds the text.
    Timestamp(String),
}

/// A heart-rate reading, in beats per minute.
#[derive(Debug, Clone, Copy, PartialEq, Eq)]
pub struct HeartRate {
    pub value: u32,
}

/// A geographic position, in units of 1e-7 degrees.
#[derive(Debug, Clone, Copy, PartialEq, Eq)]
pub struct Position {
    pub lat: i32,
    pub lon: i32,
}

/// Whether a sensor was delivering readings when a sample was taken.
#[derive(Debug, Clone, Copy, PartialEq, Eq)]
pub enum SensorState {
    Present,
    Absent,
}

/// One instantaneous reading.
#[derive(Debug, Clone, PartialEq, Eq)]
pub struct Sample {
    pub time: Timestamp,
    pub position: Option<Position>,
    /// Altitude in millimetres, when one was recorded.
    pub altitude: Option<i32>,
    pub heart_rate: HeartRate,
    pub sensor_state: SensorState,
}

/// The samples of one lap, in the order in which they were taken.
#[derive(Debug, Clone, PartialEq, Eq)]
pub struct Track {
    pub samples: Vec<Sample>,
}

/// A contiguous segment of an activity.
#[derive(Debug, Clone, PartialEq, Eq)]
pub struct Lap {
    /// Elapsed time in milliseconds.
    pub time: u32,
    /// Distance covered in millimetres.
    pub distance: u32,
    pub track: Track,
    /// Energy in kilocalories; 0 where the document gives none.
    pub calories: u32,
    /// Cadence in steps per minute; 0 where the document gives none.
    pub cadence: u32,
    pub average_heart_rate: Option<HeartRate>,
    pub maximum_heart_rate: Option<HeartRate>,
}

/// The kind of workout.
#[derive(Debug, Clone, Copy, PartialEq, Eq)]
pub enum Sport {
    Running,
    Biking,
    Other,
}

/// One workout session.
#[derive(Debug, Clone, PartialEq, Eq)]
pub struct Activity {
    pub sport: Sport,
    /// The start of the activity, which identifies it.
    pub id: Timestamp,
    pub laps: Vec<Lap>,
}

/// The envelope that holds one activity.
#[derive(Debug, Clone, PartialEq, Eq)]
pub struct Activities {
    pub activity: Activity,
}

/// The root of one document: its activities, in file order.
#[derive(Debug, Clone, PartialEq, Eq)]
pub struct Database {
    pub activities: Vec<Activities>,
}

impl From<HeartRate> for i64 {
    fn from(heart_rate: HeartRate) -> (r: i64)
        ensures
            r == heart_rate.value,
    {
        heart_rate.value as i64
    }
}

impl vstd::std_specs::convert::FromSpecImpl<HeartRate> for i64 {
    open spec fn obeys_from_spec() -> bool {
        true
    }

    open spec fn from_spec(heart_rate: HeartRate) -> i64 {
        heart_rate.value as i64
    }
}

} // verus!
