//! Typed model of a fitness-activity exchange file and the statistics derived
//! from it: distance, duration, pace, heart rate, cadence, energy and
//! elevation gain and loss.
//!
//! Quantities are held as integers in fixed units: times in milliseconds,
//! distances and altitudes in millimetres, coordinates in units of 1e-7
//! degrees. Decoding a document into this model is left to the caller.

mod lemmas;
mod metrics;
mod model;
mod options;
mod pace;
mod timestamp;

pub use lemmas::{
    all_altitudes, altitude_of, lemma_falling_track, lemma_joined_tracks, lemma_missing_altitude,
    lemma_no_laps, lemma_rising_track, lemma_two_lap_tempo, non_decreasing, non_increasing,
};
pub use metrics::{
    ascent_of, descent_of, fall, has_still_lap, lap_heart_rate, lap_pace, mean, rise, saturate,
    tempo_of, total_ascent, total_cadence, total_calories, total_descent, total_distance,
    total_heart_rate, total_lap_heart_rate, total_pace, total_whole_secs, track_heart_rate,
    MAX_LAP_PACE,
};
pub use model::{
    Activities, Activity, Database, Error, HeartRate, Lap, Position, Sample, SensorState,
    Sport, Track,
};
pub use options::Options;
pub use pace::Pace;
pub use timestamp::{instant_of, Timestamp};
