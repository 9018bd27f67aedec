use tcx::{
    Activities, Activity, Database, HeartRate, Lap, Pace, Position, Sample, SensorState, Sport,
    Timestamp, Track,
};

fn sample(altitude: Option<i32>, heart_rate: u32) -> Sample {
    Sample {
        time: Timestamp { secs: 1_600_000_000, nanos: 0 },
        position: Some(Position { lat: 520_000_000, lon: 130_000_000 }),
        altitude,
        heart_rate: HeartRate { value: heart_rate },
        sensor_state: SensorState::Present,
    }
}

fn track(altitudes: &[Option<i32>]) -> Track {
    Track { samples: altitudes.iter().map(|a| sample(*a, 100)).collect() }
}

fn lap(time: u32, distance: u32, track: Track) -> Lap {
    Lap {
        time,
        distance,
        track,
        calories: 0,
        cadence: 0,
        average_heart_rate: None,
        maximum_heart_rate: None,
    }
}

fn activity(laps: Vec<Lap>) -> Activity {
    Activity { sport: Sport::Running, id: Timestamp { secs: 1_600_000_000, nanos: 0 }, laps }
}

#[test]
fn empty_activity_is_all_zero() {
    let a = activity(vec![]);
    assert_eq!(a.distance(), 0);
    assert_eq!(a.duration(), 0);
    assert_eq!(a.heart_rate(), 0);
    assert_eq!(a.cadence(), 0);
    assert_eq!(a.calories(), 0);
    assert_eq!(a.ascent(), 0);
    assert_eq!(a.descent(), 0);
    assert_eq!(a.average_tempo(), None);
}

#[test]
fn duration_truncates_each_lap() {
    let a = activity(vec![lap(10_700, 100_000, track(&[])), lap(5_400, 50_000, track(&[]))]);
    assert_eq!(a.duration(), 15);
}

#[test]
fn duration_truncates_before_adding() {
    let a = activity(vec![lap(999, 1, track(&[])), lap(999, 1, track(&[])), lap(2_500, 1, track(&[]))]);
    assert_eq!(a.duration(), 2);
}

#[test]
fn distance_adds_laps() {
    let a = activity(vec![lap(1, 1_234_567, track(&[])), lap(1, 765_433, track(&[]))]);
    assert_eq!(a.distance(), 2_000_000);
}

#[test]
fn rising_track_climbs_last_less_first() {
    let t = track(&[Some(10_000), Some(10_000), Some(20_000), Some(35_500)]);
    assert_eq!(t.ascent(), 25_500);
    assert_eq!(t.descent(), 0);
}

#[test]
fn falling_track_descends_first_less_last() {
    let t = track(&[Some(-2_000), Some(-5_000), Some(-5_000), Some(-9_250)]);
    assert_eq!(t.ascent(), 0);
    assert_eq!(t.descent(), 7_250);
}

#[test]
fn missing_altitude_breaks_the_pair() {
    let t = track(&[Some(100_000), None, Some(105_000)]);
    assert_eq!(t.ascent(), 0);
    assert_eq!(t.descent(), 0);
}

#[test]
fn missing_altitude_keeps_other_pairs() {
    let t = track(&[Some(0), Some(3_000), None, Some(10_000), Some(4_000)]);
    assert_eq!(t.ascent(), 3_000);
    assert_eq!(t.descent(), 6_000);
}

#[test]
fn noisy_track_counts_both_ways() {
    let t = track(&[Some(0), Some(2_000), Some(1_000), Some(3_000)]);
    assert_eq!(t.ascent(), 4_000);
    assert_eq!(t.descent(), 1_000);
}

#[test]
fn short_tracks_have_no_elevation() {
    assert_eq!(track(&[]).ascent(), 0);
    assert_eq!(track(&[Some(7)]).descent(), 0);
}

#[test]
fn activity_elevation_adds_laps() {
    let a = activity(vec![
        lap(1, 1, track(&[Some(0), Some(5_000)])),
        lap(1, 1, track(&[Some(50_000), Some(40_000), Some(42_000)])),
    ]);
    assert_eq!(a.ascent(), 7_000);
    assert_eq!(a.descent(), 10_000);
}

#[test]
fn tempo_of_equal_laps_is_mean_pace() {
    let a = activity(vec![lap(300_000, 1_000_000, track(&[])), lap(360_000, 1_000_000, track(&[]))]);
    assert_eq!(a.average_tempo(), Some(330_000));
}

#[test]
fn tempo_is_mean_of_paces_not_total_over_distance() {
    // 5:00 per km over 1 km and 6:00 per km over 3 km: the mean of the paces
    // is 5:30, while total time over total distance would be 5:45.
    let a = activity(vec![lap(300_000, 1_000_000, track(&[])), lap(1_080_000, 3_000_000, track(&[]))]);
    assert_eq!(a.average_tempo(), Some(330_000));
}

#[test]
fn tempo_with_a_still_lap_is_undefined() {
    let a = activity(vec![lap(300_000, 1_000_000, track(&[])), lap(60_000, 0, track(&[]))]);
    assert_eq!(a.average_tempo(), None);
}

#[test]
fn heart_rate_weighs_laps_equally() {
    let mut first = lap(60_000, 1, track(&[]));
    first.average_heart_rate = Some(HeartRate { value: 60 });
    let mut second = lap(3_600_000, 1, track(&[]));
    second.average_heart_rate = Some(HeartRate { value: 80 });
    assert_eq!(activity(vec![first, second]).heart_rate(), 70);
}

#[test]
fn heart_rate_falls_back_to_samples() {
    let samples = Track { samples: vec![sample(None, 120), sample(None, 141)] };
    assert_eq!(samples.heart_rate(), 130);
    let mut with_average = lap(1, 1, track(&[]));
    with_average.average_heart_rate = Some(HeartRate { value: 100 });
    let a = activity(vec![lap(1, 1, samples), with_average, lap(1, 1, track(&[]))]);
    assert_eq!(a.heart_rate(), (130 + 100 + 0) / 3);
}

#[test]
fn empty_track_heart_rate_is_zero() {
    assert_eq!(track(&[]).heart_rate(), 0);
}

#[test]
fn cadence_and_calories() {
    let mut a = lap(1, 1, track(&[]));
    a.cadence = 170;
    a.calories = 250;
    let mut b = lap(1, 1, track(&[]));
    b.cadence = 175;
    b.calories = 301;
    let act = activity(vec![a, b]);
    assert_eq!(act.cadence(), 172);
    assert_eq!(act.calories(), 551);
}

#[test]
fn heart_rate_converts_to_integer() {
    assert_eq!(i64::from(HeartRate { value: 142 }), 142);
}

#[test]
fn pace_splits_seconds() {
    let p = Pace::from_duration(3_725);
    assert_eq!((p.hours, p.mins, p.secs), (1, 2, 5));
    let q = Pace::from_duration(59);
    assert_eq!((q.hours, q.mins, q.secs), (0, 0, 59));
}

#[test]
fn one_lap_document_end_to_end() {
    let samples = vec![sample(Some(10_000), 120), sample(Some(15_000), 140)];
    let l = lap(300_000, 1_000_000, Track { samples });
    let db = Database { activities: vec![Activities { activity: activity(vec![l]) }] };
    let a = &db.activities[0].activity;
    assert_eq!(a.distance(), 1_000_000);
    let d = Pace::from_duration(a.duration());
    assert_eq!((d.hours, d.mins, d.secs), (0, 5, 0));
    assert_eq!(a.ascent(), 5_000);
    assert_eq!(a.descent(), 0);
    let tempo = a.average_tempo().unwrap();
    assert_eq!(tempo, 300_000);
    let p = Pace::from_duration(tempo / 1000);
    assert_eq!((p.hours, p.mins, p.secs), (0, 5, 0));
    assert_eq!(a.heart_rate(), 130);
}
