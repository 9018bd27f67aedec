use vstd::prelude::*;

use crate::metrics::{
    ascent_of, descent_of, fall, has_still_lap, lap_pace, mean, rise, saturate, tempo_of,
    total_ascent, total_cadence, total_calories, total_descent, total_distance,
    total_lap_heart_rate, total_pace,
};
use crate::model::{Activity, Lap, Sample};

verus! {

/// An activity without laps has no distance, heart rate, cadence, energy,
/// ascent or descent: each of them is 0.
pub proof fn lemma_no_laps(activity: Activity)
    requires
        activity.laps@.len() == 0,
    ensures
        saturate(total_distance(activity.laps@) as int) == 0,
        mean(total_lap_heart_rate(activity.laps@), activity.laps@.len() as int) == 0,
        mean(total_cadence(activity.laps@) as int, activity.laps@.len() as int) == 0,
        saturate(total_calories(activity.laps@) as int) == 0,
        saturate(total_ascent(activity.laps@) as int) == 0,
        saturate(total_descent(activity.laps@) as int) == 0,
{
}

/// Every sample carries an altitude.
pub open spec fn all_altitudes(samples: Seq<Sample>) -> bool {
    forall|i: int| 0 <= i < samples.len() ==> (#[trigger] samples[i]).altitude is Some
}

/// The altitude of a sample, 0 where it has none.
pub open spec fn altitude_of(sample: Sample) -> int {
    match sample.altitude {
        Some(a) => a as int,
        None => 0,
    }
}

/// Each sample's altitude is at least that of the sample before it.
pub open spec fn non_decreasing(samples: Seq<Sample>) -> bool {
    forall|i: int|
        0 <= i < samples.len() - 1 ==> altitude_of(#[trigger] samples[i]) <= altitude_of(
            samples[i + 1],
        )
}

/// Each sample's altitude is at most that of the sample before it.
pub open spec fn non_increasing(samples: Seq<Sample>) -> bool {
    forall|i: int|
        0 <= i < samples.len() - 1 ==> altitude_of(#[trigger] samples[i]) >= altitude_of(
            samples[i + 1],
        )
}

/// On a track whose altitude never falls, there is no descent, and the ascent
/// is the last altitude less the first.
pub proof fn lemma_rising_track(samples: Seq<Sample>)
    requires
        samples.len() > 0,
        all_altitudes(samples),
        non_decreasing(samples),
    ensures
        descent_of(samples) == 0,
        ascent_of(samples) == altitude_of(samples.last()) - altitude_of(samples[0]),
    decreases samples.len(),
{
    if samples.len() >= 2 {
        let rest = samples.drop_last();
        assert(rest[rest.len() - 1] == samples[samples.len() - 2]);
        assert(samples[samples.len() - 2].altitude is Some);
        assert(samples[samples.len() - 1].altitude is Some);
        lemma_rising_track(rest);
    }
}

/// On a track whose altitude never rises, there is no ascent, and the descent
/// is the first altitude less the last.
pub proof fn lemma_falling_track(samples: Seq<Sample>)
    requires
        samples.len() > 0,
        all_altitudes(samples),
        non_increasing(samples),
    ensures
        ascent_of(samples) == 0,
        descent_of(samples) == altitude_of(samples[0]) - altitude_of(samples.last()),
    decreases samples.len(),
{
    if samples.len() >= 2 {
        let rest = samples.drop_last();
        assert(rest[rest.len() - 1] == samples[samples.len() - 2]);
        assert(samples[samples.len() - 2].altitude is Some);
        assert(samples[samples.len() - 1].altitude is Some);
        lemma_falling_track(rest);
    }
}

/// Ascent and descent of two tracks joined end to end: those of each, and
/// those of the pair where they meet.
pub proof fn lemma_joined_tracks(a: Seq<Sample>, b: Seq<Sample>)
    requires
        a.len() > 0,
        b.len() > 0,
    ensures
        ascent_of(a + b) == ascent_of(a) + rise(a.last(), b[0]) + ascent_of(b),
        descent_of(a + b) == descent_of(a) + fall(a.last(), b[0]) + descent_of(b),
    decreases b.len(),
{
    let ab = a + b;
    if b.len() == 1 {
        assert(ab.drop_last() =~= a);
    } else {
        assert(ab.drop_last() =~= a + b.drop_last());
        lemma_joined_tracks(a, b.drop_last());
    }
}

/// A sample without an altitude splits a track: the pairs on either side of
/// it add nothing, so the track climbs and falls as the parts before and
/// after it do together.
pub proof fn lemma_missing_altitude(samples: Seq<Sample>, k: int)
    requires
        0 <= k < samples.len(),
        samples[k].altitude is None,
    ensures
        ascent_of(samples) == ascent_of(samples.subrange(0, k)) + ascent_of(
            samples.subrange(k + 1, samples.len() as int),
        ),
        descent_of(samples) == descent_of(samples.subrange(0, k)) + descent_of(
            samples.subrange(k + 1, samples.len() as int),
        ),
{
    let n = samples.len() as int;
    let head = samples.subrange(0, k + 1);
    let tail = samples.subrange(k + 1, n);
    if k > 0 {
        assert(head =~= samples.subrange(0, k) + samples.subrange(k, k + 1));
        lemma_joined_tracks(samples.subrange(0, k), samples.subrange(k, k + 1));
    } else {
        assert(ascent_of(head) == 0 && descent_of(head) == 0);
    }
    if k + 1 < n {
        assert(samples =~= head + tail);
        lemma_joined_tracks(head, tail);
    } else {
        assert(samples =~= head);
        assert(ascent_of(tail) == 0 && descent_of(tail) == 0);
    }
}

/// The tempo of two laps of the same distance is the mean of their two paces,
/// not their total time over their total distance.
pub proof fn lemma_two_lap_tempo(a: Lap, b: Lap)
    requires
        a.distance == b.distance,
        a.distance > 0,
    ensures
        tempo_of(seq![a, b]) == Some((lap_pace(a) + lap_pace(b)) / 2),
{
    let laps = seq![a, b];
    let first = laps.drop_last();
    assert(first =~= seq![a]);
    assert(first.drop_last() =~= Seq::<Lap>::empty());
    assert(total_pace(first.drop_last()) == 0);
    assert(total_pace(first) == lap_pace(a));
    assert(!has_still_lap(laps));
    assert(total_pace(laps) == lap_pace(a) + lap_pace(b));
}

} // verus!
