use vstd::prelude::*;

use crate::model::{Activity, Lap, Sample, Track};

verus! {

/// The largest pace per kilometre, in milliseconds, that a lap can have:
/// its longest time over one millimetre.
pub const MAX_LAP_PACE: u64 = 4_294_967_295_000_000;

/// `x` where it fits in a `u64`, else `u64::MAX`.
pub open spec fn saturate(x: int) -> u64 {
    if x > u64::MAX {
        u64::MAX
    } else {
        x as u64
    }
}

/// The arithmetic mean of `n` values that add up to `sum`, truncated; 0 for no values.
pub open spec fn mean(sum: int, n: int) -> int {
    if n == 0 {
        0
    } else {
        sum / n
    }
}

/// The sum of the heart-rate readings of `samples`.
pub open spec fn total_heart_rate(samples: Seq<Sample>) -> nat
    decreases samples.len(),
{
    if samples.len() == 0 {
        0
    } else {
        (total_heart_rate(samples.drop_last()) + samples.last().heart_rate.value) as nat
    }
}

/// The mean heart rate of a track's samples; 0 where it has none.
pub open spec fn track_heart_rate(samples: Seq<Sample>) -> int {
    mean(total_heart_rate(samples) as int, samples.len() as int)
}

/// The altitude gained from `a` to `b`: 0 where it falls or either altitude is missing.
pub open spec fn rise(a: Sample, b: Sample) -> nat {
    match (a.altitude, b.altitude) {
        (Some(x), Some(y)) => if y > x { (y - x) as nat } else { 0 },
        _ => 0,
    }
}

/// The altitude lost from `a` to `b`: 0 where it rises or either altitude is missing.
pub open spec fn fall(a: Sample, b: Sample) -> nat {
    match (a.altitude, b.altitude) {
        (Some(x), Some(y)) => if x > y { (x - y) as nat } else { 0 },
        _ => 0,
    }
}

/// The altitude gained over each pair of consecutive samples, added up.
pub open spec fn ascent_of(samples: Seq<Sample>) -> nat
    decreases samples.len(),
{
    if samples.len() < 2 {
        0
    } else {
        ascent_of(samples.drop_last()) + rise(
            samples[samples.len() - 2],
            samples[samples.len() - 1],
        )
    }
}

/// The altitude lost over each pair of consecutive samples, added up.
pub open spec fn descent_of(samples: Seq<Sample>) -> nat
    decreases samples.len(),
{
    if samples.len() < 2 {
        0
    } else {
        descent_of(samples.drop_last()) + fall(
            samples[samples.len() - 2],
            samples[samples.len() - 1],
        )
    }
}

/// The sum of the laps' distances, in millimetres.
pub open spec fn total_distance(laps: Seq<Lap>) -> nat
    decreases laps.len(),
{
    if laps.len() == 0 {
        0
    } else {
        (total_distance(laps.drop_last()) + laps.last().distance) as nat
    }
}

/// The sum of the laps' times, each truncated to whole seconds.
pub open spec fn total_whole_secs(laps: Seq<Lap>) -> nat
    decreases laps.len(),
{
    if laps.len() == 0 {
        0
    } else {
        (total_whole_secs(laps.drop_last()) + laps.last().time / 1000) as nat
    }
}

/// The sum of the laps' energy.
pub open spec fn total_calories(laps: Seq<Lap>) -> nat
    decreases laps.len(),
{
    if laps.len() == 0 {
        0
    } else {
        (total_calories(laps.drop_last()) + laps.last().calories) as nat
    }
}

/// The sum of the laps' cadences.
pub open spec fn total_cadence(laps: Seq<Lap>) -> nat
    decreases laps.len(),
{
    if laps.len() == 0 {
        0
    } else {
        (total_cadence(laps.drop_last()) + laps.last().cadence) as nat
    }
}

/// A lap's heart rate: the average it carries, else the mean of its track's samples.
pub open spec fn lap_heart_rate(lap: Lap) -> int {
    match lap.average_heart_rate {
        Some(h) => h.value as int,
        None => track_heart_rate(lap.track.samples@),
    }
}

/// The sum of the laps' heart rates.
pub open spec fn total_lap_heart_rate(laps: Seq<Lap>) -> int
    decreases laps.len(),
{
    if laps.len() == 0 {
        0
    } else {
        total_lap_heart_rate(laps.drop_last()) + lap_heart_rate(laps.last())
    }
}

/// The sum of the altitude gained on each lap's track.
pub open spec fn total_ascent(laps: Seq<Lap>) -> nat
    decreases laps.len(),
{
    if laps.len() == 0 {
        0
    } else {
        total_ascent(laps.drop_last()) + ascent_of(laps.last().track.samples@)
    }
}

/// The sum of the altitude lost on each lap's track.
pub open spec fn total_descent(laps: Seq<Lap>) -> nat
    decreases laps.len(),
{
    if laps.len() == 0 {
        0
    } else {
        total_descent(laps.drop_last()) + descent_of(laps.last().track.samples@)
    }
}

/// A lap's pace in milliseconds per kilometre, truncated: its time over its
/// distance in kilometres. Meaningful for a lap with a distance.
pub open spec fn lap_pace(lap: Lap) -> int {
    lap.time * 1_000_000 / lap.distance as int
}

/// The sum of the laps' paces.
pub open spec fn total_pace(laps: Seq<Lap>) -> int
    decreases laps.len(),
{
    if laps.len() == 0 {
        0
    } else {
        total_pace(laps.drop_last()) + lap_pace(laps.last())
    }
}

/// Whether some lap covers no distance, so that its pace is undefined.
pub open spec fn has_still_lap(laps: Seq<Lap>) -> bool {
    exists|i: int| 0 <= i < laps.len() && #[trigger] laps[i].distance == 0
}

/// The mean of the laps' paces, truncated; none where there is no lap or a
/// lap's pace is undefined.
pub open spec fn tempo_of(laps: Seq<Lap>) -> Option<int> {
    if laps.len() == 0 || has_still_lap(laps) {
        None
    } else {
        Some(total_pace(laps) / laps.len() as int)
    }
}

impl Track {
    /// The mean heart rate of the samples, truncated; 0 where there are none.
    pub fn heart_rate(&self) -> (r: u32)
        ensures
            r == track_heart_rate(self.samples@),
    {
        let n = self.samples.len();
        let mut sum: u128 = 0;
        let mut i: usize = 0;
        while i < n
            invariant
                n == self.samples@.len(),
                i <= n,
                sum == total_heart_rate(self.samples@.subrange(0, i as int)),
                sum <= i * (u32::MAX as int),
            decreases n - i,
        {
            assert(self.samples@.subrange(0, i + 1).drop_last() =~= self.samples@.subrange(
                0,
                i as int,
            ));
            sum = sum + self.samples[i].heart_rate.value as u128;
            i = i + 1;
        }
        assert(self.samples@.subrange(0, n as int) =~= self.samples@);
        if n == 0 {
            return 0;
        }
        let m = sum / (n as u128);
        assert(m <= u32::MAX) by (nonlinear_arith)
            requires
                sum <= n * (u32::MAX as int),
                n > 0,
                m == sum / (n as u128),
        ;
        m as u32
    }

    /// The altitude gained over each pair of consecutive samples where both
    /// carry an altitude, in millimetres.
    pub fn ascent(&self) -> (r: u64)
        ensures
            r == saturate(ascent_of(self.samples@) as int),
    {
        let n = self.samples.len();
        if n < 2 {
            return 0;
        }
        let mut sum: u64 = 0;
        let mut i: usize = 1;
        while i < n
            invariant
                n == self.samples@.len(),
                1 <= i <= n,
                sum == saturate(ascent_of(self.samples@.subrange(0, i as int)) as int),
            decreases n - i,
        {
            let ghost prefix = self.samples@.subrange(0, i + 1);
            assert(prefix.drop_last() =~= self.samples@.subrange(0, i as int));
            let step: u64 = match (self.samples[i - 1].altitude, self.samples[i].altitude) {
                (Some(x), Some(y)) => if y > x { (y as i64 - x as i64) as u64 } else { 0 },
                _ => 0,
            };
            assert(step == rise(prefix[i - 1], prefix[i as int]));
            sum = sum.saturating_add(step);
            i = i + 1;
        }
        assert(self.samples@.subrange(0, n as int) =~= self.samples@);
        sum
    }

    /// The altitude lost over each pair of consecutive samples where both
    /// carry an altitude, in millimetres.
    pub fn descent(&self) -> (r: u64)
        ensures
            r == saturate(descent_of(self.samples@) as int),
    {
        let n = self.samples.len();
        if n < 2 {
            return 0;
        }
        let mut sum: u64 = 0;
        let mut i: usize = 1;
        while i < n
            invariant
                n == self.samples@.len(),
                1 <= i <= n,
                sum == saturate(descent_of(self.samples@.subrange(0, i as int)) as int),
            decreases n - i,
        {
            let ghost prefix = self.samples@.subrange(0, i + 1);
            assert(prefix.drop_last() =~= self.samples@.subrange(0, i as int));
            let step: u64 = match (self.samples[i - 1].altitude, self.samples[i].altitude) {
                (Some(x), Some(y)) => if x > y { (x as i64 - y as i64) as u64 } else { 0 },
                _ => 0,
            };
            assert(step == fall(prefix[i - 1], prefix[i as int]));
            sum = sum.saturating_add(step);
            i = i + 1;
        }
        assert(self.samples@.subrange(0, n as int) =~= self.samples@);
        sum
    }
}

impl Activity {
    /// The total distance of the laps, in millimetres.
    pub fn distance(&self) -> (r: u64)
        ensures
            r == saturate(total_distance(self.laps@) as int),
    {
        let n = self.laps.len();
        let mut sum: u64 = 0;
        let mut i: usize = 0;
        while i < n
            invariant
                n == self.laps@.len(),
                i <= n,
                sum == saturate(total_distance(self.laps@.subrange(0, i as int)) as int),
            decreases n - i,
        {
            assert(self.laps@.subrange(0, i + 1).drop_last() =~= self.laps@.subrange(0, i as int));
            sum = sum.saturating_add(self.laps[i].distance as u64);
            i = i + 1;
        }
        assert(self.laps@.subrange(0, n as int) =~= self.laps@);
        sum
    }

    /// The total time of the laps in whole seconds, each lap's time truncated
    /// to whole seconds before it is added.
    pub fn duration(&self) -> (r: u64)
        ensures
            r == saturate(total_whole_secs(self.laps@) as int),
    {
        let n = self.laps.len();
        let mut sum: u64 = 0;
        let mut i: usize = 0;
        while i < n
            invariant
                n == self.laps@.len(),
                i <= n,
                sum == saturate(total_whole_secs(self.laps@.subrange(0, i as int)) as int),
            decreases n - i,
        {
            assert(self.laps@.subrange(0, i + 1).drop_last() =~= self.laps@.subrange(0, i as int));
            sum = sum.saturating_add((self.laps[i].time / 1000) as u64);
            i = i + 1;
        }
        assert(self.laps@.subrange(0, n as int) =~= self.laps@);
        sum
    }

    /// The total energy of the laps, in kilocalories.
    pub fn calories(&self) -> (r: u64)
        ensures
            r == saturate(total_calories(self.laps@) as int),
    {
        let n = self.laps.len();
        let mut sum: u64 = 0;
        let mut i: usize = 0;
        while i < n
            invariant
                n == self.laps@.len(),
                i <= n,
                sum == saturate(total_calories(self.laps@.subrange(0, i as int)) as int),
            decreases n - i,
        {
            assert(self.laps@.subrange(0, i + 1).drop_last() =~= self.laps@.subrange(0, i as int));
            sum = sum.saturating_add(self.laps[i].calories as u64);
            i = i + 1;
        }
        assert(self.laps@.subrange(0, n as int) =~= self.laps@);
        sum
    }

    /// The mean cadence of the laps, truncated; 0 where there is no lap.
    pub fn cadence(&self) -> (r: u32)
        ensures
            r == mean(total_cadence(self.laps@) as int, self.laps@.len() as int),
    {
        let n = self.laps.len();
        let mut sum: u128 = 0;
        let mut i: usize = 0;
        while i < n
            invariant
                n == self.laps@.len(),
                i <= n,
                sum == total_cadence(self.laps@.subrange(0, i as int)),
                sum <= i * (u32::MAX as int),
            decreases n - i,
        {
            assert(self.laps@.subrange(0, i + 1).drop_last() =~= self.laps@.subrange(0, i as int));
            sum = sum + self.laps[i].cadence as u128;
            i = i + 1;
        }
        assert(self.laps@.subrange(0, n as int) =~= self.laps@);
        if n == 0 {
            return 0;
        }
        let m = sum / (n as u128);
        assert(m <= u32::MAX) by (nonlinear_arith)
            requires
                sum <= n * (u32::MAX as int),
                n > 0,
                m == sum / (n as u128),
        ;
        m as u32
    }

    /// The mean of the laps' heart rates, each lap weighing the same,
    /// truncated; 0 where there is no lap. A lap's heart rate is the average
    /// it carries, else the mean of its track's samples.
    pub fn heart_rate(&self) -> (r: u32)
        ensures
            r == mean(total_lap_heart_rate(self.laps@), self.laps@.len() as int),
    {
        let n = self.laps.len();
        let mut sum: u128 = 0;
        let mut i: usize = 0;
        while i < n
            invariant
                n == self.laps@.len(),
                i <= n,
                sum == total_lap_heart_rate(self.laps@.subrange(0, i as int)),
                sum <= i * (u32::MAX as int),
            decreases n - i,
        {
            assert(self.laps@.subrange(0, i + 1).drop_last() =~= self.laps@.subrange(0, i as int));
            let lap = &self.laps[i];
            let rate: u32 = match lap.average_heart_rate {
                Some(h) => h.value,
                None => lap.track.heart_rate(),
            };
            sum = sum + rate as u128;
            i = i + 1;
        }
        assert(self.laps@.subrange(0, n as int) =~= self.laps@);
        if n == 0 {
            return 0;
        }
        let m = sum / (n as u128);
        assert(m <= u32::MAX) by (nonlinear_arith)
            requires
                sum <= n * (u32::MAX as int),
                n > 0,
                m == sum / (n as u128),
        ;
        m as u32
    }

    /// The altitude gained over all laps, in millimetres.
    pub fn ascent(&self) -> (r: u64)
        ensures
            r == saturate(total_ascent(self.laps@) as int),
    {
        let n = self.laps.len();
        let mut sum: u64 = 0;
        let mut i: usize = 0;
        while i < n
            invariant
                n == self.laps@.len(),
                i <= n,
                sum == saturate(total_ascent(self.laps@.subrange(0, i as int)) as int),
            decreases n - i,
        {
            assert(self.laps@.subrange(0, i + 1).drop_last() =~= self.laps@.subrange(0, i as int));
            sum = sum.saturating_add(self.laps[i].track.ascent());
            i = i + 1;
        }
        assert(self.laps@.subrange(0, n as int) =~= self.laps@);
        sum
    }

    /// The altitude lost over all laps, in millimetres.
    pub fn descent(&self) -> (r: u64)
        ensures
            r == saturate(total_descent(self.laps@) as int),
    {
        let n = self.laps.len();
        let mut sum: u64 = 0;
        let mut i: usize = 0;
        while i < n
            invariant
                n == self.laps@.len(),
                i <= n,
                sum == saturate(total_descent(self.laps@.subrange(0, i as int)) as int),
            decreases n - i,
        {
            assert(self.laps@.subrange(0, i + 1).drop_last() =~= self.laps@.subrange(0, i as int));
            sum = sum.saturating_add(self.laps[i].track.descent());
            i = i + 1;
        }
        assert(self.laps@.subrange(0, n as int) =~= self.laps@);
        sum
    }

    /// The mean of the laps' paces in milliseconds per kilometre, each lap
    /// weighing the same, truncated. None where there is no lap, or where a
    /// lap covers no distance and so has no pace.
    pub fn average_tempo(&self) -> (r: Option<u64>)
        ensures
            r matches Some(t) ==> tempo_of(self.laps@) == Some(t as int),
            r is None ==> tempo_of(self.laps@) is None,
    {
        let n = self.laps.len();
        if n == 0 {
            return None;
        }
        let mut sum: u128 = 0;
        let mut i: usize = 0;
        while i < n
            invariant
                n == self.laps@.len(),
                i <= n,
                forall|j: int| 0 <= j < i ==> #[trigger] self.laps@[j].distance > 0,
                sum == total_pace(self.laps@.subrange(0, i as int)),
                sum <= i * (MAX_LAP_PACE as int),
            decreases n - i,
        {
            assert(self.laps@.subrange(0, i + 1).drop_last() =~= self.laps@.subrange(0, i as int));
            let lap = &self.laps[i];
            if lap.distance == 0 {
                assert(self.laps@[i as int].distance == 0);
                return None;
            }
            let scaled: u64 = lap.time as u64 * 1_000_000;
            let pace: u64 = scaled / (lap.distance as u64);
            assert(pace <= scaled) by (nonlinear_arith)
                requires
                    lap.distance > 0,
                    pace == scaled / (lap.distance as u64),
            ;
            sum = sum + pace as u128;
            i = i + 1;
        }
        assert(self.laps@.subrange(0, n as int) =~= self.laps@);
        let m = sum / (n as u128);
        assert(m <= MAX_LAP_PACE) by (nonlinear_arith)
            requires
                sum <= n * (MAX_LAP_PACE as int),
                n > 0,
                m == sum / (n as u128),
        ;
        Some(m as u64)
    }
}

} // verus!
