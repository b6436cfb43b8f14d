//! Fan control: the curve that maps a temperature to a duty cycle, and the
//! daemon that applies it.

pub mod daemon;

pub use crate::fan::daemon::{
    classify, FanDaemon, FanDaemonError, HwmonRole, HwmonWrite, PwmAttribute, PWM_AUTOMATIC,
    PWM_MANUAL,
};
use vstd::prelude::*;

verus! {

/// A breakpoint as a pair of mathematical integers: a temperature in
/// hundredths of a degree and a duty in hundredths of a percent.
pub struct Breakpoint {
    pub temp: int,
    pub duty: int,
}

/// The quotient `n / d` rounded to the nearest integer, halves away from zero.
pub open spec fn round_div(n: int, d: int) -> int
    recommends
        d > 0,
{
    if n >= 0 {
        (2 * n + d) / (2 * d)
    } else {
        -((d - 2 * n) / (2 * d))
    }
}

/// The duty on the straight line from `prev` to `next` at `temp`, rounded to
/// the nearest duty unit.
pub open spec fn interpolated(prev: Breakpoint, next: Breakpoint, temp: int) -> int
    recommends
        prev.temp < next.temp,
{
    prev.duty + round_div((next.duty - prev.duty) * (temp - prev.temp), next.temp - prev.temp)
}

/// What the segment from `prev` to `next` yields at `temp`: the duty of an
/// endpoint hit exactly, the interpolated duty strictly inside, nothing
/// outside.
pub open spec fn segment_duty(prev: Breakpoint, next: Breakpoint, temp: int) -> Option<int> {
    if temp == next.temp {
        Some(next.duty)
    } else if temp == prev.temp {
        Some(prev.duty)
    } else if prev.temp < temp < next.temp {
        Some(interpolated(prev, next, temp))
    } else {
        None
    }
}

/// The yield of the first pair of consecutive points, from index `from` on,
/// whose segment yields anything at `temp`.
pub open spec fn first_segment_duty(points: Seq<Breakpoint>, temp: int, from: int) -> Option<int>
    decreases points.len() - from,
{
    if from < 0 || from + 1 >= points.len() {
        None
    } else if segment_duty(points[from], points[from + 1], temp) is Some {
        segment_duty(points[from], points[from + 1], temp)
    } else {
        first_segment_duty(points, temp, from + 1)
    }
}

/// The duty a curve assigns to a temperature: none for the empty curve, the
/// first duty below the first point, the yield of the first matching segment,
/// and the last duty otherwise.
pub open spec fn curve_duty(points: Seq<Breakpoint>, temp: int) -> Option<int> {
    if points.len() == 0 {
        None
    } else if temp < points[0].temp {
        Some(points[0].duty)
    } else if first_segment_duty(points, temp, 0) is Some {
        first_segment_duty(points, temp, 0)
    } else {
        Some(points.last().duty)
    }
}

/// Temperatures strictly increase along the sequence.
pub open spec fn increasing(points: Seq<Breakpoint>) -> bool {
    forall|i: int, j: int| 0 <= i < j < points.len() ==> points[i].temp < points[j].temp
}

/// One point of a fan curve.
#[derive(Clone, Copy, Debug, PartialEq)]
pub struct FanPoint {
    // Temperature in hundredths of a degree, 10000 = 100C
    temp: i16,
    // Duty in hundredths of a percent, 10000 = 100%
    duty: u16,
}

impl View for FanPoint {
    type V = Breakpoint;

    closed spec fn view(&self) -> Breakpoint {
        Breakpoint { temp: self.temp as int, duty: self.duty as int }
    }
}

impl FanPoint {
    /// The point at a temperature in hundredths of a degree with a duty in
    /// hundredths of a percent.
    pub fn new(temp: i16, duty: u16) -> (point: Self)
        ensures
            point@ == (Breakpoint { temp: temp as int, duty: duty as int }),
    {
        Self { temp, duty }
    }

    /// Find the duty between two points and a given temperature, if the
    /// temperature lies within this range.
    pub fn get_duty_between_points(self, next: FanPoint, temp: i16) -> (duty: Option<u16>)
        ensures
            duty_model(duty) == segment_duty(self@, next@, temp as int),
    {
        // If the temp matches the next point, return the next point duty
        if temp == next.temp {
            return Some(next.duty);
        }
        // If the temp matches the previous point, return the previous point duty
        if temp == self.temp {
            return Some(self.duty);
        }
        // If the temp is in between the previous and next points, interpolate the duty
        if self.temp < temp && next.temp > temp {
            return Some(self.interpolate_duties(next, temp));
        }
        None
    }

    /// Interpolates the current duty with that of the given next point and
    /// temperature. The result lies between the two duties.
    pub fn interpolate_duties(self, next: FanPoint, temp: i16) -> (duty: u16)
        requires
            self@.temp < temp < next@.temp,
        ensures
            duty == interpolated(self@, next@, temp as int),
            self@.duty <= next@.duty ==> self@.duty <= duty <= next@.duty,
            self@.duty >= next@.duty ==> self@.duty >= duty >= next@.duty,
    {
        let dtemp: u64 = (next.temp as i64 - self.temp as i64) as u64;
        let offset: u64 = (temp as i64 - self.temp as i64) as u64;
        proof {
            lemma_round_div_scaled(next@.duty - self@.duty, offset as int, dtemp as int);
        }
        if next.duty >= self.duty {
            let rise: u64 = (next.duty - self.duty) as u64;
            assert(rise * offset <= 65535 * 65535) by (nonlinear_arith)
                requires
                    rise <= 65535,
                    offset <= 65535,
            ;
            let steps: u64 = (2 * (rise * offset) + dtemp) / (2 * dtemp);
            self.duty + steps as u16
        } else {
            let fall: u64 = (self.duty - next.duty) as u64;
            assert(fall * offset <= 65535 * 65535) by (nonlinear_arith)
                requires
                    fall <= 65535,
                    offset <= 65535,
            ;
            assert((next@.duty - self@.duty) * offset == -(fall * offset)) by (nonlinear_arith)
                requires
                    next@.duty - self@.duty == -fall,
            ;
            assert(fall * offset > 0) by (nonlinear_arith)
                requires
                    fall > 0,
                    offset > 0,
            ;
            let steps: u64 = (2 * (fall * offset) + dtemp) / (2 * dtemp);
            self.duty - steps as u16
        }
    }
}

/// An optional duty as an optional mathematical integer.
pub open spec fn duty_model(duty: Option<u16>) -> Option<int> {
    match duty {
        Some(d) => Some(d as int),
        None => None,
    }
}

/// Rounding to nearest moves a quotient by at most half a unit.
pub proof fn lemma_round_div_nearest(n: int, d: int)
    requires
        d > 0,
    ensures
        -d <= 2 * (round_div(n, d) * d - n) <= d,
{
    if n >= 0 {
        let q = (2 * n + d) / (2 * d);
        assert(2 * d * q <= 2 * n + d < 2 * d * q + 2 * d) by (nonlinear_arith)
            requires
                d > 0,
                q == (2 * n + d) / (2 * d),
        ;
        assert(2 * d * q == 2 * (q * d)) by (nonlinear_arith);
    } else {
        let q = (d - 2 * n) / (2 * d);
        assert(2 * d * q <= d - 2 * n < 2 * d * q + 2 * d) by (nonlinear_arith)
            requires
                d > 0,
                q == (d - 2 * n) / (2 * d),
        ;
        assert(2 * d * q == 2 * (q * d)) by (nonlinear_arith);
        assert((-q) * d == -(q * d)) by (nonlinear_arith);
    }
}

/// A difference scaled by a fraction between 0 and 1 and then rounded stays
/// between 0 and the difference.
pub proof fn lemma_round_div_scaled(a: int, offset: int, d: int)
    requires
        0 <= offset <= d,
        d > 0,
    ensures
        a >= 0 ==> 0 <= round_div(a * offset, d) <= a,
        a <= 0 ==> a <= round_div(a * offset, d) <= 0,
{
    let n = a * offset;
    if a >= 0 {
        assert(0 <= n <= a * d) by (nonlinear_arith)
            requires
                n == a * offset,
                a >= 0,
                0 <= offset <= d,
        ;
        let q = (2 * n + d) / (2 * d);
        assert(0 <= q <= a) by (nonlinear_arith)
            requires
                q == (2 * n + d) / (2 * d),
                0 <= n <= a * d,
                d > 0,
                a >= 0,
        ;
    } else {
        let m = (-a) * offset;
        assert(n == -m && 0 <= m <= (-a) * d) by (nonlinear_arith)
            requires
                n == a * offset,
                m == (-a) * offset,
                a < 0,
                0 <= offset <= d,
        ;
        let q = (d + 2 * m) / (2 * d);
        assert(0 <= q <= -a) by (nonlinear_arith)
            requires
                q == (d + 2 * m) / (2 * d),
                0 <= m <= (-a) * d,
                d > 0,
                a < 0,
        ;
        if n >= 0 {
            assert(m == 0);
            assert((2 * n + d) / (2 * d) == 0) by (nonlinear_arith)
                requires
                    n == 0,
                    d > 0,
            ;
        } else {
            assert(d - 2 * n == d + 2 * m);
        }
    }
}

/// An ordered list of breakpoints. Temperatures are meant to increase strictly
/// along it; the type does not enforce this (see [`increasing`]).
#[derive(Clone, Debug, PartialEq)]
pub struct FanCurve {
    points: Vec<FanPoint>,
}

impl View for FanCurve {
    type V = Seq<Breakpoint>;

    closed spec fn view(&self) -> Seq<Breakpoint> {
        self.points@.map_values(|p: FanPoint| p@)
    }
}

impl Default for FanCurve {
    /// The curve without points.
    fn default() -> (curve: Self)
        ensures
            curve@ == Seq::<Breakpoint>::empty(),
    {
        FanCurve { points: Vec::new() }
    }
}

/// The breakpoints of the standard curve.
pub open spec fn standard_points() -> Seq<Breakpoint> {
    seq![
        Breakpoint { temp: 2000, duty: 3000 },
        Breakpoint { temp: 3000, duty: 3500 },
        Breakpoint { temp: 4000, duty: 4250 },
        Breakpoint { temp: 5000, duty: 5250 },
        Breakpoint { temp: 6500, duty: 10000 },
    ]
}

impl FanCurve {
    /// Adds a point to the fan curve
    pub fn append(self, temp: i16, duty: u16) -> (curve: Self)
        ensures
            curve@ == self@.push(Breakpoint { temp: temp as int, duty: duty as int }),
    {
        let mut points = self.points;
        points.push(FanPoint::new(temp, duty));
        FanCurve { points }
    }

    /// The standard fan curve
    pub fn standard() -> (curve: Self)
        ensures
            curve@ == standard_points(),
            increasing(curve@),
    {
        Self::default()
            .append(20_00, 30_00)
            .append(30_00, 35_00)
            .append(40_00, 42_50)
            .append(50_00, 52_50)
            .append(65_00, 10_000)
    }

    /// The duty for a temperature: `None` only for the curve without points.
    pub fn get_duty(&self, temp: i16) -> (duty: Option<u16>)
        ensures
            duty_model(duty) == curve_duty(self@, temp as int),
            duty is None <==> self@.len() == 0,
            self@.len() > 0 && temp < self@.first().temp ==> duty_model(duty) == Some(
                self@.first().duty,
            ),
            self@.len() > 0 && increasing(self@) && temp > self@.last().temp ==> duty_model(duty)
                == Some(self@.last().duty),
    {
        let n: usize = self.points.len();
        if n == 0 {
            // If there are no points, return None
            return None;
        }
        // If the temp is less than the first point, return the first point duty
        let first: FanPoint = self.points[0];
        if temp < first.temp {
            return Some(first.duty);
        }
        proof {
            if increasing(self@) && temp > self@.last().temp {
                lemma_no_segment_beyond(self@, temp as int, 0);
            }
        }
        let mut i: usize = 0;
        while i + 1 < n
            invariant
                n == self.points.len(),
                n == self@.len(),
                i < n,
                temp >= self@.first().temp,
                increasing(self@) && temp > self@.last().temp ==> first_segment_duty(
                    self@,
                    temp as int,
                    0,
                ) is None,
                first_segment_duty(self@, temp as int, 0) == first_segment_duty(
                    self@,
                    temp as int,
                    i as int,
                ),
            decreases n - i,
        {
            let prev: FanPoint = self.points[i];
            let next: FanPoint = self.points[i + 1];
            let found: Option<u16> = prev.get_duty_between_points(next, temp);
            if found.is_some() {
                return found;
            }
            i += 1;
        }
        // Past every segment: the last point duty
        Some(self.points[n - 1].duty)
    }
}

/// No segment from index `from` on yields anything at a temperature above all
/// the points from there on.
pub proof fn lemma_no_segment_beyond(points: Seq<Breakpoint>, temp: int, from: int)
    requires
        0 <= from,
        forall|k: int| from <= k < points.len() ==> points[k].temp < temp,
    ensures
        first_segment_duty(points, temp, from) is None,
    decreases points.len() - from,
{
    if from + 1 < points.len() {
        lemma_no_segment_beyond(points, temp, from + 1);
    }
}

/// On a curve with increasing temperatures, a scan that starts at or before
/// segment `i` and meets a temperature in the half-open span
/// `(points[i].temp, points[i + 1].temp]`, or the first point of segment `i`
/// itself when the scan starts there, yields what segment `i` yields.
proof fn lemma_segment_found(points: Seq<Breakpoint>, temp: int, from: int, i: int)
    requires
        increasing(points),
        0 <= from <= i,
        i + 1 < points.len(),
        points[i].temp < temp <= points[i + 1].temp || (from == i && temp == points[i].temp),
    ensures
        first_segment_duty(points, temp, from) == segment_duty(points[i], points[i + 1], temp),
    decreases i - from,
{
    if from < i {
        assert(points[from].temp < points[from + 1].temp <= points[i].temp);
        lemma_segment_found(points, temp, from + 1, i);
    }
}

/// Below the first breakpoint a curve yields the first breakpoint's duty.
pub proof fn law_clamp_below(points: Seq<Breakpoint>, temp: int)
    requires
        points.len() > 0,
        temp < points.first().temp,
    ensures
        curve_duty(points, temp) == Some(points.first().duty),
{
}

/// Above the last breakpoint a curve with increasing temperatures yields the
/// last breakpoint's duty.
pub proof fn law_clamp_above(points: Seq<Breakpoint>, temp: int)
    requires
        points.len() > 0,
        increasing(points),
        temp > points.last().temp,
    ensures
        curve_duty(points, temp) == Some(points.last().duty),
{
    lemma_no_segment_beyond(points, temp, 0);
}

/// At the temperature of a breakpoint a curve with increasing temperatures
/// yields that breakpoint's duty.
pub proof fn law_breakpoint(points: Seq<Breakpoint>, i: int)
    requires
        increasing(points),
        0 <= i < points.len(),
    ensures
        curve_duty(points, points[i].temp) == Some(points[i].duty),
{
    let temp = points[i].temp;
    if points.len() == 1 {
    } else if i == 0 {
        lemma_segment_found(points, temp, 0, 0);
    } else {
        lemma_segment_found(points, temp, 0, i - 1);
    }
}

/// Strictly between two consecutive breakpoints a curve with increasing
/// temperatures yields the duty on the straight line between them, rounded to
/// the nearest duty unit: twice its distance from the line, measured in
/// units of the temperature span, is at most the span.
pub proof fn law_interpolation(points: Seq<Breakpoint>, i: int, temp: int)
    requires
        increasing(points),
        0 <= i,
        i + 1 < points.len(),
        points[i].temp < temp < points[i + 1].temp,
    ensures
        curve_duty(points, temp) == Some(interpolated(points[i], points[i + 1], temp)),
        ({
            let prev = points[i];
            let next = points[i + 1];
            let on_line = (next.duty - prev.duty) * (temp - prev.temp);
            let chosen = (interpolated(prev, next, temp) - prev.duty) * (next.temp - prev.temp);
            -(next.temp - prev.temp) <= 2 * (chosen - on_line) <= next.temp - prev.temp
        }),
{
    lemma_segment_found(points, temp, 0, i);
    lemma_round_div_nearest(
        (points[i + 1].duty - points[i].duty) * (temp - points[i].temp),
        points[i + 1].temp - points[i].temp,
    );
}

/// Every duty of the points lies between `low` and `high`.
pub open spec fn duties_within(points: Seq<Breakpoint>, low: int, high: int) -> bool {
    forall|i: int| 0 <= i < points.len() ==> low <= (#[trigger] points[i]).duty <= high
}

/// What a segment yields lies within the range of the duties of the points.
proof fn lemma_segment_within(points: Seq<Breakpoint>, temp: int, from: int, low: int, high: int)
    requires
        0 <= from,
        duties_within(points, low, high),
    ensures
        first_segment_duty(points, temp, from) matches Some(duty) ==> low <= duty <= high,
    decreases points.len() - from,
{
    if from + 1 < points.len() {
        let prev = points[from];
        let next = points[from + 1];
        if prev.temp < temp < next.temp {
            lemma_round_div_scaled(next.duty - prev.duty, temp - prev.temp, next.temp - prev.temp);
        }
        lemma_segment_within(points, temp, from + 1, low, high);
    }
}

/// A curve never leaves the range of the duties of its points: whatever the
/// temperature, and whatever the order of the points, the duty it yields is
/// no lower than the lowest and no higher than the highest of them.
pub proof fn law_duty_within(points: Seq<Breakpoint>, temp: int, low: int, high: int)
    requires
        points.len() > 0,
        duties_within(points, low, high),
    ensures
        curve_duty(points, temp) matches Some(duty) && low <= duty <= high,
{
    lemma_segment_within(points, temp, 0, low, high);
}

/// Duties never fall along the sequence.
pub open spec fn rising(points: Seq<Breakpoint>) -> bool {
    forall|i: int, j: int| 0 <= i <= j < points.len() ==> points[i].duty <= points[j].duty
}

/// The number of points, from the index `from` on and before the first that
/// lies above `temp`, added to `from`: on a curve with increasing
/// temperatures, the number of points at or below `temp`.
pub open spec fn points_upto(points: Seq<Breakpoint>, temp: int, from: int) -> int
    decreases points.len() - from,
{
    if from < 0 || from >= points.len() || points[from].temp > temp {
        from
    } else {
        points_upto(points, temp, from + 1)
    }
}

/// Where a temperature lies among the points of a curve with increasing
/// temperatures.
proof fn lemma_points_upto(points: Seq<Breakpoint>, temp: int, from: int)
    requires
        increasing(points),
        0 <= from <= points.len(),
        forall|j: int| 0 <= j < from ==> points[j].temp <= temp,
    ensures
        from <= points_upto(points, temp, from) <= points.len(),
        forall|j: int| 0 <= j < points_upto(points, temp, from) ==> points[j].temp <= temp,
        forall|j: int| points_upto(points, temp, from) <= j < points.len() ==> points[j].temp > temp,
    decreases points.len() - from,
{
    if from < points.len() && points[from].temp <= temp {
        lemma_points_upto(points, temp, from + 1);
    }
}

/// On a curve with increasing temperatures and duties that never fall, the
/// duty at a temperature lies between the duty of the last point at or
/// below it and the duty of the first point above it.
proof fn lemma_duty_between_neighbours(points: Seq<Breakpoint>, temp: int)
    requires
        points.len() > 0,
        increasing(points),
        rising(points),
    ensures
        ({
            let upto = points_upto(points, temp, 0);
            let duty = curve_duty(points, temp)->0;
            &&& curve_duty(points, temp) is Some
            &&& 0 <= upto <= points.len()
            &&& upto == 0 ==> duty == points[0].duty
            &&& upto == points.len() ==> duty == points.last().duty
            &&& 0 < upto < points.len() ==> points[upto - 1].duty <= duty <= points[upto].duty
            &&& 0 < upto < points.len() ==> points[upto - 1].temp <= temp < points[upto].temp
            &&& 0 < upto < points.len() && points[upto - 1].temp == temp ==> duty == points[upto
                - 1].duty
            &&& 0 < upto < points.len() && points[upto - 1].temp < temp ==> duty == interpolated(
                points[upto - 1],
                points[upto],
                temp,
            )
        }),
{
    lemma_points_upto(points, temp, 0);
    let upto = points_upto(points, temp, 0);
    if upto == 0 {
        law_clamp_below(points, temp);
    } else if points[upto - 1].temp == temp {
        law_breakpoint(points, upto - 1);
    } else if upto == points.len() {
        law_clamp_above(points, temp);
    } else {
        let prev = points[upto - 1];
        let next = points[upto];
        law_interpolation(points, upto - 1, temp);
        lemma_round_div_scaled(next.duty - prev.duty, temp - prev.temp, next.temp - prev.temp);
    }
}

/// Rounding to nearest keeps the order of two quotients by one divisor.
proof fn lemma_round_div_ordered(less: int, more: int, d: int)
    requires
        0 <= less <= more,
        d > 0,
    ensures
        round_div(less, d) <= round_div(more, d),
{
    assert((2 * less + d) / (2 * d) <= (2 * more + d) / (2 * d)) by (nonlinear_arith)
        requires
            0 <= less <= more,
            d > 0,
    ;
}

/// On a curve with increasing temperatures and duties that never fall, a
/// higher temperature never has a lower duty.
pub proof fn law_hotter_not_lower(points: Seq<Breakpoint>, cooler: int, hotter: int)
    requires
        points.len() > 0,
        increasing(points),
        rising(points),
        cooler <= hotter,
    ensures
        curve_duty(points, cooler) is Some,
        curve_duty(points, hotter) is Some,
        curve_duty(points, cooler)->0 <= curve_duty(points, hotter)->0,
{
    lemma_duty_between_neighbours(points, cooler);
    lemma_duty_between_neighbours(points, hotter);
    lemma_points_upto(points, cooler, 0);
    lemma_points_upto(points, hotter, 0);
    let low = points_upto(points, cooler, 0);
    let high = points_upto(points, hotter, 0);
    assert(low <= high) by {
        if high < low {
            assert(points[high].temp <= cooler);
            assert(points[high].temp > hotter);
        }
    }
    if low < high {
        assert(points[low].duty <= points[high - 1].duty);
    } else if 0 < low < points.len() && points[low - 1].temp < cooler {
        let prev = points[low - 1];
        let next = points[low];
        let rise = next.duty - prev.duty;
        assert(0 <= rise * (cooler - prev.temp) <= rise * (hotter - prev.temp)) by (nonlinear_arith)
            requires
                rise >= 0,
                0 <= cooler - prev.temp <= hotter - prev.temp,
        ;
        lemma_round_div_ordered(
            rise * (cooler - prev.temp),
            rise * (hotter - prev.temp),
            next.temp - prev.temp,
        );
    }
}

/// The temperatures of the standard curve increase, and so do its duties.
pub proof fn law_standard_rises()
    ensures
        increasing(standard_points()),
        rising(standard_points()),
{
}

/// A curve yields no duty exactly when it has no points.
pub proof fn law_none_iff_empty(points: Seq<Breakpoint>, temp: int)
    ensures
        curve_duty(points, temp) is None <==> points.len() == 0,
{
}

} // verus!
