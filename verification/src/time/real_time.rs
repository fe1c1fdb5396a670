//! Wall-clock instants, wall-clock durations and the timestamp that stores an instant.
use core::ops::AddAssign;
use vstd::prelude::*;
use vstd::std_specs::convert::{FromSpecImpl, TryFromSpecImpl};
use vstd::std_specs::ops::SubSpecImpl;
use vstd::string::*;

use crate::error::ToolboxError;
use crate::time::sim_time::SimTime;

verus! {

/// Largest magnitude a duration can hold, in microseconds: `i64::MAX` milliseconds.
pub const DURATION_MAX_MICROS: i128 = 9_223_372_036_854_775_807_000;

/// First representable instant, in microseconds since the Unix epoch:
/// midnight of January 1 of the year -262143.
pub const WALL_MIN_MICROS: i64 = -8_334_601_228_800_000_000;

/// Last representable instant, in microseconds since the Unix epoch:
/// the last microsecond of December 31 of the year 262142.
pub const WALL_MAX_MICROS: i64 = 8_210_266_876_799_999_999;

/// First representable instant, in milliseconds since the Unix epoch.
pub const WALL_MIN_MILLIS: i64 = -8_334_601_228_800_000;

/// Last representable instant, in milliseconds since the Unix epoch.
pub const WALL_MAX_MILLIS: i64 = 8_210_266_876_799_999;

/// `a / b` rounded toward zero, for a positive `b`.
pub open spec fn div_toward_zero(a: int, b: int) -> int {
    if a >= 0 {
        a / b
    } else {
        -((-a) / b)
    }
}

/// `x` brought into the range of a duration.
pub open spec fn clamp_duration(x: int) -> int {
    if x < -DURATION_MAX_MICROS {
        -DURATION_MAX_MICROS as int
    } else if x > DURATION_MAX_MICROS {
        DURATION_MAX_MICROS as int
    } else {
        x
    }
}

/// `x` brought into the range of a wall-clock instant.
pub open spec fn clamp_wall(x: int) -> int {
    if x < WALL_MIN_MICROS {
        WALL_MIN_MICROS as int
    } else if x > WALL_MAX_MICROS {
        WALL_MAX_MICROS as int
    } else {
        x
    }
}

#[verifier::external_type_specification]
#[verifier::external_body]
pub struct ExNaiveDateTime(chrono::NaiveDateTime);

#[verifier::external_type_specification]
#[verifier::external_body]
pub struct ExTimeDelta(chrono::TimeDelta);

/// Whether whole seconds, rounded down, and the nanoseconds beyond them make up a span
/// within `i64::MAX` milliseconds of zero.
pub open spec fn is_duration_parts(seconds: int, nanos: int) -> bool {
    &&& 0 <= nanos < 1_000_000_000
    &&& -9_223_372_036_854_776 <= seconds <= 9_223_372_036_854_775
    &&& seconds == 9_223_372_036_854_775 ==> nanos <= 807_000_000
    &&& seconds == -9_223_372_036_854_776 ==> nanos >= 193_000_000
}

/// What `chrono::TimeDelta::new` makes of `seconds` seconds and `nanos` nanoseconds.
pub uninterp spec fn time_delta_new(seconds: i64, nanos: u32) -> Option<chrono::TimeDelta>;

/// What `chrono::DateTime::from_timestamp_micros` makes of `micros` microseconds, as a
/// calendar value without a time zone.
pub uninterp spec fn date_time_from_micros(micros: i64) -> Option<chrono::NaiveDateTime>;

/// What `chrono::NaiveDateTime::and_utc().timestamp_micros()` makes of a calendar value: the
/// microseconds between the Unix epoch and it.
pub uninterp spec fn date_time_micros(naive: chrono::NaiveDateTime) -> i64;

/// The whole seconds in `micros` microseconds, rounded down.
pub open spec fn whole_seconds(micros: int) -> int {
    micros / 1_000_000
}

/// The nanoseconds in `micros` microseconds that lie beyond its whole seconds.
pub open spec fn nanos_beyond_seconds(micros: int) -> int {
    (micros % 1_000_000) * 1_000
}

/// `chrono::TimeDelta::new`: the span of `seconds` seconds and `nanos` nanoseconds, which
/// depends on nothing but the two numbers. There is one exactly when the parts make up a
/// span within `i64::MAX` milliseconds of zero. The span itself is opaque here.
#[verifier::external_body]
fn span_from_parts(seconds: i64, nanos: u32) -> (span: Option<chrono::TimeDelta>)
    ensures
        span == time_delta_new(seconds, nanos),
        span.is_some() <==> is_duration_parts(seconds as int, nanos as int),
{
    chrono::TimeDelta::new(seconds, nanos)
}

/// `chrono::Utc::now`, as microseconds since the Unix epoch. The reading depends on the
/// machine's clock, so all that is claimed is that it is an instant the calendar can hold
/// and that it does not lie before the Unix epoch.
#[verifier::external_body]
fn utc_now_micros() -> (micros: i64)
    ensures
        0 <= micros <= WALL_MAX_MICROS,
{
    chrono::Utc::now().timestamp_micros()
}

/// `chrono::DateTime::from_timestamp_millis`: the calendar value of the instant `millis`
/// milliseconds after the Unix epoch. There is one exactly when the instant lies within the
/// calendar's years, -262143 to 262142.
#[verifier::external_body]
fn naive_from_millis(millis: i64) -> (naive: Option<chrono::NaiveDateTime>)
    ensures
        naive.is_some() <==> WALL_MIN_MILLIS <= millis <= WALL_MAX_MILLIS,
{
    match chrono::DateTime::from_timestamp_millis(millis) {
        Some(instant) => Some(instant.naive_utc()),
        None => None,
    }
}

/// `chrono::DateTime::from_timestamp_micros`: the calendar value of the instant `micros`
/// microseconds after the Unix epoch, which depends on nothing but that number. There is one
/// exactly when the instant lies within the calendar's years, -262143 to 262142, and its
/// microseconds since the Unix epoch are `micros` again.
#[verifier::external_body]
fn naive_from_micros(micros: i64) -> (naive: Option<chrono::NaiveDateTime>)
    ensures
        naive == date_time_from_micros(micros),
        naive.is_some() <==> WALL_MIN_MICROS <= micros <= WALL_MAX_MICROS,
        naive matches Some(value) ==> date_time_micros(value) == micros,
{
    match chrono::DateTime::from_timestamp_micros(micros) {
        Some(instant) => Some(instant.naive_utc()),
        None => None,
    }
}

/// `chrono::NaiveDateTime::and_utc().timestamp_micros()`: microseconds between the Unix epoch
/// and a calendar value, which depend on nothing but that value.
#[verifier::external_body]
fn naive_to_micros(naive: &chrono::NaiveDateTime) -> (micros: i64)
    ensures
        micros == date_time_micros(*naive),
{
    naive.and_utc().timestamp_micros()
}

/// This type represents a [`WallTime`] time stamp as a microsecond offset from the Unix epoch:
/// a plain integer that can be stored and sent.
#[derive(Debug, Copy, Clone)]
pub struct TimeStamp(i64);

impl View for TimeStamp {
    type V = int;

    closed spec fn view(&self) -> int {
        self.0 as int
    }
}

impl TimeStamp {
    /// The time stamp that holds `micros` microseconds.
    pub fn from_micros(micros: i64) -> (stamp: Self)
        ensures
            stamp@ == micros,
    {
        TimeStamp(micros)
    }

    /// The microseconds held.
    pub fn as_micros(&self) -> (micros: i64)
        ensures
            micros == self@,
    {
        self.0
    }
}

/// Wrapper type around a signed span of wall-clock time, at microsecond resolution.
#[derive(Debug, Copy, Clone, PartialEq, Eq, PartialOrd, Ord, Structural)]
pub struct TimeDuration(i128);

impl View for TimeDuration {
    type V = int;

    closed spec fn view(&self) -> int {
        self.0 as int
    }
}

impl TimeDuration {
    /// Every duration lies within `i64::MAX` milliseconds of zero.
    #[verifier::type_invariant]
    pub open spec fn is_valid(self) -> bool {
        -DURATION_MAX_MICROS <= self@ <= DURATION_MAX_MICROS
    }

    /// The sum of two durations, where it is a duration.
    pub closed spec fn plus(self, rhs: TimeDuration) -> TimeDuration {
        TimeDuration((self.0 + rhs.0) as i128)
    }

    /// Returns a `TimeDuration` with 0 duration
    pub fn zero() -> (d: Self)
        ensures
            d@ == 0,
    {
        Self(0)
    }

    /// Returns a `TimeDuration` with millisecond duration
    ///
    /// # Arguments
    ///
    /// * `millis` - The number of millisecond duration
    pub fn milliseconds(millis: i64) -> (d: Self)
        requires
            millis > i64::MIN,
        ensures
            d@ == millis * 1_000,
    {
        let wide: i128 = millis as i128;
        Self(wide * 1_000)
    }

    /// Returns a `TimeDuration` with microsecond duration
    pub fn microseconds(micros: i64) -> (d: Self)
        ensures
            d@ == micros,
    {
        Self(micros as i128)
    }

    /// The duration nearest to `micros` microseconds.
    pub fn saturating_from_micros(micros: i128) -> (d: Self)
        ensures
            d@ == clamp_duration(micros as int),
    {
        if micros < -DURATION_MAX_MICROS {
            Self(-DURATION_MAX_MICROS)
        } else if micros > DURATION_MAX_MICROS {
            Self(DURATION_MAX_MICROS)
        } else {
            Self(micros)
        }
    }

    /// The whole milliseconds in the duration, rounded toward zero.
    pub fn num_milliseconds(&self) -> (millis: i64)
        ensures
            millis == div_toward_zero(self@, 1_000),
    {
        proof {
            use_type_invariant(self);
        }
        (self.0 / 1_000) as i64
    }

    /// The microseconds in the duration, or `None` where they do not fit.
    pub fn num_microseconds(&self) -> (micros: Option<i64>)
        ensures
            micros == (if i64::MIN <= self@ <= i64::MAX {
                Some(self@ as i64)
            } else {
                None
            }),
    {
        if self.0 < i64::MIN as i128 || self.0 > i64::MAX as i128 {
            None
        } else {
            Some(self.0 as i64)
        }
    }

    /// The microseconds in the duration, exactly.
    pub fn total_microseconds(&self) -> (micros: i128)
        ensures
            micros == self@,
            -DURATION_MAX_MICROS <= micros <= DURATION_MAX_MICROS,
    {
        proof {
            use_type_invariant(self);
        }
        self.0
    }

    /// The duration as a `chrono::TimeDelta`: the span that chrono makes of the duration's
    /// whole seconds, rounded down, and the nanoseconds beyond them.
    pub fn as_duration(&self) -> (span: chrono::TimeDelta)
        ensures
            is_duration_parts(whole_seconds(self@), nanos_beyond_seconds(self@)),
            time_delta_new(whole_seconds(self@) as i64, nanos_beyond_seconds(self@) as u32)
                == Some(span),
    {
        proof {
            use_type_invariant(self);
        }
        let quotient: i128 = self.0 / 1_000_000;
        let remainder: i128 = self.0 % 1_000_000;
        if remainder < 0 {
            let seconds: i64 = (quotient - 1) as i64;
            let nanos: u32 = ((remainder + 1_000_000) * 1_000) as u32;
            span_from_parts(seconds, nanos).unwrap()
        } else {
            let seconds: i64 = quotient as i64;
            let nanos: u32 = (remainder * 1_000) as u32;
            span_from_parts(seconds, nanos).unwrap()
        }
    }
}

impl From<TimeDuration> for chrono::TimeDelta {
    /// The duration as a `chrono::TimeDelta`, as `as_duration` gives it.
    fn from(val: TimeDuration) -> (span: Self)
        ensures
            time_delta_new(whole_seconds(val@) as i64, nanos_beyond_seconds(val@) as u32)
                == Some(span),
    {
        val.as_duration()
    }
}

impl FromSpecImpl<TimeDuration> for chrono::TimeDelta {
    open spec fn obeys_from_spec() -> bool {
        true
    }

    open spec fn from_spec(val: TimeDuration) -> Self {
        time_delta_new(whole_seconds(val@) as i64, nanos_beyond_seconds(val@) as u32)->Some_0
    }
}

impl AddAssign<TimeDuration> for TimeDuration {
    fn add_assign(&mut self, rhs: TimeDuration)
        requires
            -DURATION_MAX_MICROS <= old(self)@ + rhs@ <= DURATION_MAX_MICROS,
        ensures
            *final(self) == old(self).plus(rhs),
            final(self)@ == old(self)@ + rhs@,
    {
        proof {
            use_type_invariant(&*self);
            use_type_invariant(&rhs);
        }
        self.0 = self.0 + rhs.0;
    }
}

impl core::ops::Sub for TimeDuration {
    type Output = TimeDuration;

    fn sub(self, rhs: TimeDuration) -> (d: TimeDuration)
        ensures
            d@ == self@ - rhs@,
    {
        proof {
            use_type_invariant(&self);
            use_type_invariant(&rhs);
        }
        TimeDuration(self.0 - rhs.0)
    }
}

impl SubSpecImpl for TimeDuration {
    open spec fn obeys_sub_spec() -> bool {
        true
    }

    open spec fn sub_req(self, rhs: TimeDuration) -> bool {
        -DURATION_MAX_MICROS <= self@ - rhs@ <= DURATION_MAX_MICROS
    }

    closed spec fn sub_spec(self, rhs: TimeDuration) -> TimeDuration {
        TimeDuration((self.0 - rhs.0) as i128)
    }
}

impl From<i64> for TimeDuration {
    /// The duration of `value` milliseconds; for `i64::MIN`, which lies one millisecond
    /// outside the range, the shortest duration there is.
    fn from(value: i64) -> (d: Self)
        ensures
            d@ == clamp_duration(value * 1_000),
    {
        let wide: i128 = value as i128;
        TimeDuration::saturating_from_micros(wide * 1_000)
    }
}

impl FromSpecImpl<i64> for TimeDuration {
    open spec fn obeys_from_spec() -> bool {
        true
    }

    closed spec fn from_spec(value: i64) -> Self {
        TimeDuration(clamp_duration(value * 1_000) as i128)
    }
}

impl From<TimeDuration> for i64 {
    /// The whole milliseconds in the duration, rounded toward zero.
    fn from(value: TimeDuration) -> (millis: i64)
        ensures
            millis == div_toward_zero(value@, 1_000),
    {
        value.num_milliseconds()
    }
}

impl FromSpecImpl<TimeDuration> for i64 {
    open spec fn obeys_from_spec() -> bool {
        true
    }

    open spec fn from_spec(value: TimeDuration) -> i64 {
        div_toward_zero(value@, 1_000) as i64
    }
}

/// A wall-clock instant, at microsecond resolution.
#[derive(Copy, Clone, Eq, PartialEq, Debug, PartialOrd, Ord, Structural)]
pub struct WallTime(i64);

impl View for WallTime {
    type V = int;

    /// Microseconds since the Unix epoch.
    closed spec fn view(&self) -> int {
        self.0 as int
    }
}

impl WallTime {
    /// Every instant is one the calendar can hold.
    #[verifier::type_invariant]
    pub open spec fn is_valid(self) -> bool {
        WALL_MIN_MICROS <= self@ <= WALL_MAX_MICROS
    }

    /// The instant `by` after `self`, where the calendar holds it.
    pub closed spec fn plus(self, by: TimeDuration) -> WallTime {
        WallTime((self.0 + by.0) as i64)
    }

    /// Create a new instance with the current wall clock time.
    pub fn now() -> (t: WallTime)
        ensures
            t.is_valid(),
            t@ >= 0,
    {
        WallTime(utc_now_micros())
    }

    /// Makes a new `WallTime` from the number of non-leap milliseconds
    /// since January 1, 1970 0:00:00.000 UTC (aka "UNIX timestamp").
    ///
    /// Returns `None` on out-of-range number of milliseconds, otherwise returns `Some(WallTime)`.
    pub fn from_timestamp_millis(millis: i64) -> (t: Option<WallTime>)
        ensures
            t.is_some() <==> WALL_MIN_MILLIS <= millis <= WALL_MAX_MILLIS,
            t matches Some(instant) ==> instant@ == millis * 1_000,
    {
        match naive_from_millis(millis) {
            Some(_) => Some(WallTime(millis * 1_000)),
            None => None,
        }
    }

    /// Return time stamp as a [`chrono::NaiveDateTime`]: the calendar value that chrono makes
    /// of the instant's microseconds since the Unix epoch.
    pub fn as_date_time(&self) -> (date_time: chrono::NaiveDateTime)
        ensures
            date_time_from_micros(self@ as i64) == Some(date_time),
            date_time_micros(date_time) == self@,
    {
        proof {
            use_type_invariant(self);
        }
        naive_from_micros(self.0).unwrap()
    }

    /// Return as a msec offset: the whole milliseconds since the Unix epoch, rounded down.
    pub fn timestamp_millis(&self) -> (millis: i64)
        ensures
            millis == self@ / 1_000,
    {
        let quotient = self.0 / 1_000;
        if self.0 % 1_000 < 0 {
            quotient - 1
        } else {
            quotient
        }
    }

    /// Return as a microsecond offset from the Unix epoch.
    pub fn timestamp_micros(&self) -> (micros: i64)
        ensures
            micros == self@,
            WALL_MIN_MICROS <= micros <= WALL_MAX_MICROS,
    {
        proof {
            use_type_invariant(self);
        }
        self.0
    }

    /// The instant `by` after `self`, or the end of the calendar that lies nearest to it.
    pub fn saturating_add(self, by: TimeDuration) -> (t: WallTime)
        ensures
            t@ == clamp_wall(self@ + by@),
    {
        proof {
            use_type_invariant(&self);
            use_type_invariant(&by);
        }
        let sum: i128 = self.0 as i128 + by.0;
        if sum < WALL_MIN_MICROS as i128 {
            WallTime(WALL_MIN_MICROS)
        } else if sum > WALL_MAX_MICROS as i128 {
            WallTime(WALL_MAX_MICROS)
        } else {
            WallTime(sum as i64)
        }
    }
}

impl Default for WallTime {
    /// The current wall clock time.
    fn default() -> (t: Self)
        ensures
            t.is_valid(),
            t@ >= 0,
    {
        Self::now()
    }
}

impl AddAssign<TimeDuration> for WallTime {
    fn add_assign(&mut self, rhs: TimeDuration)
        requires
            WALL_MIN_MICROS <= old(self)@ + rhs@ <= WALL_MAX_MICROS,
        ensures
            *final(self) == old(self).plus(rhs),
            final(self)@ == old(self)@ + rhs@,
    {
        proof {
            use_type_invariant(&*self);
            use_type_invariant(&rhs);
        }
        self.0 = (self.0 as i128 + rhs.0) as i64;
    }
}

impl core::ops::Sub for WallTime {
    type Output = TimeDuration;

    fn sub(self, rhs: Self) -> (d: TimeDuration)
        ensures
            d@ == self@ - rhs@,
    {
        proof {
            use_type_invariant(&self);
            use_type_invariant(&rhs);
        }
        TimeDuration(self.0 as i128 - rhs.0 as i128)
    }
}

impl SubSpecImpl for WallTime {
    open spec fn obeys_sub_spec() -> bool {
        true
    }

    open spec fn sub_req(self, rhs: WallTime) -> bool {
        true
    }

    closed spec fn sub_spec(self, rhs: WallTime) -> TimeDuration {
        TimeDuration((self.0 - rhs.0) as i128)
    }
}

impl From<chrono::NaiveDateTime> for TimeStamp {
    /// The time stamp of a calendar value: its microseconds since the Unix epoch.
    fn from(value: chrono::NaiveDateTime) -> (stamp: Self)
        ensures
            stamp@ == date_time_micros(value),
    {
        TimeStamp(naive_to_micros(&value))
    }
}

impl FromSpecImpl<chrono::NaiveDateTime> for TimeStamp {
    open spec fn obeys_from_spec() -> bool {
        true
    }

    closed spec fn from_spec(value: chrono::NaiveDateTime) -> Self {
        TimeStamp(date_time_micros(value))
    }
}

/// `micros` read as a signed 64-bit number in two's complement.
pub open spec fn wrap_to_signed(micros: nat) -> int {
    if micros <= i64::MAX {
        micros as int
    } else {
        micros - 0x1_0000_0000_0000_0000
    }
}

impl From<SimTime> for TimeStamp {
    /// The simulation time's microseconds; a count above `i64::MAX` wraps round to a
    /// negative one.
    fn from(value: SimTime) -> (stamp: Self)
        ensures
            stamp@ == wrap_to_signed(value@),
    {
        let micros: u64 = value.as_micros();
        if micros <= 0x7fff_ffff_ffff_ffff {
            TimeStamp(micros as i64)
        } else {
            let low: u64 = micros - 0x8000_0000_0000_0000;
            TimeStamp(low as i64 + i64::MIN)
        }
    }
}

impl FromSpecImpl<SimTime> for TimeStamp {
    open spec fn obeys_from_spec() -> bool {
        true
    }

    closed spec fn from_spec(value: SimTime) -> Self {
        TimeStamp(wrap_to_signed(value@) as i64)
    }
}

impl From<WallTime> for TimeStamp {
    fn from(value: WallTime) -> (stamp: Self)
        ensures
            stamp@ == value@,
    {
        TimeStamp(value.0)
    }
}

impl FromSpecImpl<WallTime> for TimeStamp {
    open spec fn obeys_from_spec() -> bool {
        true
    }

    closed spec fn from_spec(value: WallTime) -> Self {
        TimeStamp(value.0)
    }
}

impl TryFrom<TimeStamp> for WallTime {
    type Error = ToolboxError;

    /// The instant that the time stamp holds, or a conversion failure where the calendar
    /// cannot hold it.
    fn try_from(value: TimeStamp) -> (r: Result<Self, Self::Error>)
        ensures
            r.is_ok() <==> WALL_MIN_MICROS <= value@ <= WALL_MAX_MICROS,
            r matches Ok(instant) ==> instant@ == value@,
            r matches Err(e) ==> (e matches ToolboxError::Conversion(detail) && detail@
                == "Could not convert TimeStamp to WallTime"@),
    {
        match naive_from_micros(value.0) {
            Some(_) => Ok(WallTime(value.0)),
            None => Err(
                ToolboxError::Conversion(
                    String::from_str("Could not convert TimeStamp to WallTime"),
                ),
            ),
        }
    }
}

impl TryFromSpecImpl<TimeStamp> for WallTime {
    open spec fn obeys_try_from_spec() -> bool {
        false
    }

    closed spec fn try_from_spec(value: TimeStamp) -> Result<Self, Self::Error> {
        Ok(WallTime(value.0))
    }
}

/// The sum of two durations holds the sum of their microseconds, where that is in range.
pub proof fn lemma_duration_plus(d1: TimeDuration, d2: TimeDuration)
    requires
        d1.is_valid(),
        d2.is_valid(),
        -DURATION_MAX_MICROS <= d1@ + d2@ <= DURATION_MAX_MICROS,
    ensures
        d1.plus(d2)@ == d1@ + d2@,
        d1.plus(d2).is_valid(),
{
}

/// Wall time addition is associative: moving an instant by one duration and then by
/// another leads to the instant that moving it by their sum leads to, wherever the sum is
/// a duration and the calendar holds the instants on the way.
pub proof fn lemma_wall_time_add_associative(t: WallTime, d1: TimeDuration, d2: TimeDuration)
    requires
        t.is_valid(),
        d1.is_valid(),
        d2.is_valid(),
        -DURATION_MAX_MICROS <= d1@ + d2@ <= DURATION_MAX_MICROS,
        WALL_MIN_MICROS <= t@ + d1@ <= WALL_MAX_MICROS,
        WALL_MIN_MICROS <= t@ + d1@ + d2@ <= WALL_MAX_MICROS,
    ensures
        t.plus(d1).plus(d2) == t.plus(d1.plus(d2)),
        t.plus(d1).plus(d2)@ == t@ + (d1@ + d2@),
{
}

} // verus!
