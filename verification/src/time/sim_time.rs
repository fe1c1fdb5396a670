//! Simulation time and the durations between two simulation times.
use core::cmp::Ordering;
use vstd::prelude::*;
use vstd::std_specs::cmp::{PartialEqSpecImpl, PartialOrdSpecImpl};
use vstd::std_specs::ops::{AddSpecImpl, SubSpecImpl};
use vstd::string::*;

use crate::time::real_time::{
    div_toward_zero, lemma_duration_plus, TimeDuration, DURATION_MAX_MICROS,
};

verus! {

/// Largest number of whole seconds a duration can hold.
pub const DURATION_MAX_SECONDS: i64 = 9_223_372_036_854_775;

/// A simulation time duration. i.e. the amount of time elapsed between two simulation time
/// measurements.
#[derive(Clone, Debug, Copy)]
pub struct SimDuration(i128);

impl View for SimDuration {
    type V = int;

    /// Microseconds.
    closed spec fn view(&self) -> int {
        self.0 as int
    }
}

impl SimDuration {
    /// Every duration lies within `i64::MAX` milliseconds of zero.
    #[verifier::type_invariant]
    pub open spec fn is_valid(self) -> bool {
        -DURATION_MAX_MICROS <= self@ <= DURATION_MAX_MICROS
    }

    /// The whole milliseconds in the duration, rounded toward zero.
    pub open spec fn spec_num_milliseconds(&self) -> int {
        div_toward_zero(self@, 1_000)
    }

    /// Creates an instance with 0 duration
    pub fn zero() -> (d: Self)
        ensures
            d@ == 0,
    {
        Self(0)
    }

    /// Creates an instance with the specified number of seconds
    pub fn seconds(seconds: i64) -> (d: Self)
        requires
            -DURATION_MAX_SECONDS <= seconds <= DURATION_MAX_SECONDS,
        ensures
            d@ == seconds * 1_000_000,
    {
        let wide: i128 = seconds as i128;
        Self(wide * 1_000_000)
    }

    /// Returns a `SimDuration` with number of milliseconds
    pub fn milliseconds(millis: i64) -> (d: Self)
        requires
            millis > i64::MIN,
        ensures
            d@ == millis * 1_000,
    {
        let wide: i128 = millis as i128;
        Self(wide * 1_000)
    }

    /// Returns a `SimDuration` with micros number of microseconds
    ///
    /// # Arguments
    ///
    /// * `micros` - The number of microseconds duration
    pub fn microseconds(micros: i64) -> (d: Self)
        ensures
            d@ == micros,
    {
        let wide: i128 = micros as i128;
        Self(wide)
    }

    /// Returns the number of milliseconds since the simulation clock started
    pub fn num_milliseconds(&self) -> (millis: i64)
        ensures
            millis == self.spec_num_milliseconds(),
    {
        proof {
            use_type_invariant(self);
        }
        let quotient: i128 = self.0 / 1_000;
        quotient as i64
    }

    /// The microseconds in the duration, exactly.
    pub fn total_microseconds(&self) -> (micros: i128)
        ensures
            micros == self@,
            -DURATION_MAX_MICROS <= micros <= DURATION_MAX_MICROS,
    {
        proof {
            use_type_invariant(self);
        }
        self.0
    }
}

impl PartialEq for SimDuration {
    fn eq(&self, other: &SimDuration) -> (r: bool) {
        self.0 == other.0
    }
}

impl PartialEqSpecImpl for SimDuration {
    open spec fn obeys_eq_spec() -> bool {
        true
    }

    open spec fn eq_spec(&self, other: &SimDuration) -> bool {
        self@ == other@
    }
}

impl PartialOrd for SimDuration {
    fn partial_cmp(&self, other: &SimDuration) -> (r: Option<Ordering>) {
        if self.0 < other.0 {
            Some(Ordering::Less)
        } else if self.0 == other.0 {
            Some(Ordering::Equal)
        } else {
            Some(Ordering::Greater)
        }
    }
}

impl PartialOrdSpecImpl for SimDuration {
    open spec fn obeys_partial_cmp_spec() -> bool {
        true
    }

    open spec fn partial_cmp_spec(&self, other: &SimDuration) -> Option<Ordering> {
        if self@ < other@ {
            Some(Ordering::Less)
        } else if self@ == other@ {
            Some(Ordering::Equal)
        } else {
            Some(Ordering::Greater)
        }
    }
}

/// A duration equals a raw count of milliseconds when its whole milliseconds are that count.
impl PartialEq<i64> for SimDuration {
    fn eq(&self, other: &i64) -> (r: bool) {
        self.num_milliseconds() == *other
    }
}

impl PartialEqSpecImpl<i64> for SimDuration {
    open spec fn obeys_eq_spec() -> bool {
        true
    }

    open spec fn eq_spec(&self, other: &i64) -> bool {
        self.spec_num_milliseconds() == *other
    }
}

/// A duration is ordered against a raw count of milliseconds by its whole milliseconds.
impl PartialOrd<i64> for SimDuration {
    fn partial_cmp(&self, other: &i64) -> (r: Option<Ordering>) {
        let millis: i64 = self.num_milliseconds();
        if millis < *other {
            Some(Ordering::Less)
        } else if millis == *other {
            Some(Ordering::Equal)
        } else {
            Some(Ordering::Greater)
        }
    }
}

impl PartialOrdSpecImpl<i64> for SimDuration {
    open spec fn obeys_partial_cmp_spec() -> bool {
        true
    }

    open spec fn partial_cmp_spec(&self, other: &i64) -> Option<Ordering> {
        if self.spec_num_milliseconds() < *other {
            Some(Ordering::Less)
        } else if self.spec_num_milliseconds() == *other {
            Some(Ordering::Equal)
        } else {
            Some(Ordering::Greater)
        }
    }
}

/// The character for the decimal digit `digit`.
pub open spec fn digit_char(digit: nat) -> char {
    if digit == 0 {
        '0'
    } else if digit == 1 {
        '1'
    } else if digit == 2 {
        '2'
    } else if digit == 3 {
        '3'
    } else if digit == 4 {
        '4'
    } else if digit == 5 {
        '5'
    } else if digit == 6 {
        '6'
    } else if digit == 7 {
        '7'
    } else if digit == 8 {
        '8'
    } else {
        '9'
    }
}

/// The decimal digits of `value`, without leading zeros.
pub open spec fn decimal_digits(value: nat) -> Seq<char>
    decreases value,
{
    if value < 10 {
        seq![digit_char(value)]
    } else {
        decimal_digits(value / 10).push(digit_char(value % 10))
    }
}

/// The text of one decimal digit.
fn digit_text(digit: u64) -> (text: &'static str)
    requires
        digit < 10,
    ensures
        text@ == seq![digit_char(digit as nat)],
{
    proof {
        reveal_strlit("0");
        reveal_strlit("1");
        reveal_strlit("2");
        reveal_strlit("3");
        reveal_strlit("4");
        reveal_strlit("5");
        reveal_strlit("6");
        reveal_strlit("7");
        reveal_strlit("8");
        reveal_strlit("9");
    }
    let text = if digit == 0 {
        "0"
    } else if digit == 1 {
        "1"
    } else if digit == 2 {
        "2"
    } else if digit == 3 {
        "3"
    } else if digit == 4 {
        "4"
    } else if digit == 5 {
        "5"
    } else if digit == 6 {
        "6"
    } else if digit == 7 {
        "7"
    } else if digit == 8 {
        "8"
    } else {
        "9"
    };
    assert(text@ =~= seq![digit_char(digit as nat)]);
    text
}

/// A time measurement for internal simulation time.
///
/// This time is represented internal as a zero based microsecond offset
/// from the simulation start. It accounts for pauses and stops in the
/// simulation.
#[derive(Copy, Clone, Eq, Debug, Ord)]
pub struct SimTime(
    //microseconds
    u64,
);

/// Two simulation times are equal when their microseconds are.
impl PartialEq for SimTime {
    fn eq(&self, other: &SimTime) -> (r: bool) {
        self.0 == other.0
    }
}

impl PartialEqSpecImpl for SimTime {
    open spec fn obeys_eq_spec() -> bool {
        true
    }

    open spec fn eq_spec(&self, other: &SimTime) -> bool {
        self@ == other@
    }
}

/// The order of simulation times is the order of their microseconds.
impl PartialOrd for SimTime {
    fn partial_cmp(&self, other: &SimTime) -> (r: Option<Ordering>) {
        if self.0 < other.0 {
            Some(Ordering::Less)
        } else if self.0 == other.0 {
            Some(Ordering::Equal)
        } else {
            Some(Ordering::Greater)
        }
    }
}

impl PartialOrdSpecImpl for SimTime {
    open spec fn obeys_partial_cmp_spec() -> bool {
        true
    }

    open spec fn partial_cmp_spec(&self, other: &SimTime) -> Option<Ordering> {
        if self@ < other@ {
            Some(Ordering::Less)
        } else if self@ == other@ {
            Some(Ordering::Equal)
        } else {
            Some(Ordering::Greater)
        }
    }
}

/// Simulation times with the same microseconds are the same simulation time.
pub proof fn lemma_same_micros_same_time(a: SimTime, b: SimTime)
    ensures
        (a@ == b@) == (a == b),
{
}

impl View for SimTime {
    type V = nat;

    /// Microseconds since the simulation epoch.
    closed spec fn view(&self) -> nat {
        self.0 as nat
    }
}

impl SimTime {
    /// Create from microseconds
    pub fn from_micros(microseconds: u64) -> (t: Self)
        ensures
            t@ == microseconds,
    {
        Self(microseconds)
    }

    /// Create from milliseconds
    pub fn from_millis(milliseconds: u64) -> (t: Self)
        requires
            milliseconds * 1_000 <= u64::MAX,
        ensures
            t@ == milliseconds * 1_000,
    {
        Self(milliseconds * 1_000)
    }

    /// Create from seconds
    pub fn from_seconds(seconds: u64) -> (t: Self)
        requires
            seconds * 1_000_000 <= u64::MAX,
        ensures
            t@ == seconds * 1_000_000,
    {
        Self(seconds * 1_000_000)
    }

    /// Zero value.
    pub fn zero() -> (t: Self)
        ensures
            t@ == 0,
    {
        Self(0)
    }
}

impl SimTime {
    /// Return as millisecond offset.
    pub fn as_millis(&self) -> (millis: u64)
        ensures
            millis == self@ / 1_000,
    {
        self.0 / 1_000
    }

    /// Return as microsecond offset.
    pub fn as_micros(&self) -> (micros: u64)
        ensures
            micros == self@,
    {
        self.0
    }

    /// Return as second offset.
    pub fn as_seconds(&self) -> (seconds: u64)
        ensures
            seconds == self@ / 1_000_000,
    {
        self.0 / 1_000_000
    }

    /// The time as text: its microseconds in decimal digits.
    pub fn to_string(&self) -> (text: String)
        ensures
            text@ == decimal_digits(self@),
    {
        let mut rest: u64 = self.0 / 10;
        let mut text = String::from_str(digit_text(self.0 % 10));
        while rest > 0
            invariant
                decimal_digits(self@) == (if rest > 0 {
                    decimal_digits(rest as nat) + text@
                } else {
                    text@
                }),
            decreases rest,
        {
            proof {
                if rest >= 10 {
                    assert(decimal_digits(rest as nat) + text@ =~= decimal_digits(
                        (rest / 10) as nat,
                    ) + (seq![digit_char((rest % 10) as nat)] + text@));
                }
            }
            text = String::from_str(digit_text(rest % 10)).concat(text.as_str());
            rest = rest / 10;
        }
        text
    }

    /// Whether `micros` microseconds after `self` is a simulation time: not before the epoch
    /// and not beyond the last one.
    pub open spec fn can_offset(self, micros: int) -> bool {
        0 <= self@ + micros <= u64::MAX
    }

    /// The simulation time `micros` microseconds after `self`, where there is one.
    pub closed spec fn plus(self, micros: int) -> SimTime {
        SimTime((self.0 + micros) as u64)
    }

    /// The time `micros` microseconds after `self`.
    fn offset(self, micros: i128) -> (t: SimTime)
        requires
            self.can_offset(micros as int),
        ensures
            t == self.plus(micros as int),
            t@ == self@ + micros,
    {
        let sum: i128 = self.0 as i128 + micros;
        SimTime(sum as u64)
    }
}

impl core::ops::Sub for SimTime {
    type Output = SimDuration;

    /// The time from `rhs` to `self`; zero where `rhs` is the later one.
    fn sub(self, rhs: Self) -> (d: SimDuration)
        ensures
            d@ == (if self@ >= rhs@ {
                self@ - rhs@
            } else {
                0
            }),
    {
        if self.0 >= rhs.0 {
            let gap: u64 = self.0 - rhs.0;
            SimDuration(gap as i128)
        } else {
            SimDuration::zero()
        }
    }
}

impl SubSpecImpl for SimTime {
    open spec fn obeys_sub_spec() -> bool {
        true
    }

    open spec fn sub_req(self, rhs: SimTime) -> bool {
        true
    }

    closed spec fn sub_spec(self, rhs: SimTime) -> SimDuration {
        if self.0 >= rhs.0 {
            SimDuration((self.0 - rhs.0) as i128)
        } else {
            SimDuration(0)
        }
    }
}

impl core::ops::Add<SimDuration> for SimTime {
    type Output = SimTime;

    fn add(self, rhs: SimDuration) -> (t: SimTime)
        ensures
            t@ == self@ + rhs@,
    {
        self.offset(rhs.total_microseconds())
    }
}

impl AddSpecImpl<SimDuration> for SimTime {
    open spec fn obeys_add_spec() -> bool {
        true
    }

    open spec fn add_req(self, rhs: SimDuration) -> bool {
        self.can_offset(rhs@)
    }

    open spec fn add_spec(self, rhs: SimDuration) -> SimTime {
        self.plus(rhs@)
    }
}

impl core::ops::Add<TimeDuration> for SimTime {
    type Output = SimTime;

    fn add(self, rhs: TimeDuration) -> (t: SimTime)
        ensures
            t@ == self@ + rhs@,
    {
        self.offset(rhs.total_microseconds())
    }
}

impl AddSpecImpl<TimeDuration> for SimTime {
    open spec fn obeys_add_spec() -> bool {
        true
    }

    open spec fn add_req(self, rhs: TimeDuration) -> bool {
        self.can_offset(rhs@)
    }

    open spec fn add_spec(self, rhs: TimeDuration) -> SimTime {
        self.plus(rhs@)
    }
}

/// Simulation time addition is associative: adding a duration of `d1` microseconds and then
/// one of `d2` leads to the simulation time that adding a duration of their sum leads to,
/// wherever the times on the way are simulation times.
pub proof fn lemma_sim_time_add_associative(t: SimTime, d1: int, d2: int)
    requires
        t.can_offset(d1),
        t.plus(d1).can_offset(d2),
    ensures
        t.can_offset(d1 + d2),
        t.plus(d1).plus(d2) == t.plus(d1 + d2),
        t.plus(d1).plus(d2)@ == t@ + (d1 + d2),
{
}

/// The same with the durations added first: adding `d1` and then `d2` leads to the
/// simulation time that adding their sum leads to, wherever the sum is a duration and the
/// times on the way are simulation times.
pub proof fn lemma_sim_time_add_durations_associative(
    t: SimTime,
    d1: TimeDuration,
    d2: TimeDuration,
)
    requires
        d1.is_valid(),
        d2.is_valid(),
        -DURATION_MAX_MICROS <= d1@ + d2@ <= DURATION_MAX_MICROS,
        t.can_offset(d1@),
        t.plus(d1@).can_offset(d2@),
    ensures
        t.can_offset(d1.plus(d2)@),
        t.plus(d1@).plus(d2@) == t.plus(d1.plus(d2)@),
{
    lemma_duration_plus(d1, d2);
}

} // verus!
