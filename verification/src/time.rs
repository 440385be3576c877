use vstd::prelude::*;
use core::ops::{Add, Sub};
use vstd::std_specs::ops::{AddSpec, SubSpec};
use vstd::std_specs::cmp::PartialOrdSpecImpl;
use vstd::std_specs::cmp::PartialOrdIs;
use core::cmp::Ordering;

verus! {

/// Days in one in-game week.
pub const DAYS_PER_WEEK: u16 = 7;

/// Days in one in-game month.
pub const DAYS_PER_MONTH: u16 = 30;

/// Days in one in-game year.
pub const DAYS_PER_YEAR: u16 = 365;

/// The number of days spelled by the parts `days`, `weeks`, `months` and `years`.
pub open spec fn total_days(days: u16, weeks: u16, months: u16, years: u8) -> int {
    days + 7 * weeks + 30 * months + 365 * years
}

/// A span of in-game time, counted in whole days.
#[derive(Clone, Copy, PartialEq, Eq, Structural, Debug, Hash, Ord)]
pub struct GameDuration {
    days: u16,
}

impl PartialOrd for GameDuration {
    /// Durations are ordered by their number of days.
    fn partial_cmp(&self, other: &Self) -> (r: Option<Ordering>) {
        if self.days < other.days {
            Some(Ordering::Less)
        } else if self.days == other.days {
            Some(Ordering::Equal)
        } else {
            Some(Ordering::Greater)
        }
    }
}

impl PartialOrdSpecImpl for GameDuration {
    open spec fn obeys_partial_cmp_spec() -> bool {
        true
    }

    open spec fn partial_cmp_spec(&self, other: &Self) -> Option<Ordering> {
        if self@ < other@ {
            Some(Ordering::Less)
        } else if self@ == other@ {
            Some(Ordering::Equal)
        } else {
            Some(Ordering::Greater)
        }
    }
}

impl View for GameDuration {
    type V = u16;

    /// The number of days the duration spans.
    closed spec fn view(&self) -> u16 {
        self.days
    }
}

impl GameDuration {
    /// Builds a duration out of its parts; a week is 7 days, a month 30 and a year 365.
    pub fn new(days: u16, weeks: u16, months: u16, years: u8) -> (d: Self)
        requires
            total_days(days, weeks, months, years) <= u16::MAX,
        ensures
            d@ == total_days(days, weeks, months, years),
    {
        let total = days + (7 * weeks) + (30 * months) + (365 * (years as u16));
        Self::from_days(total)
    }

    /// Builds a duration of exactly `days` days.
    pub fn from_days(days: u16) -> (d: Self)
        ensures
            d@ == days,
    {
        GameDuration { days }
    }

    /// Builds a duration of `weeks` weeks.
    pub fn from_weeks(weeks: u16) -> (d: Self)
        requires
            7 * weeks <= u16::MAX,
        ensures
            d@ == 7 * weeks,
    {
        Self::from_days(7 * weeks)
    }

    /// Builds a duration of `months` months.
    pub fn from_months(months: u16) -> (d: Self)
        requires
            30 * months <= u16::MAX,
        ensures
            d@ == 30 * months,
    {
        Self::from_days(30 * months)
    }

    /// Builds a duration of `years` years.
    pub fn from_years(years: u8) -> (d: Self)
        requires
            365 * years <= u16::MAX,
        ensures
            d@ == 365 * years,
    {
        Self::from_days(365 * (years as u16))
    }

    /// The number of days in the duration.
    pub fn as_days(self) -> (r: u16)
        ensures
            r == self@,
    {
        self.days
    }

    /// The number of whole weeks in the duration.
    pub fn as_weeks(self) -> (r: u16)
        ensures
            r == self@ / 7,
    {
        self.days / 7
    }

    /// The number of whole months in the duration.
    pub fn as_months(self) -> (r: u16)
        ensures
            r == self@ / 30,
    {
        self.days / 30
    }

    /// The number of whole years in the duration.
    pub fn as_years(self) -> (r: u8)
        ensures
            r == self@ / 365,
    {
        (self.days / 365) as u8
    }

    /// The sum of two durations.
    pub fn plus(self, rhs: Self) -> (r: Self)
        requires
            self@ + rhs@ <= u16::MAX,
        ensures
            r@ == self@ + rhs@,
    {
        GameDuration { days: self.days + rhs.days }
    }

    /// The difference of two durations.
    pub fn minus(self, rhs: Self) -> (r: Self)
        requires
            rhs@ <= self@,
        ensures
            r@ == self@ - rhs@,
    {
        GameDuration { days: self.days - rhs.days }
    }
}

impl vstd::std_specs::ops::AddSpecImpl for GameDuration {
    open spec fn obeys_add_spec() -> bool {
        true
    }

    open spec fn add_req(self, rhs: GameDuration) -> bool {
        self@ + rhs@ <= u16::MAX
    }

    closed spec fn add_spec(self, rhs: GameDuration) -> GameDuration {
        GameDuration { days: (self@ + rhs@) as u16 }
    }
}

impl Add for GameDuration {
    type Output = GameDuration;

    fn add(self, rhs: Self) -> (r: Self::Output)
        ensures
            r@ == self@ + rhs@,
    {
        self.plus(rhs)
    }
}

impl vstd::std_specs::ops::SubSpecImpl for GameDuration {
    open spec fn obeys_sub_spec() -> bool {
        true
    }

    open spec fn sub_req(self, rhs: GameDuration) -> bool {
        rhs@ <= self@
    }

    closed spec fn sub_spec(self, rhs: GameDuration) -> GameDuration {
        GameDuration { days: (self@ - rhs@) as u16 }
    }
}

impl Sub for GameDuration {
    type Output = GameDuration;

    fn sub(self, rhs: Self) -> (r: Self::Output)
        ensures
            r@ == self@ - rhs@,
    {
        self.minus(rhs)
    }
}

impl GameDuration {
    /// Lengthens the duration by `rhs`, in place.
    pub fn add_assign(&mut self, rhs: Self)
        requires
            old(self)@ + rhs@ <= u16::MAX,
        ensures
            final(self)@ == old(self)@ + rhs@,
    {
        self.days = self.days + rhs.days;
    }

    /// Shortens the duration by `rhs`, in place.
    pub fn sub_assign(&mut self, rhs: Self)
        requires
            rhs@ <= old(self)@,
        ensures
            final(self)@ == old(self)@ - rhs@,
    {
        self.days = self.days - rhs.days;
    }
}

impl Default for GameDuration {
    /// The empty duration.
    fn default() -> (d: Self)
        ensures
            d@ == 0,
    {
        GameDuration { days: 0 }
    }
}

/// Two durations are the same exactly when they span the same number of days; so a duration
/// built from its own day count is that duration again.
pub proof fn lemma_days_determine(a: GameDuration, b: GameDuration)
    ensures
        (a@ == b@) <==> (a == b),
{
}

/// One duration is shorter than another exactly when it spans fewer days.
pub proof fn lemma_days_order(a: GameDuration, b: GameDuration)
    ensures
        a.is_lt(&b) <==> a@ < b@,
        a.is_le(&b) <==> a@ <= b@,
{
}

/// Adding a duration and then taking it away again gives back the duration started from.
pub proof fn lemma_add_then_sub(a: GameDuration, b: GameDuration)
    requires
        a@ + b@ <= u16::MAX,
    ensures
        a.add_spec(b).sub_req(b),
        a.add_spec(b).sub_spec(b) == a,
{
}

/// A whole number of weeks, months or years, built as a duration, reads back as that number
/// of weeks, months or years.
pub proof fn lemma_units_round_trip(weeks: u16, months: u16, years: u8)
    requires
        7 * weeks <= u16::MAX,
        30 * months <= u16::MAX,
        365 * years <= u16::MAX,
    ensures
        (7 * weeks) / 7 == weeks,
        (30 * months) / 30 == months,
        (365 * years) / 365 == years,
{
}

/// The two shapes in which a duration is written down: a bare number of days, or named parts
/// (each part absent counts as zero).
#[derive(Clone, Copy, PartialEq, Eq, Structural, Debug)]
pub enum GameDurationDeser {
    Days(u16),
    Parts { days: u16, weeks: u16, months: u16, years: u8 },
}

/// Whether a written-down duration spells a number of days that fits in a `GameDuration`.
pub open spec fn deser_fits(value: GameDurationDeser) -> bool {
    match value {
        GameDurationDeser::Days(_) => true,
        GameDurationDeser::Parts { days, weeks, months, years } => total_days(days, weeks, months, years) <= u16::MAX,
    }
}

/// The number of days a written-down duration spells.
pub open spec fn deser_days(value: GameDurationDeser) -> int {
    match value {
        GameDurationDeser::Days(days) => days as int,
        GameDurationDeser::Parts { days, weeks, months, years } => total_days(days, weeks, months, years),
    }
}

impl GameDuration {
    /// Reads a written-down duration, or `None` when its parts add up to more days than a
    /// duration holds.
    pub fn checked_from_deser(value: GameDurationDeser) -> (r: Option<Self>)
        ensures
            r is Some <==> deser_fits(value),
            r matches Some(d) ==> d@ == deser_days(value),
    {
        match value {
            GameDurationDeser::Days(days) => Some(GameDuration::from_days(days)),
            GameDurationDeser::Parts { days, weeks, months, years } => {
                let total = (days as u32) + 7 * (weeks as u32) + 30 * (months as u32) + 365 * (years as u32);
                if total <= 0xffff {
                    Some(GameDuration::new(days, weeks, months, years))
                } else {
                    None
                }
            },
        }
    }

    /// Reads a written-down duration.
    pub fn from_deser(value: GameDurationDeser) -> (d: Self)
        requires
            deser_fits(value),
        ensures
            d@ == deser_days(value),
    {
        match value {
            GameDurationDeser::Days(days) => GameDuration::from_days(days),
            GameDurationDeser::Parts { days, weeks, months, years } => GameDuration::new(days, weeks, months, years),
        }
    }
}

} // verus!
