//! The mileage quota of an account: what the service reported, how much of
//! it is left, and which mileages it accepts.

use crate::decimal::parse_mileage;
use crate::decimal::parsed_mileage;
use crate::decimal::MILEAGE_LIMIT;
use crate::decimal::UNIT;
use crate::error::AccountError;
use crate::error::QuotaField;
use vstd::prelude::*;

verus! {

/// How far above the upper end of the effective range a mileage is still
/// accepted, in steps: ten units.
pub const GRACE: i64 = 10_000_000;

/// The quota as the service reports it: each field may be missing, and the
/// mileage used so far comes as decimal text.
#[derive(Clone, Debug, PartialEq, Eq)]
pub struct RunningLimits {
    /// The mileage ceiling of a day, in steps.
    pub daily_mileage: Option<i64>,
    /// The upper end of the effective mileage range, in steps.
    pub effective_mileage_end: Option<i64>,
    /// The lower end of the effective mileage range, in steps.
    pub effective_mileage_start: Option<i64>,
    /// The identifier of the goal that the quota belongs to.
    pub limitation: Option<String>,
    /// The code of the scoring mode.
    pub scoring_type: Option<i64>,
    /// The mileage already used today, as decimal text.
    pub total_day_mileage: Option<String>,
    /// The mileage already used this week, as decimal text.
    pub total_week_mileage: Option<String>,
    /// The mileage ceiling of a week, in steps.
    pub weekly_mileage: Option<i64>,
}

impl RunningLimits {
    /// All eight fields are present.
    pub open spec fn complete(&self) -> bool {
        &&& self.daily_mileage.is_some()
        &&& self.effective_mileage_end.is_some()
        &&& self.effective_mileage_start.is_some()
        &&& self.limitation.is_some()
        &&& self.scoring_type.is_some()
        &&& self.total_day_mileage.is_some()
        &&& self.total_week_mileage.is_some()
        &&& self.weekly_mileage.is_some()
    }

    /// Whether all eight fields are present.
    pub fn is_complete(&self) -> (r: bool)
        ensures
            r == self.complete(),
    {
        self.daily_mileage.is_some() && self.effective_mileage_end.is_some()
            && self.effective_mileage_start.is_some() && self.limitation.is_some()
            && self.scoring_type.is_some() && self.total_day_mileage.is_some()
            && self.total_week_mileage.is_some() && self.weekly_mileage.is_some()
    }

    /// The first numeric field, in the order daily, day, end, start, week,
    /// weekly, that is no decimal text or lies beyond the limit; nothing if
    /// all six are sound. Meant for complete limits.
    pub open spec fn fault(&self) -> Option<QuotaField> {
        if !within_limit(self.daily_mileage.unwrap() as int) {
            Some(QuotaField::Daily)
        } else if parsed_mileage(self.total_day_mileage.unwrap()@).is_none() {
            Some(QuotaField::Day)
        } else if !within_limit(self.effective_mileage_end.unwrap() as int) {
            Some(QuotaField::End)
        } else if !within_limit(self.effective_mileage_start.unwrap() as int) {
            Some(QuotaField::Start)
        } else if parsed_mileage(self.total_week_mileage.unwrap()@).is_none() {
            Some(QuotaField::Week)
        } else if !within_limit(self.weekly_mileage.unwrap() as int) {
            Some(QuotaField::Weekly)
        } else {
            None
        }
    }
}

/// The magnitude of a mileage is within the limit.
pub open spec fn within_limit(v: int) -> bool {
    -MILEAGE_LIMIT <= v <= MILEAGE_LIMIT
}

/// The smallest of three integers.
pub open spec fn min3(a: int, b: int, c: int) -> int {
    if a <= b && a <= c {
        a
    } else if b <= c {
        b
    } else {
        c
    }
}

/// The quota of an account, all fields present. Mileages are in steps.
#[derive(Clone, Debug, PartialEq, Eq)]
pub struct Quota {
    /// The mileage ceiling of a day.
    pub daily: i64,
    /// The mileage already used today.
    pub day: i64,
    /// The mileage ceiling of a week.
    pub weekly: i64,
    /// The mileage already used this week.
    pub week: i64,
    /// The lower end of the effective mileage range.
    pub start: i64,
    /// The upper end of the effective mileage range.
    pub end: i64,
    /// The code of the scoring mode.
    pub scoring: i64,
    /// The identifier of the goal that the quota belongs to.
    pub limitation: String,
}

impl Quota {
    /// Every mileage of the quota is within the limit.
    pub open spec fn wf(&self) -> bool {
        &&& within_limit(self.daily as int)
        &&& within_limit(self.day as int)
        &&& within_limit(self.weekly as int)
        &&& within_limit(self.week as int)
        &&& within_limit(self.start as int)
        &&& within_limit(self.end as int)
    }

    /// Whether every mileage of the quota is within the limit.
    pub fn is_wf(&self) -> (r: bool)
        ensures
            r == self.wf(),
    {
        in_limit(self.daily) && in_limit(self.day) && in_limit(self.weekly) && in_limit(self.week)
            && in_limit(self.start) && in_limit(self.end)
    }

    /// The mileage that can still be credited: the smallest of what is left
    /// of the day, what is left of the week, and the upper end of the
    /// effective range.
    pub open spec fn remaining(&self) -> int {
        min3(self.daily - self.day, self.weekly - self.week, self.end as int)
    }

    /// The outcome of checking a mileage against the effective range:
    /// rejected below `start` and above `end` plus the grace band, both
    /// bounds themselves accepted.
    pub open spec fn verdict(&self, mileage: int) -> Result<(), AccountError> {
        if mileage < self.start {
            Err(AccountError::BelowMinimumRange { minimum: self.start, mileage: mileage as i64 })
        } else if mileage > self.end + GRACE {
            Err(AccountError::AboveMaximumRange { maximum: self.end, mileage: mileage as i64 })
        } else {
            Ok(())
        }
    }

    /// The quota holds the eight values of complete limits, the two decimal
    /// texts read as mileages.
    pub open spec fn holds(&self, limits: RunningLimits) -> bool {
        &&& self.daily == limits.daily_mileage.unwrap()
        &&& Some(self.day as int) == parsed_mileage(limits.total_day_mileage.unwrap()@)
        &&& self.weekly == limits.weekly_mileage.unwrap()
        &&& Some(self.week as int) == parsed_mileage(limits.total_week_mileage.unwrap()@)
        &&& self.start == limits.effective_mileage_start.unwrap()
        &&& self.end == limits.effective_mileage_end.unwrap()
        &&& self.scoring == limits.scoring_type.unwrap()
        &&& self.limitation@ == limits.limitation.unwrap()@
    }

    /// A quota with every field zero and no goal.
    pub fn empty() -> (r: Quota)
        ensures
            r.wf(),
            r.daily == 0 && r.day == 0 && r.weekly == 0 && r.week == 0,
            r.start == 0 && r.end == 0 && r.scoring == 0,
            r.limitation@ == Seq::<char>::empty(),
    {
        Quota {
            daily: 0,
            day: 0,
            weekly: 0,
            week: 0,
            start: 0,
            end: 0,
            scoring: 0,
            limitation: String::new(),
        }
    }

    /// The mileage that can still be credited.
    pub fn max_mileage(&self) -> (r: i64)
        requires
            self.wf(),
        ensures
            r == self.remaining(),
            r == min3(self.daily - self.day, self.weekly - self.week, self.end as int),
    {
        let day_left = self.daily - self.day;
        let week_left = self.weekly - self.week;
        if day_left <= week_left && day_left <= self.end {
            day_left
        } else if week_left <= self.end {
            week_left
        } else {
            self.end
        }
    }

    /// Checks a mileage against the effective range.
    pub fn check_mileage(&self, mileage: i64) -> (r: Result<(), AccountError>)
        requires
            self.wf(),
        ensures
            r == self.verdict(mileage as int),
            r.is_ok() <==> self.start <= mileage <= self.end + GRACE,
    {
        if mileage < self.start {
            Err(AccountError::BelowMinimumRange { minimum: self.start, mileage })
        } else if mileage > self.end + GRACE {
            Err(AccountError::AboveMaximumRange { maximum: self.end, mileage })
        } else {
            Ok(())
        }
    }

    /// Resolves the quota from what the service reported. Fails with
    /// `QuotaUnavailable` if any of the eight fields is missing, else with
    /// `NumericParseError` for the first numeric field that is unsound;
    /// otherwise the quota holds the eight values.
    pub fn resolve(limits: RunningLimits) -> (r: Result<Quota, AccountError>)
        ensures
            !limits.complete() ==> r == Err::<Quota, AccountError>(AccountError::QuotaUnavailable),
            limits.complete() && limits.fault().is_some() ==> r == Err::<Quota, AccountError>(
                AccountError::NumericParseError { field: limits.fault().unwrap() },
            ),
            r.is_ok() <==> limits.complete() && limits.fault().is_none(),
            r matches Ok(quota) ==> quota.wf() && quota.holds(limits),
    {
        let RunningLimits {
            daily_mileage,
            effective_mileage_end,
            effective_mileage_start,
            limitation,
            scoring_type,
            total_day_mileage,
            total_week_mileage,
            weekly_mileage,
        } = limits;
        match (
            daily_mileage,
            effective_mileage_end,
            effective_mileage_start,
            limitation,
            scoring_type,
            total_day_mileage,
            total_week_mileage,
            weekly_mileage,
        ) {
            (
                Some(daily),
                Some(end),
                Some(start),
                Some(limitation),
                Some(scoring),
                Some(day_text),
                Some(week_text),
                Some(weekly),
            ) => {
                if !in_limit(daily) {
                    return Err(AccountError::NumericParseError { field: QuotaField::Daily });
                }
                let day = match parse_mileage(day_text.as_str()) {
                    Some(day) => day,
                    None => {
                        return Err(AccountError::NumericParseError { field: QuotaField::Day });
                    },
                };
                if !in_limit(end) {
                    return Err(AccountError::NumericParseError { field: QuotaField::End });
                }
                if !in_limit(start) {
                    return Err(AccountError::NumericParseError { field: QuotaField::Start });
                }
                let week = match parse_mileage(week_text.as_str()) {
                    Some(week) => week,
                    None => {
                        return Err(AccountError::NumericParseError { field: QuotaField::Week });
                    },
                };
                if !in_limit(weekly) {
                    return Err(AccountError::NumericParseError { field: QuotaField::Weekly });
                }
                Ok(Quota { daily, day, weekly, week, start, end, scoring, limitation })
            },
            _ => Err(AccountError::QuotaUnavailable),
        }
    }
}

/// Where the lower end of the effective range does not lie above the grace
/// band, both ends of the accepted range are accepted, and the mileages one
/// step and one unit outside it are rejected.
pub proof fn lemma_range_ends(quota: Quota)
    requires
        quota.wf(),
        quota.start <= quota.end + GRACE,
    ensures
        quota.verdict(quota.start as int) is Ok,
        quota.verdict(quota.end + GRACE) is Ok,
        quota.verdict(quota.start - 1) == Err::<(), AccountError>(
            AccountError::BelowMinimumRange {
                minimum: quota.start,
                mileage: (quota.start - 1) as i64,
            },
        ),
        quota.verdict(quota.start - UNIT) == Err::<(), AccountError>(
            AccountError::BelowMinimumRange {
                minimum: quota.start,
                mileage: (quota.start - UNIT) as i64,
            },
        ),
        quota.verdict(quota.end + GRACE + 1) == Err::<(), AccountError>(
            AccountError::AboveMaximumRange {
                maximum: quota.end,
                mileage: (quota.end + GRACE + 1) as i64,
            },
        ),
        quota.verdict(quota.end + GRACE + UNIT) == Err::<(), AccountError>(
            AccountError::AboveMaximumRange {
                maximum: quota.end,
                mileage: (quota.end + GRACE + UNIT) as i64,
            },
        ),
{
}

fn in_limit(v: i64) -> (r: bool)
    ensures
        r == within_limit(v as int),
{
    -MILEAGE_LIMIT <= v && v <= MILEAGE_LIMIT
}

} // verus!
