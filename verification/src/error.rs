//! The failures that end an operation on an account.

use crate::decimal::int_text;
use crate::decimal::int_to_text;
use crate::decimal::mileage_text;
use crate::decimal::mileage_to_text;
use vstd::prelude::*;

verus! {

/// One of the numeric fields of a quota.
#[derive(Clone, Copy, Debug, PartialEq, Eq, Structural)]
pub enum QuotaField {
    /// The mileage ceiling of a day.
    Daily,
    /// The mileage already used today.
    Day,
    /// The upper end of the effective mileage range.
    End,
    /// The lower end of the effective mileage range.
    Start,
    /// The mileage already used this week.
    Week,
    /// The mileage ceiling of a week.
    Weekly,
}

/// Why an operation on an account failed.
#[derive(Clone, Copy, Debug, PartialEq, Eq, Structural)]
pub enum AccountError {
    /// The service refused the credentials, or its answer to the login could
    /// not be read.
    AuthenticationFailure,
    /// The service reported no value for at least one field of the quota:
    /// the term has not started.
    QuotaUnavailable,
    /// No route can be had: the override document is malformed, or the
    /// session covers no positive mileage or lasts a negative time.
    RouteSynthesisError,
    /// The mileage lies below the lower end of the effective range.
    BelowMinimumRange { minimum: i64, mileage: i64 },
    /// The mileage lies more than the grace band above the upper end of the
    /// effective range.
    AboveMaximumRange { maximum: i64, mileage: i64 },
    /// The service answered with a status that is no success, or with a body
    /// that could not be read; `status` is zero where no status was had.
    ProtocolError { status: u16 },
    /// A numeric field of the quota is no decimal text or lies beyond the
    /// limit.
    NumericParseError { field: QuotaField },
    /// The start or the end of the session lies outside the calendar.
    TimestampOutOfRange,
}

impl QuotaField {
    /// The name of the field in what the service reports.
    pub open spec fn name(&self) -> Seq<char> {
        match self {
            QuotaField::Daily => "dailyMileage"@,
            QuotaField::Day => "totalDayMileage"@,
            QuotaField::End => "effectiveMileageEnd"@,
            QuotaField::Start => "effectiveMileageStart"@,
            QuotaField::Week => "totalWeekMileage"@,
            QuotaField::Weekly => "weeklyMileage"@,
        }
    }

    /// The name of the field in what the service reports.
    pub fn wire_name(&self) -> (r: &'static str)
        ensures
            r@ == self.name(),
    {
        match self {
            QuotaField::Daily => "dailyMileage",
            QuotaField::Day => "totalDayMileage",
            QuotaField::End => "effectiveMileageEnd",
            QuotaField::Start => "effectiveMileageStart",
            QuotaField::Week => "totalWeekMileage",
            QuotaField::Weekly => "weeklyMileage",
        }
    }
}

impl AccountError {
    /// What the error says to the user, with the field, the bound or the
    /// status that it is about.
    pub open spec fn text(&self) -> Seq<char> {
        match self {
            AccountError::AuthenticationFailure => "Login failed"@,
            AccountError::QuotaUnavailable => "Semester not started yet, Try again later."@,
            AccountError::RouteSynthesisError => "No route can be had for this session."@,
            AccountError::BelowMinimumRange { minimum, mileage } =>
                "Effective mileage too low, minimum is "@ + mileage_text(*minimum as int)
                    + ", but your input mileage is "@ + mileage_text(*mileage as int) + "."@,
            AccountError::AboveMaximumRange { maximum, mileage } =>
                "Effective mileage too high, maximum is "@ + mileage_text(*maximum as int)
                    + ", but your input mileage is "@ + mileage_text(*mileage as int) + "."@,
            AccountError::ProtocolError { status } => "The service answered with status "@
                + int_text(*status as int) + "."@,
            AccountError::NumericParseError { field } => "The quota field "@ + field.name()
                + " is no mileage."@,
            AccountError::TimestampOutOfRange =>
                "The session does not lie within the calendar."@,
        }
    }

    /// What the error says to the user.
    pub fn describe(&self) -> (r: String)
        ensures
            r@ == self.text(),
    {
        match self {
            AccountError::AuthenticationFailure => String::from_str("Login failed"),
            AccountError::QuotaUnavailable => String::from_str(
                "Semester not started yet, Try again later.",
            ),
            AccountError::RouteSynthesisError => String::from_str(
                "No route can be had for this session.",
            ),
            AccountError::BelowMinimumRange { minimum, mileage } => {
                let mut out = String::from_str("Effective mileage too low, minimum is ");
                out.append(mileage_to_text(*minimum).as_str());
                out.append(", but your input mileage is ");
                out.append(mileage_to_text(*mileage).as_str());
                out.append(".");
                out
            },
            AccountError::AboveMaximumRange { maximum, mileage } => {
                let mut out = String::from_str("Effective mileage too high, maximum is ");
                out.append(mileage_to_text(*maximum).as_str());
                out.append(", but your input mileage is ");
                out.append(mileage_to_text(*mileage).as_str());
                out.append(".");
                out
            },
            AccountError::ProtocolError { status } => {
                let mut out = String::from_str("The service answered with status ");
                out.append(int_to_text(*status as i64).as_str());
                out.append(".");
                out
            },
            AccountError::NumericParseError { field } => {
                let mut out = String::from_str("The quota field ");
                out.append(field.wire_name());
                out.append(" is no mileage.");
                out
            },
            AccountError::TimestampOutOfRange => String::from_str(
                "The session does not lie within the calendar.",
            ),
        }
    }
}

} // verus!
