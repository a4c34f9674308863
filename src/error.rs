use vstd::prelude::*;

verus! {

/// The failures that the library reports.
#[derive(Debug, Clone, PartialEq, Eq)]
pub enum CoreError {
    /// The compression layer of the catalog codec failed.
    IoError,
    AngleFormatToRadiansBadHours,
    AngleFormatToRadiansBadMinutes,
    AngleFormatToRadiansBadSeconds,
    AngleFormatToRadians,
    /// The astrometric reduction rejected the date of a star position.
    StarPositionDate,
    TimeBadYear,
    TimeBadMonth,
    TimeBadDay,
    TimeBadHour,
    TimeBadMinute,
    TimeBadSecond,
    TimeBadUnknown,
    TimeFormatToRadiansBadHours,
    TimeFormatToRadiansBadMinutes,
    TimeFormatToRadiansBadSeconds,
    TimeFormatToRadians,
    /// No body of the catalog has the identifier.
    BodyNotFound(String),
}

/// The error for a failed calendar-to-Julian-date conversion, by its status:
/// -1 bad year, -2 bad month, -3 bad day, -4 bad hour, -5 bad minute,
/// -6 bad second.
pub open spec fn time_error_spec(status: i32) -> CoreError {
    if status == -1 {
        CoreError::TimeBadYear
    } else if status == -2 {
        CoreError::TimeBadMonth
    } else if status == -3 {
        CoreError::TimeBadDay
    } else if status == -4 {
        CoreError::TimeBadHour
    } else if status == -5 {
        CoreError::TimeBadMinute
    } else if status == -6 {
        CoreError::TimeBadSecond
    } else {
        CoreError::TimeBadUnknown
    }
}

/// The error for a failed degrees/arcminutes/arcseconds conversion, by its
/// status: 1 bad degrees, 2 bad arcminutes, 3 bad arcseconds.
pub open spec fn angle_format_error_spec(status: i32) -> CoreError {
    if status == 1 {
        CoreError::AngleFormatToRadiansBadHours
    } else if status == 2 {
        CoreError::AngleFormatToRadiansBadMinutes
    } else if status == 3 {
        CoreError::AngleFormatToRadiansBadSeconds
    } else {
        CoreError::AngleFormatToRadians
    }
}

/// The error for a failed hours/minutes/seconds conversion, by its status:
/// 1 bad hours, 2 bad minutes, 3 bad seconds.
pub open spec fn time_format_error_spec(status: i32) -> CoreError {
    if status == 1 {
        CoreError::TimeFormatToRadiansBadHours
    } else if status == 2 {
        CoreError::TimeFormatToRadiansBadMinutes
    } else if status == 3 {
        CoreError::TimeFormatToRadiansBadSeconds
    } else {
        CoreError::TimeFormatToRadians
    }
}

/// Maps the status of a rejected calendar date and time to its error.
pub fn time_error_from_status(status: i32) -> (r: CoreError)
    ensures
        r == time_error_spec(status),
{
    match status {
        -1 => CoreError::TimeBadYear,
        -2 => CoreError::TimeBadMonth,
        -3 => CoreError::TimeBadDay,
        -4 => CoreError::TimeBadHour,
        -5 => CoreError::TimeBadMinute,
        -6 => CoreError::TimeBadSecond,
        _ => CoreError::TimeBadUnknown,
    }
}

/// Maps the status of a rejected sexagesimal angle to its error.
pub fn angle_format_error_from_status(status: i32) -> (r: CoreError)
    ensures
        r == angle_format_error_spec(status),
{
    match status {
        1 => CoreError::AngleFormatToRadiansBadHours,
        2 => CoreError::AngleFormatToRadiansBadMinutes,
        3 => CoreError::AngleFormatToRadiansBadSeconds,
        _ => CoreError::AngleFormatToRadians,
    }
}

/// Maps the status of a rejected sexagesimal time angle to its error.
pub fn time_format_error_from_status(status: i32) -> (r: CoreError)
    ensures
        r == time_format_error_spec(status),
{
    match status {
        1 => CoreError::TimeFormatToRadiansBadHours,
        2 => CoreError::TimeFormatToRadiansBadMinutes,
        3 => CoreError::TimeFormatToRadiansBadSeconds,
        _ => CoreError::TimeFormatToRadians,
    }
}

} // verus!
