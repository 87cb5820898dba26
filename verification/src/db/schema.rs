//! The on-disk table layout.
//!
//! Two related tables: `weekly_reports`, keyed by `timestamp`, holds the
//! `signed` flag and `last_update`; `activities` holds one row per logged
//! activity, linked to its parent report by the same `timestamp` and keyed
//! within a report by the day position and insertion order. Day values are
//! the positions `0` to `6` of [`crate::common::Weekday`], checked by the
//! schema itself.

use vstd::prelude::*;

verus! {

/// The mathematical content of one row of the `weekly_reports` table.
#[verifier::ext_equal]
pub struct ReportRowModel {
    pub signed: bool,
    pub timestamp: int,
    pub last_update: int,
}

/// The mathematical content of one row of the `activities` table.
#[verifier::ext_equal]
pub struct ActivityModel {
    pub timestamp: int,
    pub day: int,
    pub activity: Seq<char>,
}

/// One row of the `weekly_reports` table: the per-report data without the
/// activity lists.
pub struct WeeklyReport {
    pub signed: bool,
    pub timestamp: i64,
    pub last_update: i64,
}

impl View for WeeklyReport {
    type V = ReportRowModel;

    open spec fn view(&self) -> ReportRowModel {
        ReportRowModel {
            signed: self.signed,
            timestamp: self.timestamp as int,
            last_update: self.last_update as int,
        }
    }
}

impl DeepView for WeeklyReport {
    type V = ReportRowModel;

    open spec fn deep_view(&self) -> ReportRowModel {
        self.view()
    }
}

/// One row of the `activities` table: one logged action on one day,
/// belonging to the report with the same `timestamp`.
pub struct Activity {
    pub timestamp: i64,
    /// The day's position in the week, `0` (Monday) to `6` (Sunday).
    pub day: u8,
    pub activity: String,
}

impl View for Activity {
    type V = ActivityModel;

    open spec fn view(&self) -> ActivityModel {
        ActivityModel {
            timestamp: self.timestamp as int,
            day: self.day as int,
            activity: self.activity@,
        }
    }
}

impl DeepView for Activity {
    type V = ActivityModel;

    open spec fn deep_view(&self) -> ActivityModel {
        self.view()
    }
}

} // verus!
