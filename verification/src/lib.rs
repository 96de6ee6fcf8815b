//! A capacity-bounded, time-windowed store of spam reports against identifiers.
//!
//! Reports go to two places. Each identifier has a record of six counters,
//! one per category, which start again from zero once the identifier has not
//! been reported for the retention window. Each calendar day has a log of the
//! identifiers reported on it, held in one of a fixed number of slots that are
//! used in turn; an identifier enters the log of a day at most once.
//!
//! The store owns no memory of its own and reads no clock: its caller hands
//! in the record, the slot and the current time.

pub mod calendar;
pub mod daily;
pub mod laws;
pub mod program;
pub mod stats;

pub use calendar::{slot_for, DAYS_TO_KEEP, SECONDS_PER_DAY};
pub use daily::{DailyData, DailyPDA, StrChunk, MAX_NUM};
pub use program::{
    init_daily_acc, init_daily_pda, query_number, report_number, ErrorCode, InitDailyAcc,
    InitDailyPDA, QueryNumber, ReportNumber,
};
pub use stats::NumberStats;
