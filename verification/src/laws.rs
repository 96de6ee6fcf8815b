//! What holds of reports and queries taken together.

use vstd::prelude::*;
use crate::calendar::{day_of, older_than, RETENTION_WINDOW};
use crate::daily::MAX_NUM;
use crate::program::{can_count, found, snapshot_at, ReportView};
use crate::stats::bucket;

verus! {

/// One report as its caller states it.
pub struct Report {
    /// The category reported.
    pub category: i8,
    /// The time of the report.
    pub now: u64,
}

impl ReportView {
    /// The state after the reports of `reports`, taken in order, against the
    /// identifier whose log entry is `chunk`.
    pub open spec fn report_all(self, chunk: Seq<u8>, reports: Seq<Report>) -> ReportView
        decreases reports.len(),
    {
        if reports.len() == 0 {
            self
        } else {
            self.report_all(chunk, reports.drop_last()).report(
                chunk,
                reports.last().category,
                reports.last().now,
            )
        }
    }

    /// How many of the reports of `reports`, taken in order, add an entry to the log.
    pub open spec fn appended(self, chunk: Seq<u8>, reports: Seq<Report>) -> nat
        decreases reports.len(),
    {
        if reports.len() == 0 {
            0
        } else {
            let earlier = self.appended(chunk, reports.drop_last());
            if self.report_all(chunk, reports.drop_last()).appends(reports.last().now) {
                earlier + 1
            } else {
                earlier
            }
        }
    }
}

/// Whether all of `reports` fall on the calendar day of the first of them.
pub open spec fn on_one_day(reports: Seq<Report>) -> bool {
    forall|i: int|
        0 <= i < reports.len() ==> day_of(#[trigger] reports[i].now) == day_of(reports[0].now)
}

/// After one or more reports on one day the identifier counts as reported on
/// that day, and only the first of them can have added an entry.
proof fn lemma_same_day_reports(before: ReportView, chunk: Seq<u8>, reports: Seq<Report>)
    requires
        reports.len() > 0,
        on_one_day(reports),
    ensures
        before.report_all(chunk, reports).record is Some,
        day_of(found(before.report_all(chunk, reports).record).last_reported) == day_of(
            reports[0].now,
        ),
        before.appended(chunk, reports) == if before.appends(reports[0].now) {
            1nat
        } else {
            0nat
        },
    decreases reports.len(),
{
    let earlier = reports.drop_last();
    if earlier.len() == 0 {
        assert(before.report_all(chunk, earlier) == before);
        assert(before.appended(chunk, earlier) == 0);
    } else {
        assert(earlier[0] == reports[0]);
        assert(forall|i: int| 0 <= i < earlier.len() ==> earlier[i] == reports[i]);
        lemma_same_day_reports(before, chunk, earlier);
    }
}

/// However often an identifier is reported within one calendar day, at most
/// one of those reports adds an entry to the log.
pub proof fn law_at_most_one_entry_per_day(before: ReportView, chunk: Seq<u8>, reports: Seq<Report>)
    requires
        on_one_day(reports),
    ensures
        before.appended(chunk, reports) <= 1,
{
    if reports.len() > 0 {
        lemma_same_day_reports(before, chunk, reports);
    }
}

/// Reports against one identifier within one calendar day add exactly one
/// entry to the log of that day, however many they are, if the identifier was
/// not yet reported on that day and the log has room when the first arrives:
/// the log then holds what it held, and the entry of the identifier after it.
pub proof fn law_one_entry_per_day(before: ReportView, chunk: Seq<u8>, reports: Seq<Report>)
    requires
        reports.len() > 0,
        on_one_day(reports),
        before.first_today(reports[0].now),
        !before.log.full_at(reports[0].now),
    ensures
        before.appended(chunk, reports) == 1,
        before.report_all(chunk, reports).log.entries == before.log.kept_at(reports[0].now).push(
            chunk,
        ),
        day_of(before.report_all(chunk, reports).log.last_update) == day_of(reports[0].now),
    decreases reports.len(),
{
    lemma_same_day_reports(before, chunk, reports);
    let earlier = reports.drop_last();
    if earlier.len() == 0 {
        assert(before.report_all(chunk, earlier) == before);
    } else {
        assert(earlier[0] == reports[0]);
        assert(forall|i: int| 0 <= i < earlier.len() ==> earlier[i] == reports[i]);
        law_one_entry_per_day(before, chunk, earlier);
        lemma_same_day_reports(before, chunk, earlier);
    }
}

/// Whatever is reported and whenever, a log that holds no more entries than
/// it has cells never comes to hold more.
pub proof fn law_log_stays_within_capacity(
    before: ReportView,
    chunk: Seq<u8>,
    reports: Seq<Report>,
)
    requires
        before.log.entries.len() <= MAX_NUM,
    ensures
        before.report_all(chunk, reports).log.entries.len() <= MAX_NUM,
    decreases reports.len(),
{
    if reports.len() > 0 {
        law_log_stays_within_capacity(before, chunk, reports.drop_last());
    }
}

/// A report of a category followed at once by a query shows a record in
/// which the counter of that category has grown by exactly one and every
/// other counter is as it was, provided the record was not stale when the
/// report came. This holds whether or not the log had room for the report.
pub proof fn law_report_then_query(before: ReportView, chunk: Seq<u8>, category: i8, now: u64)
    requires
        !older_than(found(before.record).last_reported, now, RETENTION_WINDOW),
        can_count(before.record, category, now),
    ensures
        snapshot_at(before.report(chunk, category, now).record, now) is Some,
        ({
            let seen = snapshot_at(before.report(chunk, category, now).record, now)->0;
            &&& seen.counter(category) == found(before.record).counter(category) + 1
            &&& forall|other: i8|
                bucket(other) != bucket(category) ==> #[trigger] seen.counter(other) == found(
                    before.record,
                ).counter(other)
            &&& seen.last_reported == now
        }),
{
}

/// Between two resets no counter falls: a report against a record that is not
/// stale leaves every counter at least as high as it was.
pub proof fn law_counters_never_fall(before: ReportView, chunk: Seq<u8>, category: i8, now: u64)
    requires
        !older_than(found(before.record).last_reported, now, RETENTION_WINDOW),
        can_count(before.record, category, now),
    ensures
        forall|any: i8| #[trigger]
            found(before.report(chunk, category, now).record).counter(any) >= found(
                before.record,
            ).counter(any),
{
}

/// A report against a record that is stale, followed at once by a query,
/// shows one report of that category and nothing else.
pub proof fn law_stale_report_then_query(before: ReportView, chunk: Seq<u8>, category: i8, now: u64)
    requires
        older_than(found(before.record).last_reported, now, RETENTION_WINDOW),
    ensures
        snapshot_at(before.report(chunk, category, now).record, now) is Some,
        ({
            let seen = snapshot_at(before.report(chunk, category, now).record, now)->0;
            &&& seen.counter(category) == 1
            &&& forall|other: i8|
                bucket(other) != bucket(category) ==> #[trigger] seen.counter(other) == 0
            &&& seen.last_reported == now
        }),
{
}

} // verus!
