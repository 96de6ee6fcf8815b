//! The operations of the store: preparing a slot, reporting an identifier,
//! and asking what is known of one.

use vstd::prelude::*;
use vstd::string::StringSliceAdditionalSpecFns;
use anchor_lang::solana_program::pubkey::Pubkey;
use crate::calendar::{
    day_start, is_older_than, older_than, start_of_day, RETENTION_WINDOW, SLOT_GRACE,
};
use crate::daily::{chunk_from, chunk_of, DailyData, DailyPDA, LogView, StrChunk, MAX_NUM};
use crate::stats::NumberStats;

verus! {

/// The conditions that the store reports to its caller. Only `NumberIsFull`
/// is returned by an operation of this library; the other two are for the
/// caller, who finds the accounts and knows their sizes.
#[derive(Clone, Copy, Debug, PartialEq, Eq, Structural)]
pub enum ErrorCode {
    /// The accounts handed in do not include the slot of the current day.
    WrongLookupTableAddresses,
    /// The log of the current day holds as many entries as it can.
    NumberIsFull,
    /// A slot would be larger than an account may be.
    AccountSizeLimitExceeded,
}

/// What `init_daily_acc` works on: the slot to prepare.
#[derive(Debug)]
pub struct InitDailyAcc {
    /// The slot.
    pub data_acc: DailyData,
}

/// What `init_daily_pda` works on: the pointer record of one day.
#[derive(Debug)]
pub struct InitDailyPDA {
    /// The pointer record.
    pub daily_pda: DailyPDA,
}

/// What `report_number` works on: the record of the reported identifier, if
/// it has one yet, and the slot of the current day. Which slot that is,
/// `slot_for` says; the caller finds it.
#[derive(Debug)]
pub struct ReportNumber {
    /// The record of the identifier; `None` before its first report.
    pub number_pda: Option<NumberStats>,
    /// The slot of the current day.
    pub daily_data_acc: DailyData,
}

/// What `query_number` works on: the record of the identifier asked about.
#[derive(Debug)]
pub struct QueryNumber {
    /// The record of the identifier; `None` if it was never reported.
    pub number_pda: Option<NumberStats>,
}

/// The state that a report works on, as a mathematical value.
pub struct ReportView {
    /// The record of the identifier, if it has one.
    pub record: Option<NumberStats>,
    /// The log of the current day.
    pub log: LogView,
}

impl View for ReportNumber {
    type V = ReportView;

    open spec fn view(&self) -> ReportView {
        ReportView { record: self.number_pda, log: self.daily_data_acc@ }
    }
}

/// The record as it stands when a report arrives: a blank one where none exists yet.
pub open spec fn found(record: Option<NumberStats>) -> NumberStats {
    match record {
        Some(r) => r,
        None => NumberStats::blank(),
    }
}

/// The record after a report of `category` at `now`: counters that are older
/// than the retention window are dropped first, then the report is counted.
pub open spec fn record_after(record: Option<NumberStats>, category: i8, now: u64) -> NumberStats {
    let before = found(record);
    let base = if older_than(before.last_reported, now, RETENTION_WINDOW) {
        before.cleared()
    } else {
        before
    };
    NumberStats { last_reported: now, ..base.bumped(category) }
}

/// Whether a report of `category` at `now` can be counted without leaving the
/// range of a counter: the counters are stale and start again from zero, or
/// the counter concerned is below the largest value it can hold.
pub open spec fn can_count(record: Option<NumberStats>, category: i8, now: u64) -> bool {
    older_than(found(record).last_reported, now, RETENTION_WINDOW) || found(record).counter(
        category,
    ) < u64::MAX
}

/// What a query at `now` shows of a record.
pub open spec fn snapshot_at(record: Option<NumberStats>, now: u64) -> Option<NumberStats> {
    match record {
        Some(r) => if older_than(r.last_reported, now, RETENTION_WINDOW) {
            None
        } else {
            Some(r)
        },
        None => None,
    }
}

impl ReportView {
    /// Whether the identifier has not been reported yet on the day of `now`.
    pub open spec fn first_today(self, now: u64) -> bool {
        found(self.record).last_reported < day_start(now)
    }

    /// Whether a report at `now` adds an entry to the log: the log has room,
    /// and the identifier has not been reported yet on that day.
    pub open spec fn appends(self, now: u64) -> bool {
        !self.log.full_at(now) && self.first_today(now)
    }

    /// The state after a report of `category` at `now` for an identifier whose
    /// log entry is `chunk`. The record is updated in any case, the log as
    /// far as it has room.
    pub open spec fn report(self, chunk: Seq<u8>, category: i8, now: u64) -> ReportView {
        ReportView {
            record: Some(record_after(self.record, category, now)),
            log: self.log.after_report(self.first_today(now), chunk, now),
        }
    }

    /// What a report at `now` returns.
    pub open spec fn outcome(self, now: u64) -> Result<(), ErrorCode> {
        if self.log.full_at(now) {
            Err(ErrorCode::NumberIsFull)
        } else {
            Ok(())
        }
    }
}

/// Decides whether a report of `category` at `now` can be counted, which is
/// what `report_number` asks of its caller.
pub fn counter_has_room(ctx: &ReportNumber, category: i8, now: u64) -> (room: bool)
    ensures
        room == can_count(ctx.number_pda, category, now),
{
    match ctx.number_pda {
        Some(record) => is_older_than(record.last_reported, now, RETENTION_WINDOW)
            || record.count_of(category) < u64::MAX,
        None => true,
    }
}

/// Puts a slot into its empty state: no entry, never written, all cells zero.
pub fn init_daily_acc(ctx: &mut InitDailyAcc)
    ensures
        final(ctx).data_acc.count == 0,
        final(ctx).data_acc.last_update == 0,
        forall|i: int|
            0 <= i < MAX_NUM ==> (#[trigger] final(ctx).data_acc.numbers@[i])@ == chunk_of(
                Seq::empty(),
            ),
{
    ctx.data_acc = DailyData::new();
}

/// Records which account holds the log of a day.
pub fn init_daily_pda(ctx: &mut InitDailyPDA, data_acc: Pubkey)
    ensures
        final(ctx).daily_pda.data_acc == data_acc,
{
    ctx.daily_pda.data_acc = data_acc;
}

/// Takes one report of `category` against the identifier whose text is
/// `domestic`, at the time `now`.
///
/// The record of the identifier is created if there is none, loses its
/// counters if its last report is older than the retention window, counts the
/// report and takes `now` as the time of its last report. The slot is emptied
/// first if its last write is older than the grace period. If it is full, the
/// call fails with `NumberIsFull` and leaves the slot as it is; the record
/// stays updated. Otherwise the slot is written at `now`, and it gains an
/// entry for the identifier unless the identifier was already reported on
/// this calendar day.
pub fn report_number(ctx: &mut ReportNumber, domestic: &str, category: i8, now: u64) -> (res:
    Result<(), ErrorCode>)
    requires
        can_count(old(ctx).number_pda, category, now),
    ensures
        // The record and the log, as values.
        final(ctx)@ == old(ctx)@.report(chunk_of(domestic.spec_bytes()), category, now),
        res == old(ctx)@.outcome(now),
        // The cells: at most one is written, the one behind the entries kept.
        final(ctx).daily_data_acc.count == final(ctx)@.log.entries.len(),
        forall|i: int|
            0 <= i < MAX_NUM ==> (#[trigger] final(ctx).daily_data_acc.numbers@[i])@ == (
            if old(ctx)@.appends(now) && i == old(ctx)@.log.kept_at(now).len() {
                chunk_of(domestic.spec_bytes())
            } else {
                old(ctx).daily_data_acc.numbers@[i]@
            }),
        old(ctx).daily_data_acc.wf() ==> final(ctx).daily_data_acc.wf(),
        // A full slot that is still within its grace period refuses the
        // report, and nothing else does. It is then left as it was.
        res == Err::<(), ErrorCode>(ErrorCode::NumberIsFull) <==> (old(ctx).daily_data_acc.count
            >= MAX_NUM && !older_than(old(ctx).daily_data_acc.last_update, now, SLOT_GRACE)),
        res is Err ==> final(ctx).daily_data_acc == old(ctx).daily_data_acc,
        // Counters that have outlived the retention window start again from
        // zero, so that only the report just made is counted.
        older_than(found(old(ctx).number_pda).last_reported, now, RETENTION_WINDOW)
            ==> final(ctx).number_pda == Some(
            NumberStats { last_reported: now, ..NumberStats::blank().bumped(category) },
        ),
{
    let mut record: NumberStats = match ctx.number_pda {
        Some(r) => r,
        None => NumberStats::default(),
    };
    let last_number_report_time: u64 = record.last_reported;
    if is_older_than(record.last_reported, now, RETENTION_WINDOW) {
        record.reset_counter();
    }
    record.increase_counter(category);
    record.last_reported = now;
    ctx.number_pda = Some(record);

    if is_older_than(ctx.daily_data_acc.last_update, now, SLOT_GRACE) {
        ctx.daily_data_acc.count = 0;
    }
    if ctx.daily_data_acc.count >= MAX_NUM as u64 {
        return Err(ErrorCode::NumberIsFull);
    }
    if last_number_report_time < start_of_day(now) {
        let n: usize = ctx.daily_data_acc.count as usize;
        let chunk: StrChunk = chunk_from(domestic);
        ctx.daily_data_acc.numbers[n] = chunk;
        ctx.daily_data_acc.count += 1;
        assert(ctx.daily_data_acc@.entries =~= old(ctx)@.log.kept_at(now).push(chunk@));
    } else {
        assert(ctx.daily_data_acc@.entries =~= old(ctx)@.log.kept_at(now));
    }
    ctx.daily_data_acc.last_update = now;
    Ok(())
}

/// Answers what is known of an identifier at `now`: its record as it stands,
/// or nothing if it was never reported or its last report is older than the
/// retention window. The record itself is left as it is.
pub fn query_number(ctx: &QueryNumber, now: u64) -> (snapshot: Option<NumberStats>)
    ensures
        snapshot == snapshot_at(ctx.number_pda, now),
        snapshot is None <==> (ctx.number_pda is None || older_than(
            ctx.number_pda->0.last_reported,
            now,
            RETENTION_WINDOW,
        )),
        snapshot is Some ==> ctx.number_pda == snapshot,
{
    match ctx.number_pda {
        Some(record) => {
            if is_older_than(record.last_reported, now, RETENTION_WINDOW) {
                None
            } else {
                Some(record)
            }
        },
        None => None,
    }
}

} // verus!
