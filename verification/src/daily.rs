//! The reusable log of one calendar day, and the record that points at it.

use vstd::prelude::*;
use vstd::string::StringSliceAdditionalSpecFns;
use anchor_lang::solana_program::pubkey::Pubkey;
use crate::calendar::{older_than, SLOT_GRACE};

verus! {

/// Number of entries that one daily log can hold.
pub const MAX_NUM: usize = 20_000;

/// Width in bytes of one log entry.
pub const CHUNK_LEN: usize = 20;

/// One log entry: the leading bytes of an identifier, padded with zeros.
pub type StrChunk = [u8; CHUNK_LEN];

/// Makes `solana_program::pubkey::Pubkey`, the address of an account, known
/// to the verifier as a type whose values are carried through unread. Nothing
/// is claimed of such a value; contracts only say which one is stored where.
#[verifier::external_type_specification]
#[verifier::external_body]
pub struct ExPubkey(Pubkey);

/// The entry that stands for an identifier whose text has the bytes `bytes`:
/// its first twenty bytes, followed by zeros where it has fewer.
pub open spec fn chunk_of(bytes: Seq<u8>) -> Seq<u8> {
    Seq::new(
        CHUNK_LEN as nat,
        |i: int|
            if i < bytes.len() {
                bytes[i]
            } else {
                0u8
            },
    )
}

/// Cuts or pads the text of an identifier to the width of a log entry.
pub fn chunk_from(text: &str) -> (chunk: StrChunk)
    ensures
        chunk@ == chunk_of(text.spec_bytes()),
{
    let bytes: &[u8] = text.as_bytes();
    let mut chunk: StrChunk = [0u8; CHUNK_LEN];
    let mut i: usize = 0;
    while i < CHUNK_LEN && i < bytes.len()
        invariant
            i <= CHUNK_LEN,
            i <= bytes@.len(),
            forall|k: int| 0 <= k < i ==> chunk@[k] == bytes@[k],
            forall|k: int| i <= k < CHUNK_LEN ==> chunk@[k] == 0u8,
        decreases CHUNK_LEN - i,
    {
        chunk[i] = bytes[i];
        i += 1;
    }
    assert(chunk@ =~= chunk_of(bytes@));
    chunk
}

/// The log of one calendar day. The buffer has its full size from the start
/// and is never resized: of its cells only the first `count` hold entries,
/// and what the others hold, left over from an earlier day, means nothing.
#[derive(Clone, Copy, Debug)]
pub struct DailyData {
    /// Time of the most recent write.
    pub last_update: u64,
    /// Number of entries held.
    pub count: u64,
    /// The cells.
    pub numbers: [StrChunk; MAX_NUM],
}

/// Points at the account that holds the log of one day.
#[derive(Clone, Copy, Debug, Default)]
pub struct DailyPDA {
    /// Address of that account.
    pub data_acc: Pubkey,
}

/// A daily log as a mathematical value: when it was last written, and the
/// entries it holds, oldest first. Cells that hold no entry are not part of it.
pub struct LogView {
    /// Time of the most recent write.
    pub last_update: u64,
    /// The entries held.
    pub entries: Seq<Seq<u8>>,
}

impl LogView {
    /// The entries that still count at `now`: none once the last write is
    /// older than the grace period, since the log then belongs to an earlier
    /// round of the slots.
    pub open spec fn kept_at(self, now: u64) -> Seq<Seq<u8>> {
        if older_than(self.last_update, now, SLOT_GRACE) {
            Seq::empty()
        } else {
            self.entries
        }
    }

    /// Whether the log has no room for another entry at `now`.
    pub open spec fn full_at(self, now: u64) -> bool {
        self.kept_at(now).len() >= MAX_NUM
    }

    /// The log after a report at `now`. A full log stays as it is. Otherwise
    /// the log is written at `now`, and `chunk` is appended if this is the
    /// first report of its identifier on that day.
    pub open spec fn after_report(self, first_today: bool, chunk: Seq<u8>, now: u64) -> LogView {
        if self.full_at(now) {
            self
        } else {
            LogView {
                last_update: now,
                entries: if first_today {
                    self.kept_at(now).push(chunk)
                } else {
                    self.kept_at(now)
                },
            }
        }
    }
}

impl View for DailyData {
    type V = LogView;

    open spec fn view(&self) -> LogView {
        LogView {
            last_update: self.last_update,
            entries: Seq::new(self.count as nat, |i: int| self.numbers@[i]@),
        }
    }
}

impl DailyData {
    /// No more entries are held than there are cells.
    pub open spec fn wf(self) -> bool {
        self.count <= MAX_NUM
    }

    /// A slot as it is before its first use: no entry, never written, all cells zero.
    pub fn new() -> (slot: DailyData)
        ensures
            slot.count == 0,
            slot.last_update == 0,
            forall|i: int|
                0 <= i < MAX_NUM ==> (#[trigger] slot.numbers@[i])@ == chunk_of(Seq::empty()),
            slot.wf(),
            slot@.entries == Seq::<Seq<u8>>::empty(),
    {
        let zero: StrChunk = [0u8; CHUNK_LEN];
        assert(zero@ =~= chunk_of(Seq::empty()));
        let slot = DailyData { last_update: 0, count: 0, numbers: [zero; MAX_NUM] };
        assert(slot@.entries =~= Seq::<Seq<u8>>::empty());
        slot
    }
}

} // verus!
