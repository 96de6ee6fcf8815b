//! The aggregate counters kept for one reported identifier.

use vstd::prelude::*;

verus! {

/// Number of the bucket that counts reports of `category`: the five named
/// categories have a bucket each, every other value falls into the last one.
pub open spec fn bucket(category: i8) -> int {
    if 0 <= category <= 4 {
        category as int
    } else {
        5
    }
}

/// What is known about one identifier: when it was last reported, and how
/// often under each category since its counters were last reset.
#[derive(Clone, Copy, Debug, PartialEq, Eq, Structural)]
pub struct NumberStats {
    /// Time of the most recent report.
    pub last_reported: u64,
    /// Reports that called the identifier a valid one.
    pub valid: u64,
    /// Reports of fraud.
    pub fraud: u64,
    /// Reports of marketing.
    pub marketing: u64,
    /// Reports of surveys.
    pub survey: u64,
    /// Reports of political calls.
    pub political: u64,
    /// Reports under any other category.
    pub other_spam: u64,
}

impl NumberStats {
    /// The record of an identifier that nobody has reported yet.
    pub open spec fn blank() -> NumberStats {
        NumberStats {
            last_reported: 0,
            valid: 0,
            fraud: 0,
            marketing: 0,
            survey: 0,
            political: 0,
            other_spam: 0,
        }
    }

    /// The counter that reports of `category` go to.
    pub open spec fn counter(self, category: i8) -> u64 {
        if category == 0 {
            self.valid
        } else if category == 1 {
            self.fraud
        } else if category == 2 {
            self.marketing
        } else if category == 3 {
            self.survey
        } else if category == 4 {
            self.political
        } else {
            self.other_spam
        }
    }

    /// The record with all six counters at zero and the time kept.
    pub open spec fn cleared(self) -> NumberStats {
        NumberStats { last_reported: self.last_reported, ..NumberStats::blank() }
    }

    /// The record with one more report of `category`.
    pub open spec fn bumped(self, category: i8) -> NumberStats
        recommends
            self.counter(category) < u64::MAX,
    {
        if category == 0 {
            NumberStats { valid: (self.valid + 1) as u64, ..self }
        } else if category == 1 {
            NumberStats { fraud: (self.fraud + 1) as u64, ..self }
        } else if category == 2 {
            NumberStats { marketing: (self.marketing + 1) as u64, ..self }
        } else if category == 3 {
            NumberStats { survey: (self.survey + 1) as u64, ..self }
        } else if category == 4 {
            NumberStats { political: (self.political + 1) as u64, ..self }
        } else {
            NumberStats { other_spam: (self.other_spam + 1) as u64, ..self }
        }
    }

    /// Reads the counter that reports of `category` go to.
    pub fn count_of(&self, category: i8) -> (count: u64)
        ensures
            count == self.counter(category),
    {
        match category {
            0 => self.valid,
            1 => self.fraud,
            2 => self.marketing,
            3 => self.survey,
            4 => self.political,
            _ => self.other_spam,
        }
    }

    /// Sets all six counters to zero at once. The time of the last report stays.
    pub fn reset_counter(&mut self)
        ensures
            *final(self) == old(self).cleared(),
    {
        self.valid = 0;
        self.fraud = 0;
        self.marketing = 0;
        self.survey = 0;
        self.political = 0;
        self.other_spam = 0;
    }

    /// Counts one report of `category`. Every value of `category` is taken:
    /// what is none of the five named categories counts as other spam.
    /// A report as valid is counted like any other and touches no spam counter.
    pub fn increase_counter(&mut self, category: i8)
        requires
            old(self).counter(category) < u64::MAX,
        ensures
            *final(self) == old(self).bumped(category),
            final(self).counter(category) == old(self).counter(category) + 1,
            forall|other: i8|
                bucket(other) != bucket(category) ==> #[trigger] final(self).counter(other)
                    == old(self).counter(other),
            final(self).last_reported == old(self).last_reported,
    {
        match category {
            0 => self.valid += 1,
            1 => self.fraud += 1,
            2 => self.marketing += 1,
            3 => self.survey += 1,
            4 => self.political += 1,
            _ => self.other_spam += 1,
        }
    }
}

impl Default for NumberStats {
    /// The record of an identifier that nobody has reported yet.
    fn default() -> (stats: NumberStats)
        ensures
            stats == NumberStats::blank(),
    {
        NumberStats {
            last_reported: 0,
            valid: 0,
            fraud: 0,
            marketing: 0,
            survey: 0,
            political: 0,
            other_spam: 0,
        }
    }
}

} // verus!
