//! Holidays, and what a calendar date turns out to be.

use vstd::prelude::*;
use crate::date::{lemma_date_order, Date};
use crate::day::Day;
use crate::errors::Error;
use crate::notice::Notice;

verus! {

/// How long a holiday lasts.
#[derive(Debug, Clone, Copy, PartialEq, Eq, Structural)]
pub enum HolidaySpan {
    /// One day.
    SingleDay {
        /// The day.
        on: Date,
    },
    /// Several days in a row.
    MultiDays {
        /// The first day.
        from: Date,
        /// The last day.
        to: Date,
    },
}

impl HolidaySpan {
    /// The first day of this span.
    pub open spec fn spec_start(self) -> Date {
        match self {
            HolidaySpan::SingleDay { on } => on,
            HolidaySpan::MultiDays { from, .. } => from,
        }
    }

    /// The last day of this span.
    pub open spec fn spec_end(self) -> Date {
        match self {
            HolidaySpan::SingleDay { on } => on,
            HolidaySpan::MultiDays { to, .. } => to,
        }
    }

    /// Whether `needle` is a day of this span.
    pub open spec fn spec_contains(self, needle: Date) -> bool {
        self.spec_start().spec_le(needle) && needle.spec_le(self.spec_end())
    }

    /// Whether this span ends no earlier than it starts.
    pub open spec fn is_ordered(self) -> bool {
        self.spec_start().spec_le(self.spec_end())
    }

    /// The first day of this span.
    #[verifier::when_used_as_spec(spec_start)]
    pub fn start(self) -> (r: Date)
        ensures
            r == self.spec_start(),
    {
        match self {
            HolidaySpan::SingleDay { on } => on,
            HolidaySpan::MultiDays { from, .. } => from,
        }
    }

    /// The last day of this span.
    #[verifier::when_used_as_spec(spec_end)]
    pub fn end(self) -> (r: Date)
        ensures
            r == self.spec_end(),
    {
        match self {
            HolidaySpan::SingleDay { on } => on,
            HolidaySpan::MultiDays { to, .. } => to,
        }
    }

    /// Whether `needle` is a day of this span, its first and last day
    /// included.
    #[verifier::when_used_as_spec(spec_contains)]
    pub fn contains(self, needle: Date) -> (r: bool)
        ensures
            r == self.spec_contains(needle),
    {
        match self {
            HolidaySpan::SingleDay { on } => {
                proof {
                    lemma_date_order(on, needle, on);
                }
                needle == on
            },
            HolidaySpan::MultiDays { from, to } => from.le(needle) && needle.le(to),
        }
    }

    /// This span, where it ends no earlier than it starts; else the error
    /// that carries its two ends.
    pub fn checked(self) -> (r: Result<HolidaySpan, Error>)
        ensures
            self.is_ordered() ==> r == Ok::<HolidaySpan, Error>(self),
            !self.is_ordered() ==> r == Err::<HolidaySpan, Error>(
                Error::InvalidSpan(self.spec_start(), self.spec_end()),
            ),
    {
        let from = self.start();
        let to = self.end();
        if from.le(to) {
            Ok(self)
        } else {
            Err(Error::InvalidSpan(from, to))
        }
    }
}

/// A span holds its own first and last day exactly where it ends no
/// earlier than it starts; one that ends earlier holds no day at all.
pub proof fn lemma_span_ends(span: HolidaySpan, d: Date)
    ensures
        span.is_ordered() <==> span.spec_contains(span.spec_start()),
        span.is_ordered() <==> span.spec_contains(span.spec_end()),
        span.spec_contains(d) ==> span.is_ordered(),
{
    lemma_date_order(span.spec_start(), span.spec_end(), span.spec_end());
    lemma_date_order(span.spec_start(), span.spec_start(), span.spec_end());
    lemma_date_order(span.spec_start(), d, span.spec_end());
}

/// An official holiday.
#[derive(Debug, Clone, PartialEq, Eq)]
pub struct Holiday {
    /// What the holiday is for.
    pub reason: String,
    /// How long it lasts.
    pub span: HolidaySpan,
}

/// What a calendar date turns out to be.
#[derive(Debug, Clone)]
pub enum DateDayMapping {
    /// A class day, with its place in the week.
    Day(Day),
    /// A day of the weekend.
    Weekend,
    /// An official holiday.
    Holiday(Holiday),
    /// A day that a notice took off the calendar.
    OffDay(Notice),
}

} // verus!
