//! Notices, and whom and when they concern.

use vstd::prelude::*;
use crate::date::{Date, LocalDateTime};
use crate::day::Day;
use crate::department::{Section, Thirty};

verus! {

/// The students that a notice concerns.
#[derive(Debug, Clone, Copy, PartialEq, Eq)]
pub struct WhoScope {
    /// The section, or none for all sections.
    pub section: Option<Section>,
    /// The half of the section, or 0 for both halves.
    pub thirty: Thirty,
}

impl WhoScope {
    /// The scope that names no one, and so concerns everyone.
    pub open spec fn everyone() -> WhoScope {
        WhoScope { section: None, thirty: Thirty(0) }
    }

    /// Whether this scope is the one that concerns everyone.
    pub fn is_default(&self) -> (r: bool)
        ensures
            r == (*self == WhoScope::everyone()),
    {
        self.section.is_none() && self.thirty.0 == 0
    }
}

impl Default for WhoScope {
    fn default() -> (r: WhoScope)
        ensures
            r == WhoScope::everyone(),
    {
        WhoScope { section: None, thirty: Thirty(0) }
    }
}

/// The part of a day for which classes are off.
#[derive(Debug, Clone, Copy, PartialEq, Eq)]
pub enum TimeScope {
    /// The whole day; with a date, every day from the notice's date to
    /// that one, both included.
    AllDay(Option<Date>),
    /// One period of the day, by its number.
    Period(u8),
}

/// A notice to the students of a series and department.
#[allow(inconsistent_fields)]
#[derive(Debug, Clone, PartialEq, Eq)]
pub enum Notice {
    /// Classes are off.
    ClassOff {
        /// The date from which the notice holds.
        date: Date,
        /// For how long classes are off.
        time: TimeScope,
        /// For whom classes are off.
        for_whom: WhoScope,
        /// Whether the day drops out of the cycle of class days.
        day_off: bool,
    },
    /// There is one more class.
    ExtraClass {
        /// The date from which the notice holds.
        date: Date,
        /// When the class starts.
        time: LocalDateTime,
        /// Who attends.
        for_whom: WhoScope,
    },
    /// A class test, set by cycle and day of the week.
    ClassTest {
        day: Day,
        cycle: u8,
        period: u8,
        course: String,
        teacher: String,
        /// The syllabus and the like.
        extra_info: String,
    },
    /// An examination.
    Exam {
        /// The date of the examination.
        date: Date,
        course: String,
        /// The syllabus and the like.
        extra_info: String,
    },
    /// Any other notice.
    Others {
        /// The date from which the notice holds.
        date: Date,
        /// What the notice says.
        message: String,
    },
}

} // verus!
