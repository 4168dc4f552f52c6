//! Domain model of a university class-scheduling plugin: roll numbers,
//! the five-day academic week, class routines, notices and holidays,
//! together with the rules that derive one from another.

pub mod date;
pub mod day;
pub mod decimal;
pub mod department;
pub mod errors;
pub mod holiday;
pub mod notice;
pub mod roll;
pub mod routine;

pub use date::{Date, LocalDateTime};
pub use day::Day;
pub use department::{Department, Section, Thirty};
pub use errors::Error;
pub use holiday::{DateDayMapping, Holiday, HolidaySpan};
pub use notice::{Notice, TimeScope, WhoScope};
pub use roll::Roll;
pub use routine::{ClassFrequency, ClassInRoutine, ClassRoutine};
