//! The weekly routine of classes.

use vstd::prelude::*;
use crate::day::Day;
use crate::department::Thirty;
use crate::roll::Roll;

verus! {

/// How often a class gathers, and with whom.
#[derive(Debug, Hash, Clone, Copy, PartialEq, Eq, Structural)]
pub enum ClassFrequency {
    /// The whole section gathers every cycle.
    EveryCycleWithAll,
    /// The named half of the section gathers every cycle.
    EveryCycleWith(Thirty),
    /// The whole section gathers in odd cycles.
    OddCyclesWithAll,
    /// The whole section gathers in even cycles.
    EvenCyclesWithAll,
    /// The named half of the section gathers in odd cycles.
    OddCyclesWith(Thirty),
}

impl Default for ClassFrequency {
    fn default() -> (r: ClassFrequency)
        ensures
            r == ClassFrequency::EveryCycleWithAll,
    {
        ClassFrequency::EveryCycleWithAll
    }
}

/// Whether a class of the frequency `frequency` gathers in the cycle
/// `cycle` for a student of the half `thirty`.
pub open spec fn sits(frequency: ClassFrequency, thirty: Thirty, cycle: int) -> bool {
    match frequency {
        ClassFrequency::EveryCycleWithAll => true,
        ClassFrequency::EveryCycleWith(t) => thirty == t,
        ClassFrequency::OddCyclesWithAll => cycle % 2 != 0,
        ClassFrequency::EvenCyclesWithAll => cycle % 2 == 0,
        ClassFrequency::OddCyclesWith(t) => cycle % 2 != 0 && thirty == t,
    }
}

/// A class on the routine.
#[derive(Debug, Hash, Clone, PartialEq, Eq)]
pub struct ClassInRoutine {
    /// The course that the class belongs to.
    pub course: String,
    /// Who teaches.
    pub teacher: String,
    /// The number of the period in which the class starts.
    pub period: u8,
    /// Where the class sits.
    pub class_room: String,
    /// How many periods the class runs.
    pub contact_hours: u8,
    /// How often the class gathers.
    pub frequency: ClassFrequency,
    /// Anything else, such as the topic.
    pub comment: String,
}

impl ClassInRoutine {
    /// The contact hours of a class that names none.
    pub fn default_contact_hour() -> (r: u8)
        ensures
            r == 1,
    {
        1
    }

    /// Whether the class gathers for the student `roll` in the cycle `cycle`.
    pub fn would_sit_for(&self, roll: Roll, cycle: u8) -> (r: bool)
        ensures
            r == sits(self.frequency, roll.spec_thirty(), cycle as int),
    {
        match self.frequency {
            ClassFrequency::EveryCycleWithAll => true,
            ClassFrequency::EveryCycleWith(thirty) => thirty == roll.thirty(),
            ClassFrequency::OddCyclesWithAll => cycle % 2 != 0,
            ClassFrequency::EvenCyclesWithAll => cycle % 2 == 0,
            ClassFrequency::OddCyclesWith(thirty) => cycle % 2 != 0 && thirty == roll.thirty(),
        }
    }
}

/// A class for one half in odd cycles gathers for nobody in an even cycle,
/// and never for the other half.
pub proof fn lemma_odd_cycles_with(named: Thirty, thirty: Thirty, cycle: int)
    requires
        cycle % 2 == 0 || thirty != named,
    ensures
        !sits(ClassFrequency::OddCyclesWith(named), thirty, cycle),
{
}

/// A routine: the classes of each day of the week, in the order in which
/// they are shown.
pub type ClassRoutine = std::collections::HashMap<Day, Vec<ClassInRoutine>>;

} // verus!
