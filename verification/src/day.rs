//! The five days of the academic week.

use vstd::prelude::*;

verus! {

/// A day of the academic week, which has five days and then starts over.
#[derive(Debug, Hash, Clone, Copy, PartialEq, Eq, Structural)]
pub enum Day {
    A,
    B,
    C,
    D,
    E,
}

impl Day {
    /// The day after this one; after `E` comes `A`.
    pub open spec fn spec_succ(self) -> Day {
        match self {
            Day::A => Day::B,
            Day::B => Day::C,
            Day::C => Day::D,
            Day::D => Day::E,
            Day::E => Day::A,
        }
    }

    /// Moves this day on to the next one and returns the new day.
    pub fn succ_mut(&mut self) -> (r: Day)
        ensures
            *final(self) == old(self).spec_succ(),
            r == old(self).spec_succ(),
    {
        *self = self.succ();
        *self
    }

    /// The day after this one.
    #[verifier::when_used_as_spec(spec_succ)]
    pub fn succ(self) -> (r: Day)
        ensures
            r == self.spec_succ(),
    {
        match self {
            Day::A => Day::B,
            Day::B => Day::C,
            Day::C => Day::D,
            Day::D => Day::E,
            Day::E => Day::A,
        }
    }
}

/// Five steps lead back to the day they started from.
pub proof fn lemma_succ_five_times(d: Day)
    ensures
        d.spec_succ().spec_succ().spec_succ().spec_succ().spec_succ() == d,
{
}

} // verus!
