//! Roll numbers and what they tell of a student.

use vstd::prelude::*;
use vstd::string::StringSliceAdditionalSpecFns;
use crate::decimal::{decimal_u32, parse_u32};
use crate::department::{is_department_tag, Department, Section, Thirty};
use crate::errors::Error;

verus! {

/// Whether `value` is a roll: below ten million, with the tag of a
/// department in its fourth and fifth digits from the right, and a number
/// from 1 to 180 in its last three.
pub open spec fn is_roll(value: int) -> bool {
    &&& 0 <= value < 10_000_000
    &&& is_department_tag((value / 1000) % 100)
    &&& 1 <= value % 1000 <= 180
}

/// The number of the roll that the text `s` spells, or why it spells none:
/// it is no unsigned decimal number of 32 bits, or the number is no roll.
pub open spec fn roll_of_text(s: Seq<u8>) -> Result<int, Error> {
    match decimal_u32(s) {
        None => Err(Error::NumParse),
        Some(value) => if is_roll(value as int) {
            Ok(value as int)
        } else {
            Err(Error::InvalidRoll(value))
        },
    }
}

/// The section in which the roll `n` of a department sits.
pub open spec fn section_of(n: int) -> Section {
    if n <= 60 {
        Section::A
    } else if n <= 120 {
        Section::B
    } else {
        Section::C
    }
}

/// The half of its section in which the roll `n` of a department sits.
pub open spec fn thirty_of(n: int) -> Thirty {
    if 1 <= n <= 30 || 61 <= n <= 90 || 121 <= n <= 150 {
        Thirty(1)
    } else {
        Thirty(2)
    }
}

/// Roll of a student.
#[derive(Debug, Hash, Clone, Copy, PartialEq, Eq, Structural)]
pub struct Roll(u32);

impl Roll {
    #[verifier::type_invariant]
    spec fn valid(self) -> bool {
        is_roll(self.0 as int)
    }

    /// The number of this roll.
    pub closed spec fn spec_value(self) -> int {
        self.0 as int
    }

    /// The series of the student: the year of admission.
    pub open spec fn spec_series(self) -> int {
        self.spec_value() / 100_000
    }

    /// The tag of the student's department.
    pub open spec fn spec_department_tag(self) -> int {
        (self.spec_value() / 1000) % 100
    }

    /// The roll of the student within the department.
    pub open spec fn spec_roll_in_dept(self) -> int {
        self.spec_value() % 1000
    }

    /// The section of the student.
    pub open spec fn spec_section(self) -> Section {
        section_of(self.spec_roll_in_dept())
    }

    /// The half of the section in which the student sits.
    pub open spec fn spec_thirty(self) -> Thirty {
        thirty_of(self.spec_roll_in_dept())
    }

    /// The roll with the number `roll`, where that is a roll.
    pub fn new(roll: u32) -> (r: Result<Roll, Error>)
        ensures
            is_roll(roll as int) ==> (r matches Ok(made) && made.spec_value() == roll),
            !is_roll(roll as int) ==> r == Err::<Roll, Error>(Error::InvalidRoll(roll)),
    {
        let in_dept: u32 = roll % 1000;
        if roll < 10_000_000 && Department::from_tag((roll / 1000) % 100).is_some() && 1 <= in_dept
            && in_dept <= 180 {
            Ok(Roll(roll))
        } else {
            Err(Error::InvalidRoll(roll))
        }
    }

    /// The roll that the text `s` spells as an unsigned decimal number.
    pub fn parse(s: &str) -> (r: Result<Roll, Error>)
        ensures
            match roll_of_text(s.spec_bytes()) {
                Ok(value) => r matches Ok(made) && made.spec_value() == value,
                Err(e) => r == Err::<Roll, Error>(e),
            },
    {
        match parse_u32(s) {
            None => Err(Error::NumParse),
            Some(value) => Roll::new(value),
        }
    }

    /// The number of this roll.
    pub fn value(self) -> (r: u32)
        ensures
            r == self.spec_value(),
            is_roll(r as int),
    {
        proof {
            use_type_invariant(self);
        }
        self.0
    }

    /// The department of the student.
    pub fn department(self) -> (r: Department)
        ensures
            r.spec_tag() == self.spec_department_tag(),
    {
        proof {
            use_type_invariant(self);
        }
        match Department::from_tag((self.0 / 1000) % 100) {
            Some(d) => d,
            None => vstd::pervasive::unreached(),
        }
    }

    /// The series of the student: the year of admission.
    pub fn series(self) -> (r: u32)
        ensures
            r == self.spec_series(),
    {
        self.0 / 100_000
    }

    /// The roll of the student within the department.
    pub fn roll_in_dept(self) -> (r: u32)
        ensures
            r == self.spec_roll_in_dept(),
            1 <= r <= 180,
    {
        proof {
            use_type_invariant(self);
        }
        self.0 % 1000
    }

    /// The section of the student.
    #[verifier::when_used_as_spec(spec_section)]
    pub fn section(self) -> (r: Section)
        ensures
            r == self.spec_section(),
    {
        let n: u32 = self.roll_in_dept();
        if n <= 60 {
            Section::A
        } else if n <= 120 {
            Section::B
        } else {
            Section::C
        }
    }

    /// The half of the section in which the student sits.
    #[verifier::when_used_as_spec(spec_thirty)]
    pub fn thirty(self) -> (r: Thirty)
        ensures
            r == self.spec_thirty(),
    {
        let n: u32 = self.roll_in_dept();
        if n <= 30 || (61 <= n && n <= 90) || (121 <= n && n <= 150) {
            Thirty(1)
        } else {
            Thirty(2)
        }
    }
}

impl std::str::FromStr for Roll {
    type Err = Error;

    fn from_str(s: &str) -> (r: Result<Roll, Error>)
        ensures
            match roll_of_text(s.spec_bytes()) {
                Ok(value) => r matches Ok(made) && made.spec_value() == value,
                Err(e) => r == Err::<Roll, Error>(e),
            },
    {
        Roll::parse(s)
    }
}

/// Two rolls with the same number are one roll.
pub proof fn lemma_roll_equal(a: Roll, b: Roll)
    requires
        a.spec_value() == b.spec_value(),
    ensures
        a == b,
{
}

/// The first sixty rolls of a department sit in section A, the next sixty
/// in B, the last sixty in C.
pub proof fn lemma_section_ranges(r: Roll)
    requires
        is_roll(r.spec_value()),
    ensures
        r.spec_section() == Section::A <==> 1 <= r.spec_roll_in_dept() <= 60,
        r.spec_section() == Section::B <==> 61 <= r.spec_roll_in_dept() <= 120,
        r.spec_section() == Section::C <==> 121 <= r.spec_roll_in_dept() <= 180,
{
}

/// A roll sits in the first half of its section where it is among the
/// first thirty of each sixty, and in the second half otherwise.
pub proof fn lemma_thirty_by_sixty(r: Roll)
    requires
        is_roll(r.spec_value()),
    ensures
        r.spec_thirty() == Thirty(1) <==> 1 <= r.spec_roll_in_dept() % 60 <= 30,
        r.spec_thirty() != Thirty(1) ==> r.spec_thirty() == Thirty(2),
{
}

} // verus!
