//! Departments, sections and half-sections.

use vstd::prelude::*;
use crate::errors::Error;

verus! {

/// Department of a student. Each department has a stable number, its tag.
#[derive(Debug, Hash, Clone, Copy, PartialEq, Eq, Structural)]
pub enum Department {
    CE,
    EEE,
    ME,
    CSE,
    ETE,
    IPE,
    GCE,
    URP,
    MTE,
    Arch,
    ECE,
    CFPE,
    BECM,
    MSE,
    Chem,
    Math,
    Phy,
    Hum,
}

/// Section of a student: sixty rolls each.
#[derive(Debug, Hash, Clone, Copy, PartialEq, Eq, Structural)]
pub enum Section {
    A,
    B,
    C,
}

impl Section {
    /// The letter under which this section is shown.
    pub open spec fn spec_name(self) -> Seq<char> {
        match self {
            Section::A => "A"@,
            Section::B => "B"@,
            Section::C => "C"@,
        }
    }

    /// The letter under which this section is shown.
    pub fn name(self) -> (r: &'static str)
        ensures
            r@ == self.spec_name(),
    {
        match self {
            Section::A => "A",
            Section::B => "B",
            Section::C => "C",
        }
    }
}

/// Half of a section. The halves are 1 and 2; 0 stands for "not given".
#[derive(Debug, Hash, Clone, Copy, PartialEq, Eq, Structural)]
pub struct Thirty(pub u8);

impl Default for Thirty {
    fn default() -> (r: Thirty)
        ensures
            r == Thirty(0),
    {
        Thirty(0)
    }
}

/// Whether some department has the tag `tag`: engineering departments are
/// numbered from 0 to 13, the others from 100 to 103.
pub open spec fn is_department_tag(tag: int) -> bool {
    0 <= tag <= 13 || 100 <= tag <= 103
}

/// The department with the tag `tag`, if there is one.
pub open spec fn department_of_tag(tag: int) -> Option<Department> {
    if tag == 0 {
        Some(Department::CE)
    } else if tag == 1 {
        Some(Department::EEE)
    } else if tag == 2 {
        Some(Department::ME)
    } else if tag == 3 {
        Some(Department::CSE)
    } else if tag == 4 {
        Some(Department::ETE)
    } else if tag == 5 {
        Some(Department::IPE)
    } else if tag == 6 {
        Some(Department::GCE)
    } else if tag == 7 {
        Some(Department::URP)
    } else if tag == 8 {
        Some(Department::MTE)
    } else if tag == 9 {
        Some(Department::Arch)
    } else if tag == 10 {
        Some(Department::ECE)
    } else if tag == 11 {
        Some(Department::CFPE)
    } else if tag == 12 {
        Some(Department::BECM)
    } else if tag == 13 {
        Some(Department::MSE)
    } else if tag == 100 {
        Some(Department::Chem)
    } else if tag == 101 {
        Some(Department::Math)
    } else if tag == 102 {
        Some(Department::Phy)
    } else if tag == 103 {
        Some(Department::Hum)
    } else {
        None
    }
}

/// The names of the course that `dept` offers under `code`: the official
/// one first, then the colloquial one.
pub open spec fn course_names(dept: Department, code: Seq<char>) -> Option<(Seq<char>, Seq<char>)> {
    if dept == Department::EEE && code == "EEE 2100"@ {
        Some(("Electrical Shop Practice"@, "Electrical Shop"@))
    } else {
        None
    }
}

impl Department {
    /// The tag of this department.
    pub open spec fn spec_tag(self) -> int {
        match self {
            Department::CE => 0,
            Department::EEE => 1,
            Department::ME => 2,
            Department::CSE => 3,
            Department::ETE => 4,
            Department::IPE => 5,
            Department::GCE => 6,
            Department::URP => 7,
            Department::MTE => 8,
            Department::Arch => 9,
            Department::ECE => 10,
            Department::CFPE => 11,
            Department::BECM => 12,
            Department::MSE => 13,
            Department::Chem => 100,
            Department::Math => 101,
            Department::Phy => 102,
            Department::Hum => 103,
        }
    }

    /// The spelling under which this department is shown.
    pub open spec fn spec_name(self) -> Seq<char> {
        match self {
            Department::CE => "CE"@,
            Department::EEE => "EEE"@,
            Department::ME => "ME"@,
            Department::CSE => "CSE"@,
            Department::ETE => "ETE"@,
            Department::IPE => "IPE"@,
            Department::GCE => "GCE"@,
            Department::URP => "URP"@,
            Department::MTE => "MTE"@,
            Department::Arch => "Arch"@,
            Department::ECE => "ECE"@,
            Department::CFPE => "CFPE"@,
            Department::BECM => "BECM"@,
            Department::MSE => "MSE"@,
            Department::Chem => "Chem"@,
            Department::Math => "Math"@,
            Department::Phy => "Phy"@,
            Department::Hum => "Hum"@,
        }
    }

    /// The tag of this department.
    pub fn tag(self) -> (r: u32)
        ensures
            r == self.spec_tag(),
            is_department_tag(r as int),
    {
        match self {
            Department::CE => 0,
            Department::EEE => 1,
            Department::ME => 2,
            Department::CSE => 3,
            Department::ETE => 4,
            Department::IPE => 5,
            Department::GCE => 6,
            Department::URP => 7,
            Department::MTE => 8,
            Department::Arch => 9,
            Department::ECE => 10,
            Department::CFPE => 11,
            Department::BECM => 12,
            Department::MSE => 13,
            Department::Chem => 100,
            Department::Math => 101,
            Department::Phy => 102,
            Department::Hum => 103,
        }
    }

    /// The department with the tag `tag`, if there is one.
    pub fn from_tag(tag: u32) -> (r: Option<Department>)
        ensures
            r == department_of_tag(tag as int),
    {
        match tag {
            0 => Some(Department::CE),
            1 => Some(Department::EEE),
            2 => Some(Department::ME),
            3 => Some(Department::CSE),
            4 => Some(Department::ETE),
            5 => Some(Department::IPE),
            6 => Some(Department::GCE),
            7 => Some(Department::URP),
            8 => Some(Department::MTE),
            9 => Some(Department::Arch),
            10 => Some(Department::ECE),
            11 => Some(Department::CFPE),
            12 => Some(Department::BECM),
            13 => Some(Department::MSE),
            100 => Some(Department::Chem),
            101 => Some(Department::Math),
            102 => Some(Department::Phy),
            103 => Some(Department::Hum),
            _ => None,
        }
    }

    /// The spelling under which this department is shown.
    pub fn name(self) -> (r: &'static str)
        ensures
            r@ == self.spec_name(),
    {
        match self {
            Department::CE => "CE",
            Department::EEE => "EEE",
            Department::ME => "ME",
            Department::CSE => "CSE",
            Department::ETE => "ETE",
            Department::IPE => "IPE",
            Department::GCE => "GCE",
            Department::URP => "URP",
            Department::MTE => "MTE",
            Department::Arch => "Arch",
            Department::ECE => "ECE",
            Department::CFPE => "CFPE",
            Department::BECM => "BECM",
            Department::MSE => "MSE",
            Department::Chem => "Chem",
            Department::Math => "Math",
            Department::Phy => "Phy",
            Department::Hum => "Hum",
        }
    }

    /// The official and the colloquial name of the course that this
    /// department offers under `code`. Where it offers none, the error
    /// carries the department and the code.
    pub fn get_course_name(self, code: &str) -> (r: Result<(&'static str, &'static str), Error>)
        ensures
            match course_names(self, code@) {
                Some(names) => r matches Ok(found) && found.0@ == names.0 && found.1@ == names.1,
                None => r matches Err(Error::CourseNotFound(dept, asked)) && dept == self
                    && asked@ == code@,
            },
    {
        let asked: String = code.to_owned();
        let known: String = "EEE 2100".to_owned();
        match self {
            Department::EEE => {
                if asked == known {
                    Ok(("Electrical Shop Practice", "Electrical Shop"))
                } else {
                    Err(Error::CourseNotFound(self, asked))
                }
            },
            _ => Err(Error::CourseNotFound(self, asked)),
        }
    }
}

/// No two departments share a tag.
pub proof fn lemma_tag_injective(a: Department, b: Department)
    requires
        a.spec_tag() == b.spec_tag(),
    ensures
        a == b,
{
}

/// The department of a department's tag is that department, and the tag of
/// the department of a tag is that tag; the tags that have a department are
/// those from 0 to 13 and from 100 to 103.
pub proof fn lemma_tag_round_trip(d: Department, tag: int)
    ensures
        department_of_tag(d.spec_tag()) == Some(d),
        department_of_tag(tag) matches Some(found) ==> found.spec_tag() == tag,
        department_of_tag(tag) is Some <==> is_department_tag(tag),
{
}

} // verus!
