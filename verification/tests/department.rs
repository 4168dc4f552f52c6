use unbusy::{Department, Error, Section, Thirty};

const ALL: [Department; 18] = [
    Department::CE,
    Department::EEE,
    Department::ME,
    Department::CSE,
    Department::ETE,
    Department::IPE,
    Department::GCE,
    Department::URP,
    Department::MTE,
    Department::Arch,
    Department::ECE,
    Department::CFPE,
    Department::BECM,
    Department::MSE,
    Department::Chem,
    Department::Math,
    Department::Phy,
    Department::Hum,
];

#[test]
fn department_tags_are_the_stable_ones() {
    let tags: Vec<u32> = ALL.iter().map(|d| d.tag()).collect();
    assert_eq!(tags, vec![0, 1, 2, 3, 4, 5, 6, 7, 8, 9, 10, 11, 12, 13, 100, 101, 102, 103]);
}

#[test]
fn department_from_tag_inverts_tag() {
    for d in ALL {
        assert_eq!(Department::from_tag(d.tag()), Some(d));
    }
    for tag in 0..300u32 {
        let known = tag <= 13 || (100 <= tag && tag <= 103);
        assert_eq!(Department::from_tag(tag).is_some(), known);
    }
    assert_eq!(Department::from_tag(14), None);
    assert_eq!(Department::from_tag(99), None);
    assert_eq!(Department::from_tag(104), None);
    assert_eq!(Department::from_tag(u32::MAX), None);
}

#[test]
fn department_names_are_their_spelling() {
    assert_eq!(Department::EEE.name(), "EEE");
    assert_eq!(Department::CFPE.name(), "CFPE");
    assert_eq!(Department::Arch.name(), "Arch");
    let names: Vec<String> = ALL.iter().map(|d| format!("{:?}", d)).collect();
    for (d, name) in ALL.iter().zip(names.iter()) {
        assert_eq!(d.name(), name);
    }
}

#[test]
fn course_name_of_the_known_course() {
    assert_eq!(
        Department::EEE.get_course_name("EEE 2100"),
        Ok(("Electrical Shop Practice", "Electrical Shop"))
    );
}

#[test]
fn course_name_of_an_unknown_code() {
    assert_eq!(
        Department::EEE.get_course_name("EEE 2101"),
        Err(Error::CourseNotFound(Department::EEE, "EEE 2101".to_string()))
    );
    assert_eq!(
        Department::EEE.get_course_name(""),
        Err(Error::CourseNotFound(Department::EEE, String::new()))
    );
}

#[test]
fn course_name_in_another_department() {
    assert_eq!(
        Department::CSE.get_course_name("EEE 2100"),
        Err(Error::CourseNotFound(Department::CSE, "EEE 2100".to_string()))
    );
}

#[test]
fn thirty_default_is_the_sentinel() {
    assert_eq!(Thirty::default(), Thirty(0));
}

#[test]
fn section_names_are_their_letters() {
    assert_eq!(Section::A.name(), "A");
    assert_eq!(Section::B.name(), "B");
    assert_eq!(Section::C.name(), "C");
}
