use enrollment::errors::{AppError, ValidationFault};
use enrollment::student::Student;

#[test]
fn test_student_new_runs_both_validators() {
    let s = Student::new(1, String::from("张三"), 20).unwrap();
    assert_eq!(s.id, 1);
    assert_eq!(s.name, "张三");
    assert_eq!(s.age, 20);
    assert_eq!(s.grades.len(), 0);

    // the age is checked before the name
    assert_eq!(
        Student::new(2, String::from("with digit 9"), 101).unwrap_err(),
        AppError::ValidationError(ValidationFault::AgeTooLarge { age: 101 })
    );
    assert_eq!(
        Student::new(3, String::from("Anna3"), 20).unwrap_err(),
        AppError::ValidationError(ValidationFault::NameHasDigit)
    );
}

#[test]
fn test_add_grade_appends_and_propagates_faults() {
    let mut s = Student::new(1, String::from("李四"), 19).unwrap();
    assert!(s.add_grade(String::from("语文"), 8800).is_ok());
    assert_eq!(s.grades.len(), 1);
    assert_eq!(s.grades[0].subject(), "语文");
    assert_eq!(s.grades[0].score(), 8800);

    assert_eq!(
        s.add_grade(String::from("语文"), 10050).unwrap_err(),
        AppError::ValidationError(ValidationFault::ScoreOutOfRange { score: 10050 })
    );
    assert_eq!(s.grades.len(), 1);

    // a subject of Unicode whitespace is rejected and nothing is appended
    assert_eq!(
        s.add_grade(String::from("\u{3000}"), 9000).unwrap_err(),
        AppError::ValidationError(ValidationFault::SubjectEmpty)
    );
    assert_eq!(s.grades.len(), 1);
}

#[test]
fn test_average_grade_empty_is_zero() {
    let s = Student::new(5, String::from("王五"), 30).unwrap();
    assert_eq!(s.average_grade(), 0);
}

#[test]
fn test_average_grade_of_four_scores() {
    let mut s = Student::new(5, String::from("王五"), 30).unwrap();
    s.add_grade(String::from("a"), 9000).unwrap();
    s.add_grade(String::from("b"), 8000).unwrap();
    s.add_grade(String::from("c"), 7000).unwrap();
    s.add_grade(String::from("d"), 6000).unwrap();
    assert_eq!(s.average_grade(), 7500);
}

#[test]
fn test_average_grade_truncates() {
    let mut s = Student::new(6, String::from("赵六"), 30).unwrap();
    s.add_grade(String::from("a"), 5).unwrap();
    s.add_grade(String::from("b"), 4).unwrap();
    // (5 + 4) / 2 = 4 in integer arithmetic
    assert_eq!(s.average_grade(), 4);
}

#[test]
fn test_get_grade_by_subject_first_match() {
    let mut s = Student::new(7, String::from("孙七"), 22).unwrap();
    s.add_grade(String::from("历史"), 7000).unwrap();
    s.add_grade(String::from("历史"), 9000).unwrap();
    let g = s.get_grade_by_subject("历史").unwrap();
    assert_eq!(g.score(), 7000);
    assert!(s.get_grade_by_subject("地理").is_none());
}

#[test]
fn test_student_clone_is_independent() {
    let mut original = Student::new(9, String::from("周八"), 25).unwrap();
    original.add_grade(String::from("数学"), 9100).unwrap();
    let mut copy = original.clone();
    assert_eq!(copy.id, original.id);
    assert_eq!(copy.name, original.name);
    assert_eq!(copy.age, original.age);
    assert_eq!(copy.grades.len(), 1);

    copy.add_grade(String::from("英语"), 8100).unwrap();
    assert_eq!(copy.grades.len(), 2);
    assert_eq!(original.grades.len(), 1);
}
