use enrollment::errors::{AppError, ValidationFault};
use enrollment::student::grade::{Grade, LetterGrade};

#[test]
fn test_grade_new_validates_score_and_subject() {
    let g = Grade::new(String::from("数学"), 9550).unwrap();
    assert_eq!(g.subject(), "数学");
    assert_eq!(g.score(), 9550);
    assert_eq!(*g.letter_grade(), LetterGrade::A);

    assert_eq!(
        Grade::new(String::from("数学"), 10001).unwrap_err(),
        AppError::ValidationError(ValidationFault::ScoreOutOfRange { score: 10001 })
    );
    assert_eq!(
        Grade::new(String::from("   "), 9000).unwrap_err(),
        AppError::ValidationError(ValidationFault::SubjectEmpty)
    );
    // both ends of the score range are accepted
    assert!(Grade::new(String::from("s"), 0).is_ok());
    assert!(Grade::new(String::from("s"), 10000).is_ok());
    // a subject of Unicode whitespace trims to empty
    assert_eq!(
        Grade::new(String::from("\u{3000}"), 9000).unwrap_err(),
        AppError::ValidationError(ValidationFault::SubjectEmpty)
    );
}

#[test]
fn test_letter_grade_boundaries() {
    assert_eq!(LetterGrade::from_score(10000), LetterGrade::A);
    assert_eq!(LetterGrade::from_score(9000), LetterGrade::A);
    assert_eq!(LetterGrade::from_score(8999), LetterGrade::B);
    assert_eq!(LetterGrade::from_score(8000), LetterGrade::B);
    assert_eq!(LetterGrade::from_score(7999), LetterGrade::C);
    assert_eq!(LetterGrade::from_score(7000), LetterGrade::C);
    assert_eq!(LetterGrade::from_score(6999), LetterGrade::D);
    assert_eq!(LetterGrade::from_score(6000), LetterGrade::D);
    assert_eq!(LetterGrade::from_score(5999), LetterGrade::F);
    assert_eq!(LetterGrade::from_score(0), LetterGrade::F);
}

#[test]
fn test_letter_to_gpa() {
    assert_eq!(LetterGrade::A.to_gpa(), 400);
    assert_eq!(LetterGrade::B.to_gpa(), 300);
    assert_eq!(LetterGrade::C.to_gpa(), 200);
    assert_eq!(LetterGrade::D.to_gpa(), 100);
    assert_eq!(LetterGrade::F.to_gpa(), 0);
}

#[test]
fn test_is_passing() {
    let passing = Grade::new(String::from("物理"), 6000).unwrap();
    assert!(passing.is_passing());
    let failing = Grade::new(String::from("物理"), 5999).unwrap();
    assert!(!failing.is_passing());
}

#[test]
fn test_grade_clone_is_value_copy() {
    let g = Grade::new(String::from("化学"), 7850).unwrap();
    let copy = g.clone();
    assert_eq!(copy.subject(), g.subject());
    assert_eq!(copy.score(), g.score());
    assert_eq!(*copy.letter_grade(), *g.letter_grade());
}
