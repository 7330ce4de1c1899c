use enrollment::course::enrollment::EnrollmentManager;
use enrollment::errors::{AppError, ConflictFault, NotFoundFault};
use enrollment::student::Student;
use enrollment::Course;

fn student(id: u32, name: &str) -> Student {
    Student::new(id, String::from(name), 20).unwrap()
}

fn course(id: u32, name: &str) -> Course {
    Course::new(id, String::from(name), 3, String::from("instructor")).unwrap()
}

#[test]
fn test_register_rejects_duplicate_ids() {
    let mut m = EnrollmentManager::new();
    assert!(m.add_student(student(1, "张三")).is_ok());
    assert_eq!(
        m.add_student(student(1, "李四")).unwrap_err(),
        AppError::ConflictError(ConflictFault::DuplicateStudentId { id: 1 })
    );
    assert!(m.add_course(course(9, "Rust")).is_ok());
    assert_eq!(
        m.add_course(course(9, "Go")).unwrap_err(),
        AppError::ConflictError(ConflictFault::DuplicateCourseId { id: 9 })
    );
    assert_eq!(m.list_all_students().len(), 1);
    assert_eq!(m.list_all_courses().len(), 1);
}

#[test]
fn test_enroll_missing_ids_leave_registries_unmodified() {
    let mut m = EnrollmentManager::new();
    m.add_student(student(1, "张三")).unwrap();
    m.add_course(course(9, "Rust")).unwrap();

    // absent student id is reported first
    assert_eq!(
        m.enroll_student_in_course(2, 9).unwrap_err(),
        AppError::NotFoundError(NotFoundFault::StudentId { id: 2 })
    );
    // then an absent course id
    assert_eq!(
        m.enroll_student_in_course(1, 8).unwrap_err(),
        AppError::NotFoundError(NotFoundFault::CourseId { id: 8 })
    );
    // neither attempt changed anything
    assert_eq!(m.list_all_students().len(), 1);
    assert_eq!(m.list_all_courses().len(), 1);
    assert_eq!(m.get_course(9).unwrap().student_count(), 0);
}

#[test]
fn test_enroll_links_student_and_course() {
    let mut m = EnrollmentManager::new();
    m.add_student(student(1, "张三")).unwrap();
    m.add_course(course(9, "Rust")).unwrap();

    assert!(m.enroll_student_in_course(1, 9).is_ok());
    let c = m.get_course(9).unwrap();
    assert_eq!(c.student_count(), 1);
    let enrolled = c.get_student(1).unwrap();
    assert_eq!(enrolled.id, 1);
    assert_eq!(enrolled.name, "张三");

    // enrolling the same student again is a conflict
    assert_eq!(
        m.enroll_student_in_course(1, 9).unwrap_err(),
        AppError::ConflictError(ConflictFault::AlreadyEnrolled { student_id: 1 })
    );
    assert_eq!(m.get_course(9).unwrap().student_count(), 1);
}

#[test]
fn test_register_then_get_round_trip() {
    let mut m = EnrollmentManager::new();
    let mut s = student(3, "王五");
    s.add_grade(String::from("数学"), 8800).unwrap();
    m.add_student(s).unwrap();

    let found = m.get_student(3).unwrap();
    assert_eq!(found.id, 3);
    assert_eq!(found.name, "王五");
    assert_eq!(found.age, 20);
    assert_eq!(found.grades.len(), 1);
    assert_eq!(found.grades[0].subject(), "数学");
    assert_eq!(found.grades[0].score(), 8800);

    assert!(m.get_student(4).is_none());
    assert!(m.get_course(4).is_none());
}

#[test]
fn test_listings_are_in_registration_order() {
    let mut m = EnrollmentManager::new();
    m.add_student(student(5, "甲")).unwrap();
    m.add_student(student(2, "乙")).unwrap();
    m.add_course(course(7, "A")).unwrap();
    m.add_course(course(4, "B")).unwrap();

    let students = m.list_all_students();
    assert_eq!(students.len(), 2);
    assert_eq!(students[0].id, 5);
    assert_eq!(students[1].id, 2);

    let courses = m.list_all_courses();
    assert_eq!(courses.len(), 2);
    assert_eq!(courses[0].id, 7);
    assert_eq!(courses[1].id, 4);
}

#[test]
fn test_default_manager_is_empty() {
    let m = EnrollmentManager::default();
    assert_eq!(m.list_all_students().len(), 0);
    assert_eq!(m.list_all_courses().len(), 0);
}
