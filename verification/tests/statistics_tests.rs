use enrollment::student::Student;
use enrollment::Course;

fn student_with_average(id: u32, score: u32) -> Student {
    let mut s = Student::new(id, String::from("学生"), 20).unwrap();
    s.add_grade(String::from("科目"), score).unwrap();
    s
}

#[test]
fn test_statistics_empty_roster_is_none() {
    let c = Course::new(1, String::from("Rust"), 3, String::from("i")).unwrap();
    assert!(c.calculate_statistics().is_none());
}

#[test]
fn test_statistics_of_four_averages() {
    let mut c = Course::new(1, String::from("Rust"), 3, String::from("i")).unwrap();
    c.enroll_student(student_with_average(1, 9500)).unwrap();
    c.enroll_student(student_with_average(2, 8500)).unwrap();
    c.enroll_student(student_with_average(3, 6500)).unwrap();
    c.enroll_student(student_with_average(4, 4000)).unwrap();

    let st = c.calculate_statistics().unwrap();
    assert_eq!(st.average_grade, 7125);
    assert_eq!(st.highest_grade, 9500);
    assert_eq!(st.lowest_grade, 4000);
    assert_eq!(st.passing_rate, 7500);
    assert_eq!(st.grade_distribution.a_count, 1);
    assert_eq!(st.grade_distribution.b_count, 1);
    assert_eq!(st.grade_distribution.c_count, 0);
    assert_eq!(st.grade_distribution.d_count, 1);
    assert_eq!(st.grade_distribution.f_count, 1);
}

#[test]
fn test_statistics_single_student() {
    let mut c = Course::new(2, String::from("Rust"), 3, String::from("i")).unwrap();
    c.enroll_student(student_with_average(1, 7000)).unwrap();
    let st = c.calculate_statistics().unwrap();
    assert_eq!(st.average_grade, 7000);
    assert_eq!(st.highest_grade, 7000);
    assert_eq!(st.lowest_grade, 7000);
    assert_eq!(st.passing_rate, 10000);
    assert_eq!(st.grade_distribution.c_count, 1);
}

#[test]
fn test_statistics_passing_rate_truncates() {
    let mut c = Course::new(3, String::from("Rust"), 3, String::from("i")).unwrap();
    c.enroll_student(student_with_average(1, 9000)).unwrap();
    c.enroll_student(student_with_average(2, 1000)).unwrap();
    c.enroll_student(student_with_average(3, 2000)).unwrap();
    let st = c.calculate_statistics().unwrap();
    // 1 of 3 students passing: 3333 hundredths of a percent
    assert_eq!(st.passing_rate, 3333);
}

#[test]
fn test_statistics_use_per_student_averages() {
    // one student with several grades: the histogram buckets the
    // student's average, not the individual grades
    let mut c = Course::new(4, String::from("Rust"), 3, String::from("i")).unwrap();
    let mut s = Student::new(1, String::from("学生"), 20).unwrap();
    s.add_grade(String::from("a"), 10000).unwrap();
    s.add_grade(String::from("b"), 8000).unwrap();
    c.enroll_student(s).unwrap();
    let st = c.calculate_statistics().unwrap();
    assert_eq!(st.average_grade, 9000);
    assert_eq!(st.grade_distribution.a_count, 1);
    assert_eq!(st.grade_distribution.b_count, 0);
}
