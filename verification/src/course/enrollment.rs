//! The enrollment registry: all known students and courses, keyed by
//! id, and the enrollment action that links them.
//!
//! Enrolling copies the registered student record into the course's
//! roster; afterwards the two records are independent.

use vstd::prelude::*;
use crate::course::{
    distinct_student_ids, has_student_id, student_id_index, Course, CourseView,
};
use crate::errors::{AppError, AppResult, ConflictFault, NotFoundFault};
use crate::student::{Student, StudentView};

verus! {

/// The mathematical content of an [`EnrollmentManager`]: the
/// registered students and courses, in registration order.
#[verifier::ext_equal]
pub ghost struct ManagerView {
    pub students: Seq<StudentView>,
    pub courses: Seq<CourseView>,
}

/// True when some course in `s` carries the id.
pub open spec fn has_course_id(s: Seq<CourseView>, id: u32) -> bool {
    exists|i: int| 0 <= i < s.len() && s[i].id == id
}

/// The position of the first course in `s` with the id, counted from
/// the front; `s.len()` when no course matches.
pub open spec fn course_id_index(s: Seq<CourseView>, id: u32) -> int
    decreases s.len(),
{
    if s.len() == 0 {
        0
    } else if s[0].id == id {
        0
    } else {
        1 + course_id_index(s.skip(1), id)
    }
}

/// No course id appears twice in `s`.
pub open spec fn distinct_course_ids(s: Seq<CourseView>) -> bool {
    forall|i: int, j: int| 0 <= i < j < s.len() ==> s[i].id != s[j].id
}

/// The outcome [`EnrollmentManager::enroll_student_in_course`] owes:
/// a missing student id is reported first, then a missing course id,
/// then an enrollment conflict; otherwise the action succeeds.
pub open spec fn enroll_check(m: ManagerView, student_id: u32, course_id: u32) -> AppResult<()> {
    if !has_student_id(m.students, student_id) {
        Err(AppError::NotFoundError(NotFoundFault::StudentId { id: student_id }))
    } else if !has_course_id(m.courses, course_id) {
        Err(AppError::NotFoundError(NotFoundFault::CourseId { id: course_id }))
    } else if has_student_id(
        m.courses[course_id_index(m.courses, course_id)].roster,
        student_id,
    ) {
        Err(AppError::ConflictError(ConflictFault::AlreadyEnrolled { student_id }))
    } else {
        Ok(())
    }
}

/// The registry state [`EnrollmentManager::enroll_student_in_course`]
/// owes on success: the registered student's record is appended to the
/// roster of the addressed course, and nothing else changes.
pub open spec fn enroll_effect(m: ManagerView, student_id: u32, course_id: u32) -> ManagerView {
    let si = student_id_index(m.students, student_id);
    let ci = course_id_index(m.courses, course_id);
    ManagerView {
        students: m.students,
        courses: m.courses.update(
            ci,
            CourseView { roster: m.courses[ci].roster.push(m.students[si]), ..m.courses[ci] },
        ),
    }
}

/// The registry of all known students and courses. Each registry is
/// keyed by id: no id is ever registered twice.
pub struct EnrollmentManager {
    students: Vec<Student>,
    courses: Vec<Course>,
}

impl View for EnrollmentManager {
    type V = ManagerView;

    closed spec fn view(&self) -> ManagerView {
        ManagerView {
            students: Seq::new(self.students@.len(), |i: int| self.students@[i]@),
            courses: Seq::new(self.courses@.len(), |i: int| self.courses@[i]@),
        }
    }
}

impl EnrollmentManager {
    #[verifier::type_invariant]
    spec fn inv(self) -> bool {
        &&& distinct_student_ids(self@.students)
        &&& distinct_course_ids(self@.courses)
    }

    /// An empty registry: no students, no courses.
    pub fn new() -> (r: EnrollmentManager)
        ensures
            r@.students == Seq::<StudentView>::empty(),
            r@.courses == Seq::<CourseView>::empty(),
    {
        let r = EnrollmentManager { students: Vec::new(), courses: Vec::new() };
        proof {
            assert(r@.students =~= Seq::<StudentView>::empty());
            assert(r@.courses =~= Seq::<CourseView>::empty());
        }
        r
    }

    /// The position of the registered student with the given id.
    fn student_position(&self, student_id: u32) -> (r: Option<usize>)
        ensures
            match r {
                Some(i) => {
                    &&& 0 <= i < self@.students.len()
                    &&& self@.students[i as int].id == student_id
                    &&& i == student_id_index(self@.students, student_id)
                    &&& has_student_id(self@.students, student_id)
                },
                None => !has_student_id(self@.students, student_id),
            },
    {
        let n = self.students.len();
        proof {
            assert(self@.students.skip(0) =~= self@.students);
        }
        let mut i: usize = 0;
        while i < n
            invariant
                n == self.students.len(),
                self.students.len() == self@.students.len(),
                0 <= i <= n,
                forall|j: int| 0 <= j < i ==> self@.students[j].id != student_id,
                student_id_index(self@.students, student_id) == i + student_id_index(
                    self@.students.skip(i as int),
                    student_id,
                ),
            decreases n - i,
        {
            if self.students[i].id == student_id {
                proof {
                    assert(self@.students.skip(i as int)[0] == self@.students[i as int]);
                    assert(student_id_index(self@.students.skip(i as int), student_id) == 0);
                }
                return Some(i);
            }
            proof {
                assert(self@.students.skip(i as int)[0] == self@.students[i as int]);
                assert(self@.students.skip(i as int).skip(1) =~= self@.students.skip(
                    i as int + 1,
                ));
            }
            i = i + 1;
        }
        None
    }

    /// The position of the registered course with the given id.
    fn course_position(&self, course_id: u32) -> (r: Option<usize>)
        ensures
            match r {
                Some(i) => {
                    &&& 0 <= i < self@.courses.len()
                    &&& self@.courses[i as int].id == course_id
                    &&& i == course_id_index(self@.courses, course_id)
                    &&& has_course_id(self@.courses, course_id)
                },
                None => !has_course_id(self@.courses, course_id),
            },
    {
        let n = self.courses.len();
        proof {
            assert(self@.courses.skip(0) =~= self@.courses);
        }
        let mut i: usize = 0;
        while i < n
            invariant
                n == self.courses.len(),
                self.courses.len() == self@.courses.len(),
                0 <= i <= n,
                forall|j: int| 0 <= j < i ==> self@.courses[j].id != course_id,
                course_id_index(self@.courses, course_id) == i + course_id_index(
                    self@.courses.skip(i as int),
                    course_id,
                ),
            decreases n - i,
        {
            if self.courses[i].id == course_id {
                proof {
                    assert(self@.courses.skip(i as int)[0] == self@.courses[i as int]);
                    assert(course_id_index(self@.courses.skip(i as int), course_id) == 0);
                }
                return Some(i);
            }
            proof {
                assert(self@.courses.skip(i as int)[0] == self@.courses[i as int]);
                assert(self@.courses.skip(i as int).skip(1) =~= self@.courses.skip(i as int + 1));
            }
            i = i + 1;
        }
        None
    }

    /// Registers a student record: rejected with a conflict when the
    /// id is already registered, otherwise appended to the student
    /// registry; the course registry never changes.
    pub fn add_student(&mut self, student: Student) -> (r: AppResult<()>)
        ensures
            r is Ok <==> !has_student_id(old(self)@.students, student.id),
            r is Ok ==> final(self)@ == (ManagerView {
                students: old(self)@.students.push(student@),
                courses: old(self)@.courses,
            }),
            r matches Err(e) ==> final(self)@ == old(self)@ && e == AppError::ConflictError(
                ConflictFault::DuplicateStudentId { id: student.id },
            ),
    {
        proof {
            use_type_invariant(&*self);
        }
        match self.student_position(student.id) {
            Some(_) => Err(AppError::ConflictError(ConflictFault::DuplicateStudentId {
                id: student.id,
            })),
            None => {
                let ghost old_students = self@.students;
                let mut students: Vec<Student> = Vec::new();
                std::mem::swap(&mut students, &mut self.students);
                students.push(student);
                proof {
                    let s_new = Seq::new(students@.len(), |i: int| students@[i]@);
                    assert(s_new =~= old_students.push(student@));
                    assert forall|a: int, b: int|
                        0 <= a < b < s_new.len() implies s_new[a].id != s_new[b].id by {
                        if b == old_students.len() {
                            assert(s_new[b] == student@);
                            assert(old_students[a].id != student.id);
                        }
                    }
                    assert(distinct_student_ids(s_new));
                }
                std::mem::swap(&mut students, &mut self.students);
                proof {
                    assert(final(self)@.students =~= old(self)@.students.push(student@));
                    assert(final(self)@.courses =~= old(self)@.courses);
                    assert(final(self)@ =~= (ManagerView {
                        students: old(self)@.students.push(student@),
                        courses: old(self)@.courses,
                    }));
                }
                Ok(())
            },
        }
    }

    /// Registers a course: rejected with a conflict when the id is
    /// already registered, otherwise appended to the course registry;
    /// the student registry never changes.
    pub fn add_course(&mut self, course: Course) -> (r: AppResult<()>)
        ensures
            r is Ok <==> !has_course_id(old(self)@.courses, course@.id),
            r is Ok ==> final(self)@ == (ManagerView {
                students: old(self)@.students,
                courses: old(self)@.courses.push(course@),
            }),
            r matches Err(e) ==> final(self)@ == old(self)@ && e == AppError::ConflictError(
                ConflictFault::DuplicateCourseId { id: course@.id },
            ),
    {
        proof {
            use_type_invariant(&*self);
        }
        let ghost course_view = course@;
        match self.course_position(course.id) {
            Some(_) => Err(AppError::ConflictError(ConflictFault::DuplicateCourseId {
                id: course.id,
            })),
            None => {
                let ghost old_courses = self@.courses;
                let ghost cid = course_view.id;
                let mut courses: Vec<Course> = Vec::new();
                std::mem::swap(&mut courses, &mut self.courses);
                courses.push(course);
                proof {
                    let c_new = Seq::new(courses@.len(), |i: int| courses@[i]@);
                    assert(c_new =~= old_courses.push(course_view));
                    assert forall|a: int, b: int|
                        0 <= a < b < c_new.len() implies c_new[a].id != c_new[b].id by {
                        if b == old_courses.len() {
                            assert(c_new[b] == course_view);
                            assert(old_courses[a].id != cid);
                        }
                    }
                    assert(distinct_course_ids(c_new));
                }
                std::mem::swap(&mut courses, &mut self.courses);
                proof {
                    assert(final(self)@.students =~= old(self)@.students);
                    assert(final(self)@.courses =~= old(self)@.courses.push(course_view));
                    assert(final(self)@ =~= (ManagerView {
                        students: old(self)@.students,
                        courses: old(self)@.courses.push(course_view),
                    }));
                }
                Ok(())
            },
        }
    }

    /// Enrolls a registered student in a registered course. A missing
    /// student id is reported first, then a missing course id, then a
    /// conflict when the roster already holds the id; each failure
    /// leaves the registries unmodified. On success a copy of the
    /// registered record is appended to that course's roster, and the
    /// registries are otherwise unchanged.
    pub fn enroll_student_in_course(&mut self, student_id: u32, course_id: u32) -> (r: AppResult<
        (),
    >)
        ensures
            r is Ok <==> enroll_check(old(self)@, student_id, course_id) is Ok,
            r matches Err(e) ==> final(self)@ == old(self)@ && enroll_check(
                old(self)@,
                student_id,
                course_id,
            ) == AppResult::<()>::Err(e),
            r is Ok ==> final(self)@ == enroll_effect(old(self)@, student_id, course_id),
    {
        proof {
            use_type_invariant(&*self);
        }
        let si = match self.student_position(student_id) {
            Some(i) => i,
            None => {
                return Err(AppError::NotFoundError(NotFoundFault::StudentId { id: student_id }));
            },
        };
        let ci = match self.course_position(course_id) {
            Some(i) => i,
            None => {
                return Err(AppError::NotFoundError(NotFoundFault::CourseId { id: course_id }));
            },
        };
        let student_copy = self.students[si].clone();
        let ghost old_courses = self@.courses;
        let mut courses: Vec<Course> = Vec::new();
        std::mem::swap(&mut courses, &mut self.courses);
        let mut course = courses.remove(ci);
        let enroll_result = course.enroll_student(student_copy);
        courses.insert(ci, course);
        proof {
            let c_new = Seq::new(courses@.len(), |i: int| courses@[i]@);
            assert(c_new =~= old_courses.update(ci as int, course@));
            assert(course@.id == old_courses[ci as int].id);
            assert forall|a: int, b: int|
                0 <= a < b < c_new.len() implies c_new[a].id != c_new[b].id by {
                assert(c_new[a].id == old_courses[a].id);
                assert(c_new[b].id == old_courses[b].id);
            }
            assert(distinct_course_ids(c_new));
        }
        std::mem::swap(&mut courses, &mut self.courses);
        match enroll_result {
            Ok(()) => {
                proof {
                    assert(final(self)@.courses =~= enroll_effect(
                        old(self)@,
                        student_id,
                        course_id,
                    ).courses);
                    assert(final(self)@ =~= enroll_effect(old(self)@, student_id, course_id));
                }
                Ok(())
            },
            Err(_) => {
                proof {
                    assert(final(self)@.courses =~= old(self)@.courses);
                    assert(final(self)@ =~= old(self)@);
                }
                Err(AppError::ConflictError(ConflictFault::AlreadyEnrolled { student_id }))
            },
        }
    }

    /// The registered course with the given id, if any.
    pub fn get_course(&self, course_id: u32) -> (r: Option<&Course>)
        ensures
            match r {
                Some(c) => {
                    &&& has_course_id(self@.courses, course_id)
                    &&& c@ == self@.courses[course_id_index(self@.courses, course_id)]
                    &&& c@.id == course_id
                },
                None => !has_course_id(self@.courses, course_id),
            },
    {
        match self.course_position(course_id) {
            Some(i) => Some(&self.courses[i]),
            None => None,
        }
    }

    /// The registered student with the given id, if any.
    pub fn get_student(&self, student_id: u32) -> (r: Option<&Student>)
        ensures
            match r {
                Some(s) => {
                    &&& has_student_id(self@.students, student_id)
                    &&& s@ == self@.students[student_id_index(self@.students, student_id)]
                    &&& s@.id == student_id
                },
                None => !has_student_id(self@.students, student_id),
            },
    {
        match self.student_position(student_id) {
            Some(i) => Some(&self.students[i]),
            None => None,
        }
    }

    /// All registered courses, in registration order. No course id
    /// appears twice in the registry.
    pub fn list_all_courses(&self) -> (r: Vec<&Course>)
        ensures
            r@.len() == self@.courses.len(),
            forall|i: int| 0 <= i < r@.len() ==> r@[i]@ == self@.courses[i],
            distinct_course_ids(self@.courses),
    {
        proof {
            use_type_invariant(&*self);
        }
        let n = self.courses.len();
        let mut r: Vec<&Course> = Vec::new();
        let mut i: usize = 0;
        while i < n
            invariant
                n == self.courses.len(),
                self.courses.len() == self@.courses.len(),
                0 <= i <= n,
                r@.len() == i,
                forall|j: int| 0 <= j < i ==> r@[j]@ == self@.courses[j],
            decreases n - i,
        {
            r.push(&self.courses[i]);
            i = i + 1;
        }
        r
    }

    /// All registered students, in registration order. No student id
    /// appears twice in the registry.
    pub fn list_all_students(&self) -> (r: Vec<&Student>)
        ensures
            r@.len() == self@.students.len(),
            forall|i: int| 0 <= i < r@.len() ==> r@[i]@ == self@.students[i],
            distinct_student_ids(self@.students),
    {
        proof {
            use_type_invariant(&*self);
        }
        let n = self.students.len();
        let mut r: Vec<&Student> = Vec::new();
        let mut i: usize = 0;
        while i < n
            invariant
                n == self.students.len(),
                self.students.len() == self@.students.len(),
                0 <= i <= n,
                r@.len() == i,
                forall|j: int| 0 <= j < i ==> r@[j]@ == self@.students[j],
            decreases n - i,
        {
            r.push(&self.students[i]);
            i = i + 1;
        }
        r
    }
}

impl Default for EnrollmentManager {
    /// The default registry is empty.
    fn default() -> (r: Self)
        ensures
            r@.students == Seq::<StudentView>::empty(),
            r@.courses == Seq::<CourseView>::empty(),
    {
        EnrollmentManager::new()
    }
}

/// Registering a student under a fresh id and retrieving that id finds
/// the registered record again, equal in all fields: the round trip
/// through the registry loses nothing.
pub proof fn lemma_register_then_find(students: Seq<StudentView>, student: StudentView)
    requires
        !has_student_id(students, student.id),
    ensures
        has_student_id(students.push(student), student.id),
        student_id_index(students.push(student), student.id) == students.len(),
        students.push(student)[student_id_index(students.push(student), student.id)] == student,
{
    crate::course::lemma_push_then_find(students, student);
}

} // verus!
