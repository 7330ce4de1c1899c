//! Courses: validated metadata and a roster of enrolled students.
//!
//! The roster is keyed by student id: no id ever appears twice. An
//! enrolled student is a value copy, independent of whatever record it
//! was copied from.

pub mod enrollment;
pub mod statistics;

use vstd::prelude::*;
use crate::errors::{AppError, AppResult, ConflictFault, NotFoundFault, ValidationFault};
use crate::student::{Student, StudentView};
use crate::text::{chars_of, trims_to_empty, trims_to_empty_exec};

verus! {

/// The mathematical content of a [`Course`].
#[verifier::ext_equal]
pub ghost struct CourseView {
    pub id: u32,
    pub name: Seq<char>,
    pub credits: u8,
    pub instructor: Seq<char>,
    pub roster: Seq<StudentView>,
}

/// True when some student in `s` carries the id.
pub open spec fn has_student_id(s: Seq<StudentView>, id: u32) -> bool {
    exists|i: int| 0 <= i < s.len() && s[i].id == id
}

/// The position of the first student in `s` with the id, counted from
/// the front; `s.len()` when no student matches.
pub open spec fn student_id_index(s: Seq<StudentView>, id: u32) -> int
    decreases s.len(),
{
    if s.len() == 0 {
        0
    } else if s[0].id == id {
        0
    } else {
        1 + student_id_index(s.skip(1), id)
    }
}

/// No student id appears twice in `s`.
pub open spec fn distinct_student_ids(s: Seq<StudentView>) -> bool {
    forall|i: int, j: int| 0 <= i < j < s.len() ==> s[i].id != s[j].id
}

/// The outcome [`Course::new`] owes for a given name and credit value:
/// an empty name is reported before an out-of-range credit value.
pub open spec fn course_check(name: Seq<char>, credits: u8) -> AppResult<()> {
    if trims_to_empty(name) {
        Err(AppError::ValidationError(ValidationFault::CourseNameEmpty))
    } else if credits == 0 || credits > 10 {
        Err(AppError::ValidationError(ValidationFault::CreditsOutOfRange { credits }))
    } else {
        Ok(())
    }
}

/// A course: a validated name and credit value, an instructor, and the
/// roster of enrolled students.
#[derive(Debug)]
pub struct Course {
    pub id: u32,
    pub name: String,
    pub credits: u8,
    pub instructor: String,
    students: Vec<Student>,
}

impl View for Course {
    type V = CourseView;

    closed spec fn view(&self) -> CourseView {
        CourseView {
            id: self.id,
            name: self.name@,
            credits: self.credits,
            instructor: self.instructor@,
            roster: Seq::new(self.students@.len(), |i: int| self.students@[i]@),
        }
    }
}

impl Course {
    #[verifier::type_invariant]
    spec fn inv(self) -> bool {
        distinct_student_ids(self@.roster)
    }

    /// Builds a course after validating the name and the credit value;
    /// the name is checked first. A fresh course has an empty roster.
    pub fn new(id: u32, name: String, credits: u8, instructor: String) -> (r: AppResult<Course>)
        ensures
            r is Ok <==> (!trims_to_empty(name@) && 1 <= credits <= 10),
            r matches Ok(c) ==> c@ == (CourseView {
                id,
                name: name@,
                credits,
                instructor: instructor@,
                roster: Seq::<StudentView>::empty(),
            }),
            r matches Err(e) ==> course_check(name@, credits) == AppResult::<()>::Err(e),
    {
        let name_chars = chars_of(name.as_str());
        if trims_to_empty_exec(&name_chars) {
            return Err(AppError::ValidationError(ValidationFault::CourseNameEmpty));
        }
        if credits == 0 || credits > 10 {
            return Err(AppError::ValidationError(ValidationFault::CreditsOutOfRange { credits }));
        }
        let c = Course { id, name, credits, instructor, students: Vec::new() };
        proof {
            assert(c@.roster =~= Seq::<StudentView>::empty());
        }
        Ok(c)
    }

    /// The position of the roster entry with the given id, if any.
    fn roster_position(&self, student_id: u32) -> (r: Option<usize>)
        ensures
            match r {
                Some(i) => {
                    &&& 0 <= i < self@.roster.len()
                    &&& self@.roster[i as int].id == student_id
                    &&& i == student_id_index(self@.roster, student_id)
                    &&& has_student_id(self@.roster, student_id)
                },
                None => !has_student_id(self@.roster, student_id),
            },
    {
        let n = self.students.len();
        proof {
            assert(self@.roster.skip(0) =~= self@.roster);
        }
        let mut i: usize = 0;
        while i < n
            invariant
                n == self.students.len(),
                self.students.len() == self@.roster.len(),
                0 <= i <= n,
                forall|j: int| 0 <= j < i ==> self@.roster[j].id != student_id,
                student_id_index(self@.roster, student_id) == i + student_id_index(
                    self@.roster.skip(i as int),
                    student_id,
                ),
            decreases n - i,
        {
            if self.students[i].id == student_id {
                proof {
                    assert(self@.roster.skip(i as int)[0] == self@.roster[i as int]);
                    assert(student_id_index(self@.roster.skip(i as int), student_id) == 0);
                }
                return Some(i);
            }
            proof {
                assert(self@.roster.skip(i as int)[0] == self@.roster[i as int]);
                assert(self@.roster.skip(i as int).skip(1) =~= self@.roster.skip(i as int + 1));
            }
            i = i + 1;
        }
        None
    }

    /// Enrolls a student: rejected with a conflict when the roster
    /// already holds the student's id, otherwise the record is
    /// appended to the roster and the roster alone changes.
    pub fn enroll_student(&mut self, student: Student) -> (r: AppResult<()>)
        ensures
            r is Ok <==> !has_student_id(old(self)@.roster, student.id),
            r is Ok ==> final(self)@ == (CourseView {
                roster: old(self)@.roster.push(student@),
                ..old(self)@
            }),
            r matches Err(e) ==> *final(self) == *old(self) && e == AppError::ConflictError(
                ConflictFault::AlreadyEnrolled { student_id: student.id },
            ),
    {
        proof {
            use_type_invariant(&*self);
        }
        match self.roster_position(student.id) {
            Some(_) => Err(AppError::ConflictError(ConflictFault::AlreadyEnrolled {
                student_id: student.id,
            })),
            None => {
                let ghost old_roster = self@.roster;
                let mut roster: Vec<Student> = Vec::new();
                std::mem::swap(&mut roster, &mut self.students);
                roster.push(student);
                proof {
                    let r_new = Seq::new(roster@.len(), |i: int| roster@[i]@);
                    assert(r_new =~= old_roster.push(student@));
                    assert forall|a: int, b: int|
                        0 <= a < b < r_new.len() implies r_new[a].id != r_new[b].id by {
                        if b == old_roster.len() {
                            assert(r_new[b] == student@);
                            assert(old_roster[a].id != student.id);
                        }
                    }
                    assert(distinct_student_ids(r_new));
                }
                std::mem::swap(&mut roster, &mut self.students);
                proof {
                    assert(final(self)@.roster =~= old(self)@.roster.push(student@));
                    assert(final(self)@ =~= (CourseView {
                        roster: old(self)@.roster.push(student@),
                        ..old(self)@
                    }));
                }
                Ok(())
            },
        }
    }

    /// The roster entry with the given id, if any.
    pub fn get_student(&self, student_id: u32) -> (r: Option<&Student>)
        ensures
            match r {
                Some(s) => {
                    &&& has_student_id(self@.roster, student_id)
                    &&& s@ == self@.roster[student_id_index(self@.roster, student_id)]
                    &&& s@.id == student_id
                },
                None => !has_student_id(self@.roster, student_id),
            },
    {
        match self.roster_position(student_id) {
            Some(i) => Some(&self.students[i]),
            None => None,
        }
    }

    /// Removes and returns the roster entry with the given id; fails
    /// with a not-found error, leaving the course unchanged, when the
    /// id is absent.
    pub fn remove_student(&mut self, student_id: u32) -> (r: AppResult<Student>)
        ensures
            r is Ok <==> has_student_id(old(self)@.roster, student_id),
            r matches Ok(s) ==> {
                &&& s@ == old(self)@.roster[student_id_index(old(self)@.roster, student_id)]
                &&& s@.id == student_id
                &&& final(self)@ == (CourseView {
                    roster: old(self)@.roster.remove(
                        student_id_index(old(self)@.roster, student_id),
                    ),
                    ..old(self)@
                })
            },
            r matches Err(e) ==> *final(self) == *old(self) && e == AppError::NotFoundError(
                NotFoundFault::StudentId { id: student_id },
            ),
    {
        proof {
            use_type_invariant(&*self);
        }
        match self.roster_position(student_id) {
            Some(i) => {
                let ghost old_roster = self@.roster;
                let mut roster: Vec<Student> = Vec::new();
                std::mem::swap(&mut roster, &mut self.students);
                let s = roster.remove(i);
                proof {
                    let r_new = Seq::new(roster@.len(), |j: int| roster@[j]@);
                    assert(r_new =~= old_roster.remove(i as int));
                    assert forall|a: int, b: int|
                        0 <= a < b < r_new.len() implies r_new[a].id != r_new[b].id by {
                        let a0 = if a < i { a } else { a + 1 };
                        let b0 = if b < i { b } else { b + 1 };
                        assert(r_new[a] == old_roster[a0]);
                        assert(r_new[b] == old_roster[b0]);
                    }
                    assert(distinct_student_ids(r_new));
                }
                std::mem::swap(&mut roster, &mut self.students);
                proof {
                    assert(final(self)@.roster =~= old(self)@.roster.remove(i as int));
                    assert(final(self)@ =~= (CourseView {
                        roster: old(self)@.roster.remove(i as int),
                        ..old(self)@
                    }));
                }
                Ok(s)
            },
            None => Err(AppError::NotFoundError(NotFoundFault::StudentId { id: student_id })),
        }
    }

    /// How many students are enrolled.
    pub fn student_count(&self) -> (r: usize)
        ensures
            r == self@.roster.len(),
    {
        self.students.len()
    }

    /// A read-only view of the roster, in enrollment order. No
    /// student id appears twice in it.
    pub fn list_students(&self) -> (r: Vec<&Student>)
        ensures
            r@.len() == self@.roster.len(),
            forall|i: int| 0 <= i < r@.len() ==> r@[i]@ == self@.roster[i],
            distinct_student_ids(self@.roster),
    {
        proof {
            use_type_invariant(&*self);
        }
        let n = self.students.len();
        let mut r: Vec<&Student> = Vec::new();
        let mut i: usize = 0;
        while i < n
            invariant
                n == self.students.len(),
                self.students.len() == self@.roster.len(),
                0 <= i <= n,
                r@.len() == i,
                forall|j: int| 0 <= j < i ==> r@[j]@ == self@.roster[j],
            decreases n - i,
        {
            r.push(&self.students[i]);
            i = i + 1;
        }
        r
    }
}

/// Enrollment is idempotent-rejecting: once a roster has been extended
/// with a student, it holds that student's id, so by the contract of
/// [`Course::enroll_student`] a second enrollment under the same id
/// must fail with a conflict and leave the roster unchanged.
pub proof fn lemma_enroll_idempotent_rejecting(
    roster: Seq<StudentView>,
    s1: StudentView,
    s2: StudentView,
)
    requires
        s2.id == s1.id,
    ensures
        has_student_id(roster.push(s1), s2.id),
{
    assert(roster.push(s1)[roster.len() as int] == s1);
}

/// A student pushed onto a roster free of their id is found again at
/// the end of that roster: the first index with the id is the new
/// position, and the entry there is the pushed record, equal in all
/// fields.
pub proof fn lemma_push_then_find(s: Seq<StudentView>, student: StudentView)
    requires
        !has_student_id(s, student.id),
    ensures
        has_student_id(s.push(student), student.id),
        student_id_index(s.push(student), student.id) == s.len(),
        s.push(student)[student_id_index(s.push(student), student.id)] == student,
    decreases s.len(),
{
    assert(s.push(student)[s.len() as int] == student);
    if s.len() == 0 {
        assert(s.push(student)[0] == student);
    } else {
        assert(s.push(student)[0] == s[0]);
        assert(s[0].id != student.id);
        assert(s.push(student).skip(1) =~= s.skip(1).push(student));
        assert(!has_student_id(s.skip(1), student.id)) by {
            assert forall|i: int| 0 <= i < s.skip(1).len() implies s.skip(1)[i].id != student.id by {
                assert(s.skip(1)[i] == s[i + 1]);
            }
        }
        lemma_push_then_find(s.skip(1), student);
    }
}

} // verus!
