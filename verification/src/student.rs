//! Students: an identity, validated personal data, and an ordered
//! sequence of grades.
//!
//! Name and age are validated at construction only; the grade sequence
//! grows over time through [`Student::add_grade`]. The average is the
//! integer mean of the grade scores in hundredths of a point.

pub mod grade;
pub mod validator;

use vstd::prelude::*;
use crate::aggregate::{lemma_sum_take_step, sum_ints};
use crate::errors::AppResult;
use crate::student::grade::{grade_check, letter_of, Grade, GradeView};
use crate::student::validator::{age_check, age_ok, name_check, name_ok, validate_age, validate_name};
use crate::text::str_eq;

verus! {

/// The mathematical content of a [`Student`].
#[verifier::ext_equal]
pub ghost struct StudentView {
    pub id: u32,
    pub name: Seq<char>,
    pub age: u8,
    pub grades: Seq<GradeView>,
}

/// A student record. The id is chosen at construction and never
/// changed by this library; name and age pass the validator at
/// construction time only.
#[derive(Debug)]
pub struct Student {
    pub id: u32,
    pub name: String,
    pub age: u8,
    pub grades: Vec<Grade>,
}

impl View for Student {
    type V = StudentView;

    open spec fn view(&self) -> StudentView {
        StudentView {
            id: self.id,
            name: self.name@,
            age: self.age,
            grades: Seq::new(self.grades@.len(), |i: int| self.grades@[i]@),
        }
    }
}

/// The scores of the grades, as mathematical integers.
pub open spec fn scores_of(gs: Seq<GradeView>) -> Seq<int> {
    Seq::new(gs.len(), |i: int| gs[i].score as int)
}

/// The integer mean of the grade scores; 0 when there are no grades.
/// The zero is a deliberate default, not an error: a caller cannot
/// distinguish "no grades" from an actual average of zero.
pub open spec fn average_of(gs: Seq<GradeView>) -> int {
    if gs.len() == 0 {
        0
    } else {
        sum_ints(scores_of(gs)) / (gs.len() as int)
    }
}

/// The position of the first grade whose subject is `subj`, counted
/// from the front; `gs.len()` when no grade matches.
pub open spec fn subject_index(gs: Seq<GradeView>, subj: Seq<char>) -> int
    decreases gs.len(),
{
    if gs.len() == 0 {
        0
    } else if gs[0].subject == subj {
        0
    } else {
        1 + subject_index(gs.skip(1), subj)
    }
}

/// True when some grade was earned in the subject `subj`.
pub open spec fn has_subject(gs: Seq<GradeView>, subj: Seq<char>) -> bool {
    exists|i: int| 0 <= i < gs.len() && gs[i].subject == subj
}

impl Student {
    /// Builds a student after validating age and name; the age is
    /// checked first. A fresh student has no grades.
    pub fn new(id: u32, name: String, age: u8) -> (r: AppResult<Student>)
        ensures
            r is Ok <==> (age_ok(age) && name_ok(name@)),
            r matches Ok(s) ==> s@ == (StudentView {
                id,
                name: name@,
                age,
                grades: Seq::<GradeView>::empty(),
            }),
            age_check(age) matches Err(e) ==> r == AppResult::<Student>::Err(e),
            age_ok(age) ==> (name_check(name@) matches Err(e) ==> r == AppResult::<Student>::Err(
                e,
            )),
    {
        match validate_age(age) {
            Err(e) => {
                return Err(e);
            },
            Ok(()) => {},
        }
        match validate_name(name.as_str()) {
            Err(e) => {
                return Err(e);
            },
            Ok(()) => {},
        }
        let s = Student { id, name, age, grades: Vec::new() };
        proof {
            assert(s@.grades =~= Seq::<GradeView>::empty());
        }
        Ok(s)
    }

    /// Validates a new grade and appends it to the sequence. On failure
    /// the student is unchanged and the grade's validation error is
    /// handed through.
    pub fn add_grade(&mut self, subject: String, score: u32) -> (r: AppResult<()>)
        ensures
            r is Ok <==> (score <= 10000 && !crate::text::trims_to_empty(subject@)),
            r is Ok ==> final(self)@ == (StudentView {
                grades: old(self)@.grades.push(
                    GradeView { subject: subject@, score, letter: letter_of(score) },
                ),
                ..old(self)@
            }),
            r matches Err(e) ==> *final(self) == *old(self) && grade_check(subject@, score)
                == AppResult::<GradeView>::Err(e),
    {
        match Grade::new(subject, score) {
            Err(e) => Err(e),
            Ok(g) => {
                self.grades.push(g);
                proof {
                    assert(final(self)@.grades =~= old(self)@.grades.push(g@));
                }
                Ok(())
            },
        }
    }

    /// The integer mean of all grade scores, in hundredths of a point;
    /// exactly 0 when no grades exist.
    pub fn average_grade(&self) -> (r: u32)
        ensures
            r == average_of(self@.grades),
            r <= 10000,
    {
        let n = self.grades.len();
        if n == 0 {
            return 0;
        }
        let ghost scores = scores_of(self@.grades);
        let mut sum: u128 = 0;
        let mut i: usize = 0;
        while i < n
            invariant
                n == self.grades.len(),
                self.grades.len() == self@.grades.len(),
                scores == scores_of(self@.grades),
                0 <= i <= n,
                sum == sum_ints(scores.take(i as int)),
                sum <= 10000 * (i as int),
            decreases n - i,
        {
            let sc = self.grades[i].score();
            proof {
                lemma_sum_take_step(scores, i as int);
            }
            sum = sum + sc as u128;
            i = i + 1;
        }
        proof {
            assert(scores.take(n as int) =~= scores);
        }
        let avg = sum / (n as u128);
        proof {
            assert(avg <= 10000) by (nonlinear_arith)
                requires
                    sum <= 10000 * (n as int),
                    n > 0,
                    avg == sum / (n as u128),
            ;
        }
        avg as u32
    }

    /// The first grade earned in the given subject, in insertion
    /// order; `None` when no grade matches.
    pub fn get_grade_by_subject(&self, subject: &str) -> (r: Option<&Grade>)
        ensures
            match r {
                Some(g) => {
                    &&& has_subject(self@.grades, subject@)
                    &&& 0 <= subject_index(self@.grades, subject@) < self@.grades.len()
                    &&& g@ == self@.grades[subject_index(self@.grades, subject@)]
                    &&& g@.subject == subject@
                },
                None => !has_subject(self@.grades, subject@),
            },
    {
        let n = self.grades.len();
        proof {
            assert(self@.grades.skip(0) =~= self@.grades);
        }
        let mut i: usize = 0;
        while i < n
            invariant
                n == self.grades.len(),
                self.grades.len() == self@.grades.len(),
                0 <= i <= n,
                forall|j: int| 0 <= j < i ==> self@.grades[j].subject != subject@,
                subject_index(self@.grades, subject@) == i + subject_index(
                    self@.grades.skip(i as int),
                    subject@,
                ),
            decreases n - i,
        {
            let g = &self.grades[i];
            if str_eq(g.subject(), subject) {
                proof {
                    assert(self@.grades.skip(i as int)[0] == self@.grades[i as int]);
                    assert(subject_index(self@.grades.skip(i as int), subject@) == 0);
                }
                return Some(g);
            }
            proof {
                assert(self@.grades.skip(i as int)[0] == self@.grades[i as int]);
                assert(self@.grades.skip(i as int).skip(1) =~= self@.grades.skip(i as int + 1));
            }
            i = i + 1;
        }
        proof {
            assert(self@.grades.skip(n as int) =~= Seq::<GradeView>::empty());
        }
        None
    }
}

impl Clone for Student {
    /// A clone is a value copy: it carries the same id, name, age and
    /// grades, and is afterwards independent of the original.
    fn clone(&self) -> (r: Self)
        ensures
            r@ == self@,
    {
        let mut grades: Vec<Grade> = Vec::new();
        let n = self.grades.len();
        let mut i: usize = 0;
        while i < n
            invariant
                n == self.grades.len(),
                0 <= i <= n,
                grades@.len() == i,
                forall|j: int| 0 <= j < i ==> grades@[j] == self.grades@[j],
            decreases n - i,
        {
            grades.push(self.grades[i].clone());
            i = i + 1;
        }
        let r = Student { id: self.id, name: self.name.clone(), age: self.age, grades };
        proof {
            assert(r@.grades =~= self@.grades);
            assert(r@ =~= self@);
        }
        r
    }
}

} // verus!
