//! Grades: a subject paired with a fixed-point score.
//!
//! A score is carried in hundredths of a point, so `10000` stands for a
//! perfect 100.00. The letter grade is derived once, at construction,
//! by the single boundary function [`letter_of`], which uses half-open
//! bands so every representable score maps to exactly one letter.

use vstd::prelude::*;
use crate::errors::{AppError, AppResult, ValidationFault};
use crate::text::trims_to_empty;
use crate::text::trims_to_empty_exec;
use crate::text::chars_of;

verus! {

/// The coarse A-F classification of a score.
#[derive(Debug, Clone, Copy, PartialEq, Eq, Structural)]
pub enum LetterGrade {
    A,
    B,
    C,
    D,
    F,
}

/// The letter that a score (in hundredths of a point) earns:
/// [90,100] is an A, [80,90) a B, [70,80) a C, [60,70) a D,
/// and everything below 60 an F.
pub open spec fn letter_of(score: u32) -> LetterGrade {
    if score >= 9000 {
        LetterGrade::A
    } else if score >= 8000 {
        LetterGrade::B
    } else if score >= 7000 {
        LetterGrade::C
    } else if score >= 6000 {
        LetterGrade::D
    } else {
        LetterGrade::F
    }
}

/// The GPA weight of a letter grade, in hundredths of a grade point:
/// an A is worth 4.00, a B 3.00, a C 2.00, a D 1.00, an F 0.00.
pub open spec fn gpa_of(letter: LetterGrade) -> u32 {
    match letter {
        LetterGrade::A => 400,
        LetterGrade::B => 300,
        LetterGrade::C => 200,
        LetterGrade::D => 100,
        LetterGrade::F => 0,
    }
}

/// The letter-grade mapping is total and deterministic: the five score
/// bands are pairwise disjoint and together cover every representable
/// score, and [`letter_of`] places each score in exactly its band.
pub proof fn lemma_letter_grade_total(score: u32)
    ensures
        letter_of(score) is A <==> 9000 <= score,
        letter_of(score) is B <==> 8000 <= score < 9000,
        letter_of(score) is C <==> 7000 <= score < 8000,
        letter_of(score) is D <==> 6000 <= score < 7000,
        letter_of(score) is F <==> score < 6000,
{
}

/// The mathematical content of a [`Grade`].
#[verifier::ext_equal]
pub ghost struct GradeView {
    pub subject: Seq<char>,
    pub score: u32,
    pub letter: LetterGrade,
}

/// The outcome [`Grade::new`] owes for a given subject and score: an
/// oversized score is reported before an empty subject.
pub open spec fn grade_check(subject: Seq<char>, score: u32) -> AppResult<GradeView> {
    if score > 10000 {
        Err(AppError::ValidationError(ValidationFault::ScoreOutOfRange { score }))
    } else if trims_to_empty(subject) {
        Err(AppError::ValidationError(ValidationFault::SubjectEmpty))
    } else {
        Ok(GradeView { subject, score, letter: letter_of(score) })
    }
}

/// A validated grade: a subject that does not trim to empty, a score of
/// at most 10000 hundredths, and the letter derived from that score.
/// The fields never change after construction.
#[derive(Debug)]
pub struct Grade {
    subject: String,
    score: u32,
    letter_grade: LetterGrade,
}

impl View for Grade {
    type V = GradeView;

    closed spec fn view(&self) -> GradeView {
        GradeView { subject: self.subject@, score: self.score, letter: self.letter_grade }
    }
}

impl Grade {
    #[verifier::type_invariant]
    spec fn inv(self) -> bool {
        &&& self.score <= 10000
        &&& self.letter_grade == letter_of(self.score)
        &&& !trims_to_empty(self.subject@)
    }

    /// Builds a grade after validating the score and the subject.
    /// The score is rejected when it exceeds 100.00 points; the subject
    /// is rejected when it trims to empty.
    pub fn new(subject: String, score: u32) -> (r: AppResult<Grade>)
        ensures
            r is Ok <==> (score <= 10000 && !trims_to_empty(subject@)),
            r matches Ok(g) ==> grade_check(subject@, score) == AppResult::<GradeView>::Ok(g@),
            r matches Err(e) ==> grade_check(subject@, score) == AppResult::<GradeView>::Err(e),
    {
        if score > 10000 {
            return Err(AppError::ValidationError(ValidationFault::ScoreOutOfRange { score }));
        }
        let subject_chars = chars_of(subject.as_str());
        if trims_to_empty_exec(&subject_chars) {
            return Err(AppError::ValidationError(ValidationFault::SubjectEmpty));
        }
        let letter_grade = LetterGrade::from_score(score);
        Ok(Grade { subject, score, letter_grade })
    }

    /// The subject this grade was earned in.
    pub fn subject(&self) -> (r: &str)
        ensures
            r@ == self@.subject,
    {
        self.subject.as_str()
    }

    /// The score in hundredths of a point, at most 10000.
    pub fn score(&self) -> (r: u32)
        ensures
            r == self@.score,
            r <= 10000,
    {
        proof {
            use_type_invariant(self);
        }
        self.score
    }

    /// The letter derived from the score at construction.
    pub fn letter_grade(&self) -> (r: &LetterGrade)
        ensures
            *r == self@.letter,
            *r == letter_of(self@.score),
    {
        proof {
            use_type_invariant(self);
        }
        &self.letter_grade
    }

    /// True when the score reaches the passing mark of 60.00 points.
    pub fn is_passing(&self) -> (r: bool)
        ensures
            r == (self@.score >= 6000),
    {
        self.score >= 6000
    }
}

impl Clone for Grade {
    /// A clone carries the same subject, score and letter.
    fn clone(&self) -> (r: Self)
        ensures
            r == *self,
    {
        proof {
            use_type_invariant(self);
        }
        Grade {
            subject: self.subject.clone(),
            score: self.score,
            letter_grade: self.letter_grade,
        }
    }
}

impl LetterGrade {
    /// The canonical boundary function: the letter a score earns.
    pub fn from_score(score: u32) -> (r: LetterGrade)
        ensures
            r == letter_of(score),
    {
        if score >= 9000 {
            LetterGrade::A
        } else if score >= 8000 {
            LetterGrade::B
        } else if score >= 7000 {
            LetterGrade::C
        } else if score >= 6000 {
            LetterGrade::D
        } else {
            LetterGrade::F
        }
    }

    /// The GPA weight of this letter, in hundredths of a grade point.
    pub fn to_gpa(&self) -> (r: u32)
        ensures
            r == gpa_of(*self),
    {
        match self {
            LetterGrade::A => 400,
            LetterGrade::B => 300,
            LetterGrade::C => 200,
            LetterGrade::D => 100,
            LetterGrade::F => 0,
        }
    }
}

} // verus!
