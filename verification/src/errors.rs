//! Error types shared by the whole domain model.
//!
//! Every fallible domain operation returns [`AppResult`], whose error
//! carries a structured description of what went wrong, so callers can
//! branch on the kind programmatically.

use vstd::prelude::*;

verus! {

/// A domain constraint on an input value was violated.
#[derive(Debug, Clone, Copy, PartialEq, Eq, Structural)]
pub enum ValidationFault {
    /// The age is below the accepted minimum of 5.
    AgeTooSmall { age: u8 },
    /// The age is above the accepted maximum of 100.
    AgeTooLarge { age: u8 },
    /// The name contains nothing but whitespace.
    NameEmpty,
    /// The name is longer than 50 characters.
    NameTooLong { len: usize },
    /// The name contains an ASCII digit.
    NameHasDigit,
    /// The score exceeds the maximum of 100 points (10000 hundredths).
    ScoreOutOfRange { score: u32 },
    /// The grade's subject contains nothing but whitespace.
    SubjectEmpty,
    /// The course name contains nothing but whitespace.
    CourseNameEmpty,
    /// The credit value lies outside 1..=10.
    CreditsOutOfRange { credits: u8 },
    /// The e-mail address lacks an '@' or a '.' character.
    EmailMalformed,
}

/// An operation would violate a uniqueness invariant.
#[derive(Debug, Clone, Copy, PartialEq, Eq, Structural)]
pub enum ConflictFault {
    /// A student with this id is already registered.
    DuplicateStudentId { id: u32 },
    /// A course with this id is already registered.
    DuplicateCourseId { id: u32 },
    /// A student with this id is already enrolled in the course.
    AlreadyEnrolled { student_id: u32 },
}

/// A referenced identifier does not exist in the relevant registry.
#[derive(Debug, Clone, Copy, PartialEq, Eq, Structural)]
pub enum NotFoundFault {
    /// No student with this id is known.
    StudentId { id: u32 },
    /// No course with this id is known.
    CourseId { id: u32 },
}

/// The error type of every fallible domain operation.
#[derive(Debug, Clone, Copy, PartialEq, Eq, Structural)]
pub enum AppError {
    /// An input value violates a domain constraint.
    ValidationError(ValidationFault),
    /// An operation would violate a uniqueness invariant.
    ConflictError(ConflictFault),
    /// A referenced identifier does not exist.
    NotFoundError(NotFoundFault),
}

/// The result type of every fallible domain operation.
pub type AppResult<T> = Result<T, AppError>;

} // verus!
