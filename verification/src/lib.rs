//! A verified student/course enrollment domain model.
//!
//! The library models students, their grades, courses with enrollment
//! rosters, and an enrollment registry, together with grade statistics.
//! Scores are carried as fixed-point values in hundredths of a point
//! (`7550` stands for a score of 75.50), so every computation here is
//! exact integer arithmetic with a proved contract.

pub mod aggregate;
pub mod course;
pub mod errors;
pub mod student;
pub mod text;
pub mod utils;

pub use course::Course;
pub use errors::{AppError, AppResult};
pub use student::Student;
