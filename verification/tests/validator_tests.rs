use enrollment::errors::{AppError, ValidationFault};
use enrollment::student::validator::{validate_age, validate_name};
use enrollment::utils::validate_email;

#[test]
fn test_valid_age() {
    assert!(validate_age(20).is_ok());
    assert!(validate_age(5).is_ok());
    assert!(validate_age(99).is_ok());
}

#[test]
fn test_invalid_age() {
    assert!(validate_age(4).is_err());
    assert!(validate_age(101).is_err());
}

#[test]
fn test_valid_name() {
    assert!(validate_name("张三").is_ok());
    assert!(validate_name("李四").is_ok());
}

#[test]
fn test_invalid_name() {
    assert!(validate_name("").is_err());
    assert!(validate_name("张三123").is_err());
    assert!(validate_name(&"a".repeat(51)).is_err());
}

#[test]
fn test_age_boundary_values() {
    assert!(validate_age(100).is_ok());
    assert_eq!(
        validate_age(4).unwrap_err(),
        AppError::ValidationError(ValidationFault::AgeTooSmall { age: 4 })
    );
    assert_eq!(
        validate_age(101).unwrap_err(),
        AppError::ValidationError(ValidationFault::AgeTooLarge { age: 101 })
    );
}

#[test]
fn test_name_fault_kinds() {
    assert_eq!(
        validate_name("   ").unwrap_err(),
        AppError::ValidationError(ValidationFault::NameEmpty)
    );
    assert_eq!(
        validate_name(&"b".repeat(51)).unwrap_err(),
        AppError::ValidationError(ValidationFault::NameTooLong { len: 51 })
    );
    assert_eq!(
        validate_name("Anna7").unwrap_err(),
        AppError::ValidationError(ValidationFault::NameHasDigit)
    );
    // exactly 50 characters is still accepted
    assert!(validate_name(&"c".repeat(50)).is_ok());
    // the limit counts characters, not bytes
    assert!(validate_name(&"字".repeat(50)).is_ok());
    assert!(validate_name(&"字".repeat(51)).is_err());
}

#[test]
fn test_name_of_unicode_whitespace_trims_to_empty() {
    // trimming removes the whole Unicode White_Space set, not just
    // the ASCII whitespace characters
    assert_eq!(
        validate_name("\u{3000}").unwrap_err(),
        AppError::ValidationError(ValidationFault::NameEmpty)
    );
    assert_eq!(
        validate_name("\u{a0}\u{2028}\u{205f}").unwrap_err(),
        AppError::ValidationError(ValidationFault::NameEmpty)
    );
    // one non-whitespace character suffices
    assert!(validate_name("\u{3000}a").is_ok());
}

#[test]
fn test_validate_email() {
    assert!(validate_email("someone@example.com").is_ok());
    assert_eq!(
        validate_email("someone_example.com").unwrap_err(),
        AppError::ValidationError(ValidationFault::EmailMalformed)
    );
    assert_eq!(
        validate_email("someone@example").unwrap_err(),
        AppError::ValidationError(ValidationFault::EmailMalformed)
    );
}
