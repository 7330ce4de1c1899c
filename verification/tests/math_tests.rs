use enrollment::utils::math::{calculate_gpa, score_to_gpa};

#[test]
fn test_score_to_gpa() {
    assert_eq!(score_to_gpa(9500), 400);
    assert_eq!(score_to_gpa(8500), 300);
    assert_eq!(score_to_gpa(7500), 200);
    assert_eq!(score_to_gpa(6500), 100);
    assert_eq!(score_to_gpa(5500), 0);
}

#[test]
fn test_calculate_gpa() {
    let grades: Vec<u32> = vec![9000, 8500, 7500, 6500];
    let gpa = calculate_gpa(&grades);
    assert_eq!(gpa, 250); // (400 + 300 + 200 + 100) / 4
}

#[test]
fn test_calculate_gpa_empty_is_zero() {
    let grades: Vec<u32> = Vec::new();
    assert_eq!(calculate_gpa(&grades), 0);
}

#[test]
fn test_calculate_gpa_truncates() {
    let grades: Vec<u32> = vec![9000, 8000];
    // (400 + 300) / 2 = 350
    assert_eq!(calculate_gpa(&grades), 350);
    let grades2: Vec<u32> = vec![9000, 8000, 5000];
    // (400 + 300 + 0) / 3 = 233 in integer arithmetic
    assert_eq!(calculate_gpa(&grades2), 233);
}
