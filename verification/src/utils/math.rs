//! GPA helpers over fixed-point scores.
//!
//! These share the single letter-grade boundary function of the grade
//! module: a score is first classified by [`letter_of`], then weighed
//! by [`gpa_of`]. GPA weights are in hundredths of a grade point, so
//! `250` stands for a GPA of 2.50.

use vstd::prelude::*;
use crate::aggregate::{lemma_sum_take_step, sum_ints};
use crate::student::grade::{gpa_of, letter_of, LetterGrade};

verus! {

/// The GPA weights the scores earn, in order.
pub open spec fn gpas_of(scores: Seq<u32>) -> Seq<int> {
    Seq::new(scores.len(), |i: int| gpa_of(letter_of(scores[i])) as int)
}

/// The integer mean of the GPA weights; 0 when there are no scores.
pub open spec fn gpa_average_of(scores: Seq<u32>) -> int {
    if scores.len() == 0 {
        0
    } else {
        sum_ints(gpas_of(scores)) / (scores.len() as int)
    }
}

/// The GPA weight a single score earns, through the letter-grade
/// boundary function.
pub fn score_to_gpa(score: u32) -> (r: u32)
    ensures
        r == gpa_of(letter_of(score)),
        r <= 400,
{
    LetterGrade::from_score(score).to_gpa()
}

/// The integer mean GPA of a list of scores, in hundredths of a grade
/// point; 0 when the list is empty.
pub fn calculate_gpa(scores: &Vec<u32>) -> (r: u32)
    ensures
        r == gpa_average_of(scores@),
        r <= 400,
{
    let n = scores.len();
    if n == 0 {
        return 0;
    }
    let ghost gpas = gpas_of(scores@);
    let mut sum: u128 = 0;
    let mut i: usize = 0;
    while i < n
        invariant
            n == scores.len(),
            gpas == gpas_of(scores@),
            0 <= i <= n,
            sum == sum_ints(gpas.take(i as int)),
            sum <= 400 * (i as int),
        decreases n - i,
    {
        let g = score_to_gpa(scores[i]);
        proof {
            lemma_sum_take_step(gpas, i as int);
        }
        sum = sum + g as u128;
        i = i + 1;
    }
    proof {
        assert(gpas.take(n as int) =~= gpas);
        assert(sum / (n as u128) <= 400) by (nonlinear_arith)
            requires
                sum <= 400 * (n as int),
                n > 0,
        ;
    }
    (sum / (n as u128)) as u32
}

} // verus!
