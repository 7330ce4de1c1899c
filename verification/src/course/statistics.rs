//! Aggregate statistics over a course's roster.
//!
//! All figures are derived from the per-student average scores, in
//! hundredths of a point. The letter-grade histogram applies the same
//! boundary function as the grades themselves.

use vstd::prelude::*;
use crate::aggregate::{
    count_matching, lemma_count_take_step, lemma_max_take_step, lemma_min_take_step,
    lemma_sum_take_step, max_int, min_int, sum_ints,
};
use crate::course::{Course, CourseView};
use crate::student::{average_of, StudentView};
use crate::student::grade::{letter_of, LetterGrade};

verus! {

/// The per-student average scores of a roster, in roster order.
pub open spec fn averages_of(roster: Seq<StudentView>) -> Seq<int> {
    Seq::new(roster.len(), |i: int| average_of(roster[i].grades))
}

/// An average at or above 60.00 points counts as passing.
pub open spec fn passing_count(avgs: Seq<int>) -> nat {
    count_matching(avgs, |a: int| a >= 6000)
}

/// How many averages earn the given letter under [`letter_of`]'s
/// half-open bands, extended to mathematical integers.
pub open spec fn letter_count(avgs: Seq<int>, letter: LetterGrade) -> nat {
    count_matching(avgs, |a: int| letter_of_average(a) == letter)
}

/// The letter an average earns: the same half-open bands as
/// [`letter_of`], over mathematical integers.
pub open spec fn letter_of_average(a: int) -> LetterGrade {
    if a >= 9000 {
        LetterGrade::A
    } else if a >= 8000 {
        LetterGrade::B
    } else if a >= 7000 {
        LetterGrade::C
    } else if a >= 6000 {
        LetterGrade::D
    } else {
        LetterGrade::F
    }
}

/// How many roster averages fall in each letter band.
#[derive(Debug)]
pub struct GradeDistribution {
    pub a_count: usize,
    pub b_count: usize,
    pub c_count: usize,
    pub d_count: usize,
    pub f_count: usize,
}

/// The aggregate report over a roster's per-student averages, all in
/// hundredths: of a point for the score fields, of a percent for the
/// passing rate.
#[derive(Debug)]
pub struct CourseStatistics {
    pub average_grade: u32,
    pub highest_grade: u32,
    pub lowest_grade: u32,
    pub passing_rate: u32,
    pub grade_distribution: GradeDistribution,
}

impl Course {
    /// Computes the statistics of the roster: `None` when the roster
    /// is empty; otherwise the integer mean, maximum and minimum of
    /// the per-student averages, the passing rate in hundredths of a
    /// percent, and the letter-grade histogram of the averages.
    pub fn calculate_statistics(&self) -> (r: Option<CourseStatistics>)
        ensures
            r is None <==> self@.roster.len() == 0,
            r matches Some(st) ==> ({
                let avgs = averages_of(self@.roster);
                let n = self@.roster.len() as int;
                &&& st.average_grade == sum_ints(avgs) / n
                &&& st.highest_grade == max_int(avgs)
                &&& st.lowest_grade == min_int(avgs)
                &&& st.passing_rate == passing_count(avgs) as int * 10000 / n
                &&& st.grade_distribution.a_count == letter_count(avgs, LetterGrade::A)
                &&& st.grade_distribution.b_count == letter_count(avgs, LetterGrade::B)
                &&& st.grade_distribution.c_count == letter_count(avgs, LetterGrade::C)
                &&& st.grade_distribution.d_count == letter_count(avgs, LetterGrade::D)
                &&& st.grade_distribution.f_count == letter_count(avgs, LetterGrade::F)
            }),
    {
        let n = self.student_count();
        if n == 0 {
            return None;
        }
        let ghost avgs = averages_of(self@.roster);

        let roster = self.list_students();
        let mut av: Vec<u32> = Vec::new();
        let mut i: usize = 0;
        while i < n
            invariant
                n == self@.roster.len(),
                roster@.len() == n,
                forall|j: int| 0 <= j < n ==> roster@[j]@ == self@.roster[j],
                avgs == averages_of(self@.roster),
                0 <= i <= n,
                av@.len() == i,
                forall|j: int| 0 <= j < i ==> av@[j] == avgs[j] && #[trigger] av@[j] <= 10000,
            decreases n - i,
        {
            let a = roster[i].average_grade();
            av.push(a);
            i = i + 1;
        }

        let mut sum: u128 = av[0] as u128;
        let mut highest: u32 = av[0];
        let mut lowest: u32 = av[0];
        let mut pass_cnt: usize = 0;
        let mut a_cnt: usize = 0;
        let mut b_cnt: usize = 0;
        let mut c_cnt: usize = 0;
        let mut d_cnt: usize = 0;
        let mut f_cnt: usize = 0;

        if av[0] >= 6000 {
            pass_cnt = 1;
        }
        match LetterGrade::from_score(av[0]) {
            LetterGrade::A => a_cnt = 1,
            LetterGrade::B => b_cnt = 1,
            LetterGrade::C => c_cnt = 1,
            LetterGrade::D => d_cnt = 1,
            LetterGrade::F => f_cnt = 1,
        }
        proof {
            assert(avgs.take(0) =~= Seq::<int>::empty());
            assert(sum_ints(avgs.take(0)) == 0);
            lemma_sum_take_step(avgs, 0);
            assert(avgs.take(1).drop_last() =~= avgs.take(0));
            assert(avgs.take(1).last() == avgs[0]);
            lemma_count_take_step(avgs, 0, |a: int| a >= 6000);
            lemma_count_take_step(avgs, 0, |a: int| letter_of_average(a) == LetterGrade::A);
            lemma_count_take_step(avgs, 0, |a: int| letter_of_average(a) == LetterGrade::B);
            lemma_count_take_step(avgs, 0, |a: int| letter_of_average(a) == LetterGrade::C);
            lemma_count_take_step(avgs, 0, |a: int| letter_of_average(a) == LetterGrade::D);
            lemma_count_take_step(avgs, 0, |a: int| letter_of_average(a) == LetterGrade::F);
        }

        let mut i: usize = 1;
        while i < n
            invariant
                n == self@.roster.len(),
                avgs == averages_of(self@.roster),
                avgs.len() == n,
                av@.len() == n,
                forall|j: int| 0 <= j < n ==> av@[j] == avgs[j] && #[trigger] av@[j] <= 10000,
                1 <= i <= n,
                sum == sum_ints(avgs.take(i as int)),
                sum <= 10000 * (i as int),
                highest == max_int(avgs.take(i as int)),
                lowest == min_int(avgs.take(i as int)),
                pass_cnt == passing_count(avgs.take(i as int)),
                a_cnt == letter_count(avgs.take(i as int), LetterGrade::A),
                b_cnt == letter_count(avgs.take(i as int), LetterGrade::B),
                c_cnt == letter_count(avgs.take(i as int), LetterGrade::C),
                d_cnt == letter_count(avgs.take(i as int), LetterGrade::D),
                f_cnt == letter_count(avgs.take(i as int), LetterGrade::F),
                pass_cnt <= i && a_cnt <= i && b_cnt <= i && c_cnt <= i && d_cnt <= i && f_cnt
                    <= i,
            decreases n - i,
        {
            let a = av[i];
            proof {
                lemma_sum_take_step(avgs, i as int);
                lemma_max_take_step(avgs, i as int);
                lemma_min_take_step(avgs, i as int);
                lemma_count_take_step(avgs, i as int, |a: int| a >= 6000);
                lemma_count_take_step(avgs, i as int, |a: int| letter_of_average(a) == LetterGrade::A);
                lemma_count_take_step(avgs, i as int, |a: int| letter_of_average(a) == LetterGrade::B);
                lemma_count_take_step(avgs, i as int, |a: int| letter_of_average(a) == LetterGrade::C);
                lemma_count_take_step(avgs, i as int, |a: int| letter_of_average(a) == LetterGrade::D);
                lemma_count_take_step(avgs, i as int, |a: int| letter_of_average(a) == LetterGrade::F);
            }
            sum = sum + a as u128;
            if a > highest {
                highest = a;
            }
            if a < lowest {
                lowest = a;
            }
            if a >= 6000 {
                pass_cnt = pass_cnt + 1;
            }
            match LetterGrade::from_score(a) {
                LetterGrade::A => a_cnt = a_cnt + 1,
                LetterGrade::B => b_cnt = b_cnt + 1,
                LetterGrade::C => c_cnt = c_cnt + 1,
                LetterGrade::D => d_cnt = d_cnt + 1,
                LetterGrade::F => f_cnt = f_cnt + 1,
            }
            i = i + 1;
        }
        proof {
            assert(avgs.take(n as int) =~= avgs);
        }

        proof {
            assert(sum / (n as u128) <= 10000) by (nonlinear_arith)
                requires
                    sum <= 10000 * (n as int),
                    n > 0,
            ;
        }
        let average_grade = (sum / (n as u128)) as u32;
        let passing_rate_wide = (pass_cnt as u128) * 10000 / (n as u128);
        proof {
            assert((pass_cnt as int) * 10000 / (n as int) <= 10000) by (nonlinear_arith)
                requires
                    0 <= pass_cnt <= n,
                    n > 0,
            ;
        }
        let passing_rate = passing_rate_wide as u32;
        Some(CourseStatistics {
            average_grade,
            highest_grade: highest,
            lowest_grade: lowest,
            passing_rate,
            grade_distribution: GradeDistribution {
                a_count: a_cnt,
                b_count: b_cnt,
                c_count: c_cnt,
                d_count: d_cnt,
                f_count: f_cnt,
            },
        })
    }
}

} // verus!
