//! The scoring engine: a pure comparison of a submission against an answer
//! key, one point per matching answer slot.

use vstd::prelude::*;

use crate::types::Solution;

verus! {

/// How many of the five answer slots of `a` and `b` agree.
pub open spec fn match_count(a: Solution, b: Solution) -> int {
    (if a.answer1 == b.answer1 {
        1int
    } else {
        0int
    }) + (if a.answer2 == b.answer2 {
        1int
    } else {
        0int
    }) + (if a.answer3 == b.answer3 {
        1int
    } else {
        0int
    }) + (if a.answer4 == b.answer4 {
        1int
    } else {
        0int
    }) + (if a.answer5 == b.answer5 {
        1int
    } else {
        0int
    })
}

/// How many of the five answer slots of `a` and `b` differ.
pub open spec fn mismatch_count(a: Solution, b: Solution) -> int {
    5 - match_count(a, b)
}

/// Scores a submission against an answer key: the number of answer slots on
/// which the two agree, so always a value in `[0, 5]`. No partial credit, no
/// weighting by question.
pub fn find_score(submission: Solution, solution: Solution) -> (score: u8)
    ensures
        score as int == match_count(submission, solution),
        score <= 5,
{
    let mut score: u8 = 0;
    if submission.answer1 == solution.answer1 {
        score += 1;
    }
    if submission.answer2 == solution.answer2 {
        score += 1;
    }
    if submission.answer3 == solution.answer3 {
        score += 1;
    }
    if submission.answer4 == solution.answer4 {
        score += 1;
    }
    if submission.answer5 == solution.answer5 {
        score += 1;
    }
    score
}

/// A submission equal to the answer key scores the full five points.
pub proof fn lemma_score_perfect(s: Solution)
    ensures
        match_count(s, s) == 5,
{
}

/// The score does not depend on which argument is the submission and which
/// the answer key.
pub proof fn lemma_score_symmetric(a: Solution, b: Solution)
    ensures
        match_count(a, b) == match_count(b, a),
{
}

/// A submission that differs from the answer key in exactly `k` of the five
/// slots scores `5 - k`.
pub proof fn lemma_score_counts_mismatches(a: Solution, b: Solution)
    ensures
        match_count(a, b) == 5 - mismatch_count(a, b),
        0 <= mismatch_count(a, b) <= 5,
{
}

} // verus!
