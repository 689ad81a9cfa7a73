//! The engine's value types: questions, solutions, quizzes, errors, events.

use vstd::prelude::*;

verus! {

/// One quiz question: a statement and four answer options. A solver refers to
/// the option they choose by its position, `1` through `4`.
#[derive(Clone, PartialEq, Eq, Debug)]
pub struct Question {
    pub statement: Vec<u8>,
    pub option1: Vec<u8>,
    pub option2: Vec<u8>,
    pub option3: Vec<u8>,
    pub option4: Vec<u8>,
}

/// The answer key of a quiz, or a solver's submission: one chosen option per
/// question, in question order. A quiz always has exactly five questions, so
/// a solution always has exactly five answer slots.
#[derive(Clone, Copy, PartialEq, Eq, Structural, Debug)]
pub struct Solution {
    pub answer1: u8,
    pub answer2: u8,
    pub answer3: u8,
    pub answer4: u8,
    pub answer5: u8,
}

/// A stored quiz: its owner, its five questions in the order they were
/// supplied (the order defines which answer slot belongs to which question),
/// and the minimum rating required to attempt it. The answer key is not part
/// of the quiz record: it is stored separately so that reading a quiz can
/// never reveal it.
#[derive(PartialEq, Debug)]
pub struct Quiz {
    pub owner: u64,
    pub questions: Vec<Question>,
    pub rating: u8,
}

/// The mathematical value of a [`Quiz`]: the same fields, with the questions
/// as a sequence.
#[verifier::ext_equal]
pub struct QuizModel {
    pub owner: u64,
    pub questions: Seq<Question>,
    pub rating: u8,
}

impl View for Quiz {
    type V = QuizModel;

    open spec fn view(&self) -> QuizModel {
        QuizModel { owner: self.owner, questions: self.questions@, rating: self.rating }
    }
}

/// Everything an operation of the engine can fail with.
#[derive(Clone, Copy, PartialEq, Eq, Structural, Debug)]
pub enum Error {
    /// An answer slot of a new quiz's answer key names no option.
    InvalidOptionProvided,
    /// The quiz referred to does not exist (any more).
    QuizDoesNotExist,
    /// A rating was looked up and found missing.
    UserRatingNotFound,
    /// The caller's rating does not satisfy the quiz's rating gate.
    UserRatingTooLow,
    /// The owner of a quiz tried to attempt it.
    OwnerCannotAttemptQuiz,
    /// Someone other than the owner tried to change a quiz.
    NotTheQuizOwner,
    /// The quiz could not be deleted.
    CannotDeleteQuiz,
    /// The caller cannot pay the reward an attempt owes.
    InsufficientBalance,
    /// A record was created under an identifier that is already taken. The
    /// sequence counter never hands out an identifier twice, so the engine
    /// proves this error unreachable; the store still checks for it.
    AlreadyExists,
}

/// What the engine reports to its observers. Delivery is the host's business;
/// the engine appends each event to its log in the order it was emitted.
#[derive(Clone, Copy, PartialEq, Eq, Structural, Debug)]
pub enum Event {
    /// A new quiz was created: its sequence number, its owner, its gate.
    QuizCreated(u64, u64, u8),
    /// An attempt was scored: the quiz's sequence number, the solver, the score.
    QuizScore(u64, u64, u8),
    /// A quiz was deleted by the scheduler at the given tick.
    QuizDeleted(u64),
}

/// The validation a new quiz's answer key must pass: each of the first four
/// answers names one of the four options. Deliberately, the fifth answer is
/// accepted unchecked — scoring simply compares it as it is, so an
/// out-of-range fifth answer costs every solver that slot's point.
pub open spec fn valid_solution(s: Solution) -> bool {
    &&& 1 <= s.answer1 <= 4
    &&& 1 <= s.answer2 <= 4
    &&& 1 <= s.answer3 <= 4
    &&& 1 <= s.answer4 <= 4
}

/// Decides [`valid_solution`].
pub fn solution_is_valid(s: &Solution) -> (r: bool)
    ensures
        r == valid_solution(*s),
{
    1 <= s.answer1 && s.answer1 <= 4 && 1 <= s.answer2 && s.answer2 <= 4 && 1 <= s.answer3
        && s.answer3 <= 4 && 1 <= s.answer4 && s.answer4 <= 4
}

} // verus!
