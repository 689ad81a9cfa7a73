//! The engine's laws: properties that hold of every state and every input,
//! proved over the transition functions of [`crate::service`].

use vstd::prelude::*;

use crate::ids::{bucket_id_of, quiz_id_of};
use crate::rating::rating_of;
use crate::scheduler::{bucket_contents, DELETE_DELAY};
use crate::service::{
    add_quiz_spec, attempt_check, delete_quiz_spec, lemma_remove_all, on_tick_spec, wf_model,
    EngineModel, PendingAttempt,
};
use crate::types::{valid_solution, Error, Question, Solution};

verus! {

/// However a creation succeeded, an attempt on the new quiz by its creator
/// fails with `OwnerCannotAttemptQuiz`, whatever the submission would have
/// scored.
pub proof fn lemma_owner_cannot_attempt(
    m: EngineModel,
    sender: u64,
    question1: Question,
    question2: Question,
    question3: Question,
    question4: Question,
    question5: Question,
    solution: Solution,
    rating: u8,
    current_tick: u64,
    submission: Solution,
)
    requires
        wf_model(m),
        valid_solution(solution),
        m.quiz_cnt < u64::MAX,
    ensures
        ({
            let created = add_quiz_spec(
                m,
                sender,
                question1,
                question2,
                question3,
                question4,
                question5,
                solution,
                rating,
                current_tick,
            );
            &&& created.1 == Ok::<u64, Error>((m.quiz_cnt + 1) as u64)
            &&& attempt_check(created.0, sender, (m.quiz_cnt + 1) as u64, submission)
                == Err::<PendingAttempt, Error>(Error::OwnerCannotAttemptQuiz)
        }),
{
}

/// The rating gate, exactly: with the quiz present and the caller not its
/// owner, an attempt fails with `UserRatingTooLow` if and only if the
/// caller's rating is smaller than the quiz's required rating minus one.
/// A required rating of `0` therefore admits every caller; nothing
/// underflows.
pub proof fn lemma_rating_gate(m: EngineModel, sender: u64, quiz_count: u64, submission: Solution)
    requires
        wf_model(m),
        m.quizzes.contains_key(quiz_id_of(quiz_count)),
        sender != m.quizzes[quiz_id_of(quiz_count)].owner,
    ensures
        attempt_check(m, sender, quiz_count, submission) == Err::<PendingAttempt, Error>(
            Error::UserRatingTooLow,
        ) <==> (rating_of(m.ratings, sender) as int) < (m.quizzes[quiz_id_of(
            quiz_count,
        )].rating as int) - 1,
        m.quizzes[quiz_id_of(quiz_count)].rating == 0 ==> attempt_check(
            m,
            sender,
            quiz_count,
            submission,
        ) != Err::<PendingAttempt, Error>(Error::UserRatingTooLow),
{
}

/// Deleting a quiz twice succeeds the first time and fails the second with
/// `QuizDoesNotExist`: a deleted quiz is gone for good.
pub proof fn lemma_delete_idempotent(m: EngineModel, sender: u64, quiz_count: u64)
    requires
        m.quizzes.contains_key(quiz_id_of(quiz_count)),
        sender == m.quizzes[quiz_id_of(quiz_count)].owner,
    ensures
        delete_quiz_spec(m, sender, quiz_count).1 == Ok::<(), Error>(()),
        delete_quiz_spec(delete_quiz_spec(m, sender, quiz_count).0, sender, quiz_count).1
            == Err::<(), Error>(Error::QuizDoesNotExist),
{
}

/// A tick's bucket drains exactly once: running the per-tick hook a second
/// time at the same tick deletes nothing and emits nothing — it leaves the
/// state exactly as the first run left it.
pub proof fn lemma_on_tick_fires_once(m: EngineModel, current_tick: u64)
    ensures
        on_tick_spec(on_tick_spec(m, current_tick), current_tick) == on_tick_spec(m, current_tick),
{
    let m1 = on_tick_spec(m, current_tick);
    let bucket = bucket_id_of(current_tick);
    assert(!m1.buckets.contains_key(bucket));
    assert(m1.buckets.remove(bucket) =~= m1.buckets);
    assert(m1.events + Seq::new(0, |i: int| crate::types::Event::QuizDeleted(current_tick))
        =~= m1.events);
    assert(on_tick_spec(m1, current_tick) =~= m1);
}

/// A quiz created and then fetched comes back exactly as supplied: the same
/// owner and gate, and the five questions in the order they were given. Its
/// answer key sits under the same identifier in the separate answer-key map,
/// never inside the quiz record itself.
pub proof fn lemma_create_round_trip(
    m: EngineModel,
    sender: u64,
    question1: Question,
    question2: Question,
    question3: Question,
    question4: Question,
    question5: Question,
    solution: Solution,
    rating: u8,
    current_tick: u64,
)
    requires
        wf_model(m),
        valid_solution(solution),
        m.quiz_cnt < u64::MAX,
    ensures
        ({
            let created = add_quiz_spec(
                m,
                sender,
                question1,
                question2,
                question3,
                question4,
                question5,
                solution,
                rating,
                current_tick,
            );
            let id = quiz_id_of((m.quiz_cnt + 1) as u64);
            &&& created.1 == Ok::<u64, Error>((m.quiz_cnt + 1) as u64)
            &&& created.0.quizzes.contains_key(id)
            &&& created.0.quizzes[id].owner == sender
            &&& created.0.quizzes[id].rating == rating
            &&& created.0.quizzes[id].questions == seq![
                question1,
                question2,
                question3,
                question4,
                question5,
            ]
            &&& created.0.solutions.contains_key(id)
            &&& created.0.solutions[id] == solution
        }),
{
}

/// A created quiz is in the store; the per-tick hook leaves it alone at
/// every tick except the one due [`DELETE_DELAY`] after the creation tick,
/// and the hook run at that due tick takes it out — even if nobody ever
/// deletes it by hand.
pub proof fn lemma_scheduled_deletion(
    m: EngineModel,
    sender: u64,
    question1: Question,
    question2: Question,
    question3: Question,
    question4: Question,
    question5: Question,
    solution: Solution,
    rating: u8,
    current_tick: u64,
)
    requires
        wf_model(m),
        valid_solution(solution),
        m.quiz_cnt < u64::MAX,
        current_tick <= u64::MAX - DELETE_DELAY,
    ensures
        ({
            let created = add_quiz_spec(
                m,
                sender,
                question1,
                question2,
                question3,
                question4,
                question5,
                solution,
                rating,
                current_tick,
            ).0;
            let id = quiz_id_of((m.quiz_cnt + 1) as u64);
            &&& created.quizzes.contains_key(id)
            &&& forall|other_tick: u64|
                #![auto]
                bucket_id_of(other_tick) != bucket_id_of((current_tick + DELETE_DELAY) as u64)
                    ==> on_tick_spec(created, other_tick).quizzes.contains_key(id)
            &&& !on_tick_spec(created, (current_tick + DELETE_DELAY) as u64).quizzes.contains_key(
                id,
            )
        }),
{
    let created = add_quiz_spec(
        m,
        sender,
        question1,
        question2,
        question3,
        question4,
        question5,
        solution,
        rating,
        current_tick,
    ).0;
    let id = quiz_id_of((m.quiz_cnt + 1) as u64);
    let due_tick = (current_tick + DELETE_DELAY) as u64;
    let due = bucket_contents(created.buckets, bucket_id_of(due_tick));
    assert(due[due.len() - 1] == id);
    assert(due.contains(id));
    lemma_remove_all(created.quizzes, due, id);
    assert forall|other_tick: u64|
        bucket_id_of(other_tick) != bucket_id_of(due_tick) implies #[trigger] on_tick_spec(
        created,
        other_tick,
    ).quizzes.contains_key(id) by {
        let drained = bucket_contents(created.buckets, bucket_id_of(other_tick));
        assert(drained == bucket_contents(m.buckets, bucket_id_of(other_tick)));
        if drained.contains(id) {
            let i = choose|i: int| 0 <= i < drained.len() && drained[i] == id;
            assert(m.buckets.contains_key(bucket_id_of(other_tick)));
            assert(1 <= m.buckets[bucket_id_of(other_tick)][i] <= m.quiz_cnt);
            assert(false);
        }
        lemma_remove_all(created.quizzes, drained, id);
    }
}

} // verus!
