//! End-to-end tests of the quiz service: creation, attempts, deletion and
//! the per-tick scheduler.

use quiz_engine::service::QuizService;
use quiz_engine::types::{Error, Event, Question, Solution};

fn question(tag: u8) -> Question {
    Question {
        statement: vec![b'q', tag],
        option1: vec![b'a'],
        option2: vec![b'b'],
        option3: vec![b'c'],
        option4: vec![b'd'],
    }
}

fn solution(a1: u8, a2: u8, a3: u8, a4: u8, a5: u8) -> Solution {
    Solution { answer1: a1, answer2: a2, answer3: a3, answer4: a4, answer5: a5 }
}

fn create_quiz(service: &mut QuizService, owner: u64, key: Solution, gate: u8, tick: u64) -> u64 {
    service
        .add_quiz(
            owner,
            question(1),
            question(2),
            question(3),
            question(4),
            question(5),
            key,
            gate,
            tick,
        )
        .expect("creation with a valid answer key succeeds")
}

#[test]
fn create_assigns_increasing_sequence_numbers() {
    let mut service = QuizService::new(10);
    let key = solution(1, 2, 3, 4, 1);
    assert_eq!(create_quiz(&mut service, 1, key, 0, 0), 1);
    assert_eq!(create_quiz(&mut service, 2, key, 0, 0), 2);
    assert_eq!(service.get_latest_quiz(), 2);
    assert!(service.get_quiz(1).is_some());
    assert!(service.get_quiz(2).is_some());
}

#[test]
fn create_then_fetch_returns_questions_in_order() {
    let mut service = QuizService::new(10);
    let key = solution(4, 3, 2, 1, 4);
    let seq = create_quiz(&mut service, 7, key, 3, 0);
    let quiz = service.get_quiz(seq).expect("the quiz was just created");
    assert_eq!(quiz.owner, 7);
    assert_eq!(quiz.rating, 3);
    assert_eq!(quiz.questions.len(), 5);
    for (i, q) in quiz.questions.iter().enumerate() {
        assert_eq!(q.statement, vec![b'q', (i + 1) as u8]);
    }
    // The answer key lives on its own read path, not inside the quiz record.
    assert_eq!(service.get_solution(seq), Some(key));
}

#[test]
fn create_emits_quiz_created() {
    let mut service = QuizService::new(10);
    let seq = create_quiz(&mut service, 9, solution(1, 1, 1, 1, 1), 2, 0);
    assert_eq!(service.get_events().last(), Some(&Event::QuizCreated(seq, 9, 2)));
}

#[test]
fn create_rejects_answer_naming_no_option() {
    let mut service = QuizService::new(10);
    let r = service.add_quiz(
        1,
        question(1),
        question(2),
        question(3),
        question(4),
        question(5),
        solution(0, 2, 3, 4, 1),
        0,
        0,
    );
    assert_eq!(r, Err(Error::InvalidOptionProvided));
    let r = service.add_quiz(
        1,
        question(1),
        question(2),
        question(3),
        question(4),
        question(5),
        solution(1, 2, 3, 5, 1),
        0,
        0,
    );
    assert_eq!(r, Err(Error::InvalidOptionProvided));
    assert_eq!(service.get_latest_quiz(), 0);
}

#[test]
fn fifth_answer_is_accepted_unchecked() {
    // Creation validates only the first four answer slots; the fifth is
    // accepted as supplied.
    let mut service = QuizService::new(10);
    let r = service.add_quiz(
        1,
        question(1),
        question(2),
        question(3),
        question(4),
        question(5),
        solution(1, 2, 3, 4, 0),
        0,
        0,
    );
    assert_eq!(r, Ok(1));
}

#[test]
fn owner_cannot_attempt_own_quiz() {
    let mut service = QuizService::new(10);
    let key = solution(1, 2, 3, 4, 1);
    let seq = create_quiz(&mut service, 1, key, 0, 0);
    assert_eq!(service.attempt_quiz(1, seq, key), Err(Error::OwnerCannotAttemptQuiz));
}

#[test]
fn attempt_on_missing_quiz_fails() {
    let service = QuizService::new(10);
    let r = service.attempt_quiz(2, 1, solution(1, 1, 1, 1, 1));
    assert_eq!(r, Err(Error::QuizDoesNotExist));
}

#[test]
fn gate_admits_rating_one_below_it() {
    // A quiz with gate 2: rating 1 is admitted, rating 0 is not.
    let mut service = QuizService::new(10);
    let key = solution(1, 2, 3, 4, 1);
    let seq = create_quiz(&mut service, 1, key, 2, 0);
    service.update_rating(2, 1);
    assert!(service.attempt_quiz(2, seq, key).is_ok());
    assert_eq!(service.attempt_quiz(3, seq, key), Err(Error::UserRatingTooLow));
}

#[test]
fn gate_zero_admits_everyone() {
    let mut service = QuizService::new(10);
    let key = solution(1, 2, 3, 4, 1);
    let seq = create_quiz(&mut service, 1, key, 0, 0);
    assert!(service.attempt_quiz(2, seq, key).is_ok());
}

#[test]
fn attempt_prices_reward_per_wrong_answer() {
    let mut service = QuizService::new(10);
    let key = solution(1, 2, 3, 4, 1);
    let seq = create_quiz(&mut service, 1, key, 0, 0);
    // Two of five answers differ from the key: score 3, reward 2 * 10.
    let pending = service.attempt_quiz(2, seq, solution(1, 2, 3, 1, 2)).unwrap();
    assert_eq!(pending.score, 3);
    assert_eq!(pending.reward, 20);
    assert_eq!(pending.sender, 2);
    assert_eq!(pending.owner, 1);
}

#[test]
fn refused_transfer_aborts_attempt() {
    let mut service = QuizService::new(10);
    let key = solution(1, 2, 3, 4, 1);
    let seq = create_quiz(&mut service, 1, key, 0, 0);
    let events_before = service.get_events().len();
    let pending = service.attempt_quiz(2, seq, key).unwrap();
    assert_eq!(service.settle_attempt(pending, false), Err(Error::InsufficientBalance));
    // Nothing moved: no rating change, no event.
    assert_eq!(service.get_user_rating(2), 0);
    assert_eq!(service.get_events().len(), events_before);
}

#[test]
fn confirmed_transfer_commits_score_and_rating() {
    let mut service = QuizService::new(10);
    let key = solution(1, 2, 3, 4, 1);
    let seq = create_quiz(&mut service, 1, key, 0, 0);
    let pending = service.attempt_quiz(2, seq, key).unwrap();
    assert_eq!(service.settle_attempt(pending, true), Ok(5));
    assert_eq!(service.get_user_rating(2), 5);
    assert_eq!(service.get_events().last(), Some(&Event::QuizScore(seq, 2, 5)));
}

#[test]
fn delete_succeeds_once_then_quiz_is_gone() {
    let mut service = QuizService::new(10);
    let seq = create_quiz(&mut service, 1, solution(1, 2, 3, 4, 1), 0, 0);
    assert_eq!(service.delete_quiz(1, seq), Ok(()));
    assert!(service.get_quiz(seq).is_none());
    assert!(service.get_solution(seq).is_none());
    assert_eq!(service.delete_quiz(1, seq), Err(Error::QuizDoesNotExist));
}

#[test]
fn only_the_owner_may_delete() {
    let mut service = QuizService::new(10);
    let seq = create_quiz(&mut service, 1, solution(1, 2, 3, 4, 1), 0, 0);
    assert_eq!(service.delete_quiz(2, seq), Err(Error::NotTheQuizOwner));
    assert!(service.get_quiz(seq).is_some());
}

#[test]
fn quiz_created_at_tick_100_lives_to_109_and_dies_at_110() {
    let mut service = QuizService::new(10);
    let seq = create_quiz(&mut service, 1, solution(1, 2, 3, 4, 1), 0, 100);
    service.check_and_delete_quiz(109);
    assert!(service.get_quiz(seq).is_some());
    service.check_and_delete_quiz(110);
    assert!(service.get_quiz(seq).is_none());
    assert!(service.get_solution(seq).is_none());
    assert_eq!(service.get_events().last(), Some(&Event::QuizDeleted(110)));
}

#[test]
fn a_tick_never_fires_twice() {
    let mut service = QuizService::new(10);
    create_quiz(&mut service, 1, solution(1, 2, 3, 4, 1), 0, 100);
    service.check_and_delete_quiz(110);
    let events_after_first = service.get_events().len();
    service.check_and_delete_quiz(110);
    assert_eq!(service.get_events().len(), events_after_first);
}

#[test]
fn scheduler_tolerates_a_quiz_the_owner_already_deleted() {
    let mut service = QuizService::new(10);
    let seq = create_quiz(&mut service, 1, solution(1, 2, 3, 4, 1), 0, 0);
    assert_eq!(service.delete_quiz(1, seq), Ok(()));
    let events_before = service.get_events().len();
    // The bucket still holds the dangling identifier; draining it is a
    // harmless no-op that still announces the drain.
    service.check_and_delete_quiz(10);
    assert_eq!(service.get_events().len(), events_before + 1);
    assert_eq!(service.get_quiz_to_delete(10), None);
}
