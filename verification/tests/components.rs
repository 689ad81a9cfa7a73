//! Tests of the engine's components taken on their own: the scoring engine,
//! the rating ledger, the quiz store and the deletion scheduler.

use quiz_engine::rating::RatingLedger;
use quiz_engine::scheduler::DeletionScheduler;
use quiz_engine::scoring::find_score;
use quiz_engine::store::QuizStore;
use quiz_engine::types::{Error, Question, Quiz, Solution};

fn solution(a1: u8, a2: u8, a3: u8, a4: u8, a5: u8) -> Solution {
    Solution { answer1: a1, answer2: a2, answer3: a3, answer4: a4, answer5: a5 }
}

fn quiz(owner: u64) -> Quiz {
    Quiz {
        owner,
        questions: vec![Question {
            statement: vec![b's'],
            option1: vec![b'a'],
            option2: vec![b'b'],
            option3: vec![b'c'],
            option4: vec![b'd'],
        }],
        rating: 0,
    }
}

#[test]
fn identical_solutions_score_five() {
    let s = solution(2, 4, 1, 3, 2);
    assert_eq!(find_score(s, s), 5);
}

#[test]
fn score_is_symmetric() {
    let a = solution(1, 2, 3, 4, 1);
    let b = solution(4, 2, 3, 1, 1);
    assert_eq!(find_score(a, b), find_score(b, a));
}

#[test]
fn score_is_five_minus_the_differing_slots() {
    let key = solution(1, 2, 3, 4, 1);
    assert_eq!(find_score(solution(1, 2, 3, 4, 1), key), 5);
    assert_eq!(find_score(solution(2, 2, 3, 4, 1), key), 4);
    assert_eq!(find_score(solution(2, 3, 3, 4, 1), key), 3);
    assert_eq!(find_score(solution(2, 3, 4, 4, 1), key), 2);
    assert_eq!(find_score(solution(2, 3, 4, 1, 1), key), 1);
    assert_eq!(find_score(solution(2, 3, 4, 1, 2), key), 0);
}

#[test]
fn first_score_becomes_the_rating() {
    let mut ledger = RatingLedger::new();
    assert_eq!(ledger.get_user_rating(42), 0);
    ledger.update_rating(42, 4);
    assert_eq!(ledger.get_user_rating(42), 4);
}

#[test]
fn later_scores_blend_five_to_one_truncating() {
    let mut ledger = RatingLedger::new();
    ledger.update_rating(7, 3);
    // Rating 3, then score 5: (3 * 5 + 5) / 6 = 3 after truncation.
    ledger.update_rating(7, 5);
    assert_eq!(ledger.get_user_rating(7), 3);
    // Rating 3, then score 0: 15 / 6 = 2.
    ledger.update_rating(7, 0);
    assert_eq!(ledger.get_user_rating(7), 2);
}

#[test]
fn store_refuses_a_taken_identifier() {
    let mut store = QuizStore::new();
    assert_eq!(store.create(1, quiz(1), solution(1, 1, 1, 1, 1)), Ok(()));
    assert_eq!(store.create(1, quiz(2), solution(2, 2, 2, 2, 2)), Err(Error::AlreadyExists));
    // The first pair is still in place.
    assert_eq!(store.get(1).unwrap().owner, 1);
    assert_eq!(store.get_solution(1), Some(solution(1, 1, 1, 1, 1)));
}

#[test]
fn store_deletes_quiz_and_key_together_and_is_idempotent() {
    let mut store = QuizStore::new();
    store.create(3, quiz(1), solution(1, 1, 1, 1, 1)).unwrap();
    store.delete(3);
    assert!(store.get(3).is_none());
    assert!(store.get_solution(3).is_none());
    // Deleting what is already gone is a silent no-op.
    store.delete(3);
    assert!(store.get(3).is_none());
}

#[test]
fn scheduler_buckets_by_tick_and_drains_once() {
    let mut scheduler = DeletionScheduler::new();
    scheduler.add_quiz_to_be_deleted(100, 1);
    scheduler.add_quiz_to_be_deleted(100, 2);
    scheduler.add_quiz_to_be_deleted(101, 3);
    assert_eq!(scheduler.fire(109), Vec::<u64>::new());
    assert_eq!(scheduler.fire(110), vec![1, 2]);
    // The bucket is consumed: the same tick yields nothing more.
    assert_eq!(scheduler.fire(110), Vec::<u64>::new());
    assert_eq!(scheduler.fire(111), vec![3]);
}

#[test]
fn scheduler_tolerates_duplicate_scheduling() {
    let mut scheduler = DeletionScheduler::new();
    scheduler.add_quiz_to_be_deleted(5, 9);
    scheduler.add_quiz_to_be_deleted(5, 9);
    assert_eq!(scheduler.fire(15), vec![9, 9]);
}
