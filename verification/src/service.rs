//! The quiz service: the orchestrator that owns the store, the rating
//! ledger, the deletion scheduler, the sequence counter and the event log,
//! and advances them one operation at a time.
//!
//! Everything a host supplies — the resolved caller account, the current
//! tick, the monetary ledger — enters through plain parameters. An attempt
//! runs in two phases so that the reward can move through whatever ledger the
//! host keeps: [`QuizService::attempt_quiz`] checks the attempt and prices the
//! reward without touching any state, the host performs (or refuses) the
//! transfer, and [`QuizService::settle_attempt`] commits the rating update and
//! the event only when the transfer went through. A failed transfer leaves
//! the engine exactly as it was.

use vstd::prelude::*;

use crate::ids::{bucket_id_of, derive_quiz_id, quiz_id_of};
use crate::rating::{blended_rating, rating_of, RatingLedger};
use crate::scheduler::{bucket_contents, DeletionScheduler, DELETE_DELAY};
use crate::scoring::{find_score, match_count};
use crate::store::QuizStore;
use crate::types::{valid_solution, Error, Event, Question, Quiz, QuizModel, Solution};

verus! {

/// The mathematical state of the whole engine.
#[verifier::ext_equal]
pub struct EngineModel {
    /// Live quizzes by quiz identifier.
    pub quizzes: Map<u64, QuizModel>,
    /// Answer keys by quiz identifier; always the same identifiers as `quizzes`.
    pub solutions: Map<u64, Solution>,
    /// Rating by account; an absent account rates `0`.
    pub ratings: Map<u64, u8>,
    /// Deletion buckets by bucket identifier.
    pub buckets: Map<u64, Seq<u64>>,
    /// The sequence counter: the number of quizzes ever created.
    pub quiz_cnt: u64,
    /// The reward owed per wrongly answered question.
    pub tokens_per_question: u32,
    /// Every event emitted so far, oldest first.
    pub events: Seq<Event>,
}

/// The engine's invariant: a quiz and its answer key live and die together;
/// every stored quiz identifier and every identifier waiting in a deletion
/// bucket was handed out by the sequence counter; no identifier waits in two
/// different live buckets (it is scheduled once, at creation); and the
/// per-question reward is small enough that no reward can overflow.
pub open spec fn wf_model(m: EngineModel) -> bool {
    &&& forall|id: u64| #![auto] m.quizzes.contains_key(id) <==> m.solutions.contains_key(id)
    &&& forall|id: u64| #![auto] m.quizzes.contains_key(id) ==> 1 <= id <= m.quiz_cnt
    &&& forall|b: u64, i: int|
        m.buckets.contains_key(b) && 0 <= i < m.buckets[b].len() ==> 1 <= #[trigger] m.buckets[b][i]
            <= m.quiz_cnt
    &&& forall|b1: u64, i1: int, b2: u64, i2: int|
        m.buckets.contains_key(b1) && m.buckets.contains_key(b2) && b1 != b2 && 0 <= i1
            < m.buckets[b1].len() && 0 <= i2 < m.buckets[b2].len() ==> #[trigger] m.buckets[b1][i1]
            != #[trigger] m.buckets[b2][i2]
    &&& m.tokens_per_question <= u32::MAX / 5
}

/// What a successful attempt is waiting on: the reward transfer from the
/// solver to the quiz owner. The engine prices the attempt, the host moves
/// the money, and settling commits or discards the result.
#[derive(Clone, Copy, PartialEq, Eq, Structural, Debug)]
pub struct PendingAttempt {
    /// The sequence number of the quiz attempted.
    pub quiz_count: u64,
    /// The solver.
    pub sender: u64,
    /// The quiz owner the reward is owed to.
    pub owner: u64,
    /// The score the submission earned, in `[0, 5]`.
    pub score: u8,
    /// The reward owed: one `tokens_per_question` per wrong answer.
    pub reward: u32,
}

/// The effect of `add_quiz`: either the answer key is rejected and nothing
/// changes, or the quiz is stored under the next sequence number, its
/// deletion is scheduled `DELETE_DELAY` ticks ahead, and its creation is
/// announced.
pub open spec fn add_quiz_spec(
    m: EngineModel,
    sender: u64,
    question1: Question,
    question2: Question,
    question3: Question,
    question4: Question,
    question5: Question,
    solution: Solution,
    rating: u8,
    current_tick: u64,
) -> (EngineModel, Result<u64, Error>) {
    if !valid_solution(solution) {
        (m, Err(Error::InvalidOptionProvided))
    } else {
        let quiz_count = (m.quiz_cnt + 1) as u64;
        let id = quiz_id_of(quiz_count);
        let due = bucket_id_of((current_tick + DELETE_DELAY) as u64);
        let quiz = QuizModel {
            owner: sender,
            questions: seq![question1, question2, question3, question4, question5],
            rating: rating,
        };
        let next = EngineModel {
            quizzes: m.quizzes.insert(id, quiz),
            solutions: m.solutions.insert(id, solution),
            ratings: m.ratings,
            buckets: m.buckets.insert(due, bucket_contents(m.buckets, due).push(id)),
            quiz_cnt: quiz_count,
            tokens_per_question: m.tokens_per_question,
            events: m.events.push(Event::QuizCreated(quiz_count, sender, rating)),
        };
        (next, Ok(quiz_count))
    }
}

/// The checks and the pricing of an attempt, in the order the engine applies
/// them: the quiz must exist, the owner may not attempt it, and the solver's
/// rating must reach one point below the quiz's gate (a gate of `0` admits
/// everyone). Nothing of the engine's state changes here.
pub open spec fn attempt_check(
    m: EngineModel,
    sender: u64,
    quiz_count: u64,
    submission: Solution,
) -> Result<PendingAttempt, Error> {
    let id = quiz_id_of(quiz_count);
    if !m.quizzes.contains_key(id) {
        Err(Error::QuizDoesNotExist)
    } else if sender == m.quizzes[id].owner {
        Err(Error::OwnerCannotAttemptQuiz)
    } else if (rating_of(m.ratings, sender) as int) < m.quizzes[id].rating as int - 1 {
        Err(Error::UserRatingTooLow)
    } else {
        let score = match_count(submission, m.solutions[id]);
        Ok(
            PendingAttempt {
                quiz_count: quiz_count,
                sender: sender,
                owner: m.quizzes[id].owner,
                score: score as u8,
                reward: ((5 - score) * m.tokens_per_question as int) as u32,
            },
        )
    }
}

/// The effect of settling a priced attempt: a refused transfer aborts the
/// attempt with nothing changed; a confirmed transfer folds the score into
/// the solver's rating and announces the score.
pub open spec fn settle_spec(m: EngineModel, pending: PendingAttempt, transfer_ok: bool) -> (
    EngineModel,
    Result<u8, Error>,
) {
    if !transfer_ok {
        (m, Err(Error::InsufficientBalance))
    } else {
        let next = EngineModel {
            quizzes: m.quizzes,
            solutions: m.solutions,
            ratings: m.ratings.insert(
                pending.sender,
                blended_rating(rating_of(m.ratings, pending.sender), pending.score),
            ),
            buckets: m.buckets,
            quiz_cnt: m.quiz_cnt,
            tokens_per_question: m.tokens_per_question,
            events: m.events.push(Event::QuizScore(pending.quiz_count, pending.sender, pending.score)),
        };
        (next, Ok(pending.score))
    }
}

/// The effect of an owner's delete: the quiz and its answer key leave the
/// store together, or the call fails and nothing changes.
pub open spec fn delete_quiz_spec(m: EngineModel, sender: u64, quiz_count: u64) -> (
    EngineModel,
    Result<(), Error>,
) {
    let id = quiz_id_of(quiz_count);
    if !m.quizzes.contains_key(id) {
        (m, Err(Error::QuizDoesNotExist))
    } else if sender != m.quizzes[id].owner {
        (m, Err(Error::NotTheQuizOwner))
    } else {
        let next = EngineModel {
            quizzes: m.quizzes.remove(id),
            solutions: m.solutions.remove(id),
            ratings: m.ratings,
            buckets: m.buckets,
            quiz_cnt: m.quiz_cnt,
            tokens_per_question: m.tokens_per_question,
            events: m.events,
        };
        (next, Ok(()))
    }
}

/// `m` with every identifier of `ids` removed, in order.
pub open spec fn remove_all<V>(m: Map<u64, V>, ids: Seq<u64>) -> Map<u64, V>
    decreases ids.len(),
{
    if ids.len() == 0 {
        m
    } else {
        remove_all(m, ids.drop_last()).remove(ids.last())
    }
}

/// Removing a batch of identifiers keeps exactly the entries whose key is not
/// in the batch, with their values untouched.
pub proof fn lemma_remove_all<V>(m: Map<u64, V>, ids: Seq<u64>, k: u64)
    ensures
        remove_all(m, ids).contains_key(k) <==> (m.contains_key(k) && !ids.contains(k)),
        remove_all(m, ids).contains_key(k) ==> remove_all(m, ids)[k] == m[k],
    decreases ids.len(),
{
    if ids.len() == 0 {
    } else {
        lemma_remove_all(m, ids.drop_last(), k);
        assert(ids.contains(k) <==> (ids.drop_last().contains(k) || ids.last() == k)) by {
            if ids.contains(k) {
                let i = choose|i: int| 0 <= i < ids.len() && ids[i] == k;
                if i < ids.len() - 1 {
                    assert(ids.drop_last()[i] == k);
                }
            }
            if ids.drop_last().contains(k) {
                let i = choose|i: int| 0 <= i < ids.drop_last().len() && ids.drop_last()[i] == k;
                assert(ids[i] == k);
            }
        }
    }
}

/// The effect of the per-tick hook: the bucket due at `current_tick` drains
/// once, every quiz identifier in it leaves the store (those already gone are
/// passed over silently), and one deletion event is announced per drained
/// identifier.
pub open spec fn on_tick_spec(m: EngineModel, current_tick: u64) -> EngineModel {
    let bucket = bucket_id_of(current_tick);
    let due = bucket_contents(m.buckets, bucket);
    EngineModel {
        quizzes: remove_all(m.quizzes, due),
        solutions: remove_all(m.solutions, due),
        ratings: m.ratings,
        buckets: m.buckets.remove(bucket),
        quiz_cnt: m.quiz_cnt,
        tokens_per_question: m.tokens_per_question,
        events: m.events + Seq::new(due.len(), |i: int| Event::QuizDeleted(current_tick)),
    }
}

/// The engine. All operations keep [`wf_model`] and do exactly what their
/// transition function says.
pub struct QuizService {
    pub store: QuizStore,
    pub ratings: RatingLedger,
    pub scheduler: DeletionScheduler,
    pub quiz_cnt: u64,
    pub tokens_per_question: u32,
    pub events: Vec<Event>,
}

impl View for QuizService {
    type V = EngineModel;

    open spec fn view(&self) -> EngineModel {
        EngineModel {
            quizzes: self.store.quiz_models(),
            solutions: self.store.solution_map(),
            ratings: self.ratings@,
            buckets: self.scheduler@,
            quiz_cnt: self.quiz_cnt,
            tokens_per_question: self.tokens_per_question,
            events: self.events@,
        }
    }
}

impl QuizService {
    /// The engine's invariant, on its current state.
    pub open spec fn wf(&self) -> bool {
        wf_model(self@)
    }

    /// A fresh engine: no quizzes, no ratings, nothing scheduled, no events,
    /// and the given reward per wrongly answered question. The reward rate is
    /// capped so that no attempt's total reward can overflow.
    pub fn new(tokens_per_question: u32) -> (service: QuizService)
        requires
            tokens_per_question <= u32::MAX / 5,
        ensures
            service.wf(),
            service@.quizzes == Map::<u64, QuizModel>::empty(),
            service@.solutions == Map::<u64, Solution>::empty(),
            service@.ratings == Map::<u64, u8>::empty(),
            service@.buckets == Map::<u64, Seq<u64>>::empty(),
            service@.quiz_cnt == 0,
            service@.tokens_per_question == tokens_per_question,
            service@.events == Seq::<Event>::empty(),
    {
        QuizService {
            store: QuizStore::new(),
            ratings: RatingLedger::new(),
            scheduler: DeletionScheduler::new(),
            quiz_cnt: 0,
            tokens_per_question: tokens_per_question,
            events: Vec::new(),
        }
    }

    /// Creates a quiz from its five questions, its answer key and its rating
    /// gate, on behalf of `sender`, at `current_tick`.
    ///
    /// The answer key must pass [`valid_solution`]; otherwise nothing changes
    /// and the call fails with [`Error::InvalidOptionProvided`]. On success
    /// the quiz is stored under the next sequence number (which the call
    /// returns), its deletion is scheduled [`DELETE_DELAY`] ticks ahead, and
    /// `QuizCreated` is emitted.
    pub fn add_quiz(
        &mut self,
        sender: u64,
        question1: Question,
        question2: Question,
        question3: Question,
        question4: Question,
        question5: Question,
        solution: Solution,
        rating: u8,
        current_tick: u64,
    ) -> (r: Result<u64, Error>)
        requires
            old(self).wf(),
            old(self)@.quiz_cnt < u64::MAX,
            current_tick <= u64::MAX - DELETE_DELAY,
        ensures
            final(self).wf(),
            final(self)@ == add_quiz_spec(
                old(self)@,
                sender,
                question1,
                question2,
                question3,
                question4,
                question5,
                solution,
                rating,
                current_tick,
            ).0,
            r == add_quiz_spec(
                old(self)@,
                sender,
                question1,
                question2,
                question3,
                question4,
                question5,
                solution,
                rating,
                current_tick,
            ).1,
    {
        let ghost pre = self@;
        let ghost gq1 = question1;
        let ghost gq2 = question2;
        let ghost gq3 = question3;
        let ghost gq4 = question4;
        let ghost gq5 = question5;
        if !crate::types::solution_is_valid(&solution) {
            return Err(Error::InvalidOptionProvided);
        }
        let mut questions: Vec<Question> = Vec::new();
        questions.push(question1);
        questions.push(question2);
        questions.push(question3);
        questions.push(question4);
        questions.push(question5);
        proof {
            assert(questions@ =~= seq![gq1, gq2, gq3, gq4, gq5]);
        }
        let quiz = Quiz { owner: sender, questions: questions, rating: rating };
        let quiz_count = self.quiz_cnt + 1;
        let quiz_id = derive_quiz_id(quiz_count);
        match self.store.create(quiz_id, quiz, solution) {
            Ok(()) => {},
            Err(e) => {
                // Unreachable: every stored identifier is at most the old
                // counter value, and this one is above it.
                proof {
                    assert(false);
                }
                return Err(e);
            },
        }
        self.quiz_cnt = quiz_count;
        self.scheduler.add_quiz_to_be_deleted(current_tick, quiz_count);
        self.events.push(Event::QuizCreated(quiz_count, sender, rating));
        proof {
            let spec_next = add_quiz_spec(
                pre,
                sender,
                gq1,
                gq2,
                gq3,
                gq4,
                gq5,
                solution,
                rating,
                current_tick,
            ).0;
            assert(self@ =~= spec_next);
        }
        Ok(quiz_count)
    }

    /// The first half of an attempt: checks that the quiz exists, that
    /// `sender` does not own it, and that `sender`'s rating reaches one point
    /// below the quiz's gate; then scores the submission against the stored
    /// answer key and prices the reward at one [`tokens_per_question`] per
    /// wrong answer. Touches no state: the attempt commits only in
    /// [`QuizService::settle_attempt`], after the host has moved the reward.
    ///
    /// [`tokens_per_question`]: QuizService::tokens_per_question
    pub fn attempt_quiz(&self, sender: u64, quiz_count: u64, submission: Solution) -> (r: Result<
        PendingAttempt,
        Error,
    >)
        requires
            self.wf(),
        ensures
            r == attempt_check(self@, sender, quiz_count, submission),
    {
        let quiz_id = derive_quiz_id(quiz_count);
        let quiz = match self.store.get(quiz_id) {
            Some(quiz) => quiz,
            None => {
                return Err(Error::QuizDoesNotExist);
            },
        };
        if sender == quiz.owner {
            return Err(Error::OwnerCannotAttemptQuiz);
        }
        let user_rating = self.ratings.get_user_rating(sender);
        if (user_rating as u16) + 1 < (quiz.rating as u16) {
            return Err(Error::UserRatingTooLow);
        }
        let solution = match self.store.get_solution(quiz_id) {
            Some(solution) => solution,
            None => {
                // Unreachable: the quiz exists, so its answer key does too.
                proof {
                    assert(false);
                }
                return Err(Error::QuizDoesNotExist);
            },
        };
        let score = find_score(submission, solution);
        proof {
            assert((5 - score as int) * self.tokens_per_question as int <= 5 * (
            self.tokens_per_question as int)) by (nonlinear_arith)
                requires
                    score <= 5,
            ;
        }
        let reward = (5 - score as u32) * self.tokens_per_question;
        Ok(
            PendingAttempt {
                quiz_count: quiz_count,
                sender: sender,
                owner: quiz.owner,
                score: score,
                reward: reward,
            },
        )
    }

    /// The second half of an attempt. `transfer_ok` says whether the host's
    /// ledger carried out the reward transfer the pending attempt priced. A
    /// refused transfer aborts the attempt with [`Error::InsufficientBalance`]
    /// and the engine unchanged — in particular, no rating moves without
    /// payment. A confirmed transfer folds the score into the solver's rating
    /// and emits `QuizScore`.
    pub fn settle_attempt(&mut self, pending: PendingAttempt, transfer_ok: bool) -> (r: Result<
        u8,
        Error,
    >)
        requires
            old(self).wf(),
        ensures
            final(self).wf(),
            final(self)@ == settle_spec(old(self)@, pending, transfer_ok).0,
            r == settle_spec(old(self)@, pending, transfer_ok).1,
    {
        let ghost pre = self@;
        if !transfer_ok {
            return Err(Error::InsufficientBalance);
        }
        self.ratings.update_rating(pending.sender, pending.score);
        self.events.push(Event::QuizScore(pending.quiz_count, pending.sender, pending.score));
        proof {
            assert(self@ =~= settle_spec(pre, pending, true).0);
        }
        Ok(pending.score)
    }

    /// Deletes the quiz with sequence number `quiz_count` on behalf of
    /// `sender`. Only the owner may delete, and only a quiz that still
    /// exists; the answer key leaves the store with the quiz, so nothing of
    /// it survives. The scheduler's later drain of the same identifier then
    /// passes over it silently.
    pub fn delete_quiz(&mut self, sender: u64, quiz_count: u64) -> (r: Result<(), Error>)
        requires
            old(self).wf(),
        ensures
            final(self).wf(),
            final(self)@ == delete_quiz_spec(old(self)@, sender, quiz_count).0,
            r == delete_quiz_spec(old(self)@, sender, quiz_count).1,
    {
        let ghost pre = self@;
        let quiz_id = derive_quiz_id(quiz_count);
        let quiz = match self.store.get(quiz_id) {
            Some(quiz) => quiz,
            None => {
                return Err(Error::QuizDoesNotExist);
            },
        };
        if sender != quiz.owner {
            return Err(Error::NotTheQuizOwner);
        }
        self.store.delete(quiz_id);
        proof {
            assert(self@ =~= delete_quiz_spec(pre, sender, quiz_count).0);
        }
        Ok(())
    }

    /// The per-tick hook, to be invoked by the host exactly once per tick:
    /// drains the bucket due at `current_tick` and deletes every quiz in it,
    /// announcing one `QuizDeleted` per drained identifier. A quiz its owner
    /// already deleted is passed over without complaint, and the drained
    /// bucket is gone: the same tick can never delete twice.
    pub fn check_and_delete_quiz(&mut self, current_tick: u64)
        requires
            old(self).wf(),
        ensures
            final(self).wf(),
            final(self)@ == on_tick_spec(old(self)@, current_tick),
    {
        let ghost pre = self@;
        proof {
            assert forall|id: u64|
                #![auto]
                self.store.quizzes@.contains_key(id)
                    <==> self.store.solutions@.contains_key(id) by {
                assert(pre.quizzes.contains_key(id) <==> pre.solutions.contains_key(id));
            }
            assert(pre.events + Seq::new(0, |j: int| Event::QuizDeleted(current_tick))
                =~= pre.events);
        }
        let due = self.scheduler.fire(current_tick);
        let ghost due_ids = due@;
        let mut i: usize = 0;
        while i < due.len()
            invariant
                i <= due@.len(),
                due@ == due_ids,
                due_ids == bucket_contents(pre.buckets, bucket_id_of(current_tick)),
                self.store.wf(),
                self.store.quiz_models() == remove_all(pre.quizzes, due_ids.take(i as int)),
                self.store.solution_map() == remove_all(pre.solutions, due_ids.take(i as int)),
                self.scheduler@ == pre.buckets.remove(bucket_id_of(current_tick)),
                self.ratings@ == pre.ratings,
                self.quiz_cnt == pre.quiz_cnt,
                self.tokens_per_question == pre.tokens_per_question,
                self.events@ == pre.events + Seq::new(
                    i as nat,
                    |j: int| Event::QuizDeleted(current_tick),
                ),
            decreases due@.len() - i,
        {
            let id = due[i];
            self.store.delete(id);
            self.events.push(Event::QuizDeleted(current_tick));
            proof {
                assert(due_ids.take(i as int + 1).drop_last() =~= due_ids.take(i as int));
                assert(due_ids.take(i as int + 1).last() == due_ids[i as int]);
                assert(self.events@ =~= pre.events + Seq::new(
                    (i + 1) as nat,
                    |j: int| Event::QuizDeleted(current_tick),
                ));
            }
            i = i + 1;
        }
        proof {
            assert(due_ids.take(due_ids.len() as int) =~= due_ids);
            assert(self@ =~= on_tick_spec(pre, current_tick));
            assert forall|id: u64|
                #![auto]
                self@.quizzes.contains_key(id) <==> self@.solutions.contains_key(id) by {
                lemma_remove_all(pre.quizzes, due_ids, id);
                lemma_remove_all(pre.solutions, due_ids, id);
                assert(pre.quizzes.contains_key(id) <==> pre.solutions.contains_key(id));
            }
            assert forall|id: u64| #![auto] self@.quizzes.contains_key(id) implies 1 <= id
                <= self@.quiz_cnt by {
                lemma_remove_all(pre.quizzes, due_ids, id);
            }
        }
    }

    /// Folds `current_score` into the rating of `user`: an account's first
    /// score becomes its rating, and afterwards history weighs five to one
    /// against the latest score, truncating. Exposed so that a host can seed
    /// or correct ratings; an attempt applies the same rule when it settles.
    pub fn update_rating(&mut self, user: u64, current_score: u8)
        requires
            old(self).wf(),
        ensures
            final(self).wf(),
            final(self)@.ratings == old(self)@.ratings.insert(
                user,
                blended_rating(rating_of(old(self)@.ratings, user), current_score),
            ),
            final(self)@.quizzes == old(self)@.quizzes,
            final(self)@.solutions == old(self)@.solutions,
            final(self)@.buckets == old(self)@.buckets,
            final(self)@.quiz_cnt == old(self)@.quiz_cnt,
            final(self)@.tokens_per_question == old(self)@.tokens_per_question,
            final(self)@.events == old(self)@.events,
    {
        self.ratings.update_rating(user, current_score);
        proof {
            assert(self.store == old(self).store);
            assert forall|id: u64|
                #![auto]
                self@.quizzes.contains_key(id) <==> self@.solutions.contains_key(id) by {
                assert(old(self)@.quizzes.contains_key(id) <==> old(self)@.solutions.contains_key(
                    id,
                ));
            }
            assert forall|id: u64| #![auto] self@.quizzes.contains_key(id) implies 1 <= id
                <= self@.quiz_cnt by {
                assert(old(self)@.quizzes.contains_key(id));
            }
            assert forall|b: u64, i: int|
                self@.buckets.contains_key(b) && 0 <= i < self@.buckets[b].len() implies 1
                <= #[trigger] self@.buckets[b][i] <= self@.quiz_cnt by {
                assert(1 <= old(self)@.buckets[b][i] <= old(self)@.quiz_cnt);
            }
            assert forall|b1: u64, i1: int, b2: u64, i2: int|
                self@.buckets.contains_key(b1) && self@.buckets.contains_key(b2) && b1 != b2 && 0
                    <= i1 < self@.buckets[b1].len() && 0 <= i2 < self@.buckets[b2].len() implies (
            #[trigger] self@.buckets[b1][i1]) != (#[trigger] self@.buckets[b2][i2]) by {
                assert(old(self)@.buckets[b1][i1] != old(self)@.buckets[b2][i2]);
            }
        }
    }

    /// The quiz with sequence number `quiz_count`, if it still exists. What
    /// this returns holds no part of the answer key.
    pub fn get_quiz(&self, quiz_count: u64) -> (r: Option<&Quiz>)
        ensures
            match r {
                Some(quiz) => self@.quizzes.contains_key(quiz_id_of(quiz_count)) && quiz@
                    == self@.quizzes[quiz_id_of(quiz_count)],
                None => !self@.quizzes.contains_key(quiz_id_of(quiz_count)),
            },
    {
        self.store.get(derive_quiz_id(quiz_count))
    }

    /// The answer key of the quiz with sequence number `quiz_count`, if it
    /// still exists. Only the host's scoring path may see what this returns.
    pub fn get_solution(&self, quiz_count: u64) -> (r: Option<Solution>)
        ensures
            match r {
                Some(solution) => self@.solutions.contains_key(quiz_id_of(quiz_count)) && solution
                    == self@.solutions[quiz_id_of(quiz_count)],
                None => !self@.solutions.contains_key(quiz_id_of(quiz_count)),
            },
    {
        self.store.get_solution(derive_quiz_id(quiz_count))
    }

    /// The rating of `account`, `0` if it was never rated.
    pub fn get_user_rating(&self, account: u64) -> (rating: u8)
        ensures
            rating == rating_of(self@.ratings, account),
    {
        self.ratings.get_user_rating(account)
    }

    /// The sequence number of the most recently created quiz, `0` if none was
    /// ever created.
    pub fn get_latest_quiz(&self) -> (quiz_count: u64)
        ensures
            quiz_count == self@.quiz_cnt,
    {
        self.quiz_cnt
    }

    /// The quiz identifiers scheduled for deletion at `tick`, if any are.
    pub fn get_quiz_to_delete(&self, tick: u64) -> (r: Option<&Vec<u64>>)
        ensures
            match r {
                Some(ids) => self@.buckets.contains_key(bucket_id_of(tick)) && ids@
                    == self@.buckets[bucket_id_of(tick)],
                None => !self@.buckets.contains_key(bucket_id_of(tick)),
            },
    {
        self.scheduler.buckets.get(&tick)
    }

    /// Every event emitted so far, oldest first. Delivery to observers is the
    /// host's business and never blocks or fails an operation.
    pub fn get_events(&self) -> (events: &Vec<Event>)
        ensures
            events@ == self@.events,
    {
        &self.events
    }
}

} // verus!
