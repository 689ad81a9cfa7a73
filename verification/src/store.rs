//! The quiz store: the authoritative map from quiz identifier to quiz record
//! and to the quiz's answer key. The two records share one identifier and are
//! created and deleted together — the store never holds one without the other.

use std::collections::HashMap;
use vstd::map::*;
use vstd::prelude::*;

use crate::types::{Error, Quiz, QuizModel, Solution};

verus! {

/// Owns every live quiz and its answer key.
pub struct QuizStore {
    pub quizzes: HashMap<u64, Quiz>,
    pub solutions: HashMap<u64, Solution>,
}

impl QuizStore {
    /// The stored quizzes, each as its mathematical value.
    pub open spec fn quiz_models(&self) -> Map<u64, QuizModel> {
        Map::new(
            |id: u64| self.quizzes@.contains_key(id),
            |id: u64| self.quizzes@[id]@,
        )
    }

    /// The stored answer keys.
    pub open spec fn solution_map(&self) -> Map<u64, Solution> {
        self.solutions@
    }

    /// The paired-lifecycle invariant: a quiz and its answer key exist under
    /// exactly the same identifiers.
    pub open spec fn wf(&self) -> bool {
        forall|id: u64| #![auto] self.quizzes@.contains_key(id) <==> self.solutions@.contains_key(id)
    }

    /// An empty store.
    pub fn new() -> (store: QuizStore)
        ensures
            store.wf(),
            store.quiz_models() == Map::<u64, QuizModel>::empty(),
            store.solution_map() == Map::<u64, Solution>::empty(),
    {
        let store = QuizStore { quizzes: HashMap::new(), solutions: HashMap::new() };
        proof {
            assert_maps_equal!(store.quiz_models(), Map::<u64, QuizModel>::empty());
        }
        store
    }

    /// Stores a quiz and its answer key under `id`, both or neither: if `id`
    /// is already taken the store is left unchanged and the call fails with
    /// [`Error::AlreadyExists`]. The sequence counter never hands an
    /// identifier out twice, so a caller deriving `id` from it can rule the
    /// failure out; the store checks regardless.
    pub fn create(&mut self, id: u64, quiz: Quiz, solution: Solution) -> (r: Result<(), Error>)
        requires
            old(self).wf(),
        ensures
            final(self).wf(),
            old(self).quiz_models().contains_key(id) ==> r == Err::<(), Error>(Error::AlreadyExists)
                && *final(self) == *old(self),
            !old(self).quiz_models().contains_key(id) ==> {
                &&& r == Ok::<(), Error>(())
                &&& final(self).quiz_models() == old(self).quiz_models().insert(id, quiz@)
                &&& final(self).solution_map() == old(self).solution_map().insert(id, solution)
            },
    {
        if self.quizzes.contains_key(&id) {
            return Err(Error::AlreadyExists);
        }
        let ghost pre = *self;
        self.quizzes.insert(id, quiz);
        self.solutions.insert(id, solution);
        proof {
            assert_maps_equal!(self.quiz_models(), pre.quiz_models().insert(id, quiz@));
        }
        Ok(())
    }

    /// The quiz stored under `id`, if any. The record returned holds no part
    /// of the answer key.
    pub fn get(&self, id: u64) -> (r: Option<&Quiz>)
        ensures
            match r {
                Some(quiz) => self.quiz_models().contains_key(id) && quiz@ == self.quiz_models()[id],
                None => !self.quiz_models().contains_key(id),
            },
    {
        self.quizzes.get(&id)
    }

    /// The answer key stored under `id`, if any. Only the scoring path may
    /// see what this returns.
    pub fn get_solution(&self, id: u64) -> (r: Option<Solution>)
        ensures
            match r {
                Some(solution) => self.solution_map().contains_key(id) && solution
                    == self.solution_map()[id],
                None => !self.solution_map().contains_key(id),
            },
    {
        match self.solutions.get(&id) {
            Some(s) => Some(*s),
            None => None,
        }
    }

    /// Removes the quiz under `id` together with its answer key. Deleting an
    /// absent identifier changes nothing: the scheduler may ask for a quiz
    /// the owner already deleted.
    pub fn delete(&mut self, id: u64)
        requires
            old(self).wf(),
        ensures
            final(self).wf(),
            final(self).quiz_models() == old(self).quiz_models().remove(id),
            final(self).solution_map() == old(self).solution_map().remove(id),
    {
        let ghost pre = *self;
        self.quizzes.remove(&id);
        self.solutions.remove(&id);
        proof {
            assert_maps_equal!(self.quiz_models(), pre.quiz_models().remove(id));
        }
    }
}

} // verus!
