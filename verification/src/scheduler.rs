//! The deferred-deletion scheduler: a map from tick-bucket identifier to the
//! quiz identifiers due for deletion at that tick. A bucket exists only while
//! something is scheduled for its tick, and it drains exactly once.

use std::collections::HashMap;
use vstd::map::*;
use vstd::prelude::*;

use crate::ids::{bucket_id_of, derive_bucket_id, derive_quiz_id, quiz_id_of};

verus! {

/// How many ticks after its creation a quiz is deleted.
pub const DELETE_DELAY: u64 = 10;

/// The contents of bucket `bucket` in the map `m`: a bucket that was never
/// filled is empty.
pub open spec fn bucket_contents(m: Map<u64, Seq<u64>>, bucket: u64) -> Seq<u64> {
    if m.contains_key(bucket) {
        m[bucket]
    } else {
        Seq::empty()
    }
}

/// Owns the deletion buckets. It holds quiz identifiers only, never quiz
/// data: by the time a bucket fires, its quizzes may already be gone.
pub struct DeletionScheduler {
    pub buckets: HashMap<u64, Vec<u64>>,
}

impl View for DeletionScheduler {
    type V = Map<u64, Seq<u64>>;

    open spec fn view(&self) -> Map<u64, Seq<u64>> {
        Map::new(
            |bucket: u64| self.buckets@.contains_key(bucket),
            |bucket: u64| self.buckets@[bucket]@,
        )
    }
}

impl DeletionScheduler {
    /// A scheduler with nothing due.
    pub fn new() -> (scheduler: DeletionScheduler)
        ensures
            scheduler@ == Map::<u64, Seq<u64>>::empty(),
    {
        let scheduler = DeletionScheduler { buckets: HashMap::new() };
        proof {
            assert_maps_equal!(scheduler@, Map::<u64, Seq<u64>>::empty());
        }
        scheduler
    }

    /// Appends the quiz with sequence number `quiz_number` to the bucket due
    /// [`DELETE_DELAY`] ticks after `current_tick`, creating the bucket if it
    /// does not exist yet. Scheduling never fails; a quiz identifier appended
    /// twice is tolerated by the drain as a harmless double delete.
    pub fn add_quiz_to_be_deleted(&mut self, current_tick: u64, quiz_number: u64)
        requires
            current_tick <= u64::MAX - DELETE_DELAY,
        ensures
            final(self)@ == old(self)@.insert(
                bucket_id_of((current_tick + DELETE_DELAY) as u64),
                bucket_contents(old(self)@, bucket_id_of((current_tick + DELETE_DELAY) as u64)).push(
                    quiz_id_of(quiz_number),
                ),
            ),
    {
        let due_tick = DELETE_DELAY + current_tick;
        let delete_id = derive_bucket_id(due_tick);
        let quiz_id = derive_quiz_id(quiz_number);
        let ghost pre = *self;
        let mut bucket: Vec<u64> = match self.buckets.remove(&delete_id) {
            Some(bucket) => bucket,
            None => Vec::new(),
        };
        bucket.push(quiz_id);
        self.buckets.insert(delete_id, bucket);
        proof {
            assert_maps_equal!(
                self@,
                pre@.insert(
                    bucket_id_of(due_tick),
                    bucket_contents(pre@, bucket_id_of(due_tick)).push(quiz_id_of(quiz_number)),
                )
            );
        }
    }

    /// Drains the bucket due at `current_tick`: returns its full contents and
    /// removes it, so that the same tick can never fire twice. A tick with no
    /// bucket yields nothing.
    pub fn fire(&mut self, current_tick: u64) -> (due: Vec<u64>)
        ensures
            due@ == bucket_contents(old(self)@, bucket_id_of(current_tick)),
            final(self)@ == old(self)@.remove(bucket_id_of(current_tick)),
    {
        let bucket_id = derive_bucket_id(current_tick);
        let ghost pre = *self;
        let due = match self.buckets.remove(&bucket_id) {
            Some(bucket) => bucket,
            None => Vec::new(),
        };
        proof {
            assert_maps_equal!(self@, pre@.remove(bucket_id_of(current_tick)));
        }
        due
    }
}

} // verus!
