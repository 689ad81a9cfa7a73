//! A quiz-competition engine.
//!
//! Participants create five-question quizzes guarded by a rating gate and an
//! answer key; other participants attempt a quiz, receive a score in `[0, 5]`,
//! have their personal rating re-blended with the score, and owe the quiz
//! owner a reward proportional to the number of wrong answers. Every quiz is
//! also scheduled for automatic deletion a fixed number of clock ticks after
//! its creation.
//!
//! The engine owns all of its state ([`service::QuizService`]) and advances it
//! one operation at a time. Everything that depends on a host — who is making
//! a call, the monetary ledger the reward moves through, where emitted events
//! are delivered, and the clock — enters through plain parameters and results,
//! so that the whole of the engine's logic is verified.

pub mod ids;
pub mod laws;
pub mod rating;
pub mod scheduler;
pub mod service;
pub mod store;
pub mod scoring;
pub mod types;
