//! A quiz over maritime navigation lights: a round presents each of the
//! fourteen vessel categories once, in shuffled order, and advances only on a
//! correct answer.
//!
//! The catalog module holds the closed set of vessel categories with their
//! labels and image asset names; the deck module defines what a full shuffled
//! deck is; the round module drives one playthrough.

pub mod catalog;
pub mod deck;
pub mod round;
