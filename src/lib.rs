//! A two-player subtraction game ("pebbles"): the user and the program take
//! turns removing pebbles from a pool until it is empty; whoever takes the
//! last pebble wins. The program plays one of two policies: a random legal
//! move, or the optimal move that leaves a multiple of `max + 1` pebbles.
//!
//! Random numbers come from the caller, so every operation is a function of
//! its arguments and the held session.

pub mod engine;
pub mod policy;
pub mod session;
pub mod theorems;
pub mod types;
