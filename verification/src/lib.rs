//! A worker that advances an integer counter, and an aggregator that
//! collects reported counter values into an ordered sequence.

pub mod aggregator;
pub mod worker;
