//! The decision core of a bot account: what it reads, whom it answers, what it remembers and how
//! long it rests. Network, storage and model calls are made by the program around it, which hands
//! their results back as plain values.

pub mod answer;
pub mod chance;
pub mod completion;
pub mod daemon;
pub mod engage;
pub mod mention;
pub mod post;
pub mod round;
pub mod seen;
pub mod text;
pub mod thread;
pub mod timeline;
pub mod tweet;
