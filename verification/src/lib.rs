//! Verified core of a set of small concurrency and ownership examples:
//! string helpers that exercise borrowing, decimal message formatting, and a
//! model of a bounded producer/consumer queue with cooperative shutdown.

pub mod borrowing;
pub mod messages;
pub mod session;
