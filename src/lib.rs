//! An HTTP load generator's engine: outcome classification, per-connection
//! tallies, the deadline-driven connection state machine, the statistics
//! aggregator with its latency histogram, and the report arithmetic.

pub mod outcome;
pub mod tally;
pub mod driver;
pub mod stats;
pub mod worker;
pub mod report;
