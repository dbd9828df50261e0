//! Periodic polling of ZooKeeper nodes over the four-letter-word protocol.
//!
//! The library holds the decisions of a polling cycle: how a configured
//! server becomes an address, which command goes on the wire, how a raw
//! response is post-processed, how outcomes become one ordered row, and how
//! rows are framed as CSV records. Network I/O and the clock stay with the
//! caller.

pub mod cycle;
pub mod output;
pub mod probe;
pub mod role;
pub mod target;
