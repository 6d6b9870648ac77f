//! The control protocol between the worker and its driver.

use crate::block::Block;
use crate::block::CompactedBlock;
use vstd::prelude::*;

verus! {

/// How many commands the driver can queue ahead of the worker.
pub const COMMAND_QUEUE_CAPACITY: usize = 2;

/// What the driver asks of the worker.
#[derive(Clone, Debug, PartialEq, Eq)]
pub enum PostProcessorCommand {
    /// The readiness barrier.
    Start,
    /// Compacted blocks to store, and blocks to process in the order given.
    ProcessBlocks(Vec<CompactedBlock>, Vec<Block>),
    /// Ends the loop at the next poll.
    Terminate,
}

/// What the worker reports to the driver.
#[derive(Clone, Copy, Debug, PartialEq, Eq)]
pub enum PostProcessorEvent {
    /// No command arrived for ten polls in a row.
    EmptyQueue,
}

/// What one look at the command queue found.
#[derive(Clone, Debug, PartialEq, Eq)]
pub enum Polled {
    Command(PostProcessorCommand),
    /// The queue is empty for now.
    Empty,
    /// Every sender is gone.
    Disconnected,
}

} // verus!
