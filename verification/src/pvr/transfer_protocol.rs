//! How vertex data travels to the accelerator.

use vstd::prelude::*;

verus! {

/// A way of moving vertex data to the tile accelerator. A context owns one
/// for its whole life; which one is chosen when the context is created.
pub trait DataTransferProtocol {
    /// Queues one vertex for transfer.
    fn queue(&self);

    /// Sends what has been queued.
    fn send(&self);
}

/// Transfer through the SH-4 store queues.
#[derive(Debug)]
pub struct SQDataTransferProtocol {}

impl DataTransferProtocol for SQDataTransferProtocol {
    fn queue(&self) {
    }

    fn send(&self) {
    }
}

} // verus!
