//! The interface a DMA channel offers its users.
use vstd::prelude::*;

verus! {

/// A singleton that represents a single DMA channel associated with a particular
/// peripheral (would be a uart port for communication purposes).
///
/// This singleton has exclusive access to the registers of the peripheral's
/// associated DMA channel.
pub struct Dma1Channel<Peripheral> {
    peripheral: Peripheral,
}

/// A DMA channel of a physical peripheral.
///
/// An implementation names, through its spec functions, the inputs on which a call is
/// defined and what the queries answer; each implementation states the rest in its own
/// contracts.
pub trait DmaChannel {
    /// Whether a transfer length of `len` can be programmed into the channel.
    spec fn accepts_transfer_length(&self, len: usize) -> bool;

    /// Whether the count of transferred bytes is defined in the channel's present state.
    spec fn byte_count_defined(&self) -> bool;

    /// Whether the channel's present state describes a transfer that has not ended.
    spec fn transfer_in_progress(&self) -> bool;

    /// The number of bytes the channel's present state reports as transferred.
    spec fn transferred_bytes(&self) -> int;

    /// Device specific preinitialization to enable DMA.
    fn dma_device_init(&mut self);

    /// Data will be written to this `address`.
    fn dma_set_destination_address(&mut self, address: usize);

    /// Data will be read from this `address`.
    fn dma_set_source_address(&mut self, address: usize);

    /// Number of bytes to transfer.
    fn dma_set_transfer_length(&mut self, len: usize)
        requires
            old(self).accepts_transfer_length(len),
    ;

    /// Starts the DMA transfer.
    fn dma_start(&mut self);

    /// Stops the DMA transfer.
    fn dma_stop(&mut self);

    /// Returns `true` if there's a transfer in progress.
    fn dma_in_progress(&mut self) -> (r: bool)
        ensures
            r == old(self).transfer_in_progress(),
    ;

    /// Number of bytes the current transfer has moved.
    fn dma_num_bytes_transferred(&mut self) -> (r: usize)
        requires
            old(self).byte_count_defined(),
        ensures
            r == old(self).transferred_bytes(),
    ;
}

} // verus!
