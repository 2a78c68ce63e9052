//! The uDMA channel control table: its layout, the words the UART0 channels use,
//! and the fields of a channel control word.
use vstd::prelude::*;

verus! {

/// Number of 32-bit words in one channel's entry of the control table.
pub const tm4c_dma_control_entries: usize = 4;

/// uDMA channel serving UART0 receive.
pub const tm4c_dma_uart0_rx_control_channel: usize = 8;

/// uDMA channel serving UART0 transmit.
pub const tm4c_dma_uart0_tx_control_channel: usize = 9;

/// First word of the UART0 receive channel's entry.
pub const tm4c_dma_uart0_rx_control_index: usize = 32;

/// First word of the UART0 transmit channel's entry.
pub const tm4c_dma_uart0_tx_control_index: usize = 36;

/// Number of words in the primary channel control table (32 channels, 4 words each,
/// 1024 bytes).
pub const CONTROL_TABLE_WORDS: usize = 256;

/// Offset, within an entry, of the source end pointer.
pub const SOURCE_END_POINTER: usize = 0;

/// Offset, within an entry, of the destination end pointer.
pub const DESTINATION_END_POINTER: usize = 1;

/// Offset, within an entry, of the channel control word.
pub const CONTROL_WORD: usize = 2;

/// Address of the UART0 data register.
pub const UART0_DATA_REGISTER: u32 = 0x4000_c000;

/// Transmit control word: destination address fixed, source incremented by one byte,
/// byte-wide items, 1024 transfers, basic mode.
pub const UART_TX_CONTROL: u32 = 0xC000_3FF1;

/// Receive control word: source address fixed, destination incremented by one byte,
/// byte-wide items, 1024 transfers, basic mode.
pub const UART_RX_CONTROL: u32 = 0x0C00_3FF1;

/// XFERSIZE field of a control word: the number of transfers left, minus one.
pub const XFERSIZE_MASK: u32 = 0x3FF0;

/// XFERMODE field of a control word: zero once the channel is stopped or done.
pub const XFERMODE_MASK: u32 = 0x7;

/// The transfer mode of a control word; the uDMA sets it to zero when a transfer ends.
pub open spec fn transfer_mode(control: u32) -> u32 {
    control & XFERMODE_MASK
}

/// The XFERSIZE field of a control word: transfers still outstanding, minus one.
pub open spec fn remaining_transfers(control: u32) -> u32 {
    (control & XFERSIZE_MASK) >> 4u32
}

/// Whether the control word describes a transfer that has not ended.
pub open spec fn in_progress(control: u32) -> bool {
    transfer_mode(control) != 0
}

/// Bytes moved of a transfer of `len` bytes whose channel holds `control`:
/// all of them once the mode is zero, else those not outstanding.
pub open spec fn bytes_transferred(len: usize, control: u32) -> int {
    if transfer_mode(control) == 0 {
        len as int
    } else {
        len - (remaining_transfers(control) + 1)
    }
}

/// Whether `bytes_transferred` is a count that a `usize` holds.
pub open spec fn byte_count_defined(len: usize, control: u32) -> bool {
    transfer_mode(control) != 0 ==> remaining_transfers(control) + 1 <= len
}

/// The length in the width of the control table's words.
pub open spec fn length_word(len: usize) -> u32 {
    len as u32
}

/// The control word `control` with its XFERSIZE field cleared and `len - 1`,
/// shifted into place, added on.
pub open spec fn with_transfer_count(control: u32, len: usize) -> int {
    (control & !XFERSIZE_MASK) + (((length_word(len) - 1) as u32) << 4u32)
}

/// The end pointer of a transfer of `len` items that starts at `start`.
pub open spec fn end_pointer(start: u32, len: usize) -> int {
    start + length_word(len) - 1
}

/// Whether a length of `len` can be programmed into an entry whose start pointer is
/// `start` and whose control word is `control` without overflowing a word.
pub open spec fn length_fits(start: u32, control: u32, len: usize) -> bool {
    &&& length_word(len) >= 1
    &&& start + length_word(len) <= u32::MAX
    &&& with_transfer_count(control, len) <= u32::MAX
}

/// Index of word `k` of the transmit channel's entry.
pub open spec fn tx_word(k: usize) -> int {
    tm4c_dma_uart0_tx_control_index + k
}

/// Index of word `k` of the receive channel's entry.
pub open spec fn rx_word(k: usize) -> int {
    tm4c_dma_uart0_rx_control_index + k
}

/// The table once the transmit entry is set up: destination the UART0 data register,
/// control word `UART_TX_CONTROL`.
pub open spec fn tx_initialized(t: Seq<u32>) -> Seq<u32> {
    t.update(tx_word(DESTINATION_END_POINTER), UART0_DATA_REGISTER)
     .update(tx_word(CONTROL_WORD), UART_TX_CONTROL)
}

/// The table once the receive entry is set up: source the UART0 data register,
/// control word `UART_RX_CONTROL`.
pub open spec fn rx_initialized(t: Seq<u32>) -> Seq<u32> {
    t.update(rx_word(SOURCE_END_POINTER), UART0_DATA_REGISTER)
     .update(rx_word(CONTROL_WORD), UART_RX_CONTROL)
}

/// The table with the transmit entry's source pointer set to `address`.
pub open spec fn tx_with_source(t: Seq<u32>, address: usize) -> Seq<u32> {
    t.update(tx_word(SOURCE_END_POINTER), address as u32)
}

/// The table with the transmit entry's destination pointer set to `address`.
pub open spec fn tx_with_destination(t: Seq<u32>, address: usize) -> Seq<u32> {
    t.update(tx_word(DESTINATION_END_POINTER), address as u32)
}

/// The table with the receive entry's source pointer set to `address`.
pub open spec fn rx_with_source(t: Seq<u32>, address: usize) -> Seq<u32> {
    t.update(rx_word(SOURCE_END_POINTER), address as u32)
}

/// The table with the receive entry's destination pointer set to `address`.
pub open spec fn rx_with_destination(t: Seq<u32>, address: usize) -> Seq<u32> {
    t.update(rx_word(DESTINATION_END_POINTER), address as u32)
}

/// Whether the transmit entry of `t` accepts a length of `len`.
pub open spec fn tx_length_fits(t: Seq<u32>, len: usize) -> bool {
    length_fits(t[tx_word(SOURCE_END_POINTER)], UART_TX_CONTROL, len)
}

/// Whether the receive entry of `t` accepts a length of `len`.
pub open spec fn rx_length_fits(t: Seq<u32>, len: usize) -> bool {
    length_fits(t[rx_word(DESTINATION_END_POINTER)], t[rx_word(CONTROL_WORD)], len)
}

/// The table once the transmit entry is given a length of `len`: the source pointer
/// moves to the last byte, the control word is `UART_TX_CONTROL` with the count of `len`.
pub open spec fn tx_with_length(t: Seq<u32>, len: usize) -> Seq<u32> {
    t.update(tx_word(SOURCE_END_POINTER), end_pointer(t[tx_word(SOURCE_END_POINTER)], len) as u32)
     .update(tx_word(CONTROL_WORD), with_transfer_count(UART_TX_CONTROL, len) as u32)
}

/// The table once the receive entry is given a length of `len`: the destination pointer
/// moves to the last byte, the control word keeps its other fields and takes the count.
pub open spec fn rx_with_length(t: Seq<u32>, len: usize) -> Seq<u32> {
    t.update(rx_word(DESTINATION_END_POINTER), end_pointer(t[rx_word(DESTINATION_END_POINTER)], len) as u32)
     .update(rx_word(CONTROL_WORD), with_transfer_count(t[rx_word(CONTROL_WORD)], len) as u32)
}

/// Whether an entry whose start pointer is `start` and whose control word is `control`
/// accepts a length of `len`.
pub fn length_accepted(start: u32, control: u32, len: usize) -> (r: bool)
    ensures
        r == length_fits(start, control, len),
{
    let length: u32 = len as u32;
    if length == 0 || start > u32::MAX - length {
        return false;
    }
    let base: u32 = control & !XFERSIZE_MASK;
    let count: u32 = (length - 1) << 4;
    base <= u32::MAX - count
}

/// Whether the byte count of a transfer of `len` bytes whose channel holds `control` is
/// defined.
pub fn count_defined(len: usize, control: u32) -> (r: bool)
    ensures
        r == byte_count_defined(len, control),
{
    let remaining: usize = ((control & XFERSIZE_MASK) >> 4) as usize;
    assert(((control & XFERSIZE_MASK) >> 4u32) <= 0x3FF) by (bit_vector);
    (control & XFERMODE_MASK) == 0 || remaining + 1 <= len
}

/// Bytes moved of a transfer of `len` bytes whose channel holds `control`.
pub fn count_transferred(len: usize, control: u32) -> (r: usize)
    requires
        byte_count_defined(len, control),
    ensures
        r == bytes_transferred(len, control),
{
    let outstanding_transfer_items: usize = ((control & XFERSIZE_MASK) >> 4) as usize;
    if (control & XFERMODE_MASK) == 0 {
        len
    } else {
        assert(((control & XFERSIZE_MASK) >> 4u32) <= 0x3FF) by (bit_vector);
        len - (outstanding_transfer_items + 1)
    }
}

/// The primary channel control table of the uDMA: 32 entries of 4 words.
pub struct dma_control_structure(pub [u32; 256]);

impl View for dma_control_structure {
    type V = Seq<u32>;

    open spec fn view(&self) -> Seq<u32> {
        self.0@
    }
}

impl dma_control_structure {
    /// A table whose words are all zero.
    pub fn new() -> (r: Self)
        ensures
            r@.len() == CONTROL_TABLE_WORDS,
            forall|i: int| 0 <= i < CONTROL_TABLE_WORDS ==> r@[i] == 0,
    {
        dma_control_structure([0u32; 256])
    }

    /// Word `index` of the table.
    pub fn word(&self, index: usize) -> (r: u32)
        requires
            index < CONTROL_TABLE_WORDS,
        ensures
            r == self@[index as int],
    {
        self.0[index]
    }

    /// Sets word `index` of the table to `value`.
    pub fn set_word(&mut self, index: usize, value: u32)
        requires
            index < CONTROL_TABLE_WORDS,
        ensures
            final(self)@ == old(self)@.update(index as int, value),
    {
        self.0[index] = value;
    }
}

} // verus!
