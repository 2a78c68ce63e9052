//! Properties of the channel programming that hold across calls: what a programmed
//! length reads back as, what the byte count reports as the uDMA advances, and which
//! words of the control table each operation leaves alone.
use vstd::prelude::*;
use crate::dma_impl::{start_writes, RegisterWrite};
use crate::control::{
    byte_count_defined, bytes_transferred, in_progress, remaining_transfers, rx_initialized,
    rx_length_fits, rx_with_length, rx_word, transfer_mode, tx_initialized, tx_length_fits,
    tx_with_length, tx_word, tx_with_source, tx_with_destination, rx_with_source,
    rx_with_destination, with_transfer_count, length_word, CONTROL_TABLE_WORDS, CONTROL_WORD, DESTINATION_END_POINTER, SOURCE_END_POINTER,
    UART_RX_CONTROL, UART_TX_CONTROL, XFERSIZE_MASK, UART0_DATA_REGISTER, tm4c_dma_control_entries,
    tm4c_dma_uart0_rx_control_channel, tm4c_dma_uart0_tx_control_channel,
    tm4c_dma_uart0_rx_control_index, tm4c_dma_uart0_tx_control_index,
};

verus! {

/// A length of 1 to 1024 always fits a control word: it lands in the XFERSIZE field as
/// `len - 1`, and every other field of the word stays as it was.
pub proof fn law_transfer_count_field(control: u32, len: usize)
    requires
        1 <= len <= 1024,
    ensures
        with_transfer_count(control, len) <= u32::MAX,
        remaining_transfers(with_transfer_count(control, len) as u32) == len - 1,
        transfer_mode(with_transfer_count(control, len) as u32) == transfer_mode(control),
        (with_transfer_count(control, len) as u32) & !XFERSIZE_MASK == control & !XFERSIZE_MASK,
{
    let l: u32 = length_word(len);
    assert(l == len);
    let n: u32 = (l - 1) as u32;
    assert(n <= 1023);
    assert((control & !0x3FF0u32) + (n << 4u32) <= 0xFFFF_FFFFu32) by (bit_vector)
        requires n <= 1023;
    let w: u32 = ((control & !0x3FF0u32) + (n << 4u32)) as u32;
    assert(((w & 0x3FF0u32) >> 4u32) == n) by (bit_vector)
        requires n <= 1023, w == ((control & !0x3FF0u32) + (n << 4u32)) as u32;
    assert(w & 0x7u32 == control & 0x7u32) by (bit_vector)
        requires n <= 1023, w == ((control & !0x3FF0u32) + (n << 4u32)) as u32;
    assert(w & !0x3FF0u32 == control & !0x3FF0u32) by (bit_vector)
        requires n <= 1023, w == ((control & !0x3FF0u32) + (n << 4u32)) as u32;
}

/// The XFERSIZE field takes only the low ten bits of `len - 1`: a length above 1024
/// leaves a count of `(len - 1) % 1024`, so the uDMA moves fewer items than `len`, the
/// length the channel goes on to report as transferred once the mode is zero.
pub proof fn law_transfer_count_wraps(control: u32, len: usize)
    requires
        length_word(len) >= 1,
        with_transfer_count(control, len) <= u32::MAX,
    ensures
        remaining_transfers(with_transfer_count(control, len) as u32) == (length_word(len) - 1) % 1024,
        transfer_mode(with_transfer_count(control, len) as u32) == transfer_mode(control),
        1024 < len <= u32::MAX ==> remaining_transfers(with_transfer_count(control, len) as u32) + 1 < len,
        (with_transfer_count(control, len) as u32) & 0xFu32 == control & 0xFu32,
{
    let l: u32 = length_word(len);
    let n: u32 = (l - 1) as u32;
    let w: u32 = ((control & !0x3FF0u32) + (n << 4u32)) as u32;
    assert(((w & 0x3FF0u32) >> 4u32) == n % 1024) by (bit_vector)
        requires
            (control & !0x3FF0u32) + (n << 4u32) <= 0xFFFF_FFFFu32,
            w == ((control & !0x3FF0u32) + (n << 4u32)) as u32;
    assert(w & 0x7u32 == control & 0x7u32) by (bit_vector)
        requires
            (control & !0x3FF0u32) + (n << 4u32) <= 0xFFFF_FFFFu32,
            w == ((control & !0x3FF0u32) + (n << 4u32)) as u32;
    assert(w & 0xFu32 == control & 0xFu32) by (bit_vector)
        requires
            (control & !0x3FF0u32) + (n << 4u32) <= 0xFFFF_FFFFu32,
            w == ((control & !0x3FF0u32) + (n << 4u32)) as u32;
}

/// A transfer of `len` items, 1 to 1024, that the uDMA has advanced by `moved` items
/// while the mode stays on, leaves the count of `len - moved` in the control word; the
/// byte count then reports exactly `moved`.
pub proof fn law_count_tracks_progress(control: u32, len: usize, moved: usize)
    requires
        1 <= len <= 1024,
        moved < len,
        transfer_mode(control) != 0,
    ensures
        byte_count_defined(len, with_transfer_count(control, (len - moved) as usize) as u32),
        bytes_transferred(len, with_transfer_count(control, (len - moved) as usize) as u32) == moved,
        in_progress(with_transfer_count(control, (len - moved) as usize) as u32),
{
    law_transfer_count_field(control, (len - moved) as usize);
}

/// Once the mode of a control word is zero, the transfer is no longer in progress and
/// the byte count reports the whole length.
pub proof fn law_completed_transfer_counts_all(control: u32, len: usize)
    requires
        transfer_mode(control) == 0,
    ensures
        !in_progress(control),
        byte_count_defined(len, control),
        bytes_transferred(len, control) == len,
{
}

/// Every length from 1 to 1024 is accepted by the transmit entry whose source pointer
/// leaves room for it.
pub proof fn law_tx_accepts_length(t: Seq<u32>, len: usize)
    requires
        t.len() == CONTROL_TABLE_WORDS,
        1 <= len <= 1024,
        t[tx_word(SOURCE_END_POINTER)] + len <= u32::MAX,
    ensures
        tx_length_fits(t, len),
{
    law_transfer_count_field(UART_TX_CONTROL, len);
}

/// Every length from 1 to 1024 is accepted by the receive entry whose destination
/// pointer leaves room for it.
pub proof fn law_rx_accepts_length(t: Seq<u32>, len: usize)
    requires
        t.len() == CONTROL_TABLE_WORDS,
        1 <= len <= 1024,
        t[rx_word(DESTINATION_END_POINTER)] + len <= u32::MAX,
    ensures
        rx_length_fits(t, len),
{
    law_transfer_count_field(t[rx_word(CONTROL_WORD)], len);
}

/// Once the transmit channel is given a length of 1 to 1024 bytes, and before the uDMA
/// moves a byte, the channel reports a transfer in progress of which no byte has moved,
/// with `len - 1` transfers counted in its control word.
pub proof fn law_fresh_tx_transfer(t: Seq<u32>, len: usize)
    requires
        t.len() == CONTROL_TABLE_WORDS,
        1 <= len <= 1024,
        tx_length_fits(t, len),
    ensures
        in_progress(tx_with_length(t, len)[tx_word(CONTROL_WORD)]),
        remaining_transfers(tx_with_length(t, len)[tx_word(CONTROL_WORD)]) == len - 1,
        byte_count_defined(len, tx_with_length(t, len)[tx_word(CONTROL_WORD)]),
        bytes_transferred(len, tx_with_length(t, len)[tx_word(CONTROL_WORD)]) == 0,
{
    law_transfer_count_field(UART_TX_CONTROL, len);
    assert(transfer_mode(UART_TX_CONTROL) == 1) by (bit_vector);
}

/// Once the receive channel is given a length of 1 to 1024 bytes, and before the uDMA
/// moves a byte, the channel is in progress exactly when it was before, and reports no
/// byte moved if so, the whole length if not.
pub proof fn law_fresh_rx_transfer(t: Seq<u32>, len: usize)
    requires
        t.len() == CONTROL_TABLE_WORDS,
        1 <= len <= 1024,
        rx_length_fits(t, len),
    ensures
        in_progress(rx_with_length(t, len)[rx_word(CONTROL_WORD)]) == in_progress(t[rx_word(CONTROL_WORD)]),
        remaining_transfers(rx_with_length(t, len)[rx_word(CONTROL_WORD)]) == len - 1,
        byte_count_defined(len, rx_with_length(t, len)[rx_word(CONTROL_WORD)]),
        bytes_transferred(len, rx_with_length(t, len)[rx_word(CONTROL_WORD)])
            == if in_progress(t[rx_word(CONTROL_WORD)]) { 0 } else { len as int },
{
    law_transfer_count_field(t[rx_word(CONTROL_WORD)], len);
}

/// Setting up either channel leaves it in basic mode with a count of 1024 transfers, so
/// the channel reports a transfer in progress.
pub proof fn law_initialized_channels_in_progress(t: Seq<u32>)
    requires
        t.len() == CONTROL_TABLE_WORDS,
    ensures
        in_progress(tx_initialized(t)[tx_word(CONTROL_WORD)]),
        remaining_transfers(tx_initialized(t)[tx_word(CONTROL_WORD)]) == 1023,
        in_progress(rx_initialized(t)[rx_word(CONTROL_WORD)]),
        remaining_transfers(rx_initialized(t)[rx_word(CONTROL_WORD)]) == 1023,
{
    assert(transfer_mode(UART_TX_CONTROL) == 1) by (bit_vector);
    assert(transfer_mode(UART_RX_CONTROL) == 1) by (bit_vector);
    assert(remaining_transfers(UART_TX_CONTROL) == 1023) by (bit_vector);
    assert(remaining_transfers(UART_RX_CONTROL) == 1023) by (bit_vector);
}

/// A source address followed by a length of `len` leaves the transmit entry's source
/// pointer on the last byte of the buffer, `address + len - 1`.
pub proof fn law_tx_buffer_end(t: Seq<u32>, address: usize, len: usize)
    requires
        t.len() == CONTROL_TABLE_WORDS,
        tx_length_fits(tx_with_source(t, address), len),
    ensures
        tx_with_length(tx_with_source(t, address), len)[tx_word(SOURCE_END_POINTER)]
            == (address as u32) + (len as u32) - 1,
{
}

/// A destination address followed by a length of `len` leaves the receive entry's
/// destination pointer on the last byte of the buffer, `address + len - 1`.
pub proof fn law_rx_buffer_end(t: Seq<u32>, address: usize, len: usize)
    requires
        t.len() == CONTROL_TABLE_WORDS,
        rx_length_fits(rx_with_destination(t, address), len),
    ensures
        rx_with_length(rx_with_destination(t, address), len)[rx_word(DESTINATION_END_POINTER)]
            == (address as u32) + (len as u32) - 1,
{
}

/// Setting up the transmit channel, pointing it at a source or a destination and giving
/// it a length change only words of the transmit entry; the receive channel's
/// counterparts change only words of the receive entry.
pub proof fn law_channel_entries_disjoint(t: Seq<u32>, address: usize, len: usize, i: int)
    requires
        t.len() == CONTROL_TABLE_WORDS,
        0 <= i < CONTROL_TABLE_WORDS,
    ensures
        !(tx_word(0) <= i < tx_word(tm4c_dma_control_entries)) ==> {
            &&& tx_initialized(t)[i] == t[i]
            &&& tx_with_source(t, address)[i] == t[i]
            &&& tx_with_destination(t, address)[i] == t[i]
            &&& tx_with_length(t, len)[i] == t[i]
        },
        !(rx_word(0) <= i < rx_word(tm4c_dma_control_entries)) ==> {
            &&& rx_initialized(t)[i] == t[i]
            &&& rx_with_source(t, address)[i] == t[i]
            &&& rx_with_destination(t, address)[i] == t[i]
            &&& rx_with_length(t, len)[i] == t[i]
        },
{
}

/// Each UART0 channel's entry starts at four words per channel below it: the receive
/// channel (8) at word 32, the transmit channel (9) at word 36. Within an entry the source
/// end pointer, destination end pointer and control word are words 0, 1 and 2.
pub proof fn law_entry_layout()
    ensures
        tm4c_dma_uart0_rx_control_index == tm4c_dma_uart0_rx_control_channel * tm4c_dma_control_entries,
        tm4c_dma_uart0_tx_control_index == tm4c_dma_uart0_tx_control_channel * tm4c_dma_control_entries,
        tx_word(SOURCE_END_POINTER) == 36,
        tx_word(DESTINATION_END_POINTER) == 37,
        tx_word(CONTROL_WORD) == 38,
        rx_word(SOURCE_END_POINTER) == 32,
        rx_word(DESTINATION_END_POINTER) == 33,
        rx_word(CONTROL_WORD) == 34,
{
}

/// Setting up the transmit channel writes exactly two words: its destination end pointer
/// (word 37) becomes the UART0 data register at `0x4000_c000`, and its control word
/// (word 38) becomes `0xC000_3FF1`; every other word, its source pointer included, keeps
/// its value. The receive channel likewise writes only its source end pointer (word 32),
/// to the UART0 data register, and its control word (word 34), to `0x0C00_3FF1`.
pub proof fn law_init_words(t: Seq<u32>)
    requires
        t.len() == CONTROL_TABLE_WORDS,
    ensures
        tx_initialized(t).len() == t.len(),
        tx_initialized(t)[37] == 0x4000_c000,
        tx_initialized(t)[38] == 0xC000_3FF1,
        forall|i: int| 0 <= i < t.len() && i != 37 && i != 38 ==> tx_initialized(t)[i] == t[i],
        rx_initialized(t).len() == t.len(),
        rx_initialized(t)[32] == 0x4000_c000,
        rx_initialized(t)[34] == 0x0C00_3FF1,
        forall|i: int| 0 <= i < t.len() && i != 32 && i != 34 ==> rx_initialized(t)[i] == t[i],
{
}

/// Each address setter writes the address, truncated to a word, into exactly one word,
/// the pointer it names of its own channel's entry, and leaves every other word as it
/// was: transmit source word 36, transmit destination word 37, receive source word 32,
/// receive destination word 33.
pub proof fn law_address_setter_words(t: Seq<u32>, address: usize)
    requires
        t.len() == CONTROL_TABLE_WORDS,
    ensures
        tx_with_source(t, address).len() == t.len(),
        tx_with_source(t, address)[36] == address as u32,
        forall|i: int| 0 <= i < t.len() && i != 36 ==> tx_with_source(t, address)[i] == t[i],
        tx_with_destination(t, address).len() == t.len(),
        tx_with_destination(t, address)[37] == address as u32,
        forall|i: int| 0 <= i < t.len() && i != 37 ==> tx_with_destination(t, address)[i] == t[i],
        rx_with_source(t, address).len() == t.len(),
        rx_with_source(t, address)[32] == address as u32,
        forall|i: int| 0 <= i < t.len() && i != 32 ==> rx_with_source(t, address)[i] == t[i],
        rx_with_destination(t, address).len() == t.len(),
        rx_with_destination(t, address)[33] == address as u32,
        forall|i: int| 0 <= i < t.len() && i != 33 ==> rx_with_destination(t, address)[i] == t[i],
{
}

/// Programming a transmit length of `len` writes exactly two words. The source end pointer
/// (word 36) advances by `len - 1`, to the buffer's last byte; the control word (word 38)
/// takes `(len - 1) % 1024` in its XFERSIZE field and keeps the basic mode of
/// `0xC000_3FF1` in its low bits; for a length of at most 1024 every field outside
/// XFERSIZE is that of `0xC000_3FF1`.
/// Every other word keeps its value, the destination end pointer (word 37, the UART0 data
/// register after set-up) included.
pub proof fn law_tx_length_words(t: Seq<u32>, len: usize)
    requires
        t.len() == CONTROL_TABLE_WORDS,
        tx_length_fits(t, len),
    ensures
        tx_with_length(t, len).len() == t.len(),
        tx_with_length(t, len)[36] == t[36] + (len as u32) - 1,
        tx_with_length(t, len)[38] & 0xFu32 == 1,
        len <= 1024 ==> tx_with_length(t, len)[38] & !0x3FF0u32 == 0xC000_0001u32,
        (tx_with_length(t, len)[38] & 0x3FF0u32) >> 4u32 == ((len as u32) - 1) % 1024,
        forall|i: int| 0 <= i < t.len() && i != 36 && i != 38 ==> tx_with_length(t, len)[i] == t[i],
        tx_with_length(t, len)[37] == t[37],
{
    law_transfer_count_wraps(UART_TX_CONTROL, len);
    assert(UART_TX_CONTROL & 0xFu32 == 1) by (bit_vector);
    assert(UART_TX_CONTROL & !XFERSIZE_MASK == 0xC000_0001u32) by (bit_vector);
    if len <= 1024 {
        law_transfer_count_field(UART_TX_CONTROL, len);
    }
}

/// Programming a receive length of `len` writes exactly two words. The destination end
/// pointer (word 33) advances by `len - 1`, to the buffer's last byte; the control word
/// (word 34) takes `(len - 1) % 1024` in its XFERSIZE field, keeps its mode bits, and for
/// a length of at most 1024 keeps every field outside XFERSIZE. Every
/// other word keeps its value, the source end pointer (word 32, the UART0 data register
/// after set-up) included.
pub proof fn law_rx_length_words(t: Seq<u32>, len: usize)
    requires
        t.len() == CONTROL_TABLE_WORDS,
        rx_length_fits(t, len),
    ensures
        rx_with_length(t, len).len() == t.len(),
        rx_with_length(t, len)[33] == t[33] + (len as u32) - 1,
        rx_with_length(t, len)[34] & 0xFu32 == t[34] & 0xFu32,
        len <= 1024 ==> rx_with_length(t, len)[34] & !0x3FF0u32 == t[34] & !0x3FF0u32,
        (rx_with_length(t, len)[34] & 0x3FF0u32) >> 4u32 == ((len as u32) - 1) % 1024,
        forall|i: int| 0 <= i < t.len() && i != 33 && i != 34 ==> rx_with_length(t, len)[i] == t[i],
        rx_with_length(t, len)[32] == t[32],
{
    law_transfer_count_wraps(t[rx_word(CONTROL_WORD)], len);
    if len <= 1024 {
        law_transfer_count_field(t[rx_word(CONTROL_WORD)], len);
    }
}

/// After set-up, a source address and a length, the transmit entry reads from the buffer
/// `[address, address + len)` and writes to the UART0 data register; after set-up, a
/// destination address and a length, the receive entry reads from the UART0 data register
/// and writes to the buffer `[address, address + len)`.
pub proof fn law_programmed_entries(t: Seq<u32>, address: usize, len: usize)
    requires
        t.len() == CONTROL_TABLE_WORDS,
    ensures
        tx_length_fits(tx_with_source(tx_initialized(t), address), len) ==> {
            let r = tx_with_length(tx_with_source(tx_initialized(t), address), len);
            &&& r[36] == (address as u32) + (len as u32) - 1
            &&& r[37] == UART0_DATA_REGISTER
        },
        rx_length_fits(rx_with_destination(rx_initialized(t), address), len) ==> {
            let r = rx_with_length(rx_with_destination(rx_initialized(t), address), len);
            &&& r[32] == UART0_DATA_REGISTER
            &&& r[33] == (address as u32) + (len as u32) - 1
        },
{
    law_init_words(t);
    law_address_setter_words(tx_initialized(t), address);
    law_address_setter_words(rx_initialized(t), address);
    if tx_length_fits(tx_with_source(tx_initialized(t), address), len) {
        law_tx_length_words(tx_with_source(tx_initialized(t), address), len);
    }
    if rx_length_fits(rx_with_destination(rx_initialized(t), address), len) {
        law_rx_length_words(rx_with_destination(rx_initialized(t), address), len);
    }
}

/// The fields of a control word as the uDMA defines them: the transfer mode is the low
/// three bits, so a channel is in progress exactly when the word is not a multiple of 8;
/// the count of transfers left, minus one, is the ten bits from bit 4 on.
pub proof fn law_control_word_fields(control: u32)
    ensures
        in_progress(control) <==> control % 8 != 0,
        remaining_transfers(control) == (control / 16) % 1024,
{
    assert((control & 0x7u32) == control % 8) by (bit_vector);
    assert(((control & 0x3FF0u32) >> 4u32) == (control / 16) % 1024) by (bit_vector);
}

/// Starting a transfer asks for four writes. The UART0 DMA control register gets both
/// its receive (bit 0) and transmit (bit 1) DMA enables; its interrupt mask gets the
/// receive (bit 4) and transmit (bit 5) interrupts; the uDMA channel enable-set
/// register gets exactly the bits of the UART0 receive and transmit channels; the
/// controller's master enable comes last, after the channels are enabled.
pub proof fn law_start_writes()
    ensures
        start_writes().len() == 4,
        start_writes()[0] == RegisterWrite::UartDmaControl((1u32 << 0u32) | (1u32 << 1u32)),
        start_writes()[1] == RegisterWrite::UartInterruptMask((1u32 << 4u32) | (1u32 << 5u32)),
        start_writes()[2] == RegisterWrite::EnableSet(
            (1u32 << (tm4c_dma_uart0_rx_control_channel as u32)) | (1u32 << (tm4c_dma_uart0_tx_control_channel as u32)),
        ),
        start_writes()[3] == RegisterWrite::Configuration(1),
{
    assert((1u32 << 0u32) | (1u32 << 1u32) == 3u32) by (bit_vector);
    assert((1u32 << 4u32) | (1u32 << 5u32) == 0x30u32) by (bit_vector);
    assert((1u32 << 8u32) | (1u32 << 9u32) == 0x300u32) by (bit_vector);
}

} // verus!
