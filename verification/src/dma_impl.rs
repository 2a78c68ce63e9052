//! The UART0 transmit and receive channels of the TM4C123x uDMA.
//!
//! The channels program the channel control table held by `tm4c_uart_dma_ctrl` and
//! record, in its `UdmaPort`, the register writes that start, stop and configure the
//! controller. The hardware layer keeps the table the uDMA reads in step with the one
//! held here and performs the recorded writes.
use vstd::prelude::*;
use crate::control::{
    byte_count_defined, bytes_transferred, count_defined, count_transferred, length_accepted, dma_control_structure, in_progress,
    rx_initialized, rx_length_fits, rx_with_length, rx_word, tx_initialized, tx_length_fits,
    tx_with_length, tx_word, tx_with_source, tx_with_destination, rx_with_source,
    rx_with_destination, CONTROL_TABLE_WORDS, CONTROL_WORD,
    DESTINATION_END_POINTER, SOURCE_END_POINTER, UART0_DATA_REGISTER, UART_RX_CONTROL,
    UART_TX_CONTROL, XFERMODE_MASK, XFERSIZE_MASK, tm4c_dma_uart0_rx_control_index,
    tm4c_dma_uart0_tx_control_index,
};
use crate::dma_api::DmaChannel;

verus! {

/// A write to a register of the uDMA controller or of UART0 that the driver needs done.
#[derive(Clone, Copy, Debug, PartialEq, Eq, Structural)]
pub enum RegisterWrite {
    /// uDMA CTLBASE: the base address of the channel control table.
    ControlBase,
    /// uDMA CFG: master enable.
    Configuration(u32),
    /// uDMA ENASET: channels to enable.
    EnableSet(u32),
    /// UART0 DMACTL: DMA requests of the UART.
    UartDmaControl(u32),
    /// UART0 IM: interrupt mask of the UART.
    UartInterruptMask(u32),
}

/// The driver's side of the uDMA register block: the register writes it has asked
/// for and the hardware layer has not yet performed, oldest first.
pub struct UdmaPort {
    pending: Vec<RegisterWrite>,
}

impl View for UdmaPort {
    type V = Seq<RegisterWrite>;

    closed spec fn view(&self) -> Seq<RegisterWrite> {
        self.pending@
    }
}

impl UdmaPort {
    /// A port with no pending write.
    pub fn new() -> (r: Self)
        ensures
            r@ == Seq::<RegisterWrite>::empty(),
    {
        UdmaPort { pending: Vec::new() }
    }

    /// Queues `write` after the pending ones.
    pub fn issue(&mut self, write: RegisterWrite)
        ensures
            final(self)@ == old(self)@.push(write),
    {
        self.pending.push(write);
    }

    /// Hands out the pending writes, oldest first, and leaves none pending.
    pub fn take_writes(&mut self) -> (writes: Vec<RegisterWrite>)
        ensures
            writes@ == old(self)@,
            final(self)@ == Seq::<RegisterWrite>::empty(),
    {
        let mut writes: Vec<RegisterWrite> = Vec::new();
        std::mem::swap(&mut writes, &mut self.pending);
        writes
    }
}

/// The uDMA controller as the UART0 channels use it: the channel control table and the
/// controller's register port.
pub struct tm4c_uart_dma_ctrl {
    channel_control: dma_control_structure,
    device_dma: UdmaPort,
}

impl tm4c_uart_dma_ctrl {
    /// The words of the channel control table.
    pub closed spec fn table(self) -> Seq<u32> {
        self.channel_control@
    }

    /// The register writes pending on the controller's port.
    pub closed spec fn register_writes(self) -> Seq<RegisterWrite> {
        self.device_dma@
    }

    /// The table has its 256 words.
    pub proof fn lemma_table_len(self)
        ensures
            self.table().len() == CONTROL_TABLE_WORDS,
    {
    }

    /// A controller with an all-zero control table, driving `dma_component`.
    pub fn new(dma_component: UdmaPort) -> (r: Self)
        ensures
            r.table().len() == CONTROL_TABLE_WORDS,
            forall|i: int| 0 <= i < CONTROL_TABLE_WORDS ==> r.table()[i] == 0,
            r.register_writes() == dma_component@,
    {
        let control_struct = dma_control_structure::new();
        Self { channel_control: control_struct, device_dma: dma_component }
    }

    /// Word `index` of the control table.
    pub fn control_word(&self, index: usize) -> (r: u32)
        requires
            index < CONTROL_TABLE_WORDS,
        ensures
            r == self.table()[index as int],
    {
        self.channel_control.word(index)
    }

    /// Sets word `index` of the control table to `value`.
    pub fn set_control_word(&mut self, index: usize, value: u32)
        requires
            index < CONTROL_TABLE_WORDS,
        ensures
            final(self).table() == old(self).table().update(index as int, value),
            final(self).register_writes() == old(self).register_writes(),
    {
        self.channel_control.set_word(index, value);
    }

    /// Hands out the pending register writes, oldest first, and leaves none pending.
    pub fn take_register_writes(&mut self) -> (writes: Vec<RegisterWrite>)
        ensures
            writes@ == old(self).register_writes(),
            final(self).register_writes() == Seq::<RegisterWrite>::empty(),
            final(self).table() == old(self).table(),
    {
        self.device_dma.take_writes()
    }
}

/// The UART0 transmit channel; it remembers the length last programmed.
pub struct tm4c_uart_tx_channel<'a>(pub &'a mut tm4c_uart_dma_ctrl, pub usize);

impl<'a> tm4c_uart_tx_channel<'a> {
    /// The words of the control table the channel programs.
    pub open spec fn table(self) -> Seq<u32> {
        self.0.table()
    }

    /// The register writes pending on the controller's port.
    pub open spec fn register_writes(self) -> Seq<RegisterWrite> {
        self.0.register_writes()
    }

    /// The transfer length last programmed.
    pub open spec fn transfer_len(self) -> usize {
        self.1
    }

    /// The table has its 256 words.
    pub proof fn lemma_table_len(self)
        ensures
            self.table().len() == CONTROL_TABLE_WORDS,
    {
    }

    /// Whether `dma_set_transfer_length(len)` may be called.
    pub fn accepts_length(&self, len: usize) -> (r: bool)
        ensures
            r == self.accepts_transfer_length(len),
    {
        let start: u32 = self.0.control_word(tm4c_dma_uart0_tx_control_index + SOURCE_END_POINTER);
        length_accepted(start, UART_TX_CONTROL, len)
    }

    /// Whether `dma_num_bytes_transferred` may be called.
    pub fn count_is_defined(&self) -> (r: bool)
        ensures
            r == self.byte_count_defined(),
    {
        count_defined(self.1, self.0.control_word(tm4c_dma_uart0_tx_control_index + CONTROL_WORD))
    }

    /// A transmit channel on `tm4c_dma_ctrl`, with no length programmed yet.
    pub fn new(tm4c_dma_ctrl: &'a mut tm4c_uart_dma_ctrl) -> (r: Self)
        ensures
            r.table() == old(tm4c_dma_ctrl).table(),
            r.register_writes() == old(tm4c_dma_ctrl).register_writes(),
            r.transfer_len() == 0,
            *final(r.0) == *final(tm4c_dma_ctrl),
    {
        Self(tm4c_dma_ctrl, 0)
    }
}

impl<'a> DmaChannel for tm4c_uart_tx_channel<'a> {
    open spec fn accepts_transfer_length(&self, len: usize) -> bool {
        tx_length_fits(self.table(), len)
    }

    open spec fn byte_count_defined(&self) -> bool {
        byte_count_defined(self.transfer_len(), self.table()[tx_word(CONTROL_WORD)])
    }

    open spec fn transfer_in_progress(&self) -> bool {
        in_progress(self.table()[tx_word(CONTROL_WORD)])
    }

    open spec fn transferred_bytes(&self) -> int {
        bytes_transferred(self.transfer_len(), self.table()[tx_word(CONTROL_WORD)])
    }

    fn dma_device_init(&mut self)
        ensures
            final(self).table() == tx_initialized(old(self).table()),
            final(self).register_writes() == old(self).register_writes().push(RegisterWrite::ControlBase),
            final(self).transfer_len() == old(self).transfer_len(),
            *final(final(self).0) == *final(old(self).0),
    {
        self.0.device_dma.issue(RegisterWrite::ControlBase);
        self.0.channel_control.0[tm4c_dma_uart0_tx_control_index + DESTINATION_END_POINTER] = UART0_DATA_REGISTER;
        self.0.channel_control.0[tm4c_dma_uart0_tx_control_index + CONTROL_WORD] = UART_TX_CONTROL;
    }

    fn dma_set_destination_address(&mut self, address: usize)
        ensures
            final(self).table() == tx_with_destination(old(self).table(), address),
            final(self).register_writes() == old(self).register_writes(),
            final(self).transfer_len() == old(self).transfer_len(),
            *final(final(self).0) == *final(old(self).0),
    {
        self.0.channel_control.0[tm4c_dma_uart0_tx_control_index + DESTINATION_END_POINTER] = address as u32;
    }

    fn dma_set_source_address(&mut self, address: usize)
        ensures
            final(self).table() == tx_with_source(old(self).table(), address),
            final(self).register_writes() == old(self).register_writes(),
            final(self).transfer_len() == old(self).transfer_len(),
            *final(final(self).0) == *final(old(self).0),
    {
        self.0.channel_control.0[tm4c_dma_uart0_tx_control_index + SOURCE_END_POINTER] = address as u32;
    }

    fn dma_set_transfer_length(&mut self, len: usize)
        ensures
            final(self).table() == tx_with_length(old(self).table(), len),
            final(self).register_writes() == old(self).register_writes(),
            final(self).transfer_len() == len,
            *final(final(self).0) == *final(old(self).0),
    {
        let source: usize = tm4c_dma_uart0_tx_control_index + SOURCE_END_POINTER;
        let control: usize = tm4c_dma_uart0_tx_control_index + CONTROL_WORD;
        let length: u32 = len as u32;
        let start: u32 = self.0.channel_control.0[source];
        self.0.channel_control.0[source] = start + length - 1;
        self.0.channel_control.0[control] = UART_TX_CONTROL;
        let reset: u32 = self.0.channel_control.0[control];
        self.0.channel_control.0[control] = (reset & !XFERSIZE_MASK) + ((length - 1) << 4);
        self.1 = len;
    }

    fn dma_start(&mut self)
        ensures
            final(self).table() == old(self).table(),
            final(self).register_writes() == old(self).register_writes() + start_writes(),
            final(self).transfer_len() == old(self).transfer_len(),
            *final(final(self).0) == *final(old(self).0),
    {
        self.0.issue_start_writes();
    }

    fn dma_stop(&mut self)
        ensures
            final(self).table() == old(self).table(),
            final(self).register_writes() == old(self).register_writes().push(RegisterWrite::Configuration(0)),
            final(self).transfer_len() == old(self).transfer_len(),
            *final(final(self).0) == *final(old(self).0),
    {
        self.0.device_dma.issue(RegisterWrite::Configuration(0));
    }

    fn dma_in_progress(&mut self) -> (r: bool)
        ensures
            r == in_progress(old(self).table()[tx_word(CONTROL_WORD)]),
            final(self).table() == old(self).table(),
            final(self).register_writes() == old(self).register_writes(),
            final(self).transfer_len() == old(self).transfer_len(),
            *final(final(self).0) == *final(old(self).0),
    {
        let control: u32 = self.0.channel_control.0[tm4c_dma_uart0_tx_control_index + CONTROL_WORD];
        !((control & XFERMODE_MASK) == 0)
    }

    fn dma_num_bytes_transferred(&mut self) -> (r: usize)
        ensures
            r == bytes_transferred(old(self).transfer_len(), old(self).table()[tx_word(CONTROL_WORD)]),
            final(self).table() == old(self).table(),
            final(self).register_writes() == old(self).register_writes(),
            final(self).transfer_len() == old(self).transfer_len(),
            *final(final(self).0) == *final(old(self).0),
    {
        let control: u32 = self.0.channel_control.0[tm4c_dma_uart0_tx_control_index + CONTROL_WORD];
        count_transferred(self.1, control)
    }
}

/// The UART0 receive channel; it remembers the length last programmed.
pub struct tm4c_uart_rx_channel<'a>(pub &'a mut tm4c_uart_dma_ctrl, pub usize);

impl<'a> tm4c_uart_rx_channel<'a> {
    /// The words of the control table the channel programs.
    pub open spec fn table(self) -> Seq<u32> {
        self.0.table()
    }

    /// The register writes pending on the controller's port.
    pub open spec fn register_writes(self) -> Seq<RegisterWrite> {
        self.0.register_writes()
    }

    /// The transfer length last programmed.
    pub open spec fn transfer_len(self) -> usize {
        self.1
    }

    /// The table has its 256 words.
    pub proof fn lemma_table_len(self)
        ensures
            self.table().len() == CONTROL_TABLE_WORDS,
    {
    }

    /// Whether `dma_set_transfer_length(len)` may be called.
    pub fn accepts_length(&self, len: usize) -> (r: bool)
        ensures
            r == self.accepts_transfer_length(len),
    {
        let start: u32 = self.0.control_word(tm4c_dma_uart0_rx_control_index + DESTINATION_END_POINTER);
        let control: u32 = self.0.control_word(tm4c_dma_uart0_rx_control_index + CONTROL_WORD);
        length_accepted(start, control, len)
    }

    /// Whether `dma_num_bytes_transferred` may be called.
    pub fn count_is_defined(&self) -> (r: bool)
        ensures
            r == self.byte_count_defined(),
    {
        count_defined(self.1, self.0.control_word(tm4c_dma_uart0_rx_control_index + CONTROL_WORD))
    }

    /// A receive channel on `tm4c_dma_ctrl`, with no length programmed yet.
    pub fn new(tm4c_dma_ctrl: &'a mut tm4c_uart_dma_ctrl) -> (r: Self)
        ensures
            r.table() == old(tm4c_dma_ctrl).table(),
            r.register_writes() == old(tm4c_dma_ctrl).register_writes(),
            r.transfer_len() == 0,
            *final(r.0) == *final(tm4c_dma_ctrl),
    {
        Self(tm4c_dma_ctrl, 0)
    }
}

impl<'a> DmaChannel for tm4c_uart_rx_channel<'a> {
    open spec fn accepts_transfer_length(&self, len: usize) -> bool {
        rx_length_fits(self.table(), len)
    }

    open spec fn byte_count_defined(&self) -> bool {
        byte_count_defined(self.transfer_len(), self.table()[rx_word(CONTROL_WORD)])
    }

    open spec fn transfer_in_progress(&self) -> bool {
        in_progress(self.table()[rx_word(CONTROL_WORD)])
    }

    open spec fn transferred_bytes(&self) -> int {
        bytes_transferred(self.transfer_len(), self.table()[rx_word(CONTROL_WORD)])
    }

    fn dma_device_init(&mut self)
        ensures
            final(self).table() == rx_initialized(old(self).table()),
            final(self).register_writes() == old(self).register_writes().push(RegisterWrite::ControlBase),
            final(self).transfer_len() == old(self).transfer_len(),
            *final(final(self).0) == *final(old(self).0),
    {
        self.0.device_dma.issue(RegisterWrite::ControlBase);
        self.0.channel_control.0[tm4c_dma_uart0_rx_control_index + SOURCE_END_POINTER] = UART0_DATA_REGISTER;
        self.0.channel_control.0[tm4c_dma_uart0_rx_control_index + CONTROL_WORD] = UART_RX_CONTROL;
    }

    fn dma_set_destination_address(&mut self, address: usize)
        ensures
            final(self).table() == rx_with_destination(old(self).table(), address),
            final(self).register_writes() == old(self).register_writes(),
            final(self).transfer_len() == old(self).transfer_len(),
            *final(final(self).0) == *final(old(self).0),
    {
        self.0.channel_control.0[tm4c_dma_uart0_rx_control_index + DESTINATION_END_POINTER] = address as u32;
    }

    fn dma_set_source_address(&mut self, address: usize)
        ensures
            final(self).table() == rx_with_source(old(self).table(), address),
            final(self).register_writes() == old(self).register_writes(),
            final(self).transfer_len() == old(self).transfer_len(),
            *final(final(self).0) == *final(old(self).0),
    {
        self.0.channel_control.0[tm4c_dma_uart0_rx_control_index + SOURCE_END_POINTER] = address as u32;
    }

    fn dma_set_transfer_length(&mut self, len: usize)
        ensures
            final(self).table() == rx_with_length(old(self).table(), len),
            final(self).register_writes() == old(self).register_writes(),
            final(self).transfer_len() == len,
            *final(final(self).0) == *final(old(self).0),
    {
        let destination: usize = tm4c_dma_uart0_rx_control_index + DESTINATION_END_POINTER;
        let control: usize = tm4c_dma_uart0_rx_control_index + CONTROL_WORD;
        let length: u32 = len as u32;
        let start: u32 = self.0.channel_control.0[destination];
        self.0.channel_control.0[destination] = start + length - 1;
        let current: u32 = self.0.channel_control.0[control];
        self.0.channel_control.0[control] = (current & !XFERSIZE_MASK) + ((length - 1) << 4);
        self.1 = len;
    }

    fn dma_start(&mut self)
        ensures
            final(self).table() == old(self).table(),
            final(self).register_writes() == old(self).register_writes() + start_writes(),
            final(self).transfer_len() == old(self).transfer_len(),
            *final(final(self).0) == *final(old(self).0),
    {
        self.0.issue_start_writes();
    }

    fn dma_stop(&mut self)
        ensures
            final(self).table() == old(self).table(),
            final(self).register_writes() == old(self).register_writes().push(RegisterWrite::Configuration(0)),
            final(self).transfer_len() == old(self).transfer_len(),
            *final(final(self).0) == *final(old(self).0),
    {
        self.0.device_dma.issue(RegisterWrite::Configuration(0));
    }

    fn dma_in_progress(&mut self) -> (r: bool)
        ensures
            r == in_progress(old(self).table()[rx_word(CONTROL_WORD)]),
            final(self).table() == old(self).table(),
            final(self).register_writes() == old(self).register_writes(),
            final(self).transfer_len() == old(self).transfer_len(),
            *final(final(self).0) == *final(old(self).0),
    {
        let control: u32 = self.0.channel_control.0[tm4c_dma_uart0_rx_control_index + CONTROL_WORD];
        !((control & XFERMODE_MASK) == 0)
    }

    fn dma_num_bytes_transferred(&mut self) -> (r: usize)
        ensures
            r == bytes_transferred(old(self).transfer_len(), old(self).table()[rx_word(CONTROL_WORD)]),
            final(self).table() == old(self).table(),
            final(self).register_writes() == old(self).register_writes(),
            final(self).transfer_len() == old(self).transfer_len(),
            *final(final(self).0) == *final(old(self).0),
    {
        let control: u32 = self.0.channel_control.0[tm4c_dma_uart0_rx_control_index + CONTROL_WORD];
        count_transferred(self.1, control)
    }
}

/// The register writes that start a UART0 transfer: the UART's transmit and receive DMA
/// requests on, its interrupt mask to `0x30`, the two UART0 channels enabled, the
/// controller's master enable set.
pub open spec fn start_writes() -> Seq<RegisterWrite> {
    seq![
        RegisterWrite::UartDmaControl(3),
        RegisterWrite::UartInterruptMask(0x30),
        RegisterWrite::EnableSet(0x300),
        RegisterWrite::Configuration(1),
    ]
}

impl tm4c_uart_dma_ctrl {
    /// Queues the writes of `start_writes`.
    fn issue_start_writes(&mut self)
        ensures
            final(self).table() == old(self).table(),
            final(self).register_writes() == old(self).register_writes() + start_writes(),
    {
        self.device_dma.issue(RegisterWrite::UartDmaControl(3));
        self.device_dma.issue(RegisterWrite::UartInterruptMask(0x30));
        self.device_dma.issue(RegisterWrite::EnableSet(0x300));
        self.device_dma.issue(RegisterWrite::Configuration(1));
    }
}

} // verus!
