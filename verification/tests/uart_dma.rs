use lc3_tm4c::control::{
    count_defined, count_transferred, dma_control_structure, length_accepted,
    CONTROL_TABLE_WORDS, UART0_DATA_REGISTER, UART_RX_CONTROL, UART_TX_CONTROL,
};
use lc3_tm4c::dma_api::DmaChannel;
use lc3_tm4c::dma_impl::{
    tm4c_uart_dma_ctrl, tm4c_uart_rx_channel, tm4c_uart_tx_channel, RegisterWrite, UdmaPort,
};

const TX_SOURCE: usize = 36;
const TX_DESTINATION: usize = 37;
const TX_CONTROL: usize = 38;
const RX_SOURCE: usize = 32;
const RX_DESTINATION: usize = 33;
const RX_CONTROL: usize = 34;

fn words(ctrl: &tm4c_uart_dma_ctrl) -> Vec<u32> {
    (0..CONTROL_TABLE_WORDS).map(|i| ctrl.control_word(i)).collect()
}

#[test]
fn new_controller_has_zero_table_and_no_writes() {
    let mut ctrl = tm4c_uart_dma_ctrl::new(UdmaPort::new());
    assert!(words(&ctrl).iter().all(|&w| w == 0));
    assert!(ctrl.take_register_writes().is_empty());
}

#[test]
fn control_table_words_read_back() {
    let mut table = dma_control_structure::new();
    assert_eq!(table.word(255), 0);
    table.set_word(255, 0xdead_beef);
    assert_eq!(table.word(255), 0xdead_beef);
    assert_eq!(table.word(254), 0);
}

#[test]
fn tx_device_init_programs_entry() {
    let mut ctrl = tm4c_uart_dma_ctrl::new(UdmaPort::new());
    {
        let mut tx = tm4c_uart_tx_channel::new(&mut ctrl);
        tx.dma_device_init();
        assert!(tx.dma_in_progress());
    }
    assert_eq!(ctrl.control_word(TX_DESTINATION), 0x4000_c000);
    assert_eq!(ctrl.control_word(TX_CONTROL), 0xC000_3FF1);
    assert_eq!(ctrl.control_word(TX_CONTROL), UART_TX_CONTROL);
    assert_eq!(ctrl.control_word(TX_SOURCE), 0);
    assert_eq!(ctrl.take_register_writes(), vec![RegisterWrite::ControlBase]);
}

#[test]
fn rx_device_init_programs_entry() {
    let mut ctrl = tm4c_uart_dma_ctrl::new(UdmaPort::new());
    {
        let mut rx = tm4c_uart_rx_channel::new(&mut ctrl);
        rx.dma_device_init();
        assert!(rx.dma_in_progress());
    }
    assert_eq!(ctrl.control_word(RX_SOURCE), UART0_DATA_REGISTER);
    assert_eq!(ctrl.control_word(RX_CONTROL), 0x0C00_3FF1);
    assert_eq!(ctrl.control_word(RX_CONTROL), UART_RX_CONTROL);
    assert_eq!(ctrl.control_word(RX_DESTINATION), 0);
    assert_eq!(ctrl.take_register_writes(), vec![RegisterWrite::ControlBase]);
}

#[test]
fn tx_length_sets_end_pointer_and_count() {
    let mut ctrl = tm4c_uart_dma_ctrl::new(UdmaPort::new());
    let mut tx = tm4c_uart_tx_channel::new(&mut ctrl);
    tx.dma_device_init();
    tx.dma_set_source_address(0x2000_0000);
    tx.dma_set_transfer_length(40);
    assert_eq!(tx.0.control_word(TX_SOURCE), 0x2000_0027);
    assert_eq!(tx.0.control_word(TX_CONTROL), 0xC000_0271);
    assert!(tx.dma_in_progress());
    assert_eq!(tx.dma_num_bytes_transferred(), 0);
}

#[test]
fn tx_length_over_1024_spills_past_the_count_field() {
    let mut ctrl = tm4c_uart_dma_ctrl::new(UdmaPort::new());
    let mut tx = tm4c_uart_tx_channel::new(&mut ctrl);
    tx.dma_set_source_address(0x2000_0000);
    tx.dma_set_transfer_length(2000);
    assert_eq!(tx.0.control_word(TX_CONTROL), 0xC000_0001 + (1999 << 4));
    assert_eq!(tx.0.control_word(TX_SOURCE), 0x2000_0000 + 1999);
}

#[test]
fn rx_length_keeps_mode_and_sets_count() {
    let mut ctrl = tm4c_uart_dma_ctrl::new(UdmaPort::new());
    let mut rx = tm4c_uart_rx_channel::new(&mut ctrl);
    rx.dma_device_init();
    rx.dma_set_destination_address(0x2000_1000);
    rx.dma_set_transfer_length(40);
    assert_eq!(rx.0.control_word(RX_DESTINATION), 0x2000_1027);
    assert_eq!(rx.0.control_word(RX_CONTROL), 0x0C00_0271);
    assert!(rx.dma_in_progress());
    assert_eq!(rx.dma_num_bytes_transferred(), 0);
}

#[test]
fn rx_length_on_idle_entry_reports_whole_length() {
    let mut ctrl = tm4c_uart_dma_ctrl::new(UdmaPort::new());
    let mut rx = tm4c_uart_rx_channel::new(&mut ctrl);
    rx.dma_set_transfer_length(8);
    assert_eq!(rx.0.control_word(RX_CONTROL), 7 << 4);
    assert_eq!(rx.0.control_word(RX_DESTINATION), 7);
    assert!(!rx.dma_in_progress());
    assert_eq!(rx.dma_num_bytes_transferred(), 8);
}

#[test]
fn byte_count_follows_hardware_progress() {
    let mut ctrl = tm4c_uart_dma_ctrl::new(UdmaPort::new());
    let mut tx = tm4c_uart_tx_channel::new(&mut ctrl);
    tx.dma_device_init();
    tx.dma_set_transfer_length(40);
    // the uDMA has moved 10 bytes: 30 transfers left, XFERSIZE holds 29
    tx.0.set_control_word(TX_CONTROL, 0xC000_0001 | (29 << 4));
    assert!(tx.dma_in_progress());
    assert_eq!(tx.dma_num_bytes_transferred(), 10);
    // the uDMA has finished: mode back to stop
    tx.0.set_control_word(TX_CONTROL, 0xC000_0000);
    assert!(!tx.dma_in_progress());
    assert_eq!(tx.dma_num_bytes_transferred(), 40);
}

#[test]
fn start_and_stop_issue_register_writes() {
    let mut ctrl = tm4c_uart_dma_ctrl::new(UdmaPort::new());
    {
        let mut tx = tm4c_uart_tx_channel::new(&mut ctrl);
        tx.dma_start();
        tx.dma_stop();
    }
    assert_eq!(
        ctrl.take_register_writes(),
        vec![
            RegisterWrite::UartDmaControl(3),
            RegisterWrite::UartInterruptMask(0x30),
            RegisterWrite::EnableSet(0x300),
            RegisterWrite::Configuration(1),
            RegisterWrite::Configuration(0),
        ]
    );
    assert!(ctrl.take_register_writes().is_empty());
    assert!(words(&ctrl).iter().all(|&w| w == 0));
}

#[test]
fn rx_start_and_stop_issue_register_writes() {
    let mut ctrl = tm4c_uart_dma_ctrl::new(UdmaPort::new());
    {
        let mut rx = tm4c_uart_rx_channel::new(&mut ctrl);
        rx.dma_stop();
        rx.dma_start();
    }
    assert_eq!(
        ctrl.take_register_writes(),
        vec![
            RegisterWrite::Configuration(0),
            RegisterWrite::UartDmaControl(3),
            RegisterWrite::UartInterruptMask(0x30),
            RegisterWrite::EnableSet(0x300),
            RegisterWrite::Configuration(1),
        ]
    );
}

#[test]
fn address_setters_write_own_entries() {
    let mut ctrl = tm4c_uart_dma_ctrl::new(UdmaPort::new());
    {
        let mut tx = tm4c_uart_tx_channel::new(&mut ctrl);
        tx.dma_set_destination_address(0x2000_0100);
        tx.dma_set_source_address(0x2000_0200);
    }
    assert_eq!(ctrl.control_word(TX_DESTINATION), 0x2000_0100);
    assert_eq!(ctrl.control_word(TX_SOURCE), 0x2000_0200);
    assert_eq!(ctrl.control_word(RX_DESTINATION), 0);
    assert_eq!(ctrl.control_word(RX_SOURCE), 0);
    {
        let mut rx = tm4c_uart_rx_channel::new(&mut ctrl);
        rx.dma_set_destination_address(0x2000_0300);
        rx.dma_set_source_address(0x2000_0400);
    }
    assert_eq!(ctrl.control_word(RX_DESTINATION), 0x2000_0300);
    assert_eq!(ctrl.control_word(RX_SOURCE), 0x2000_0400);
    assert_eq!(ctrl.control_word(TX_DESTINATION), 0x2000_0100);
    assert_eq!(ctrl.control_word(TX_SOURCE), 0x2000_0200);
}

#[test]
fn long_length_keeps_low_ten_bits_of_count() {
    let mut ctrl = tm4c_uart_dma_ctrl::new(UdmaPort::new());
    let mut tx = tm4c_uart_tx_channel::new(&mut ctrl);
    tx.dma_set_transfer_length(1025);
    let control = tx.0.control_word(TX_CONTROL);
    assert_eq!((control & 0x3FF0) >> 4, 0);
    assert_eq!(control & 0x7, 1);
    assert_eq!(tx.dma_num_bytes_transferred(), 1024);
}

#[test]
fn channel_precondition_checks() {
    let mut ctrl = tm4c_uart_dma_ctrl::new(UdmaPort::new());
    {
        let mut tx = tm4c_uart_tx_channel::new(&mut ctrl);
        assert!(tx.accepts_length(40));
        assert!(!tx.accepts_length(0));
        tx.dma_set_source_address(0xFFFF_FFF0);
        assert!(tx.accepts_length(15));
        assert!(!tx.accepts_length(16));
        assert!(tx.count_is_defined());
        tx.0.set_control_word(TX_CONTROL, 0xC000_0001 | (39 << 4));
        assert!(!tx.count_is_defined());
    }
    {
        let mut rx = tm4c_uart_rx_channel::new(&mut ctrl);
        assert!(rx.accepts_length(40));
        rx.0.set_control_word(RX_CONTROL, 0xFFFF_C001);
        assert!(!rx.accepts_length(0x401));
        assert!(rx.accepts_length(0x400));
        rx.dma_set_transfer_length(8);
        assert!(rx.count_is_defined());
        assert_eq!(rx.dma_num_bytes_transferred(), 0);
    }
}

#[test]
fn tx_programming_leaves_rx_entry_alone() {
    let mut ctrl = tm4c_uart_dma_ctrl::new(UdmaPort::new());
    {
        let mut rx = tm4c_uart_rx_channel::new(&mut ctrl);
        rx.dma_device_init();
        rx.dma_set_destination_address(0x2000_1000);
        rx.dma_set_transfer_length(16);
    }
    let before = words(&ctrl);
    {
        let mut tx = tm4c_uart_tx_channel::new(&mut ctrl);
        tx.dma_device_init();
        tx.dma_set_source_address(0x2000_0000);
        tx.dma_set_transfer_length(16);
    }
    let after = words(&ctrl);
    for i in 0..CONTROL_TABLE_WORDS {
        if !(36..40).contains(&i) {
            assert_eq!(before[i], after[i], "word {}", i);
        }
    }
}

#[test]
fn count_of_transfer() {
    assert_eq!(count_transferred(40, 0xC000_0000), 40);
    assert_eq!(count_transferred(40, 0xC000_0001 | (39 << 4)), 0);
    assert_eq!(count_transferred(40, 0xC000_0001 | (0 << 4)), 39);
    assert!(count_defined(40, 0xC000_0001 | (39 << 4)));
    assert!(!count_defined(40, 0xC000_0001 | (40 << 4)));
    assert!(count_defined(0, 0));
}

#[test]
fn length_acceptance() {
    assert!(length_accepted(0x2000_0000, UART_TX_CONTROL, 40));
    assert!(!length_accepted(0x2000_0000, UART_TX_CONTROL, 0));
    assert!(!length_accepted(u32::MAX, UART_TX_CONTROL, 1));
    assert!(length_accepted(u32::MAX - 1, UART_TX_CONTROL, 1));
    // a count that carries past the top of the control word
    assert!(!length_accepted(0, 0xC000_0001, 0x0400_0001));
    assert!(length_accepted(0, 0xC000_0001, 0x0400_0000));
}
