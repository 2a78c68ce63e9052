# lc3_tm4c

UART0 DMA channels of the TM4C123x micro DMA (uDMA) controller, verified with Verus.

- `src/control.rs`: the channel control table (256 words, 4 per channel), the words the
  UART0 receive (channel 8) and transmit (channel 9) entries use, the fields of a control
  word, and the spec functions that say what each channel operation does to the table.
- `src/dma_api.rs`: `Dma1Channel` and the `DmaChannel` trait.
- `src/dma_impl.rs`: the controller (`tm4c_uart_dma_ctrl`), its register port
  (`UdmaPort`, the register writes the driver asks for) and the two channels with their
  `DmaChannel` contracts.
- `src/laws.rs`: properties across calls (a programmed length reads back as its count,
  the byte count follows the uDMA's progress, each channel changes only its own entry).
- `app/lib.rs`: the hardware side: the aligned table the uDMA reads, kept in step with
  the library's table around each call, and the register writes on the uDMA and UART0
  blocks.

Not carried over: `RAM_backed_flash_memory`, an LC-3 memory backed by flash pages. Its only
work is done by a RAM page cache and flash driver (`paging` and `flash` modules) that are
not part of these sources, and by the `lc3-traits` memory trait, which is not available;
its remaining methods are no-ops or unimplemented.
