//! Channel control for the TM4C123x micro DMA (uDMA) controller as it serves UART0:
//! the layout of the channel control table, the words the driver programs into it,
//! and the register writes the driver asks the hardware layer to perform.
#![allow(non_camel_case_types)]
#![allow(non_upper_case_globals)]

pub mod control;
pub mod dma_api;
pub mod dma_impl;
pub mod laws;
