//! Driver core for ST7789 based 240x320 colour panels.
//!
//! The crate holds the parts of a display driver that can be reasoned about
//! without touching hardware: the controller's command scripts, the state
//! machine that sequences them, the clipping arithmetic behind the
//! framebuffer mirror, and the word encoding of the 9-bit serial transport.
//! Everything that talks to a bus, a pin or a timer lives with the caller,
//! which performs one step at a time and reports how it went.

pub mod display;
pub mod peripherals;
pub mod spi_pio;
