//! Board-pin translation for a micro:bit-style nRF52833 board, plus the small
//! pieces of logic shared by the demo programs that drive its peripherals.

pub mod banner;
pub mod pins;
pub mod registry;
