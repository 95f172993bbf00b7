//! Register addressing and value decoding for the Maxim MAX1720x family of
//! battery fuel gauges.
//!
//! The gauge answers on two bus addresses, one for each bank of its register
//! space, and reports every quantity as a 16-bit little-endian word. This crate
//! says which transaction reads a quantity and what the two bytes that come
//! back mean; performing the transaction is left to the caller.
//!
//! Readings are exact integers: the state of charge in 1/256 of a percent, the
//! pack voltage in microvolts and the current in nanoamperes.

pub mod decode;
pub mod driver;
pub mod registers;
pub mod status;

pub use decode::{
    microvolts, nanoamps, signed, word, MICROVOLTS_PER_STEP, NANOAMPS_PER_STEP, STEPS_PER_PERCENT,
};
pub use driver::{MAX1720x, Query, Request, RESPONSE_LEN};
pub use registers::{bank_addr, device_addr, reg_addr, Registers, ADDR_LOWER, ADDR_UPPER};
pub use status::Status;
