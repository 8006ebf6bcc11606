//! Utilities of an order book: the wall-clock reading used to stamp events.
pub mod utils;
