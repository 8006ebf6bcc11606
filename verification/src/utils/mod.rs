//! Small helpers shared by the order book.
pub mod time;
