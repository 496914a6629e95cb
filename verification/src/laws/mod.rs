//! What the conversions are for.
//!
//! Each law relates the inputs of a conversion to its result by arithmetic on the numbers, texts
//! and bytes themselves. It goes through the functions that contracts are built from only to name
//! the outcome that it is about, or where another law says what such a function gives.

pub mod batches;
pub mod buffers;
pub mod cells;
pub mod classes;
pub mod client;
pub mod errors;
pub mod layouts;
pub mod messages;
pub mod plans;
pub mod primitives;
pub mod reading;
pub mod reports;
pub mod results;
pub mod rows;
pub mod temporal;
pub mod texts;
pub mod timezone;
pub mod values;
pub mod wire;
