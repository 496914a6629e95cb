//! Direct raw TDS row encoding.
//!
//! A [`plan`] says how each mapped column is encoded. An [`encoder`] binds a batch to its plan
//! ([`binding`], [`bound`]), measures the cells ([`measure`]) and writes the rows ([`encode`],
//! [`append`]). What the bytes of a batch are is stated once, in [`image`]; [`laws`] relates the
//! ways of producing them.

pub mod wire;
pub mod decimal;
pub mod layout;
pub mod payload;
pub mod rows;
pub mod measure;
pub mod plan;
pub mod cell;
pub mod temporal;
pub mod value;
pub mod encoder;
pub mod binding;
pub mod image;
pub mod bound;
pub mod assemble;
pub mod fixed_width;
pub mod encode;
pub mod append;
pub mod primitive;
pub mod primitive_rows;
pub mod laws;
