//! Conversion of Arrow record batches into SQL Server rows.
//!
//! A [`mapping::SchemaMapping`] plans how one Arrow field becomes one SQL Server column. Rows of a
//! [`batch::RecordBatch`] are converted cell by cell ([`convert`], [`token_row`]) or encoded as raw
//! TDS rows ([`direct`]). Floating point values are held as their IEEE 754 bit patterns throughout.

pub mod text;
pub mod arrow_type;
pub mod mssql_type;
pub mod mapping;
pub mod context;
pub mod classify;
pub mod message;
pub mod diagnostic;
pub mod cell;
pub mod batch;
pub mod value_error;
pub mod timezone;
pub mod temporal;
pub mod float;
pub mod decimal;
pub mod utf16;
pub mod convert;
pub mod token_row;
pub mod direct;
pub mod laws;
