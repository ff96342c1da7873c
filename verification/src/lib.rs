//! Payloads of merchant-presented QR codes for payments, after the EMVCo
//! standard as profiled for Ethiopia.
//!
//! A payload is a sequence of data objects, each written as a two-digit
//! identifier, the length of its value in two decimal digits, and the value,
//! and closed by a CRC-16 checksum. [`QRBuilder`] collects the merchant, the
//! payment schemes and the details of a transaction, checks them and writes
//! the payload; [`crc`] computes and verifies the checksum on its own.

pub mod builder;
pub mod constants;
pub mod crc;
pub mod crc_table;
pub mod error;
pub mod fields;
pub mod tags;
pub mod text;
pub mod tlv;
pub mod utf8;

pub use crate::builder::QRBuilder;
pub use crate::tlv::EMVTag;
