//! # libcdio-rs
//! Safe interface to optical disc drives and images: SCSI MMC command
//! blocks and response decoding, drive capability sets, ISO 9660 and UDF
//! entry metadata and block-wise file reading.
//!
//! The device and filesystem handles themselves live with the platform
//! binding; this crate holds the data formats, the decisions taken on
//! device replies, and their proofs.

pub mod bytes;
pub mod text;
pub mod open;
pub mod mmc;
pub mod drive;
pub mod reader;
pub mod datetime;
pub mod mode;
pub mod iso9660;
pub mod udf;
pub mod report;
pub mod logging;
pub mod cli;
