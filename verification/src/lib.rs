//! Typed register catalog and decoder for Huawei solar inverters.
//!
//! The inverter exposes its telemetry as Modbus holding registers. This crate
//! describes the readable quantities, turns the raw 16-bit words of a read
//! into typed values, and sequences the reads of a query. The transport
//! itself stays with the caller: the crate says which register to read next
//! and takes the words (or the failure) that came back.

pub mod catalog;
pub mod decode;
pub mod query;
pub mod registers;
pub mod report;
pub mod results;
pub mod selection;
pub mod status;
