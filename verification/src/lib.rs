//! A verified core for driving operations on a managed host: the multi-frame
//! request/reply wire protocol, the chunked file-transfer channel, and the
//! platform dispatch rules, stated and proved over a plain-data model of the
//! connection. Socket transport, process launch and system scraping live
//! outside this crate and exchange plain values with it.

pub mod command;
pub mod error;
pub mod file;
pub mod frames;
pub mod host;
pub mod num;
pub mod package;
pub mod remote;
pub mod service;
pub mod target;
pub mod telemetry;
pub mod text;
