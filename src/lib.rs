//! Detection-rule adapters for SIEM backends: the decisions each operation
//! makes, from the configuration and rule documents it receives to the
//! requests it issues and the outcome it reports.

pub mod props;
pub mod text;
pub mod json;
pub mod http;
pub mod sentinel;
pub mod splunk;
