//! Decision logic for a pull-based external scaler that watches a remote job
//! queue: a snapshot data model, request-metadata validation, and the four
//! protocol operations, each with a verified contract.

pub mod agent_api;
pub mod externalscaler;
pub mod parse;
