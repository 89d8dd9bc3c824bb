//! Two minimal guarded-executor program stubs, `crispr_protocol` and
//! `elisa_protocol`. Each exposes a single entry point that accepts an
//! ordered sequence of textual steps and rejects the call when the sequence
//! holds more than fifty entries; otherwise it does nothing.

pub mod crispr_protocol;
pub mod elisa_protocol;
