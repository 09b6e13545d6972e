//! Decoder for an append-only journal of newline-delimited, semi-structured
//! event records. Each line is parsed into a generic tree, dispatched on its
//! discriminator field to a typed variant schema, and either decoded into a
//! strongly typed record or reported as a per-line error; unknown event kinds
//! are kept verbatim so that the format can evolve without breaking callers.

pub mod tree;
pub mod errors;
pub mod names;
pub mod scales;
pub mod coerce;
pub mod parse;
pub mod schemas;
pub mod stats;
pub mod dispatch;
pub mod pipeline;
