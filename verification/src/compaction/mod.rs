//! Local conversation compaction: deciding when a conversation has outgrown
//! the model's context window, which recent turns to keep verbatim, and which
//! old tool outputs to blank out.
pub mod algorithm;
pub mod commit;
pub mod config;
pub mod consts;
pub mod overflow;
pub mod token;
