//! Key/value rendering for line-oriented log output.
//!
//! A log record carries an ordered set of structured attributes. This crate
//! renders that set into the textual tail of a formatted log line, behind
//! three small capabilities: a `Source` drives a `Visitor` over every pair in
//! presentation order, and a `Sink` receives the text. Two render policies
//! are shipped: `default_kv_format` writes every pair as `" key=value"`, and
//! `hidden_kv_format` suppresses the pairs entirely.

mod errors;
mod render;
mod sink;
mod source;

pub use errors::{kv_error_from_sink, render_error_from_kv, KvError, RenderError, SinkError};
pub use render::{
    default_kv_format, hidden_kv_format, lemma_render_pairs_push, lemma_render_pairs_split,
    render_pair, render_pairs,
};
pub use sink::{LimitedSink, Sink, StringSink};
pub use source::{Source, VecSource, Visitor};
