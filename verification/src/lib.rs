//! A verified core for a webhook-driven "played" command bot.
//!
//! The library validates slash-command options, models the bounded-concurrency
//! discipline used when talking to the upstream gameplay-statistics API, maps
//! upstream outcomes to a uniform error envelope, aggregates per-match
//! summaries, and renders the final textual answer.

pub mod command;
pub mod fetcher;
pub mod lookup;
pub mod pipeline;
pub mod render;
pub mod stats;
pub mod text;
pub mod types;
