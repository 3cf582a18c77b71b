//! The data shapes that flow through the command pipeline.

use vstd::prelude::*;

verus! {

/// One named option of a slash command, as delivered by the event source:
/// either a string-valued or a number-valued option.
#[derive(Clone, PartialEq, Eq, Debug)]
pub enum CommandOption {
    StringCommandOption(StringOption),
    NumberCommandOption(NumberOption),
}

/// A string-valued command option.
#[derive(Clone, PartialEq, Eq, Debug)]
pub struct StringOption {
    pub name: String,
    pub value: String,
}

/// A number-valued command option.
#[derive(Clone, PartialEq, Eq, Debug)]
pub struct NumberOption {
    pub name: String,
    pub value: u64,
}

/// The validated projection of a command: the player to look up and the
/// trailing window of days to report on.
#[derive(Clone, PartialEq, Eq, Debug)]
pub struct PlayedCommand {
    pub player_name: String,
    pub days: u64,
}

/// The per-match facts the aggregator needs: how long the match lasted and
/// whether the player won it.
#[derive(Clone, Copy, PartialEq, Eq, Structural, Debug)]
pub struct MatchSummary {
    pub duration_millis: u64,
    pub participant_won: bool,
}

/// The reduction of a set of match summaries.
#[derive(Clone, Copy, PartialEq, Eq, Structural, Debug)]
pub struct AggregatedStats {
    pub total_millis: u64,
    pub wins: u64,
    pub losses: u64,
}

/// The uniform failure envelope: every stage failure is mapped into exactly
/// one of these before it crosses the pipeline boundary.
#[derive(Clone, PartialEq, Eq, Debug)]
pub struct BotError {
    pub status_code: u32,
    pub body: String,
}

/// How a single bounded fetch can fail.
#[derive(Clone, Copy, PartialEq, Eq, Structural, Debug)]
pub enum FetchErrorKind {
    /// The request never produced a response.
    Network,
    /// The upstream answered with the given non-success status code.
    Status(u32),
    /// The upstream answered, but the body could not be decoded.
    MalformedBody,
}

/// A classified failure of one bounded fetch.
#[derive(Clone, PartialEq, Eq, Debug)]
pub struct FetchError {
    pub kind: FetchErrorKind,
    pub detail: String,
}

/// What the handler answers with: an acknowledgement of a ping, or a text
/// message for the user.
#[derive(Clone, PartialEq, Eq, Debug)]
pub enum ResponsePayload {
    Pong,
    Message(String),
}

/// A successful response envelope.
#[derive(Clone, PartialEq, Eq, Debug)]
pub struct BotResponse {
    pub status_code: u32,
    pub payload: ResponsePayload,
}

} // verus!
