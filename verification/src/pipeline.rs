//! The orchestrator: sequences parsing, credential check, identity
//! resolution, match-id listing, detail fan-in, aggregation and rendering,
//! short-circuiting on the first failure and returning it unchanged.
//!
//! The network fetches themselves run outside the library; the orchestrator
//! takes each fetch's classified outcome and is exact about which response
//! or error envelope every combination of outcomes produces.

use vstd::prelude::*;

use crate::command::build_played_command;
use crate::command::find_days;
use crate::command::find_user;
use crate::command::missing_option_error;
use crate::lookup::collect_summaries;
use crate::lookup::first_failure;
use crate::lookup::is_missing_key_error;
use crate::lookup::is_not_found_error;
use crate::lookup::is_upstream_error;
use crate::lookup::list_match_ids;
use crate::lookup::oks_of;
use crate::lookup::require_api_key;
use crate::lookup::resolve_identity;
use crate::render::format_played_response;
use crate::render::played_response_chars;
use crate::stats::aggregate;
use crate::stats::spec_aggregate;
use crate::types::BotError;
use crate::types::BotResponse;
use crate::types::CommandOption;
use crate::types::FetchError;
use crate::types::FetchErrorKind;
use crate::types::MatchSummary;
use crate::types::ResponsePayload;
use vstd::string::StringExecFns;

verus! {

/// Every stage of the played-command pipeline succeeds on these inputs.
pub open spec fn pipeline_all_ok(
    options: Seq<CommandOption>,
    api_key: Option<String>,
    identity_outcome: Result<String, FetchError>,
    match_ids_outcome: Result<Vec<String>, FetchError>,
    detail_outcomes: Seq<Result<MatchSummary, FetchError>>,
) -> bool {
    &&& find_user(options) is Some
    &&& find_days(options) is Some
    &&& api_key is Some
    &&& identity_outcome is Ok
    &&& match_ids_outcome is Ok
    &&& first_failure(detail_outcomes) is None
}

/// The text of the successful answer: the response template over the parsed
/// command and the aggregation of the fetched summaries.
pub open spec fn pipeline_response_chars(
    options: Seq<CommandOption>,
    detail_outcomes: Seq<Result<MatchSummary, FetchError>>,
) -> Seq<char>
    recommends
        find_user(options) is Some,
        find_days(options) is Some,
{
    played_response_chars(
        find_user(options)->Some_0,
        find_days(options)->Some_0,
        spec_aggregate(oks_of(detail_outcomes)),
    )
}

/// The envelope of the first failing stage, in pipeline order: command
/// validation, credential, identity lookup, match-id listing, detail
/// fan-in. When every stage succeeds no envelope satisfies this.
pub open spec fn pipeline_error(
    e: BotError,
    options: Seq<CommandOption>,
    api_key: Option<String>,
    identity_outcome: Result<String, FetchError>,
    match_ids_outcome: Result<Vec<String>, FetchError>,
    detail_outcomes: Seq<Result<MatchSummary, FetchError>>,
) -> bool {
    let u = find_user(options);
    let d = find_days(options);
    let ff = first_failure(detail_outcomes);
    if u is None || d is None {
        missing_option_error(e)
    } else if api_key is None {
        is_missing_key_error(e)
    } else if identity_outcome is Err {
        if identity_outcome->Err_0.kind == FetchErrorKind::Status(404) {
            is_not_found_error(e, u->Some_0)
        } else {
            is_upstream_error(e, identity_outcome->Err_0)
        }
    } else if match_ids_outcome is Err {
        is_upstream_error(e, match_ids_outcome->Err_0)
    } else if ff is Some {
        is_upstream_error(e, ff->Some_0)
    } else {
        false
    }
}

/// Runs the played command over the outcomes of its fetches: validates the
/// options, requires the credential, resolves the identity, accepts the
/// match-id listing, fans in the match details, aggregates and renders.
/// The first failing stage short-circuits the pipeline and its envelope is
/// returned unchanged.
pub fn execute_played_command(
    options: Vec<CommandOption>,
    api_key: Option<String>,
    identity_outcome: Result<String, FetchError>,
    match_ids_outcome: Result<Vec<String>, FetchError>,
    detail_outcomes: Vec<Result<MatchSummary, FetchError>>,
) -> (r: Result<String, BotError>)
    ensures
        r matches Ok(text) ==> (pipeline_all_ok(
            options@,
            api_key,
            identity_outcome,
            match_ids_outcome,
            detail_outcomes@,
        ) && text@ == pipeline_response_chars(options@, detail_outcomes@)),
        r matches Err(e) ==> pipeline_error(
            e,
            options@,
            api_key,
            identity_outcome,
            match_ids_outcome,
            detail_outcomes@,
        ),
{
    let command = match build_played_command(options) {
        Ok(c) => c,
        Err(e) => {
            return Err(e);
        },
    };
    let _api_key = match require_api_key(api_key) {
        Ok(k) => k,
        Err(e) => {
            return Err(e);
        },
    };
    let _puuid = match resolve_identity(identity_outcome, command.player_name.as_str()) {
        Ok(p) => p,
        Err(e) => {
            return Err(e);
        },
    };
    let _match_ids = match list_match_ids(match_ids_outcome) {
        Ok(ids) => ids,
        Err(e) => {
            return Err(e);
        },
    };
    let summaries = match collect_summaries(detail_outcomes) {
        Ok(s) => s,
        Err(e) => {
            return Err(e);
        },
    };
    let stats = aggregate(&summaries);
    Ok(format_played_response(&command.player_name, command.days, &stats))
}

/// Dispatches one decoded interaction: a ping is acknowledged, a command
/// interaction runs the played-command pipeline, and anything else is a
/// client-error. Failures pass to the caller unchanged.
pub fn process_request(
    interaction_type: Option<i64>,
    options: Vec<CommandOption>,
    api_key: Option<String>,
    identity_outcome: Result<String, FetchError>,
    match_ids_outcome: Result<Vec<String>, FetchError>,
    detail_outcomes: Vec<Result<MatchSummary, FetchError>>,
) -> (r: Result<BotResponse, BotError>)
    ensures
        interaction_type == Some(1i64) ==> (r matches Ok(resp) && resp.status_code == 200
            && resp.payload is Pong),
        (interaction_type == Some(2i64) && pipeline_all_ok(
            options@,
            api_key,
            identity_outcome,
            match_ids_outcome,
            detail_outcomes@,
        )) ==> (r matches Ok(resp) && resp.status_code == 200 && (resp.payload matches
        ResponsePayload::Message(text) && text@ == pipeline_response_chars(
            options@,
            detail_outcomes@,
        ))),
        (interaction_type == Some(2i64) && !pipeline_all_ok(
            options@,
            api_key,
            identity_outcome,
            match_ids_outcome,
            detail_outcomes@,
        )) ==> (r matches Err(e) && pipeline_error(
            e,
            options@,
            api_key,
            identity_outcome,
            match_ids_outcome,
            detail_outcomes@,
        )),
        (interaction_type != Some(1i64) && interaction_type != Some(2i64)) ==> (r matches Err(e)
            && e.status_code == 400 && e.body@ == "Unrecognised request type"@),
{
    match interaction_type {
        Some(1i64) => Ok(
            BotResponse { status_code: 200, payload: ResponsePayload::Pong },
        ),
        Some(2i64) => {
            match execute_played_command(
                options,
                api_key,
                identity_outcome,
                match_ids_outcome,
                detail_outcomes,
            ) {
                Ok(text) => Ok(
                    BotResponse { status_code: 200, payload: ResponsePayload::Message(text) },
                ),
                Err(e) => Err(e),
            }
        },
        _ => {
            let mut body = String::new();
            body.append("Unrecognised request type");
            Err(BotError { status_code: 400, body })
        },
    }
}

} // verus!
