//! The multi-stage lookup sequence: credential check, identity resolution,
//! match-id listing, and the fan-in of the concurrently fetched match
//! details.
//!
//! The fetches themselves run outside the library; each function here takes
//! the classified outcome of its fetch and maps it, exactly, to the next
//! pipeline value or to the uniform error envelope.

use vstd::prelude::*;
use vstd::string::StringExecFns;

use crate::types::BotError;
use crate::types::FetchError;
use crate::types::FetchErrorKind;
use crate::types::MatchSummary;

verus! {

/// Milliseconds in one day.
pub const MILLIS_PER_DAY: u64 = 86400000;

/// The width of the trailing window, in milliseconds.
pub open spec fn spec_window_millis(days: u64) -> int {
    days as int * MILLIS_PER_DAY as int
}

/// The envelope for a missing API credential: a fatal server-error.
pub open spec fn is_missing_key_error(r: BotError) -> bool {
    r.status_code == 500 && r.body@ == "Missing LOL API key"@
}

/// The envelope for a player the upstream does not know: a client-error
/// naming the missing player.
pub open spec fn is_not_found_error(r: BotError, player_name: Seq<char>) -> bool {
    r.status_code == 404 && r.body@ == "Could not find player "@ + player_name
}

/// The envelope for an upstream transport, auth or decoding failure: a
/// server-error carrying the failure's detail.
pub open spec fn is_upstream_error(r: BotError, e: FetchError) -> bool {
    r.status_code == 500 && r.body@ == e.detail@
}

/// The first failure among the collected fetch outcomes, in arrival order.
pub open spec fn first_failure(results: Seq<Result<MatchSummary, FetchError>>) -> Option<
    FetchError,
>
    decreases results.len(),
{
    if results.len() == 0 {
        None
    } else if results[0] is Err {
        Some(results[0]->Err_0)
    } else {
        first_failure(results.drop_first())
    }
}

/// The successfully fetched summaries, in arrival order.
pub open spec fn oks_of(results: Seq<Result<MatchSummary, FetchError>>) -> Seq<MatchSummary>
    decreases results.len(),
{
    if results.len() == 0 {
        Seq::empty()
    } else if results[0] is Ok {
        seq![results[0]->Ok_0] + oks_of(results.drop_first())
    } else {
        oks_of(results.drop_first())
    }
}

/// A single failed fetch fails its whole batch: whenever any outcome is a
/// failure, a first failure exists, so the fan-in below returns an error and
/// never a partial result.
pub proof fn lemma_any_failure_fails_batch(results: Seq<Result<MatchSummary, FetchError>>)
    requires
        exists|i: int| 0 <= i < results.len() && results[i] is Err,
    ensures
        first_failure(results) is Some,
    decreases results.len(),
{
    let i = choose|i: int| 0 <= i < results.len() && results[i] is Err;
    if !(results[0] is Err) {
        assert(results.drop_first()[i - 1] is Err);
        lemma_any_failure_fails_batch(results.drop_first());
    }
}

/// Maps a classified fetch failure to the uniform server-error envelope.
fn fetch_to_bot_error(e: FetchError) -> (r: BotError)
    ensures
        is_upstream_error(r, e),
{
    BotError { status_code: 500, body: e.detail }
}

/// Requires the API credential to be present; its absence is a fatal,
/// immediately-reported server-error, not a per-stage failure.
pub fn require_api_key(api_key: Option<String>) -> (r: Result<String, BotError>)
    ensures
        api_key matches Some(k) ==> (r matches Ok(v) && v == k),
        api_key is None ==> (r matches Err(e) && is_missing_key_error(e)),
{
    match api_key {
        Some(k) => Ok(k),
        None => {
            let mut body = String::new();
            body.append("Missing LOL API key");
            Err(BotError { status_code: 500, body })
        },
    }
}

/// Maps the outcome of the identity-lookup fetch: a "not found" answer
/// becomes a client-error naming the missing player, any other failure a
/// server-error; success hands the opaque player identifier on unchanged.
pub fn resolve_identity(outcome: Result<String, FetchError>, player_name: &str) -> (r: Result<
    String,
    BotError,
>)
    ensures
        outcome matches Ok(p) ==> (r matches Ok(q) && q == p),
        outcome matches Err(e) ==> ({
            if e.kind == FetchErrorKind::Status(404) {
                r matches Err(b) && is_not_found_error(b, player_name@)
            } else {
                r matches Err(b) && is_upstream_error(b, e)
            }
        }),
{
    match outcome {
        Ok(p) => Ok(p),
        Err(e) => {
            if e.kind == FetchErrorKind::Status(404) {
                let mut body = String::new();
                body.append("Could not find player ");
                body.append(player_name);
                Err(BotError { status_code: 404, body })
            } else {
                Err(fetch_to_bot_error(e))
            }
        },
    }
}

/// Maps the outcome of the match-id listing fetch: an empty id list is a
/// valid result and propagates as such, never as an error; a failed fetch
/// becomes a server-error.
pub fn list_match_ids(outcome: Result<Vec<String>, FetchError>) -> (r: Result<
    Vec<String>,
    BotError,
>)
    ensures
        outcome matches Ok(ids) ==> (r matches Ok(v) && v == ids),
        outcome matches Err(e) ==> (r matches Err(b) && is_upstream_error(b, e)),
{
    match outcome {
        Ok(ids) => Ok(ids),
        Err(e) => Err(fetch_to_bot_error(e)),
    }
}

/// The lower-bound timestamp of the trailing window: the current time minus
/// the window width, saturating at the ends of the unsigned range.
pub fn match_window_start(now_millis: u64, days: u64) -> (r: u64)
    ensures
        ({
            let w = if spec_window_millis(days) <= u64::MAX {
                spec_window_millis(days)
            } else {
                u64::MAX as int
            };
            r == if now_millis as int >= w {
                now_millis as int - w
            } else {
                0int
            }
        }),
{
    let window = if days <= u64::MAX / MILLIS_PER_DAY {
        proof {
            assert(days as int * MILLIS_PER_DAY as int <= (u64::MAX as int / MILLIS_PER_DAY as int)
                * MILLIS_PER_DAY as int) by (nonlinear_arith)
                requires
                    days as int <= u64::MAX as int / MILLIS_PER_DAY as int,
            ;
        }
        days * MILLIS_PER_DAY
    } else {
        proof {
            assert(days as int * MILLIS_PER_DAY as int > u64::MAX) by (nonlinear_arith)
                requires
                    days as int > u64::MAX as int / MILLIS_PER_DAY as int,
            ;
        }
        u64::MAX
    };
    if now_millis >= window {
        now_millis - window
    } else {
        0
    }
}

/// Fan-in of the concurrently fetched match details, first-failure-aborts:
/// if every fetch succeeded, all summaries are handed on in arrival order;
/// if any fetch failed, the whole batch fails with the envelope of the first
/// failure and no partial result survives.
pub fn collect_summaries(results: Vec<Result<MatchSummary, FetchError>>) -> (r: Result<
    Vec<MatchSummary>,
    BotError,
>)
    ensures
        first_failure(results@) matches Some(e) ==> (r matches Err(b) && is_upstream_error(
            b,
            e,
        )),
        first_failure(results@) is None ==> (r matches Ok(v) && v@ == oks_of(results@)),
{
    let ghost all = results@;
    let mut out: Vec<MatchSummary> = Vec::new();
    let mut i: usize = 0;
    proof {
        assert(all.skip(0) =~= all);
    }
    while i < results.len()
        invariant
            i <= all.len(),
            all == results@,
            first_failure(all) == first_failure(all.skip(i as int)),
            oks_of(all) == out@ + oks_of(all.skip(i as int)),
        decreases all.len() - i,
    {
        proof {
            assert(all.skip(i as int).drop_first() =~= all.skip(i as int + 1));
            assert(all.skip(i as int)[0] == all[i as int]);
        }
        match &results[i] {
            Ok(m) => {
                let ghost prev = out@;
                out.push(*m);
                proof {
                    assert(out@ =~= prev + seq![all[i as int]->Ok_0]);
                    assert(out@ + oks_of(all.skip(i as int + 1)) =~= prev + (seq![
                        all[i as int]->Ok_0,
                    ] + oks_of(all.skip(i as int + 1))));
                }
            },
            Err(e) => {
                let err = FetchError { kind: e.kind, detail: e.detail.clone() };
                return Err(fetch_to_bot_error(err));
            },
        }
        i += 1;
    }
    proof {
        assert(all.skip(all.len() as int) =~= Seq::<Result<MatchSummary, FetchError>>::empty());
        assert(out@ + Seq::<MatchSummary>::empty() =~= out@);
    }
    Ok(out)
}

} // verus!
