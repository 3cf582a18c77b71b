//! Renders aggregated statistics into the fixed textual response template.

use vstd::prelude::*;
use vstd::string::StringExecFns;

use crate::text::dec_chars;
use crate::text::u64_to_dec;
use crate::types::AggregatedStats;

verus! {

/// Whole hours in a duration given in milliseconds.
pub open spec fn spec_hours(millis: u64) -> int {
    millis as int / 1000 / 60 / 60
}

/// Remaining minutes once the whole hours are taken out.
pub open spec fn spec_rem_minutes(millis: u64) -> int {
    (millis as int / 1000 / 60) % 60
}

/// The rendered duration: whole hours and remaining minutes, seconds
/// discarded.
pub open spec fn time_played_chars(millis: u64) -> Seq<char> {
    dec_chars(spec_hours(millis) as nat) + " hours and "@ + dec_chars(
        spec_rem_minutes(millis) as nat,
    ) + " minutes"@
}

/// The full response template: player name, rendered duration, requested day
/// window, win count and loss count.
pub open spec fn played_response_chars(
    player_name: Seq<char>,
    days: u64,
    stats: AggregatedStats,
) -> Seq<char> {
    player_name + " has played for "@ + time_played_chars(stats.total_millis) + " over "@
        + dec_chars(days as nat) + " days\n\n    They won "@ + dec_chars(stats.wins as nat)
        + " games and lost "@ + dec_chars(stats.losses as nat) + "\n    "@
}

/// Renders a duration in milliseconds as whole hours and remaining minutes,
/// by floor division; seconds are discarded.
pub fn create_time_played_string(millis: u64) -> (r: String)
    ensures
        r@ == time_played_chars(millis),
{
    let seconds = millis / 1000;
    let minutes = seconds / 60;
    let hours = minutes / 60;
    let rem_minutes = minutes % 60;
    let mut s = u64_to_dec(hours);
    s.append(" hours and ");
    let m = u64_to_dec(rem_minutes);
    s.append(m.as_str());
    s.append(" minutes");
    s
}

/// Renders the final answer for the user from the originally requested
/// query parameters and the aggregated statistics.
pub fn format_played_response(player_name: &String, days: u64, stats: &AggregatedStats) -> (r:
    String)
    ensures
        r@ == played_response_chars(player_name@, days, *stats),
{
    let mut s = String::new();
    s.append(player_name.as_str());
    s.append(" has played for ");
    let time_played = create_time_played_string(stats.total_millis);
    s.append(time_played.as_str());
    s.append(" over ");
    let days_text = u64_to_dec(days);
    s.append(days_text.as_str());
    s.append(" days\n\n    They won ");
    let wins_text = u64_to_dec(stats.wins);
    s.append(wins_text.as_str());
    s.append(" games and lost ");
    let losses_text = u64_to_dec(stats.losses);
    s.append(losses_text.as_str());
    s.append("\n    ");
    s
}

} // verus!
