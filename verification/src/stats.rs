//! Pure reduction of match summaries: total time played, wins and losses.
//!
//! The reduction is stated as a commutative fold, so it is provably
//! independent of the order in which concurrently fetched summaries arrive.

use vstd::prelude::*;
use vstd::seq_lib::commutative_foldl;
use vstd::seq_lib::lemma_fold_left_permutation;

use crate::types::AggregatedStats;
use crate::types::MatchSummary;

verus! {

/// One fold step of the duration total.
pub open spec fn total_step() -> spec_fn(int, MatchSummary) -> int {
    |acc: int, m: MatchSummary| acc + m.duration_millis
}

/// One fold step of the win count.
pub open spec fn wins_step() -> spec_fn(int, MatchSummary) -> int {
    |acc: int, m: MatchSummary|
        acc + if m.participant_won {
            1int
        } else {
            0int
        }
}

/// One fold step of the loss count.
pub open spec fn losses_step() -> spec_fn(int, MatchSummary) -> int {
    |acc: int, m: MatchSummary|
        acc + if m.participant_won {
            0int
        } else {
            1int
        }
}

/// The sum of all match durations, in milliseconds.
pub open spec fn spec_total_millis(s: Seq<MatchSummary>) -> int {
    s.fold_left(0int, total_step())
}

/// How many of the summaries the player won.
pub open spec fn spec_wins(s: Seq<MatchSummary>) -> int {
    s.fold_left(0int, wins_step())
}

/// How many of the summaries the player lost.
pub open spec fn spec_losses(s: Seq<MatchSummary>) -> int {
    s.fold_left(0int, losses_step())
}

/// The aggregated statistics of a summary sequence: the duration total
/// saturates at the top of the unsigned range, the counts are exact.
pub open spec fn spec_aggregate(s: Seq<MatchSummary>) -> AggregatedStats {
    AggregatedStats {
        total_millis: if spec_total_millis(s) <= u64::MAX {
            spec_total_millis(s) as u64
        } else {
            u64::MAX
        },
        wins: spec_wins(s) as u64,
        losses: spec_losses(s) as u64,
    }
}

/// Every summary is either a win or a loss, so the two counts are
/// non-negative and partition the summary set.
pub proof fn lemma_wins_losses_partition(s: Seq<MatchSummary>)
    ensures
        0 <= spec_wins(s),
        0 <= spec_losses(s),
        0 <= spec_total_millis(s),
        spec_wins(s) + spec_losses(s) == s.len(),
    decreases s.len(),
{
    if s.len() > 0 {
        lemma_wins_losses_partition(s.drop_last());
    }
}

/// The win count is exactly the number of summaries the player won, and the
/// loss count exactly the number the player lost.
pub proof fn lemma_counts_are_filters(s: Seq<MatchSummary>)
    ensures
        spec_wins(s) == s.filter(|m: MatchSummary| m.participant_won).len(),
        spec_losses(s) == s.filter(|m: MatchSummary| !m.participant_won).len(),
    decreases s.len(),
{
    reveal(Seq::filter);
    if s.len() > 0 {
        lemma_counts_are_filters(s.drop_last());
    }
}

/// Reducing the empty summary set yields the all-zero statistics: the
/// identity element of the aggregation.
pub proof fn lemma_aggregate_empty()
    ensures
        spec_total_millis(Seq::<MatchSummary>::empty()) == 0,
        spec_wins(Seq::<MatchSummary>::empty()) == 0,
        spec_losses(Seq::<MatchSummary>::empty()) == 0,
{
}

/// The aggregation is order-independent: two sequences holding the same
/// summaries, in any order, reduce to the same statistics.
pub proof fn lemma_aggregate_permutation(s1: Seq<MatchSummary>, s2: Seq<MatchSummary>)
    requires
        s1.to_multiset() == s2.to_multiset(),
    ensures
        spec_total_millis(s1) == spec_total_millis(s2),
        spec_wins(s1) == spec_wins(s2),
        spec_losses(s1) == spec_losses(s2),
{
    assert(commutative_foldl(total_step()));
    assert(commutative_foldl(wins_step()));
    assert(commutative_foldl(losses_step()));
    lemma_fold_left_permutation(s1, s2, total_step(), 0int);
    lemma_fold_left_permutation(s1, s2, wins_step(), 0int);
    lemma_fold_left_permutation(s1, s2, losses_step(), 0int);
}

/// Total milliseconds played over all summaries; the sum saturates at the
/// top of the unsigned range instead of wrapping.
pub fn calculate_time_played(summaries: &Vec<MatchSummary>) -> (r: u64)
    ensures
        spec_total_millis(summaries@) <= u64::MAX ==> r == spec_total_millis(summaries@),
        spec_total_millis(summaries@) > u64::MAX ==> r == u64::MAX,
{
    let ghost s = summaries@;
    let mut acc: u64 = 0;
    let mut i: usize = 0;
    while i < summaries.len()
        invariant
            i <= s.len(),
            s == summaries@,
            spec_total_millis(s.take(i as int)) <= u64::MAX ==> acc == spec_total_millis(
                s.take(i as int),
            ),
            spec_total_millis(s.take(i as int)) > u64::MAX ==> acc == u64::MAX,
        decreases s.len() - i,
    {
        let d = summaries[i].duration_millis;
        proof {
            lemma_wins_losses_partition(s.take(i as int));
            assert(s.take(i as int + 1).drop_last() =~= s.take(i as int));
            assert(spec_total_millis(s.take(i as int + 1)) == spec_total_millis(s.take(i as int))
                + d);
        }
        if acc <= u64::MAX - d {
            acc = acc + d;
        } else {
            acc = u64::MAX;
        }
        i += 1;
    }
    proof {
        assert(s.take(s.len() as int) =~= s);
    }
    acc
}

/// How many summaries report a win for the player.
pub fn calculate_wins(summaries: &Vec<MatchSummary>) -> (r: u64)
    ensures
        r == spec_wins(summaries@),
{
    let ghost s = summaries@;
    let mut acc: u64 = 0;
    let mut i: usize = 0;
    while i < summaries.len()
        invariant
            i <= s.len(),
            s == summaries@,
            acc == spec_wins(s.take(i as int)),
            acc <= i,
        decreases s.len() - i,
    {
        proof {
            assert(s.take(i as int + 1).drop_last() =~= s.take(i as int));
        }
        if summaries[i].participant_won {
            acc = acc + 1;
        }
        i += 1;
    }
    proof {
        assert(s.take(s.len() as int) =~= s);
    }
    acc
}

/// How many summaries report a loss for the player.
pub fn calculate_loses(summaries: &Vec<MatchSummary>) -> (r: u64)
    ensures
        r == spec_losses(summaries@),
{
    let ghost s = summaries@;
    let mut acc: u64 = 0;
    let mut i: usize = 0;
    while i < summaries.len()
        invariant
            i <= s.len(),
            s == summaries@,
            acc == spec_losses(s.take(i as int)),
            acc <= i,
        decreases s.len() - i,
    {
        proof {
            assert(s.take(i as int + 1).drop_last() =~= s.take(i as int));
        }
        if !summaries[i].participant_won {
            acc = acc + 1;
        }
        i += 1;
    }
    proof {
        assert(s.take(s.len() as int) =~= s);
    }
    acc
}

/// Reduces a set of match summaries to aggregated statistics. The duration
/// total saturates instead of wrapping; the win and loss counts are exact
/// and partition the input.
pub fn aggregate(summaries: &Vec<MatchSummary>) -> (r: AggregatedStats)
    ensures
        spec_total_millis(summaries@) <= u64::MAX ==> r.total_millis == spec_total_millis(
            summaries@,
        ),
        spec_total_millis(summaries@) > u64::MAX ==> r.total_millis == u64::MAX,
        r.wins == spec_wins(summaries@),
        r.losses == spec_losses(summaries@),
        r.wins + r.losses == summaries@.len(),
        r == spec_aggregate(summaries@),
{
    proof {
        lemma_wins_losses_partition(summaries@);
    }
    AggregatedStats {
        total_millis: calculate_time_played(summaries),
        wins: calculate_wins(summaries),
        losses: calculate_loses(summaries),
    }
}

} // verus!
