//! Laws of the price oracle.

use vstd::prelude::*;

use crate::address::Address;
use crate::env::Env;
use crate::price_oracle::{
    Bucket, FxUpdate, OracleAdmin, OracleError, OracleEvent, OracleFault, OracleState, Pair,
    PairConfig, PairState, PendingBucketState, PendingSubmission, PriceDecision,
    PriceOracleContract, PriceOutcome, PriceReport, SourcePair,
};

verus! {

/// No two errors share a number, and numbers start at one.
pub proof fn error_codes_are_distinct(a: OracleError, b: OracleError)
    ensures
        a.spec_code() == b.spec_code() ==> a == b,
        1 <= a.spec_code() <= 15,
{
}

/// A positive rate is within any tolerance of itself, as long as the product
/// that the comparison needs fits.
pub proof fn tolerance_is_reflexive(rate: i128, tolerance_bps: u32)
    requires
        rate > 0,
        rate * tolerance_bps <= i128::MAX,
    ensures
        crate::price_oracle::tolerates(rate as int, rate as int, tolerance_bps as int),
{
    assert(0 <= rate * tolerance_bps) by (nonlinear_arith)
        requires
            rate > 0,
    ;
}

/// The latest timestamp is at least the floor.
proof fn lemma_latest_at_least(votes: Seq<PendingSubmission>, floor: u64)
    ensures
        crate::price_oracle::latest_timestamp(votes, floor) >= floor,
    decreases votes.len(),
{
    if votes.len() > 0 {
        lemma_latest_at_least(votes.drop_last(), floor);
    }
}

/// Picking votes out of votes by distinct sources leaves distinct sources.
proof fn lemma_filter_distinct(
    votes: Seq<PendingSubmission>,
    pred: spec_fn(PendingSubmission) -> bool,
)
    requires
        forall|i: int, j: int|
            0 <= i < j < votes.len() ==> (#[trigger] votes[i]).source != (
            #[trigger] votes[j]).source,
    ensures
        forall|i: int, j: int|
            0 <= i < j < votes.filter(pred).len() ==> (#[trigger] votes.filter(pred)[i]).source != (
            #[trigger] votes.filter(pred)[j]).source,
        forall|i: int|
            0 <= i < votes.filter(pred).len() ==> votes.contains(#[trigger] votes.filter(pred)[i]),
        forall|i: int| 0 <= i < votes.filter(pred).len() ==> pred(#[trigger] votes.filter(pred)[i]),
        votes.filter(pred).len() <= votes.len(),
    decreases votes.len(),
{
    reveal(Seq::filter);
    if votes.len() > 0 {
        let rest = votes.drop_last();
        let picked = rest.filter(pred);
        assert forall|i: int, j: int| 0 <= i < j < rest.len() implies (#[trigger] rest[i]).source
            != (#[trigger] rest[j]).source by {
            assert(rest[i] == votes[i] && rest[j] == votes[j]);
        }
        lemma_filter_distinct(rest, pred);
        let all = votes.filter(pred);
        assert forall|i: int| 0 <= i < all.len() implies votes.contains(#[trigger] all[i]) by {
            if i < picked.len() {
                assert(all[i] == picked[i]);
                let k = choose|k: int| 0 <= k < rest.len() && rest[k] == picked[i];
                assert(votes[k] == all[i]);
            } else {
                assert(votes[votes.len() - 1] == all[i]);
            }
        }
        assert forall|i: int, j: int| 0 <= i < j < all.len() implies (#[trigger] all[i]).source != (
        #[trigger] all[j]).source by {
            assert(all[i] == picked[i]);
            if j < picked.len() {
                assert(all[j] == picked[j]);
            } else {
                let k = choose|k: int| 0 <= k < rest.len() && rest[k] == picked[i];
                assert(votes[k].source != votes[votes.len() - 1].source);
            }
        }
    }
}

/// A vote that is counted leaves one vote per source, within the cap.
proof fn lemma_votes_stay_valid(state: OracleState, env: Env, report: PriceReport)
    requires
        state.wf(),
    ensures
        state.outcome(env, report) matches PriceOutcome::Pending(bucket) ==> bucket.valid(),
        ({
            let config = state.configs[report.pair];
            let bucket = (report.source_timestamp / config.quorum_window_seconds) as u64;
            let votes = state.votes_in(report.pair, bucket).push(report.vote());
            !(state.vote_outcome(env, report) is Refused) && !(state.vote_outcome(
                env,
                report,
            ) is LateVote) ==> Bucket { timestamp_bucket: bucket, submissions: votes }.valid()
        }),
{
    let config = state.configs[report.pair];
    let bucket = (report.source_timestamp / config.quorum_window_seconds) as u64;
    let before = state.votes_in(report.pair, bucket);
    let votes = before.push(report.vote());
    if !(state.vote_outcome(env, report) is Refused) && !(state.vote_outcome(
        env,
        report,
    ) is LateVote) {
        assert forall|i: int, j: int| 0 <= i < j < votes.len() implies (#[trigger] votes[i]).source
            != (#[trigger] votes[j]).source by {
            assert(votes[i] == before[i]);
            if j < before.len() {
                assert(votes[j] == before[j]);
                assert(state.pending[report.pair].valid());
            }
        }
    }
}

/// A report keeps the oracle's storage well formed.
pub proof fn push_keeps_wf(state: OracleState, env: Env, report: PriceReport, fx_accepted: bool)
    requires
        state.wf(),
    ensures
        state.after_push(env, report, fx_accepted).0.wf(),
{
    lemma_votes_stay_valid(state, env, report);
    let after = state.after_push(env, report, fx_accepted).0;
    assert(after.configs == state.configs);
    assert forall|pair: Pair| #[trigger]
        after.pending.contains_key(pair) implies after.pending[pair].valid() by {
        if pair != report.pair {
            assert(state.pending.contains_key(pair));
        } else if !(state.outcome(env, report) is Pending) {
            assert(state.pending.contains_key(pair));
        }
    }
}

/// The owner's calls and a read keep the oracle's storage well formed.
pub proof fn owner_calls_keep_wf(
    state: OracleState,
    env: Env,
    caller: Address,
    pair: Pair,
    config: PairConfig,
    source: Address,
    threshold: u32,
)
    requires
        state.wf(),
    ensures
        OracleState::fresh().wf(),
        state.initialized(caller, source).wf(),
        state.with_source(source).wf(),
        state.without_source(source).wf(),
        state.configure_refusal(env, caller, pair, config) is None ==> state.configured(
            pair,
            config,
        ).wf(),
        state.pair_refusal(env, caller, pair) is None ==> {
            &&& state.with_halt_threshold(pair, threshold).wf()
            &&& state.with_pair_disabled(pair).wf()
            &&& state.with_pair_enabled(pair).wf()
        },
        state.after_read(env, pair).0.wf(),
        state.with_pending_owner(caller).wf(),
        state.with_owner(caller).wf(),
        state.without_pending_owner().wf(),
{
    if state.pair_refusal(env, caller, pair) is None {
        assert(state.configs[pair].valid());
    }
}

/// An accepted price comes from a registered source that authorized the
/// report, lies within the bounds of an enabled pair, is neither dated in the
/// future nor too old, and is newer than the price it replaces.
pub proof fn accepted_price_passes_the_checks(state: OracleState, env: Env, report: PriceReport)
    requires
        state.outcome(env, report) is Accepted,
    ensures
        state.sources.contains(report.source),
        env.authorizes(report.source),
        state.configs.contains_key(report.pair),
        state.configs[report.pair].enabled,
        0 < report.rate,
        state.configs[report.pair].min_rate <= report.rate <= state.configs[report.pair].max_rate,
        report.source_timestamp <= env.timestamp,
        env.timestamp - report.source_timestamp <= state.configs[report.pair].max_staleness_seconds,
        ({
            let accepted = state.outcome(env, report)->Accepted_0;
            &&& accepted.rate == report.rate
            &&& accepted.last_source == report.source
            &&& accepted.last_updated_ts >= report.source_timestamp
            &&& state.states.contains_key(report.pair) ==> accepted.last_updated_ts
                > state.states[report.pair].last_updated_ts
        }),
{
    let config = state.configs[report.pair];
    let bucket = (report.source_timestamp / config.quorum_window_seconds) as u64;
    let votes = state.votes_in(report.pair, bucket).push(report.vote());
    lemma_latest_at_least(
        state.supporters(votes, report.rate, config.tolerance_bps),
        report.source_timestamp,
    );
}

/// The time of a pair's price never goes back, and a report that changes the
/// price moves it forward.
pub proof fn price_time_moves_forward(
    state: OracleState,
    env: Env,
    report: PriceReport,
    fx_accepted: bool,
    pair: Pair,
)
    requires
        state.states.contains_key(pair),
    ensures
        ({
            let after = state.after_push(env, report, fx_accepted).0;
            &&& after.states.contains_key(pair)
            &&& after.states[pair] != state.states[pair] ==> after.states[pair].last_updated_ts
                > state.states[pair].last_updated_ts
        }),
{
    if state.outcome(env, report) is Accepted {
        accepted_price_passes_the_checks(state, env, report);
    }
}

/// Where a pair asks for a quorum, a price is accepted only on votes of at
/// least that many different registered sources, each within the tolerance.
pub proof fn accepted_price_has_a_quorum(state: OracleState, env: Env, report: PriceReport)
    requires
        state.wf(),
        state.outcome(env, report) is Accepted,
        state.configs[report.pair].quorum_n > 1,
    ensures
        exists|voters: Seq<PendingSubmission>| #[trigger]
            is_quorum(state, report, voters),
{
    lemma_votes_stay_valid(state, env, report);
    let config = state.configs[report.pair];
    let bucket = (report.source_timestamp / config.quorum_window_seconds) as u64;
    let votes = state.votes_in(report.pair, bucket).push(report.vote());
    let pred = |vote: PendingSubmission| state.supports(vote, report.rate, config.tolerance_bps);
    lemma_filter_distinct(votes, pred);
    let voters = state.supporters(votes, report.rate, config.tolerance_bps);
    assert(voters == votes.filter(pred));
    assert forall|i: int| 0 <= i < voters.len() implies state.supports(
        #[trigger] voters[i],
        report.rate,
        config.tolerance_bps,
    ) by {
        assert(pred(votes.filter(pred)[i]));
    }
    assert(is_quorum(state, report, voters));
}

/// Whether the votes are enough to accept a report: as many as the pair asks
/// for, by different registered sources, at rates within the tolerance.
pub open spec fn is_quorum(
    state: OracleState,
    report: PriceReport,
    voters: Seq<PendingSubmission>,
) -> bool {
    let config = state.configs[report.pair];
    &&& voters.len() >= config.quorum_n
    &&& forall|i: int, j: int|
        0 <= i < j < voters.len() ==> (#[trigger] voters[i]).source != (#[trigger] voters[j]).source
    &&& forall|i: int|
        0 <= i < voters.len() ==> state.supports(
            #[trigger] voters[i],
            report.rate,
            config.tolerance_bps,
        )
}

/// A report that is turned down changes nothing.
pub proof fn refused_report_changes_nothing(
    state: OracleState,
    env: Env,
    report: PriceReport,
    fx_accepted: bool,
)
    ensures
        state.after_push(env, report, fx_accepted).1 is Err ==> state.after_push(
            env,
            report,
            fx_accepted,
        ).0 == state,
{
}

/// A report on one pair leaves every other pair as it is.
pub proof fn report_concerns_its_pair_alone(
    state: OracleState,
    env: Env,
    report: PriceReport,
    fx_accepted: bool,
    other: Pair,
)
    requires
        other != report.pair,
    ensures
        ({
            let after = state.after_push(env, report, fx_accepted).0;
            &&& after.states.contains_key(other) == state.states.contains_key(other)
            &&& after.states[other] == state.states[other]
            &&& after.pending.contains_key(other) == state.pending.contains_key(other)
            &&& after.pending[other] == state.pending[other]
            &&& after.stale_counts.contains_key(other) == state.stale_counts.contains_key(other)
            &&& after.stale_counts[other] == state.stale_counts[other]
        }),
{
}

/// What was accepted is what is served: right after a report is accepted, a
/// read of the pair at the same time gives the accepted price.
pub proof fn accepted_price_is_served(state: OracleState, env: Env, report: PriceReport)
    requires
        state.outcome(env, report) is Accepted,
    ensures
        state.after_push(env, report, true).0.after_read(env, report.pair).1 == Ok::<
            PairState,
            OracleError,
        >(state.outcome(env, report)->Accepted_0),
{
    accepted_price_passes_the_checks(state, env, report);
}

/// A source votes at most once in a bucket: after a vote that is kept, no
/// report of the same source for the same pair and bucket is kept or accepted.
pub proof fn source_votes_once_per_bucket(
    state: OracleState,
    env: Env,
    report: PriceReport,
    fx_accepted: bool,
    later: Env,
    again: PriceReport,
)
    requires
        state.outcome(env, report) is Pending,
        again.source == report.source,
        again.pair == report.pair,
        again.source_timestamp / state.configs[report.pair].quorum_window_seconds
            == report.source_timestamp / state.configs[report.pair].quorum_window_seconds,
    ensures
        ({
            let after = state.after_push(env, report, fx_accepted).0;
            &&& !(after.outcome(later, again) is Pending)
            &&& !(after.outcome(later, again) is Accepted)
        }),
{
    let after = state.after_push(env, report, fx_accepted).0;
    let votes = after.pending[report.pair].submissions;
    assert(votes[votes.len() - 1].source == again.source);
}

/// A source that was removed reports nothing more.
pub proof fn removed_source_is_refused(state: OracleState, env: Env, report: PriceReport)
    ensures
        state.without_source(report.source).outcome(env, report) is Refused,
{
}

/// A vote of a source that was removed counts for nothing.
pub proof fn removed_source_supports_nothing(
    state: OracleState,
    vote: PendingSubmission,
    rate: i128,
    tolerance_bps: u32,
)
    ensures
        !state.without_source(vote.source).supports(vote, rate, tolerance_bps),
{
}

/// A disabled pair takes no report and serves no price.
pub proof fn disabled_pair_is_silent(state: OracleState, env: Env, report: PriceReport)
    ensures
        ({
            let after = state.with_pair_disabled(report.pair);
            &&& after.outcome(env, report) is Refused
            &&& after.after_read(env, report.pair) == (
                after,
                Err::<PairState, OracleError>(OracleError::PairNotConfigured),
            )
            &&& !after.states.contains_key(report.pair)
        }),
{
}

/// A pair that is configured anew has no votes and no stale reads.
pub proof fn configured_pair_starts_clean(
    state: OracleState,
    pair: Pair,
    config: PairConfig,
    bucket: u64,
)
    ensures
        ({
            let after = state.configured(pair, config);
            &&& after.configs[pair] == config
            &&& after.votes_in(pair, bucket) == Seq::<PendingSubmission>::empty()
            &&& after.stale_count(pair) == 0
        }),
{
}

/// The state after a number of reads of one pair in a row.
pub open spec fn after_reads(state: OracleState, env: Env, pair: Pair, reads: nat) -> OracleState
    decreases reads,
{
    if reads == 0 {
        state
    } else {
        after_reads(state, env, pair, (reads - 1) as nat).after_read(env, pair).0
    }
}

/// The stale halt: of the reads of a stale pair after its count was cleared, as many as
/// the threshold says are answered by `PriceTooOld`, and all later ones by `PairHalted`.
pub proof fn stale_reads_halt_the_pair(state: OracleState, env: Env, pair: Pair, reads: nat)
    requires
        state.serves(pair),
        state.is_stale(env, pair),
        !state.stale_counts.contains_key(pair),
        state.configs[pair].max_stale_before_halt > 0,
    ensures
        after_reads(state, env, pair, reads).after_read(env, pair).1 == Err::<
            PairState,
            OracleError,
        >(
            if reads >= state.configs[pair].max_stale_before_halt {
                OracleError::PairHalted
            } else {
                OracleError::PriceTooOld
            },
        ),
        ({
            let after = after_reads(state, env, pair, reads);
            after == OracleState { stale_counts: after.stale_counts, ..state }
        }),
        reads == 0 ==> after_reads(state, env, pair, reads) == state,
        reads > 0 ==> {
            let counts = after_reads(state, env, pair, reads).stale_counts;
            &&& counts.contains_key(pair)
            &&& counts[pair] == if reads < u32::MAX {
                reads as int
            } else {
                u32::MAX as int
            }
        },
    decreases reads,
{
    if reads > 0 {
        stale_reads_halt_the_pair(state, env, pair, (reads - 1) as nat);
    }
}

/// An accepted report ends a halt: the next stale read is counted as the first.
pub proof fn accepted_price_clears_the_halt(state: OracleState, env: Env, report: PriceReport)
    requires
        state.outcome(env, report) is Accepted,
    ensures
        state.after_push(env, report, true).0.stale_count(report.pair) == 0,
{
}

/// A proposed owner who has not accepted has no say, and the owner keeps theirs.
pub proof fn proposal_transfers_nothing(
    state: OracleState,
    env: Env,
    owner: Address,
    new_owner: Address,
)
    requires
        state.admin is Some,
        state.admin->0.owner == owner,
        new_owner != owner,
        env.authorizes(owner),
        env.authorizes(new_owner),
    ensures
        ({
            let after = state.with_pending_owner(new_owner);
            &&& after.admin_refusal(env, owner) is None
            &&& after.admin_refusal(env, new_owner) == Some(
                OracleFault::Error(OracleError::NotAuthorized),
            )
            &&& after.accept_refusal(env, new_owner) is None
        }),
{
}

/// Acceptance moves ownership: the proposed owner is in charge, the former
/// owner is not, and the proposal is spent.
pub proof fn acceptance_transfers_ownership(
    state: OracleState,
    env: Env,
    owner: Address,
    new_owner: Address,
)
    requires
        state.admin is Some,
        state.admin->0.owner == owner,
        new_owner != owner,
        env.authorizes(owner),
        env.authorizes(new_owner),
    ensures
        ({
            let after = state.with_owner(new_owner);
            &&& after.admin_refusal(env, new_owner) is None
            &&& after.admin_refusal(env, owner) == Some(
                OracleFault::Error(OracleError::NotAuthorized),
            )
            &&& after.accept_refusal(env, new_owner) is Some
            &&& after.admin->0.payroll_contract == state.admin->0.payroll_contract
        }),
{
}

/// A proposal that was withdrawn cannot be accepted by anyone.
pub proof fn withdrawn_proposal_is_void(state: OracleState, env: Env, anyone: Address)
    ensures
        state.without_pending_owner().accept_refusal(env, anyone) is Some,
{
}

/// Where a pair has an interval between reports, a source keeps it: once a report is
/// taken, another of the same source on the pair that is dated less than the interval
/// later changes nothing.
pub proof fn source_waits_between_reports(
    state: OracleState,
    env: Env,
    report: PriceReport,
    fx_accepted: bool,
    later_env: Env,
    next: PriceReport,
    later_fx_accepted: bool,
)
    requires
        state.after_push(env, report, fx_accepted).1 is Ok,
        state.is_newer(report),
        state.configs[report.pair].min_submit_interval_secs > 0,
        next.source == report.source,
        next.pair == report.pair,
        next.source_timestamp < report.source_timestamp
            + state.configs[report.pair].min_submit_interval_secs,
    ensures
        ({
            let taken = state.after_push(env, report, fx_accepted).0;
            &&& taken.after_push(later_env, next, later_fx_accepted).0 == taken
            &&& taken.report_refusal(later_env, next) is None && taken.is_newer(next)
                ==> taken.after_push(later_env, next, later_fx_accepted).1 == Err::<
                (),
                OracleFault,
            >(OracleFault::Error(OracleError::SubmissionRateLimited))
        }),
{
    let taken = state.after_push(env, report, fx_accepted).0;
    assert(next.source_pair() == report.source_pair());
    assert(taken.configs == state.configs);
}

/// Whether a rate lies within so many ten-thousandths of another, where the numbers that
/// this compares can be held.
pub open spec fn is_close(reference: int, candidate: int, bps: int) -> bool {
    &&& reference > 0
    &&& candidate > 0
    &&& 10_000 * (candidate - reference) <= reference * bps
    &&& 10_000 * (reference - candidate) <= reference * bps
    &&& 10_000 * (candidate - reference) <= i128::MAX
    &&& 10_000 * (reference - candidate) <= i128::MAX
    &&& reference * bps <= i128::MAX
}

/// The tolerance is a share of the reference rate, in either direction.
pub proof fn tolerance_is_a_share_of_the_rate(reference: int, candidate: int, bps: int)
    requires
        bps >= 0,
    ensures
        crate::price_oracle::tolerates(reference, candidate, bps) == is_close(
            reference,
            candidate,
            bps,
        ),
{
    assert(reference > 0 ==> reference * bps >= 0) by (nonlinear_arith)
        requires
            bps >= 0,
    ;
}

/// Whether a report is in order by itself: an authorized report of a registered source,
/// at a rate within the bounds of an enabled pair, dated neither late nor ahead.
pub open spec fn is_in_order(state: OracleState, env: Env, report: PriceReport) -> bool {
    let config = state.configs[report.pair];
    &&& state.admin is Some
    &&& env.authorized@.contains(report.source)
    &&& state.sources.contains(report.source)
    &&& state.configs.contains_key(report.pair)
    &&& config.enabled
    &&& report.rate > 0
    &&& config.min_rate <= report.rate
    &&& report.rate <= config.max_rate
    &&& report.source_timestamp <= env.timestamp
    &&& env.timestamp <= report.source_timestamp + config.max_staleness_seconds
}

/// Whether a report is dated after the price that the pair has, if it has one.
pub open spec fn is_later(state: OracleState, report: PriceReport) -> bool {
    state.states.contains_key(report.pair) ==> state.states[report.pair].last_updated_ts
        < report.source_timestamp
}

/// Whether a report keeps the interval since the last one of its source on the pair.
pub open spec fn keeps_interval(state: OracleState, report: PriceReport) -> bool {
    let key = SourcePair { source: report.source, pair: report.pair };
    let interval = state.configs[report.pair].min_submit_interval_secs;
    interval > 0 && state.last_submissions.contains_key(key) ==> state.last_submissions[key]
        + interval <= report.source_timestamp
}

/// The vote that a report is.
pub open spec fn as_vote(report: PriceReport) -> PendingSubmission {
    PendingSubmission {
        source: report.source,
        rate: report.rate,
        source_timestamp: report.source_timestamp,
    }
}

/// Whether a vote agrees with a report: its source is registered, and its rate is close.
pub open spec fn agrees(state: OracleState, report: PriceReport, vote: PendingSubmission) -> bool {
    state.sources.contains(vote.source) && is_close(
        report.rate as int,
        vote.rate as int,
        state.configs[report.pair].tolerance_bps as int,
    )
}

/// How many of some votes agree with a report.
pub open spec fn agreement(
    state: OracleState,
    report: PriceReport,
    votes: Seq<PendingSubmission>,
) -> nat
    decreases votes.len(),
{
    if votes.len() == 0 {
        0
    } else {
        agreement(state, report, votes.drop_last()) + if agrees(state, report, votes.last()) {
            1nat
        } else {
            0nat
        }
    }
}

/// The window that a report votes in.
pub open spec fn window_of(state: OracleState, report: PriceReport) -> int {
    report.source_timestamp as int / state.configs[report.pair].quorum_window_seconds as int
}

/// The votes that a report joins: those of the same pair and window.
pub open spec fn fellow_votes(state: OracleState, report: PriceReport) -> Seq<PendingSubmission> {
    if state.pending.contains_key(report.pair)
        && state.pending[report.pair].timestamp_bucket as int == window_of(state, report) {
        state.pending[report.pair].submissions
    } else {
        Seq::empty()
    }
}

proof fn lemma_agreement(state: OracleState, report: PriceReport, votes: Seq<PendingSubmission>)
    ensures
        state.supporters(
            votes,
            report.rate,
            state.configs[report.pair].tolerance_bps,
        ).len() == agreement(state, report, votes),
        forall|i: int|
            0 <= i < votes.len() && agrees(state, report, #[trigger] votes[i])
                ==> state.supporters(
                votes,
                report.rate,
                state.configs[report.pair].tolerance_bps,
            ).contains(votes[i]),
        forall|vote: PendingSubmission| #[trigger]
            state.supporters(
                votes,
                report.rate,
                state.configs[report.pair].tolerance_bps,
            ).contains(vote) ==> votes.contains(vote) && agrees(state, report, vote),
    decreases votes.len(),
{
    reveal(Seq::filter);
    let bps = state.configs[report.pair].tolerance_bps;
    let pred = |vote: PendingSubmission| state.supports(vote, report.rate, bps);
    if votes.len() > 0 {
        let rest = votes.drop_last();
        let last = votes.last();
        lemma_agreement(state, report, rest);
        tolerance_is_a_share_of_the_rate(report.rate as int, last.rate as int, bps as int);
        let fewer = rest.filter(pred);
        let all = votes.filter(pred);
        assert(pred(last) == agrees(state, report, last));
        assert(all == if pred(last) {
            fewer.push(last)
        } else {
            fewer
        });
        assert forall|i: int| 0 <= i < votes.len() && agrees(
            state,
            report,
            #[trigger] votes[i],
        ) implies all.contains(votes[i]) by {
            if i < rest.len() {
                assert(rest[i] == votes[i]);
                assert(fewer.contains(votes[i]));
                let k = choose|k: int| 0 <= k < fewer.len() && fewer[k] == votes[i];
                assert(all[k] == votes[i]);
            } else {
                assert(all[fewer.len() as int] == last);
            }
        }
        assert forall|vote: PendingSubmission| #[trigger] all.contains(vote) implies votes.contains(
            vote,
        ) && agrees(state, report, vote) by {
            let k = choose|k: int| 0 <= k < all.len() && all[k] == vote;
            if k < fewer.len() {
                assert(fewer[k] == vote);
                assert(fewer.contains(vote));
                let m = choose|m: int| 0 <= m < rest.len() && rest[m] == vote;
                assert(votes[m] == vote);
            } else {
                assert(votes[votes.len() - 1] == vote);
            }
        }
    }
}

proof fn lemma_latest(votes: Seq<PendingSubmission>, floor: u64)
    ensures
        ({
            let latest = crate::price_oracle::latest_timestamp(votes, floor);
            &&& latest >= floor
            &&& forall|i: int|
                0 <= i < votes.len() ==> (#[trigger] votes[i]).source_timestamp <= latest
            &&& latest == floor || exists|i: int|
                0 <= i < votes.len() && (#[trigger] votes[i]).source_timestamp == latest
        }),
    decreases votes.len(),
{
    if votes.len() > 0 {
        let rest = votes.drop_last();
        lemma_latest(rest, floor);
        let before = crate::price_oracle::latest_timestamp(rest, floor);
        let latest = crate::price_oracle::latest_timestamp(votes, floor);
        assert(votes[votes.len() - 1] == votes.last());
        assert forall|i: int| 0 <= i < votes.len() implies (#[trigger] votes[i]).source_timestamp
            <= latest by {
            if i < rest.len() {
                assert(rest[i] == votes[i]);
            }
        }
        if latest == before && before != floor {
            let k = choose|k: int|
                0 <= k < rest.len() && (#[trigger] rest[k]).source_timestamp == before;
            assert(votes[k].source_timestamp == latest);
        }
    }
}

/// What a report is told that is not in order: the first of its faults, in the order of
/// initialization, authorization, source, sign, pair, bounds and date.
pub proof fn report_out_of_order_is_told_why(state: OracleState, env: Env, report: PriceReport)
    ensures
        ({
            let config = state.configs[report.pair];
            let started = state.admin is Some;
            let signed = started && env.authorized@.contains(report.source);
            let known = signed && state.sources.contains(report.source);
            let positive = known && report.rate > 0;
            let paired = positive && state.configs.contains_key(report.pair) && config.enabled;
            let bounded = paired && config.min_rate <= report.rate && report.rate
                <= config.max_rate;
            let fault = state.outcome(env, report)->Refused_0;
            &&& !is_in_order(state, env, report) ==> state.outcome(env, report) is Refused
            &&& !started ==> fault == OracleFault::Error(OracleError::NotInitialized)
            &&& started && !signed ==> fault == OracleFault::Unauthenticated
            &&& signed && !known ==> fault == OracleFault::Error(OracleError::InvalidSource)
            &&& known && !positive ==> fault == OracleFault::Error(OracleError::ZeroRate)
            &&& positive && !paired ==> fault == OracleFault::Error(OracleError::PairNotConfigured)
            &&& paired && !bounded ==> fault == OracleFault::Error(OracleError::RateOutOfBounds)
            &&& bounded && !is_in_order(state, env, report) ==> fault == OracleFault::Error(
                OracleError::RateStale,
            )
        }),
{
}

/// A report in order is passed over where it is not later than the price, and is refused
/// where its source does not keep the interval. No other report is.
pub proof fn report_in_order_is_taken_in_time(state: OracleState, env: Env, report: PriceReport)
    requires
        is_in_order(state, env, report),
    ensures
        state.outcome(env, report) is NotNewer <==> !is_later(state, report),
        state.outcome(env, report) == PriceOutcome::Refused(
            OracleFault::Error(OracleError::SubmissionRateLimited),
        ) <==> is_later(state, report) && !keeps_interval(state, report),
{
}

/// An accepted report is what payroll gets and what the pair's price becomes: the reported
/// rate, for the reported pair, by the reporting source. The call goes to the configured
/// payroll contract in the oracle's own name, whatever price the pair had before.
pub proof fn accepted_rate_is_forwarded(state: OracleState, env: Env, report: PriceReport)
    requires
        state.outcome(env, report) is Accepted,
    ensures
        ({
            let accepted = state.outcome(env, report)->Accepted_0;
            let update = state.outcome(env, report)->Accepted_1;
            &&& update.rate == report.rate
            &&& update.rate == accepted.rate
            &&& update.pair == report.pair
            &&& Some(update.payroll_contract) == match state.admin {
                Some(admin) => Some(admin.payroll_contract),
                None => None,
            }
            &&& update.caller == env.contract
            &&& accepted.last_source == report.source
        }),
{
}

/// A sound report is accepted as it is where one source is enough.
pub proof fn sound_report_is_accepted(state: OracleState, env: Env, report: PriceReport)
    requires
        is_in_order(state, env, report),
        is_later(state, report),
        keeps_interval(state, report),
        state.configs[report.pair].quorum_n <= 1,
    ensures
        state.outcome(env, report) is Accepted,
        state.outcome(env, report)->Accepted_0 == (PairState {
            rate: report.rate,
            last_updated_ts: report.source_timestamp,
            last_source: report.source,
        }),
{
}

/// Where more than one source has to agree, a sound report is a vote. It comes too late
/// where the pair is at a later window already. A source that has a vote in the window is
/// refused another, and so is everyone once there are a hundred. Otherwise the vote joins
/// the others of its window, and decides: the report is accepted if and only if as many
/// votes agree with it as the pair asks for, its own included. An accepted price is dated
/// by the latest of the votes that agree.
pub proof fn agreement_decides(state: OracleState, env: Env, report: PriceReport)
    requires
        is_in_order(state, env, report),
        is_later(state, report),
        keeps_interval(state, report),
        state.configs[report.pair].quorum_n > 1,
        state.configs[report.pair].quorum_window_seconds > 0,
    ensures
        ({
            let outcome = state.outcome(env, report);
            let fellows = fellow_votes(state, report);
            let votes = fellows.push(as_vote(report));
            let late = state.pending.contains_key(report.pair) && window_of(state, report)
                < state.pending[report.pair].timestamp_bucket;
            let twice = exists|i: int|
                0 <= i < fellows.len() && (#[trigger] fellows[i]).source == report.source;
            let agreed = agreement(state, report, votes) >= state.configs[report.pair].quorum_n;
            &&& outcome is LateVote <==> late
            &&& !late && twice ==> outcome == PriceOutcome::Refused(
                OracleFault::Error(OracleError::DuplicateVote),
            )
            &&& !late && !twice && fellows.len() >= 100 ==> outcome == PriceOutcome::Refused(
                OracleFault::Error(OracleError::TooManySources),
            )
            &&& !late && !twice && fellows.len() < 100 ==> if agreed {
                outcome is Accepted
            } else {
                &&& outcome matches PriceOutcome::Pending(bucket)
                &&& bucket.submissions == votes
                &&& bucket.timestamp_bucket as int == window_of(state, report)
            }
            &&& outcome matches PriceOutcome::Accepted(accepted, _) ==> {
                &&& agreed
                &&& accepted.last_updated_ts >= report.source_timestamp
                &&& forall|i: int|
                    0 <= i < votes.len() && agrees(state, report, #[trigger] votes[i])
                        ==> votes[i].source_timestamp <= accepted.last_updated_ts
                &&& accepted.last_updated_ts == report.source_timestamp || exists|i: int|
                    0 <= i < votes.len() && agrees(state, report, #[trigger] votes[i])
                        && votes[i].source_timestamp == accepted.last_updated_ts
            }
        }),
{
    let config = state.configs[report.pair];
    let votes = fellow_votes(state, report).push(as_vote(report));
    let bucket = (report.source_timestamp / config.quorum_window_seconds) as u64;
    assert(bucket as int == window_of(state, report));
    assert(0 <= window_of(state, report) <= report.source_timestamp) by {
        vstd::arithmetic::div_mod::lemma_div_is_ordered_by_denominator(
            report.source_timestamp as int,
            1,
            config.quorum_window_seconds as int,
        );
    }
    lemma_agreement(state, report, votes);
    let supporters = state.supporters(votes, report.rate, config.tolerance_bps);
    lemma_latest(supporters, report.source_timestamp);
    let latest = crate::price_oracle::latest_timestamp(supporters, report.source_timestamp);
    assert forall|i: int| 0 <= i < votes.len() && agrees(
        state,
        report,
        #[trigger] votes[i],
    ) implies votes[i].source_timestamp <= latest by {
        assert(supporters.contains(votes[i]));
        let k = choose|k: int| 0 <= k < supporters.len() && supporters[k] == votes[i];
        assert(supporters[k].source_timestamp <= latest);
    }
    if latest != report.source_timestamp {
        let k = choose|k: int|
            0 <= k < supporters.len() && (#[trigger] supporters[k]).source_timestamp == latest;
        assert(supporters.contains(supporters[k]));
        let m = choose|m: int| 0 <= m < votes.len() && votes[m] == supporters[k];
        assert(agrees(state, report, votes[m]));
    }
}

/// What an assessment says of a report is what becomes of it.
pub proof fn assessment_is_the_outcome(
    fault: OracleFault,
    bucket: PendingBucketState,
    state: PairState,
    update: FxUpdate,
)
    ensures
        crate::price_oracle::outcome_of(Err(fault)) == PriceOutcome::Refused(fault),
        crate::price_oracle::outcome_of(Ok(PriceDecision::NotNewer)) == PriceOutcome::NotNewer,
        crate::price_oracle::outcome_of(Ok(PriceDecision::LateVote)) == PriceOutcome::LateVote,
        crate::price_oracle::outcome_of(Ok(PriceDecision::Pending(bucket)))
            matches PriceOutcome::Pending(open) && open.timestamp_bucket == bucket.timestamp_bucket
            && open.submissions == bucket.submissions@,
        crate::price_oracle::outcome_of(Ok(PriceDecision::Accepted(state, update)))
            == PriceOutcome::Accepted(state, update),
{
}

/// What a report leaves behind. One that is refused, or that payroll turns down, leaves
/// nothing; one that is passed over neither. Any other is on record as its source's last,
/// where the pair has an interval. A vote that waits is all that the pair gains by it. An
/// accepted price takes the place of the one before, ends the window's votes and the count
/// of stale reads, and is announced, once payroll has taken it.
pub proof fn report_leaves_its_mark(
    state: OracleState,
    env: Env,
    report: PriceReport,
    fx_accepted: bool,
)
    ensures
        ({
            let (after, r) = state.after_push(env, report, fx_accepted);
            let outcome = state.outcome(env, report);
            let key = SourcePair { source: report.source, pair: report.pair };
            let config = state.configs[report.pair];
            let priced = outcome is Accepted && fx_accepted;
            let marked = outcome is LateVote || outcome is Pending || priced;
            &&& r is Ok <==> outcome is NotNewer || marked
            &&& outcome matches PriceOutcome::Refused(fault) ==> r == Err::<(), OracleFault>(fault)
            &&& outcome is Accepted && !fx_accepted ==> r == Err::<(), OracleFault>(
                OracleFault::Error(OracleError::FxUpdateFailed),
            )
            &&& !marked ==> after == state
            &&& after.admin == state.admin
            &&& after.pending_owner == state.pending_owner
            &&& after.sources == state.sources
            &&& after.configs == state.configs
            &&& after.last_submissions == if marked && config.min_submit_interval_secs > 0 {
                state.last_submissions.insert(key, report.source_timestamp)
            } else {
                state.last_submissions
            }
            &&& outcome is LateVote ==> after.pending == state.pending
            &&& outcome matches PriceOutcome::Pending(bucket) ==> after.pending
                == state.pending.insert(report.pair, bucket)
            &&& priced && config.quorum_n > 1 ==> after.pending == state.pending.remove(report.pair)
            &&& priced && config.quorum_n <= 1 ==> after.pending == state.pending
            &&& priced ==> after.states == state.states.insert(
                report.pair,
                outcome->Accepted_0,
            )
            &&& priced ==> after.stale_counts == state.stale_counts.remove(report.pair)
            &&& priced ==> after.events == state.events.push(
                OracleEvent::PriceAccepted(report.pair, report.rate),
            )
            &&& !priced ==> after.states == state.states && after.stale_counts
                == state.stale_counts && after.events == state.events
        }),
{
}

/// A call that is the owner's is granted to the owner who authorized it, and to nobody
/// else. The others are told what is missing.
pub proof fn owners_calls_are_the_owners(
    state: OracleState,
    env: Env,
    caller: Address,
    pair: Pair,
    changed: OracleState,
)
    ensures
        ({
            let (after, r) = crate::price_oracle::answer(
                state,
                state.admin_refusal(env, caller),
                changed,
            );
            let (paired_after, paired) = crate::price_oracle::answer(
                state,
                state.pair_refusal(env, caller, pair),
                changed,
            );
            let signed = env.authorized@.contains(caller);
            let owned = state.admin matches Some(admin) && admin.owner == caller;
            &&& r is Ok <==> signed && owned
            &&& r is Ok ==> after == changed
            &&& r is Err ==> after == state
            &&& state.admin is None ==> r == Err::<(), OracleFault>(
                OracleFault::Error(OracleError::NotInitialized),
            )
            &&& state.admin is Some && !signed ==> r == Err::<(), OracleFault>(
                OracleFault::Unauthenticated,
            )
            &&& state.admin is Some && signed && !owned ==> r == Err::<(), OracleFault>(
                OracleFault::Error(OracleError::NotAuthorized),
            )
            &&& r is Err ==> paired == r
            &&& r is Ok && !state.configs.contains_key(pair) ==> paired == Err::<(), OracleFault>(
                OracleFault::Error(OracleError::PairNotConfigured),
            )
            &&& paired is Ok <==> r is Ok && state.configs.contains_key(pair)
            &&& paired is Ok ==> paired_after == changed
            &&& paired is Err ==> paired_after == state
        }),
{
}

/// Whether two states of the oracle agree on everything that concerns prices.
pub open spec fn same_prices(a: OracleState, b: OracleState) -> bool {
    &&& a.configs == b.configs
    &&& a.states == b.states
    &&& a.pending == b.pending
    &&& a.last_submissions == b.last_submissions
    &&& a.stale_counts == b.stale_counts
}

/// The oracle is set up once, by an owner who authorizes it, with the payroll contract that
/// they name. A new oracle holds nothing.
pub proof fn setup_names_owner_and_payroll(
    state: OracleState,
    env: Env,
    owner: Address,
    payroll_contract: Address,
)
    ensures
        ({
            let (after, r) = crate::price_oracle::answer(
                state,
                state.initialize_refusal(env, owner),
                state.initialized(owner, payroll_contract),
            );
            &&& r is Ok <==> state.admin is None && env.authorized@.contains(owner)
            &&& state.admin is Some ==> r == Err::<(), OracleFault>(
                OracleFault::Error(OracleError::AlreadyInitialized),
            )
            &&& state.admin is None && r is Err ==> r == Err::<(), OracleFault>(
                OracleFault::Unauthenticated,
            )
            &&& r is Ok ==> after.admin == Some(OracleAdmin { owner, payroll_contract })
            &&& r is Ok ==> after.events == state.events.push(OracleEvent::Initialized(owner))
            &&& r is Err ==> after == state
            &&& after.pending_owner == state.pending_owner
            &&& after.sources == state.sources
            &&& same_prices(after, state)
        }),
        ({
            let fresh = OracleState::fresh();
            &&& fresh.admin is None
            &&& fresh.pending_owner is None
            &&& forall|source: Address| !fresh.sources.contains(source)
            &&& forall|pair: Pair| !fresh.configs.contains_key(pair)
            &&& forall|pair: Pair| !fresh.states.contains_key(pair)
            &&& forall|pair: Pair| !fresh.pending.contains_key(pair)
            &&& forall|pair: Pair| !fresh.stale_counts.contains_key(pair)
            &&& forall|key: SourcePair| !fresh.last_submissions.contains_key(key)
            &&& fresh.events.len() == 0
        }),
{
}

/// Registering a source and taking one off change that source's standing, announce it, and
/// change nothing else: not the prices that the source reported, nor any other source.
pub proof fn register_holds_who_was_added(state: OracleState, source: Address, other: Address)
    ensures
        ({
            let added = state.with_source(source);
            let removed = state.without_source(source);
            &&& added.sources.contains(source)
            &&& !removed.sources.contains(source)
            &&& other != source ==> added.sources.contains(other) == state.sources.contains(other)
            &&& other != source ==> removed.sources.contains(other) == state.sources.contains(
                other,
            )
            &&& added.events == state.events.push(OracleEvent::SourceAdded(source))
            &&& removed.events == state.events.push(OracleEvent::SourceRemoved(source))
            &&& same_prices(added, state)
            &&& same_prices(removed, state)
            &&& added.admin == state.admin && added.pending_owner == state.pending_owner
            &&& removed.admin == state.admin && removed.pending_owner == state.pending_owner
        }),
{
}

/// A configuration is let through if it makes sense: two different tokens, positive bounds
/// in order, some staleness, a quorum and a window, and a tolerance of the whole at most.
/// It is then the pair's, whatever the pair had before; the price and the records of who
/// reported when stay.
pub proof fn configuration_is_checked_and_kept(
    state: OracleState,
    env: Env,
    caller: Address,
    pair: Pair,
    config: PairConfig,
    other: Pair,
)
    ensures
        ({
            let (after, r) = crate::price_oracle::answer(
                state,
                state.configure_refusal(env, caller, pair, config),
                state.configured(pair, config),
            );
            let owned = env.authorized@.contains(caller) && (state.admin matches Some(admin)
                && admin.owner == caller);
            let sensible = pair.base != pair.quote && config.min_rate > 0 && config.max_rate
                >= config.min_rate && config.max_staleness_seconds > 0 && config.quorum_n > 0
                && config.quorum_window_seconds > 0 && config.tolerance_bps <= 10_000;
            &&& r is Ok <==> owned && sensible
            &&& owned && !sensible ==> r == Err::<(), OracleFault>(
                OracleFault::Error(OracleError::InvalidPairConfig),
            )
            &&& !owned ==> r == crate::price_oracle::answer(
                state,
                state.admin_refusal(env, caller),
                state,
            ).1
            &&& r is Err ==> after == state
            &&& r is Ok ==> {
                &&& after.configs.contains_key(pair)
                &&& after.configs[pair] == config
                &&& !after.pending.contains_key(pair)
                &&& !after.stale_counts.contains_key(pair)
                &&& after.events == state.events.push(OracleEvent::PairConfigured(pair))
            }
            &&& after.states == state.states
            &&& after.last_submissions == state.last_submissions
            &&& after.sources == state.sources
            &&& after.admin == state.admin && after.pending_owner == state.pending_owner
            &&& other != pair ==> {
                &&& after.configs.contains_key(other) == state.configs.contains_key(other)
                &&& after.configs[other] == state.configs[other]
                &&& after.pending.contains_key(other) == state.pending.contains_key(other)
                &&& after.pending[other] == state.pending[other]
                &&& after.stale_counts.contains_key(other) == state.stale_counts.contains_key(
                    other,
                )
                &&& after.stale_counts[other] == state.stale_counts[other]
            }
        }),
{
}

/// Whether a configuration is another but for whether the pair is enabled and when it halts.
pub open spec fn same_terms(a: PairConfig, b: PairConfig) -> bool {
    &&& a.min_rate == b.min_rate
    &&& a.max_rate == b.max_rate
    &&& a.max_staleness_seconds == b.max_staleness_seconds
    &&& a.quorum_n == b.quorum_n
    &&& a.tolerance_bps == b.tolerance_bps
    &&& a.quorum_window_seconds == b.quorum_window_seconds
    &&& a.min_submit_interval_secs == b.min_submit_interval_secs
}

/// Switching a pair off and on, and setting when it halts, change that one thing of its
/// configuration. Switched off, the pair also loses its price and its votes; the halt
/// starts to count anew when it is set. No other pair is touched.
pub proof fn pair_switches_change_one_thing(
    state: OracleState,
    pair: Pair,
    threshold: u32,
    other: Pair,
)
    ensures
        ({
            let off = state.with_pair_disabled(pair);
            let on = state.with_pair_enabled(pair);
            let halting = state.with_halt_threshold(pair, threshold);
            let before = state.configs[pair];
            &&& off.configs.contains_key(pair)
            &&& on.configs.contains_key(pair)
            &&& halting.configs.contains_key(pair)
            &&& same_terms(off.configs[pair], before)
            &&& same_terms(on.configs[pair], before)
            &&& same_terms(halting.configs[pair], before)
            &&& !off.configs[pair].enabled
            &&& on.configs[pair].enabled
            &&& halting.configs[pair].enabled == before.enabled
            &&& off.configs[pair].max_stale_before_halt == before.max_stale_before_halt
            &&& on.configs[pair].max_stale_before_halt == before.max_stale_before_halt
            &&& halting.configs[pair].max_stale_before_halt == threshold
            &&& off.states == state.states.remove(pair)
            &&& off.pending == state.pending.remove(pair)
            &&& off.stale_counts == state.stale_counts
            &&& off.last_submissions == state.last_submissions
            &&& on.states == state.states && on.pending == state.pending
            &&& on.stale_counts == state.stale_counts
            &&& on.last_submissions == state.last_submissions
            &&& halting.states == state.states && halting.pending == state.pending
            &&& halting.stale_counts == state.stale_counts.remove(pair)
            &&& halting.last_submissions == state.last_submissions
            &&& off.events == state.events.push(OracleEvent::PairDisabled(pair))
            &&& on.events == state.events.push(OracleEvent::PairEnabled(pair))
            &&& halting.events == state.events
            &&& other != pair ==> {
                &&& off.configs[other] == state.configs[other]
                &&& on.configs[other] == state.configs[other]
                &&& halting.configs[other] == state.configs[other]
                &&& off.configs.contains_key(other) == state.configs.contains_key(other)
                &&& on.configs.contains_key(other) == state.configs.contains_key(other)
                &&& halting.configs.contains_key(other) == state.configs.contains_key(other)
            }
            &&& off.admin == state.admin && on.admin == state.admin && halting.admin == state.admin
            &&& off.sources == state.sources && on.sources == state.sources && halting.sources
                == state.sources
            &&& off.pending_owner == state.pending_owner && on.pending_owner
                == state.pending_owner && halting.pending_owner == state.pending_owner
        }),
{
}

/// A read gives the price of an enabled pair as long as it is no older than the pair allows,
/// and changes nothing then. A stale read is counted where the pair can halt, and is the one
/// thing that a read changes.
pub proof fn read_gives_the_fresh_price(state: OracleState, env: Env, pair: Pair)
    ensures
        ({
            let (after, r) = state.after_read(env, pair);
            let config = state.configs[pair];
            let price = state.states[pair];
            let served = state.states.contains_key(pair) && state.configs.contains_key(pair)
                && config.enabled;
            let fresh = env.timestamp <= price.last_updated_ts + config.max_staleness_seconds;
            let seen: int = if state.stale_counts.contains_key(pair) {
                state.stale_counts[pair] as int
            } else {
                0
            };
            &&& !served ==> r == Err::<PairState, OracleError>(OracleError::PairNotConfigured)
            &&& served && fresh ==> r == Ok::<PairState, OracleError>(price)
            &&& served && !fresh ==> r == Err::<PairState, OracleError>(
                if config.max_stale_before_halt > 0 && seen >= config.max_stale_before_halt {
                    OracleError::PairHalted
                } else {
                    OracleError::PriceTooOld
                },
            )
            &&& !(served && !fresh && config.max_stale_before_halt > 0) ==> after == state
            &&& served && !fresh && config.max_stale_before_halt > 0 ==> {
                &&& after.stale_counts.contains_key(pair)
                &&& seen < u32::MAX ==> after.stale_counts[pair] == seen + 1
                &&& seen == u32::MAX ==> after.stale_counts[pair] == seen
                &&& after.stale_counts.remove(pair) == state.stale_counts.remove(pair)
                &&& after == OracleState { stale_counts: after.stale_counts, ..state }
            }
        }),
{
    let after = state.after_read(env, pair).0;
    assert(after.stale_counts.remove(pair) =~= state.stale_counts.remove(pair));
}

/// The age of a price is the time since it was updated; one that is dated ahead has none.
pub proof fn price_ages_with_the_clock(state: OracleState, env: Env, pair: Pair)
    ensures
        ({
            let updated = state.states[pair].last_updated_ts;
            &&& env.timestamp >= updated ==> state.price_age(env, pair) == env.timestamp - updated
            &&& env.timestamp < updated ==> state.price_age(env, pair) == 0
        }),
{
}

/// The ownership moves in two steps, each announced, and nothing else moves with it: the
/// payroll contract, the sources and the prices stay. The address that was named last, and
/// only that, can accept.
pub proof fn ownership_moves_in_two_steps(
    state: OracleState,
    env: Env,
    caller: Address,
    new_owner: Address,
)
    ensures
        ({
            let proposed = state.with_pending_owner(new_owner);
            let (accepted, r) = crate::price_oracle::answer(
                state,
                state.accept_refusal(env, caller),
                state.with_owner(caller),
            );
            let withdrawn = state.without_pending_owner();
            let signed = env.authorized@.contains(caller);
            &&& proposed == OracleState {
                pending_owner: Some(new_owner),
                events: state.events.push(OracleEvent::OwnershipProposed(new_owner)),
                ..state
            }
            &&& r is Ok <==> state.admin is Some && signed && state.pending_owner == Some(caller)
            &&& state.admin is None ==> r == Err::<(), OracleFault>(
                OracleFault::Error(OracleError::NotInitialized),
            )
            &&& state.admin is Some && !signed ==> r == Err::<(), OracleFault>(
                OracleFault::Unauthenticated,
            )
            &&& state.admin is Some && signed && state.pending_owner != Some(caller) ==> r
                == Err::<(), OracleFault>(OracleFault::Error(OracleError::NotAuthorized))
            &&& r is Err ==> accepted == state
            &&& r is Ok ==> {
                &&& accepted.admin matches Some(admin) && admin.owner == caller
                    && admin.payroll_contract == state.admin->0.payroll_contract
                &&& accepted.pending_owner is None
                &&& accepted.events == state.events.push(OracleEvent::OwnershipAccepted(caller))
                &&& accepted.sources == state.sources
                &&& same_prices(accepted, state)
            }
            &&& withdrawn.pending_owner is None
            &&& withdrawn.events == match state.pending_owner {
                Some(pending) => state.events.push(OracleEvent::OwnershipCancelled(pending)),
                None => state.events,
            }
            &&& withdrawn.admin == state.admin
            &&& withdrawn.sources == state.sources
            &&& same_prices(withdrawn, state)
        }),
{
}

/// A price that is asked for with an age limit is given exactly if the pair has one and it is
/// no older than that.
pub proof fn checked_price_is_young_enough(
    oracle: PriceOracleContract,
    env: Env,
    base: Address,
    quote: Address,
    max_age_seconds: u64,
    r: Result<PairState, OracleError>,
)
    requires
        call_ensures(
            PriceOracleContract::get_price_checked,
            (&oracle, &env, base, quote, max_age_seconds),
            r,
        ),
    ensures
        ({
            let pair = Pair { base, quote };
            let price = oracle.states@[pair];
            let priced = oracle.states@.contains_key(pair);
            let young = env.timestamp <= price.last_updated_ts + max_age_seconds;
            &&& !priced ==> r == Err::<PairState, OracleError>(OracleError::PairNotConfigured)
            &&& priced && young ==> r == Ok::<PairState, OracleError>(price)
            &&& priced && !young ==> r == Err::<PairState, OracleError>(OracleError::PriceTooOld)
        }),
{
}

/// What the oracle tells of itself is what it keeps: the configuration of a pair, the owner,
/// and who is a source.
pub proof fn queries_tell_what_is_kept(
    oracle: PriceOracleContract,
    base: Address,
    quote: Address,
    address: Address,
    config: Option<PairConfig>,
    owner: Option<Address>,
    is_source: bool,
)
    ensures
        call_ensures(PriceOracleContract::get_pair_config, (&oracle, base, quote), config) ==> {
            let pair = Pair { base, quote };
            &&& config is Some <==> oracle.configs@.contains_key(pair)
            &&& config is Some ==> config->0 == oracle.configs@[pair]
        },
        call_ensures(PriceOracleContract::get_owner, (&oracle,), owner) ==> {
            &&& owner is Some <==> oracle.admin is Some
            &&& owner is Some ==> owner->0 == oracle.admin->0.owner
        },
        call_ensures(PriceOracleContract::is_source_address, (&oracle, address), is_source)
            ==> is_source == oracle.sources@.contains_key(address),
{
}

/// What an assessment lets through to payroll is the reported rate of the reported pair, for
/// the configured payroll contract, in the oracle's name; and what it makes the price of the
/// pair is that rate.
pub proof fn assessment_forwards_the_report(
    oracle: PriceOracleContract,
    env: Env,
    report: PriceReport,
    state: PairState,
    update: FxUpdate,
)
    requires
        call_requires(PriceOracleContract::assess_price, (&oracle, &env, &report)),
        call_ensures(
            PriceOracleContract::assess_price,
            (&oracle, &env, &report),
            Ok(PriceDecision::Accepted(state, update)),
        ),
    ensures
        update.rate == report.rate,
        update.pair == report.pair,
        update.caller == env.contract,
        oracle.admin matches Some(admin) && update.payroll_contract == admin.payroll_contract,
        state.rate == report.rate,
        state.last_source == report.source,
{
    accepted_rate_is_forwarded(oracle@, env, report);
    accepted_price_passes_the_checks(oracle@, env, report);
}

/// Time is divided into windows of equal length, and two rates are close as the tolerance says.
pub proof fn arithmetic_is_as_it_should_be(
    timestamp: u64,
    window: u64,
    bucket: u64,
    reference: i128,
    candidate: i128,
    bps: u32,
    close: bool,
)
    requires
        window > 0,
    ensures
        call_ensures(crate::price_oracle::bucket_for_timestamp, (timestamp, window), bucket)
            ==> bucket * window <= timestamp && timestamp < bucket * window + window,
        call_ensures(crate::price_oracle::within_tolerance, (reference, candidate, bps), close)
            ==> close == is_close(reference as int, candidate as int, bps as int),
{
    tolerance_is_a_share_of_the_rate(reference as int, candidate as int, bps as int);
    vstd::arithmetic::div_mod::lemma_fundamental_div_mod(timestamp as int, window as int);
    vstd::arithmetic::div_mod::lemma_mod_bound(timestamp as int, window as int);
    vstd::arithmetic::mul::lemma_mul_is_commutative(
        timestamp as int / window as int,
        window as int,
    );
}

/// Each call of the owner's does what it is named after, with what it was given, and is told
/// why where it is turned down.
pub proof fn calls_make_their_change(
    oracle: &mut PriceOracleContract,
    env: Env,
    caller: Address,
    other: Address,
    base: Address,
    quote: Address,
    threshold: u32,
    r: Result<(), OracleFault>,
)
    ensures
        call_ensures(
            PriceOracleContract::initialize,
            (old(oracle), &env, caller, other),
            r,
        ) ==> crate::laws::is_answered(
            old(oracle)@.initialize_refusal(env, caller),
            old(oracle)@,
            OracleState {
                admin: Some(OracleAdmin { owner: caller, payroll_contract: other }),
                events: old(oracle)@.events.push(OracleEvent::Initialized(caller)),
                ..old(oracle)@
            },
            final(oracle)@,
            r,
        ),
        call_ensures(
            PriceOracleContract::add_source,
            (old(oracle), &env, caller, other),
            r,
        ) ==> crate::laws::is_answered(
            old(oracle)@.admin_refusal(env, caller),
            old(oracle)@,
            old(oracle)@.with_source(other),
            final(oracle)@,
            r,
        ),
        call_ensures(
            PriceOracleContract::remove_source,
            (old(oracle), &env, caller, other),
            r,
        ) ==> crate::laws::is_answered(
            old(oracle)@.admin_refusal(env, caller),
            old(oracle)@,
            old(oracle)@.without_source(other),
            final(oracle)@,
            r,
        ),
        call_ensures(
            PriceOracleContract::set_stale_halt_threshold,
            (old(oracle), &env, caller, base, quote, threshold),
            r,
        ) ==> crate::laws::is_answered(
            old(oracle)@.pair_refusal(env, caller, Pair { base, quote }),
            old(oracle)@,
            old(oracle)@.with_halt_threshold(Pair { base, quote }, threshold),
            final(oracle)@,
            r,
        ),
        call_ensures(
            PriceOracleContract::disable_pair,
            (old(oracle), &env, caller, base, quote),
            r,
        ) ==> crate::laws::is_answered(
            old(oracle)@.pair_refusal(env, caller, Pair { base, quote }),
            old(oracle)@,
            old(oracle)@.with_pair_disabled(Pair { base, quote }),
            final(oracle)@,
            r,
        ),
        call_ensures(
            PriceOracleContract::enable_pair,
            (old(oracle), &env, caller, base, quote),
            r,
        ) ==> crate::laws::is_answered(
            old(oracle)@.pair_refusal(env, caller, Pair { base, quote }),
            old(oracle)@,
            old(oracle)@.with_pair_enabled(Pair { base, quote }),
            final(oracle)@,
            r,
        ),
        call_ensures(
            PriceOracleContract::propose_ownership,
            (old(oracle), &env, caller, other),
            r,
        ) ==> crate::laws::is_answered(
            old(oracle)@.admin_refusal(env, caller),
            old(oracle)@,
            old(oracle)@.with_pending_owner(other),
            final(oracle)@,
            r,
        ),
        call_ensures(
            PriceOracleContract::accept_ownership,
            (old(oracle), &env, caller),
            r,
        ) ==> crate::laws::is_answered(
            old(oracle)@.accept_refusal(env, caller),
            old(oracle)@,
            old(oracle)@.with_owner(caller),
            final(oracle)@,
            r,
        ),
        call_ensures(
            PriceOracleContract::cancel_ownership_transfer,
            (old(oracle), &env, caller),
            r,
        ) ==> crate::laws::is_answered(
            old(oracle)@.admin_refusal(env, caller),
            old(oracle)@,
            old(oracle)@.without_pending_owner(),
            final(oracle)@,
            r,
        ),
{
}

/// The configuration that the owner gives a pair is the pair's, item by item; the pair is
/// enabled, and there is no halt until a threshold is set.
pub proof fn configuration_given_is_the_pairs(
    oracle: &mut PriceOracleContract,
    env: Env,
    caller: Address,
    base: Address,
    quote: Address,
    config: PairConfig,
    r: Result<(), OracleFault>,
)
    requires
        call_ensures(
            PriceOracleContract::configure_pair,
            (
                oracle,
                &env,
                caller,
                base,
                quote,
                config.min_rate,
                config.max_rate,
                config.max_staleness_seconds,
                config.quorum_n,
                config.tolerance_bps,
                config.quorum_window_seconds,
                config.min_submit_interval_secs,
            ),
            r,
        ),
        r is Ok,
    ensures
        final(oracle).configs@.contains_key(Pair { base, quote }),
        final(oracle).configs@[Pair { base, quote }] == (PairConfig {
            enabled: true,
            max_stale_before_halt: 0,
            ..config
        }),
{
}

/// A report that is accepted, and that payroll takes, is the pair's price: the reported rate.
pub proof fn report_taken_is_the_price(
    oracle: &mut PriceOracleContract,
    env: Env,
    source: Address,
    base: Address,
    quote: Address,
    rate: i128,
    source_timestamp: u64,
    fx_accepted: bool,
    r: Result<(), OracleFault>,
)
    requires
        call_ensures(
            PriceOracleContract::push_price,
            (oracle, &env, source, base, quote, rate, source_timestamp, fx_accepted),
            r,
        ),
    ensures
        ({
            let pair = Pair { base, quote };
            let report = PriceReport { source, pair, rate, source_timestamp };
            let outcome = old(oracle)@.outcome(env, report);
            let priced = outcome is Accepted && fx_accepted;
            &&& priced ==> r is Ok
            &&& priced ==> final(oracle).states@.contains_key(pair)
            &&& priced ==> final(oracle).states@[pair].rate == rate
            &&& priced ==> final(oracle).states@[pair].last_source == source
            &&& !priced ==> final(oracle).states@ == old(oracle).states@
            &&& r is Err ==> final(oracle)@ == old(oracle)@
            &&& r is Ok <==> priced || outcome is NotNewer || outcome is LateVote
                || outcome is Pending
        }),
{
    let report = PriceReport { source, pair: Pair { base, quote }, rate, source_timestamp };
    report_leaves_its_mark(old(oracle)@, env, report, fx_accepted);
    if old(oracle)@.outcome(env, report) is Accepted {
        accepted_rate_is_forwarded(old(oracle)@, env, report);
    }
}

/// A read gives the pair's price, and nothing but the price on record. It changes no price.
pub proof fn read_gives_what_is_on_record(
    oracle: &mut PriceOracleContract,
    env: Env,
    base: Address,
    quote: Address,
    r: Result<PairState, OracleError>,
)
    requires
        call_ensures(
            PriceOracleContract::get_pair_state,
            (oracle, &env, base, quote),
            r,
        ),
    ensures
        r matches Ok(price) ==> old(oracle).states@.contains_key(Pair { base, quote }) && price
            == old(oracle).states@[Pair { base, quote }],
        final(oracle)@ == (OracleState {
            stale_counts: final(oracle)@.stale_counts,
            ..old(oracle)@
        }),
{
    read_gives_the_fresh_price(old(oracle)@, env, Pair { base, quote });
}

} // verus!
