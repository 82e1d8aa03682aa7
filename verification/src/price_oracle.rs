//! The price oracle: registered sources report exchange rates for token pairs,
//! and a rate that passes the checks is served and forwarded to payroll.

use vstd::prelude::*;

use crate::address::Address;
use crate::env::Env;
use crate::table::{Key, Table};

verus! {

/// One whole, in basis points.
pub const BPS_DENOMINATOR: i128 = 10_000;

/// The most votes that one quorum bucket holds.
pub const MAX_QUORUM_SUBMISSIONS: u32 = 100;

/// Why the oracle turns a call down.
#[derive(Clone, Copy, Debug, PartialEq, Eq, Structural)]
pub enum OracleError {
    /// The contract has not been initialized yet.
    NotInitialized,
    /// `initialize` was called more than once.
    AlreadyInitialized,
    /// The caller is not the owner.
    NotAuthorized,
    /// The caller is not a registered source.
    InvalidSource,
    /// The pair is not configured, or is disabled.
    PairNotConfigured,
    /// The rate is outside the configured bounds.
    RateOutOfBounds,
    /// The rate is too old, or dated in the future.
    RateStale,
    /// The payroll contract did not take the rate.
    FxUpdateFailed,
    /// The rate is zero or negative.
    ZeroRate,
    /// The parameters do not make a pair configuration.
    InvalidPairConfig,
    /// The source has already voted in the open bucket.
    DuplicateVote,
    /// The source submits too often.
    SubmissionRateLimited,
    /// The open bucket is full.
    TooManySources,
    /// The price is older than the caller accepts.
    PriceTooOld,
    /// The pair was found stale too many times in a row.
    PairHalted,
}

impl OracleError {
    /// The number of the error, as clients and indexers know it.
    pub open spec fn spec_code(self) -> u32 {
        match self {
            OracleError::NotInitialized => 1,
            OracleError::AlreadyInitialized => 2,
            OracleError::NotAuthorized => 3,
            OracleError::InvalidSource => 4,
            OracleError::PairNotConfigured => 5,
            OracleError::RateOutOfBounds => 6,
            OracleError::RateStale => 7,
            OracleError::FxUpdateFailed => 8,
            OracleError::ZeroRate => 9,
            OracleError::InvalidPairConfig => 10,
            OracleError::DuplicateVote => 11,
            OracleError::SubmissionRateLimited => 12,
            OracleError::TooManySources => 13,
            OracleError::PriceTooOld => 14,
            OracleError::PairHalted => 15,
        }
    }

    /// The number of the error, as clients and indexers know it.
    pub fn code(self) -> (r: u32)
        ensures
            r == self.spec_code(),
    {
        match self {
            OracleError::NotInitialized => 1,
            OracleError::AlreadyInitialized => 2,
            OracleError::NotAuthorized => 3,
            OracleError::InvalidSource => 4,
            OracleError::PairNotConfigured => 5,
            OracleError::RateOutOfBounds => 6,
            OracleError::RateStale => 7,
            OracleError::FxUpdateFailed => 8,
            OracleError::ZeroRate => 9,
            OracleError::InvalidPairConfig => 10,
            OracleError::DuplicateVote => 11,
            OracleError::SubmissionRateLimited => 12,
            OracleError::TooManySources => 13,
            OracleError::PriceTooOld => 14,
            OracleError::PairHalted => 15,
        }
    }
}

/// Why a call that needs an authorization fails.
#[derive(Clone, Copy, Debug, PartialEq, Eq, Structural)]
pub enum OracleFault {
    /// An address that has to authorize the call did not.
    Unauthenticated,
    /// The oracle turns the call down.
    Error(OracleError),
}

/// A `(base, quote)` token pair.
#[derive(Clone, Copy, Debug, PartialEq, Eq)]
pub struct Pair {
    pub base: Address,
    pub quote: Address,
}

impl Key for Pair {
    fn same(&self, other: &Self) -> (r: bool) {
        self.base == other.base && self.quote == other.quote
    }
}

/// A source together with a pair that it reports on.
#[derive(Clone, Copy, Debug, PartialEq, Eq)]
pub struct SourcePair {
    pub source: Address,
    pub pair: Pair,
}

impl Key for SourcePair {
    fn same(&self, other: &Self) -> (r: bool) {
        self.source == other.source && self.pair.same(&other.pair)
    }
}

/// The configuration of a pair. Rates have six decimal places.
#[derive(Clone, Copy, Debug, PartialEq, Eq)]
pub struct PairConfig {
    /// The lowest rate accepted.
    pub min_rate: i128,
    /// The highest rate accepted.
    pub max_rate: i128,
    /// How many seconds old a report may be.
    pub max_staleness_seconds: u64,
    /// Whether the pair takes reports.
    pub enabled: bool,
    /// How many sources have to agree on a price.
    pub quorum_n: u32,
    /// How far agreeing rates may lie apart, in basis points.
    pub tolerance_bps: u32,
    /// The length of the time window that one bucket of votes covers.
    pub quorum_window_seconds: u64,
    /// How long a source has to wait between two reports on this pair;
    /// zero turns the check off.
    pub min_submit_interval_secs: u64,
    /// How many stale reads in a row are answered by `PriceTooOld` before the pair is
    /// halted; zero turns the halt off.
    pub max_stale_before_halt: u32,
}

/// The last accepted rate of a pair.
#[derive(Clone, Copy, Debug, PartialEq, Eq)]
pub struct PairState {
    pub rate: i128,
    /// The time of the accepted report.
    pub last_updated_ts: u64,
    /// The source whose report was accepted.
    pub last_source: Address,
}

/// One source's vote in the open bucket of a pair.
#[derive(Clone, Copy, Debug, PartialEq, Eq)]
pub struct PendingSubmission {
    pub source: Address,
    pub rate: i128,
    pub source_timestamp: u64,
}

/// The open bucket of a pair: the votes for one time window.
#[derive(Debug, PartialEq, Eq)]
pub struct PendingBucketState {
    pub timestamp_bucket: u64,
    pub submissions: Vec<PendingSubmission>,
}

/// The votes of an open bucket.
#[verifier::ext_equal]
pub struct Bucket {
    pub timestamp_bucket: u64,
    pub submissions: Seq<PendingSubmission>,
}

impl View for PendingBucketState {
    type V = Bucket;

    open spec fn view(&self) -> Bucket {
        Bucket { timestamp_bucket: self.timestamp_bucket, submissions: self.submissions@ }
    }
}

/// Who runs the oracle, and which payroll contract it feeds.
#[derive(Clone, Copy, Debug, PartialEq, Eq)]
pub struct OracleAdmin {
    pub owner: Address,
    pub payroll_contract: Address,
}

/// What the oracle tells the outside world.
#[derive(Clone, Copy, Debug, PartialEq, Eq)]
pub enum OracleEvent {
    Initialized(Address),
    SourceAdded(Address),
    SourceRemoved(Address),
    PairConfigured(Pair),
    PairDisabled(Pair),
    PairEnabled(Pair),
    PriceAccepted(Pair, i128),
    OwnershipProposed(Address),
    OwnershipAccepted(Address),
    OwnershipCancelled(Address),
}

/// A rate that one source reports for one pair.
#[derive(Clone, Copy, Debug, PartialEq, Eq)]
pub struct PriceReport {
    pub source: Address,
    pub pair: Pair,
    pub rate: i128,
    pub source_timestamp: u64,
}

/// The call by which an accepted rate reaches payroll.
#[derive(Clone, Copy, Debug, PartialEq, Eq)]
pub struct FxUpdate {
    pub payroll_contract: Address,
    pub caller: Address,
    pub pair: Pair,
    pub rate: i128,
}

/// What becomes of a report that is not turned down.
#[derive(Debug, PartialEq, Eq)]
pub enum PriceDecision {
    /// It is not newer than the accepted price, and changes nothing.
    NotNewer,
    /// It votes for an older bucket than the open one.
    LateVote,
    /// It is a vote, and the quorum is not reached: the open bucket as it now is.
    Pending(PendingBucketState),
    /// It is the accepted price, to be forwarded to payroll.
    Accepted(PairState, FxUpdate),
}

/// The oracle's storage.
pub struct PriceOracleContract {
    /// Set once the contract is initialized.
    pub admin: Option<OracleAdmin>,
    pub pending_owner: Option<Address>,
    pub sources: Table<Address, ()>,
    pub configs: Table<Pair, PairConfig>,
    pub states: Table<Pair, PairState>,
    pub pending: Table<Pair, PendingBucketState>,
    /// When each source last reported on each pair.
    pub last_submissions: Table<SourcePair, u64>,
    /// How many stale reads in a row each pair has seen.
    pub stale_counts: Table<Pair, u32>,
    /// What was published, oldest first.
    pub events: Vec<OracleEvent>,
}

/// The oracle's storage, as mathematical values.
#[verifier::ext_equal]
pub struct OracleState {
    pub admin: Option<OracleAdmin>,
    pub pending_owner: Option<Address>,
    pub sources: Set<Address>,
    pub configs: Map<Pair, PairConfig>,
    pub states: Map<Pair, PairState>,
    pub pending: Map<Pair, Bucket>,
    pub last_submissions: Map<SourcePair, u64>,
    pub stale_counts: Map<Pair, u32>,
    pub events: Seq<OracleEvent>,
}

impl View for PriceOracleContract {
    type V = OracleState;

    open spec fn view(&self) -> OracleState {
        OracleState {
            admin: self.admin,
            pending_owner: self.pending_owner,
            sources: self.sources@.dom(),
            configs: self.configs@,
            states: self.states@,
            pending: self.pending@.map_values(|b: PendingBucketState| b@),
            last_submissions: self.last_submissions@,
            stale_counts: self.stale_counts@,
            events: self.events@,
        }
    }
}

/// Whether `candidate` lies within `tolerance_bps` basis points of `reference`,
/// both being positive. Where one of the two products that are compared does
/// not fit an `i128`, it does not.
pub open spec fn tolerates(reference: int, candidate: int, tolerance_bps: int) -> bool {
    let diff = if reference >= candidate {
        reference - candidate
    } else {
        candidate - reference
    };
    &&& reference > 0
    &&& candidate > 0
    &&& diff * BPS_DENOMINATOR <= i128::MAX
    &&& reference * tolerance_bps <= i128::MAX
    &&& diff * BPS_DENOMINATOR <= reference * tolerance_bps
}

/// The bucket that a timestamp falls into.
pub fn bucket_for_timestamp(source_timestamp: u64, quorum_window_seconds: u64) -> (bucket: u64)
    requires
        quorum_window_seconds > 0,
    ensures
        bucket == source_timestamp / quorum_window_seconds,
{
    source_timestamp / quorum_window_seconds
}

/// Whether `candidate_rate` is close enough to `reference_rate`.
pub fn within_tolerance(reference_rate: i128, candidate_rate: i128, tolerance_bps: u32) -> (r: bool)
    ensures
        r == tolerates(reference_rate as int, candidate_rate as int, tolerance_bps as int),
{
    if reference_rate <= 0 || candidate_rate <= 0 {
        return false;
    }
    let diff: i128 = if reference_rate >= candidate_rate {
        reference_rate - candidate_rate
    } else {
        candidate_rate - reference_rate
    };
    assert(0 <= reference_rate * (tolerance_bps as i128)) by (nonlinear_arith)
        requires
            reference_rate > 0,
    ;
    match (diff.checked_mul(BPS_DENOMINATOR), reference_rate.checked_mul(tolerance_bps as i128)) {
        (Some(lhs), Some(rhs)) => lhs <= rhs,
        _ => false,
    }
}

impl PairConfig {
    /// Whether `configure_pair` lets such a configuration through.
    pub open spec fn valid(self) -> bool {
        &&& 0 < self.min_rate <= self.max_rate
        &&& self.max_staleness_seconds > 0
        &&& self.quorum_n > 0
        &&& self.quorum_window_seconds > 0
        &&& self.tolerance_bps <= BPS_DENOMINATOR
    }
}

impl Bucket {
    /// Whether no source has two votes, and the votes keep to the cap.
    pub open spec fn valid(self) -> bool {
        &&& self.submissions.len() <= MAX_QUORUM_SUBMISSIONS
        &&& forall|i: int, j: int|
            0 <= i < j < self.submissions.len() ==> (#[trigger] self.submissions[i]).source != (
            #[trigger] self.submissions[j]).source
    }
}

/// The latest of `floor` and the votes' timestamps.
pub open spec fn latest_timestamp(votes: Seq<PendingSubmission>, floor: u64) -> u64
    decreases votes.len(),
{
    if votes.len() == 0 {
        floor
    } else {
        let before = latest_timestamp(votes.drop_last(), floor);
        if votes.last().source_timestamp > before {
            votes.last().source_timestamp
        } else {
            before
        }
    }
}

/// What becomes of a report.
pub enum PriceOutcome {
    Refused(OracleFault),
    NotNewer,
    LateVote,
    Pending(Bucket),
    Accepted(PairState, FxUpdate),
}

/// The outcome that an assessment stands for.
pub open spec fn outcome_of(assessed: Result<PriceDecision, OracleFault>) -> PriceOutcome {
    match assessed {
        Err(fault) => PriceOutcome::Refused(fault),
        Ok(PriceDecision::NotNewer) => PriceOutcome::NotNewer,
        Ok(PriceDecision::LateVote) => PriceOutcome::LateVote,
        Ok(PriceDecision::Pending(bucket)) => PriceOutcome::Pending(bucket@),
        Ok(PriceDecision::Accepted(state, update)) => PriceOutcome::Accepted(state, update),
    }
}

impl PriceReport {
    pub open spec fn source_pair(self) -> SourcePair {
        SourcePair { source: self.source, pair: self.pair }
    }

    pub open spec fn vote(self) -> PendingSubmission {
        PendingSubmission {
            source: self.source,
            rate: self.rate,
            source_timestamp: self.source_timestamp,
        }
    }
}

impl OracleState {
    /// Every stored configuration passed the checks of `configure_pair`, and
    /// every open bucket has one vote per source and keeps to the cap.
    pub open spec fn wf(self) -> bool {
        &&& forall|pair: Pair| #[trigger]
            self.configs.contains_key(pair) ==> self.configs[pair].valid() && pair.base
                != pair.quote
        &&& forall|pair: Pair| #[trigger]
            self.pending.contains_key(pair) ==> self.pending[pair].valid()
    }

    /// Whether the time of a pair, if it is configured, is divided into windows.
    pub open spec fn is_windowed(self, pair: Pair) -> bool {
        self.configs.contains_key(pair) ==> self.configs[pair].quorum_window_seconds > 0
    }

    /// Why a call that only the owner may make is turned down, if it is.
    pub open spec fn admin_refusal(self, env: Env, caller: Address) -> Option<OracleFault> {
        if self.admin is None {
            Some(OracleFault::Error(OracleError::NotInitialized))
        } else if !env.authorizes(caller) {
            Some(OracleFault::Unauthenticated)
        } else if self.admin->0.owner != caller {
            Some(OracleFault::Error(OracleError::NotAuthorized))
        } else {
            None
        }
    }

    pub open spec fn publishing(self, event: OracleEvent) -> OracleState {
        OracleState { events: self.events.push(event), ..self }
    }

    /// Why a report is turned down whatever was reported before, if it is.
    pub open spec fn report_refusal(self, env: Env, report: PriceReport) -> Option<OracleFault> {
        if self.admin is None {
            Some(OracleFault::Error(OracleError::NotInitialized))
        } else if !env.authorizes(report.source) {
            Some(OracleFault::Unauthenticated)
        } else if !self.sources.contains(report.source) {
            Some(OracleFault::Error(OracleError::InvalidSource))
        } else if report.rate <= 0 {
            Some(OracleFault::Error(OracleError::ZeroRate))
        } else if !self.configs.contains_key(report.pair) || !self.configs[report.pair].enabled {
            Some(OracleFault::Error(OracleError::PairNotConfigured))
        } else if !(self.configs[report.pair].min_rate <= report.rate
            <= self.configs[report.pair].max_rate) {
            Some(OracleFault::Error(OracleError::RateOutOfBounds))
        } else if report.source_timestamp > env.timestamp || env.timestamp
            - report.source_timestamp > self.configs[report.pair].max_staleness_seconds {
            Some(OracleFault::Error(OracleError::RateStale))
        } else {
            None
        }
    }

    /// Whether the report is dated after the accepted price.
    pub open spec fn is_newer(self, report: PriceReport) -> bool {
        self.states.contains_key(report.pair) ==> report.source_timestamp
            > self.states[report.pair].last_updated_ts
    }

    /// Whether the source has reported on the pair too recently.
    pub open spec fn is_too_soon(self, report: PriceReport) -> bool {
        &&& self.last_submissions.contains_key(report.source_pair())
        &&& crate::env::minus_or_zero(
            report.source_timestamp as int,
            self.last_submissions[report.source_pair()] as int,
        ) < self.configs[report.pair].min_submit_interval_secs
    }

    /// The votes that the pair has in a bucket.
    pub open spec fn votes_in(self, pair: Pair, bucket: u64) -> Seq<PendingSubmission> {
        if self.pending.contains_key(pair) && self.pending[pair].timestamp_bucket == bucket {
            self.pending[pair].submissions
        } else {
            Seq::empty()
        }
    }

    /// Whether a vote counts for a rate: its source is still registered, and
    /// its rate is close enough.
    pub open spec fn supports(
        self,
        vote: PendingSubmission,
        rate: i128,
        tolerance_bps: u32,
    ) -> bool {
        self.sources.contains(vote.source) && tolerates(
            rate as int,
            vote.rate as int,
            tolerance_bps as int,
        )
    }

    /// The votes that count for a rate.
    pub open spec fn supporters(
        self,
        votes: Seq<PendingSubmission>,
        rate: i128,
        tolerance_bps: u32,
    ) -> Seq<PendingSubmission> {
        votes.filter(|vote: PendingSubmission| self.supports(vote, rate, tolerance_bps))
    }

    /// The outcome of accepting a report as of `timestamp`.
    pub open spec fn acceptance(
        self,
        env: Env,
        report: PriceReport,
        timestamp: u64,
    ) -> PriceOutcome {
        PriceOutcome::Accepted(
            PairState {
                rate: report.rate,
                last_updated_ts: timestamp,
                last_source: report.source,
            },
            FxUpdate {
                payroll_contract: self.admin->0.payroll_contract,
                caller: env.contract,
                pair: report.pair,
                rate: report.rate,
            },
        )
    }

    /// The outcome of a report that counts as a vote.
    pub open spec fn vote_outcome(self, env: Env, report: PriceReport) -> PriceOutcome {
        let config = self.configs[report.pair];
        let bucket = (report.source_timestamp / config.quorum_window_seconds) as u64;
        let before = self.votes_in(report.pair, bucket);
        let votes = before.push(report.vote());
        let supporters = self.supporters(votes, report.rate, config.tolerance_bps);
        if self.pending.contains_key(report.pair) && self.pending[report.pair].timestamp_bucket
            > bucket {
            PriceOutcome::LateVote
        } else if exists|i: int|
            0 <= i < before.len() && (#[trigger] before[i]).source == report.source {
            PriceOutcome::Refused(OracleFault::Error(OracleError::DuplicateVote))
        } else if before.len() >= MAX_QUORUM_SUBMISSIONS {
            PriceOutcome::Refused(OracleFault::Error(OracleError::TooManySources))
        } else if supporters.len() < config.quorum_n {
            PriceOutcome::Pending(Bucket { timestamp_bucket: bucket, submissions: votes })
        } else {
            self.acceptance(env, report, latest_timestamp(supporters, report.source_timestamp))
        }
    }

    /// What becomes of a report.
    pub open spec fn outcome(self, env: Env, report: PriceReport) -> PriceOutcome {
        match self.report_refusal(env, report) {
            Some(fault) => PriceOutcome::Refused(fault),
            None => if !self.is_newer(report) {
                PriceOutcome::NotNewer
            } else if self.is_too_soon(report) {
                PriceOutcome::Refused(OracleFault::Error(OracleError::SubmissionRateLimited))
            } else if self.configs[report.pair].quorum_n <= 1 {
                self.acceptance(env, report, report.source_timestamp)
            } else {
                self.vote_outcome(env, report)
            },
        }
    }

    /// The state in which the report's time is on record, where the pair
    /// limits how often a source may report.
    pub open spec fn noting(self, report: PriceReport) -> OracleState {
        if self.configs[report.pair].min_submit_interval_secs > 0 {
            OracleState {
                last_submissions: self.last_submissions.insert(
                    report.source_pair(),
                    report.source_timestamp,
                ),
                ..self
            }
        } else {
            self
        }
    }

    /// The state in which a price is accepted.
    pub open spec fn accepting(self, report: PriceReport, accepted: PairState) -> OracleState {
        let noted = self.noting(report);
        OracleState {
            pending: if self.configs[report.pair].quorum_n > 1 {
                noted.pending.remove(report.pair)
            } else {
                noted.pending
            },
            stale_counts: noted.stale_counts.remove(report.pair),
            states: noted.states.insert(report.pair, accepted),
            ..noted
        }.publishing(OracleEvent::PriceAccepted(report.pair, report.rate))
    }

    /// The state after a report, and the answer to it, given what payroll
    /// answers should the rate be forwarded.
    pub open spec fn after_push(
        self,
        env: Env,
        report: PriceReport,
        fx_accepted: bool,
    ) -> (OracleState, Result<(), OracleFault>) {
        match self.outcome(env, report) {
            PriceOutcome::Refused(fault) => (self, Err(fault)),
            PriceOutcome::NotNewer => (self, Ok(())),
            PriceOutcome::LateVote => (self.noting(report), Ok(())),
            PriceOutcome::Pending(bucket) => (
                OracleState {
                    pending: self.pending.insert(report.pair, bucket),
                    ..self.noting(report)
                },
                Ok(()),
            ),
            PriceOutcome::Accepted(accepted, _) => if fx_accepted {
                (self.accepting(report, accepted), Ok(()))
            } else {
                (self, Err(OracleFault::Error(OracleError::FxUpdateFailed)))
            },
        }
    }
}

impl PriceOracleContract {
    /// The votes that the pair has in a bucket.
    fn votes_in(&self, pair: &Pair, bucket: u64) -> (votes: Vec<PendingSubmission>)
        ensures
            votes@ == self@.votes_in(*pair, bucket),
    {
        let mut votes: Vec<PendingSubmission> = Vec::new();
        match self.pending.get(pair) {
            Some(open) if open.timestamp_bucket == bucket => {
                let mut i: usize = 0;
                while i < open.submissions.len()
                    invariant
                        i <= open.submissions@.len(),
                        votes@ == open.submissions@.subrange(0, i as int),
                    decreases open.submissions@.len() - i,
                {
                    votes.push(open.submissions[i]);
                    i = i + 1;
                    assert(votes@ =~= open.submissions@.subrange(0, i as int));
                }
                assert(votes@ =~= open.submissions@);
            },
            _ => {},
        }
        votes
    }

    /// Whether `source` has one of `votes`.
    fn has_voted(votes: &Vec<PendingSubmission>, source: &Address) -> (r: bool)
        ensures
            r == exists|i: int| 0 <= i < votes@.len() && (#[trigger] votes@[i]).source == *source,
    {
        let mut i: usize = 0;
        while i < votes.len()
            invariant
                i <= votes@.len(),
                forall|j: int| 0 <= j < i ==> (#[trigger] votes@[j]).source != *source,
            decreases votes@.len() - i,
        {
            if votes[i].source == *source {
                assert(votes@[i as int].source == *source);
                return true;
            }
            i = i + 1;
        }
        false
    }

    /// How many votes count for `rate`, and the latest of their timestamps and `floor`.
    fn tally(
        &self,
        votes: &Vec<PendingSubmission>,
        rate: i128,
        tolerance_bps: u32,
        floor: u64,
    ) -> (r: (usize, u64))
        ensures
            r.0 == self@.supporters(votes@, rate, tolerance_bps).len(),
            r.1 == latest_timestamp(self@.supporters(votes@, rate, tolerance_bps), floor),
    {
        let ghost pred = |vote: PendingSubmission| self@.supports(vote, rate, tolerance_bps);
        let mut count: usize = 0;
        let mut latest: u64 = floor;
        let mut i: usize = 0;
        proof {
            reveal(Seq::filter);
            assert(votes@.take(0).filter(pred) =~= Seq::empty());
        }
        while i < votes.len()
            invariant
                i <= votes@.len(),
                count <= i,
                pred == |vote: PendingSubmission| self@.supports(vote, rate, tolerance_bps),
                count == votes@.take(i as int).filter(pred).len(),
                latest == latest_timestamp(votes@.take(i as int).filter(pred), floor),
            decreases votes@.len() - i,
        {
            let ghost before = votes@.take(i as int).filter(pred);
            proof {
                reveal(Seq::filter);
                assert(votes@.take(i + 1).drop_last() =~= votes@.take(i as int));
                assert(votes@.take(i + 1).last() == votes@[i as int]);
                assert(before.push(votes@[i as int]).drop_last() =~= before);
            }
            if self.sources.has(&votes[i].source) && within_tolerance(
                rate,
                votes[i].rate,
                tolerance_bps,
            ) {
                assert(votes@.take(i + 1).filter(pred) == before.push(votes@[i as int]));
                count = count + 1;
                if votes[i].source_timestamp > latest {
                    latest = votes[i].source_timestamp;
                }
            }
            i = i + 1;
        }
        assert(votes@.take(i as int) =~= votes@);
        (count, latest)
    }

    /// Checks a report against everything but earlier reports.
    fn check_report(&self, env: &Env, report: &PriceReport) -> (r: Result<PairConfig, OracleFault>)
        ensures
            match self@.report_refusal(*env, *report) {
                Some(fault) => r == Err::<PairConfig, OracleFault>(fault),
                None => r == Ok::<PairConfig, OracleFault>(self@.configs[report.pair])
                    && self@.configs.contains_key(report.pair) && self@.admin is Some,
            },
    {
        if self.admin.is_none() {
            return Err(OracleFault::Error(OracleError::NotInitialized));
        }
        if !env.is_authorized(&report.source) {
            return Err(OracleFault::Unauthenticated);
        }
        if !self.sources.has(&report.source) {
            return Err(OracleFault::Error(OracleError::InvalidSource));
        }
        if report.rate <= 0 {
            return Err(OracleFault::Error(OracleError::ZeroRate));
        }
        let config: PairConfig = match self.configs.get(&report.pair) {
            Some(config) if config.enabled => *config,
            _ => return Err(OracleFault::Error(OracleError::PairNotConfigured)),
        };
        if report.rate < config.min_rate || report.rate > config.max_rate {
            return Err(OracleFault::Error(OracleError::RateOutOfBounds));
        }
        if report.source_timestamp > env.timestamp {
            return Err(OracleFault::Error(OracleError::RateStale));
        }
        if env.timestamp - report.source_timestamp > config.max_staleness_seconds {
            return Err(OracleFault::Error(OracleError::RateStale));
        }
        Ok(config)
    }

    /// Counts a report as a vote in its bucket.
    fn assess_vote(
        &self,
        env: &Env,
        report: &PriceReport,
        config: &PairConfig,
    ) -> (r: Result<PriceDecision, OracleFault>)
        requires
            self@.admin is Some,
            self@.configs[report.pair] == *config,
            config.quorum_window_seconds > 0,
        ensures
            outcome_of(r) == self@.vote_outcome(*env, *report),
    {
        let bucket: u64 = bucket_for_timestamp(
            report.source_timestamp,
            config.quorum_window_seconds,
        );
        match self.pending.get(&report.pair) {
            Some(open) if open.timestamp_bucket > bucket => return Ok(PriceDecision::LateVote),
            _ => {},
        }
        let mut votes: Vec<PendingSubmission> = self.votes_in(&report.pair, bucket);
        if Self::has_voted(&votes, &report.source) {
            return Err(OracleFault::Error(OracleError::DuplicateVote));
        }
        if votes.len() >= MAX_QUORUM_SUBMISSIONS as usize {
            return Err(OracleFault::Error(OracleError::TooManySources));
        }
        votes.push(
            PendingSubmission {
                source: report.source,
                rate: report.rate,
                source_timestamp: report.source_timestamp,
            },
        );
        let (count, latest) = self.tally(
            &votes,
            report.rate,
            config.tolerance_bps,
            report.source_timestamp,
        );
        if count < config.quorum_n as usize {
            let bucket_state = PendingBucketState { timestamp_bucket: bucket, submissions: votes };
            return Ok(PriceDecision::Pending(bucket_state));
        }
        Ok(self.accept(env, report, latest))
    }

    /// The decision to accept a report as of `timestamp`.
    fn accept(&self, env: &Env, report: &PriceReport, timestamp: u64) -> (r: PriceDecision)
        requires
            self@.admin is Some,
        ensures
            outcome_of(Ok(r)) == self@.acceptance(*env, *report, timestamp),
    {
        let admin: OracleAdmin = self.admin.unwrap();
        PriceDecision::Accepted(
            PairState {
                rate: report.rate,
                last_updated_ts: timestamp,
                last_source: report.source,
            },
            FxUpdate {
                payroll_contract: admin.payroll_contract,
                caller: env.contract,
                pair: report.pair,
                rate: report.rate,
            },
        )
    }

    /// Decides what becomes of a report, and changes nothing.
    pub fn assess_price(
        &self,
        env: &Env,
        report: &PriceReport,
    ) -> (r: Result<PriceDecision, OracleFault>)
        requires
            self@.is_windowed(report.pair),
        ensures
            outcome_of(r) == self@.outcome(*env, *report),
    {
        let config: PairConfig = match self.check_report(env, report) {
            Ok(config) => config,
            Err(fault) => return Err(fault),
        };
        match self.states.get(&report.pair) {
            Some(state) if report.source_timestamp <= state.last_updated_ts => return Ok(
                PriceDecision::NotNewer,
            ),
            _ => {},
        }
        let key = SourcePair { source: report.source, pair: report.pair };
        match self.last_submissions.get(&key) {
            Some(last) => {
                let elapsed: u64 = if report.source_timestamp >= *last {
                    report.source_timestamp - *last
                } else {
                    0
                };
                if elapsed < config.min_submit_interval_secs {
                    return Err(OracleFault::Error(OracleError::SubmissionRateLimited));
                }
            },
            None => {},
        }
        if config.quorum_n <= 1 {
            Ok(self.accept(env, report, report.source_timestamp))
        } else {
            self.assess_vote(env, report, &config)
        }
    }

    /// Takes a report: a registered source says that one unit of `base` is
    /// worth `rate` of `quote`. Once the checks pass and enough sources agree,
    /// the rate becomes the price of the pair and is forwarded to payroll;
    /// `fx_accepted` is what payroll answers, should the rate be forwarded.
    pub fn push_price(
        &mut self,
        env: &Env,
        source: Address,
        base: Address,
        quote: Address,
        rate: i128,
        source_timestamp: u64,
        fx_accepted: bool,
    ) -> (r: Result<(), OracleFault>)
        requires
            old(self)@.is_windowed(Pair { base, quote }),
        ensures
            (final(self)@, r) == old(self)@.after_push(
                *env,
                PriceReport { source, pair: Pair { base, quote }, rate, source_timestamp },
                fx_accepted,
            ),
            old(self)@.wf() ==> final(self)@.wf(),
    {
        let pair = Pair { base, quote };
        let report = PriceReport { source, pair, rate, source_timestamp };
        let decision: PriceDecision = match self.assess_price(env, &report) {
            Ok(decision) => decision,
            Err(fault) => return Err(fault),
        };
        proof {
            if self@.wf() {
                crate::laws::price_oracle::push_keeps_wf(self@, *env, report, fx_accepted);
            }
        }
        let config: PairConfig = *self.configs.get(&pair).unwrap();
        match decision {
            PriceDecision::NotNewer => Ok(()),
            PriceDecision::LateVote => {
                self.note(&report, &config);
                Ok(())
            },
            PriceDecision::Pending(bucket) => {
                self.note(&report, &config);
                self.pending.set(pair, bucket);
                Ok(())
            },
            PriceDecision::Accepted(state, _update) => {
                if !fx_accepted {
                    return Err(OracleFault::Error(OracleError::FxUpdateFailed));
                }
                self.note(&report, &config);
                if config.quorum_n > 1 {
                    self.pending.remove(&pair);
                }
                self.stale_counts.remove(&pair);
                self.states.set(pair, state);
                self.events.push(OracleEvent::PriceAccepted(pair, rate));
                Ok(())
            },
        }
    }

    /// Puts the report's time on record, where the pair asks for it.
    fn note(&mut self, report: &PriceReport, config: &PairConfig)
        requires
            old(self)@.configs[report.pair] == *config,
        ensures
            final(self)@ == old(self)@.noting(*report),
            final(self).pending == old(self).pending,
    {
        if config.min_submit_interval_secs > 0 {
            let key = SourcePair { source: report.source, pair: report.pair };
            self.last_submissions.set(key, report.source_timestamp);
        }
    }
}

impl OracleState {
    /// A freshly deployed oracle.
    pub open spec fn fresh() -> OracleState {
        OracleState {
            admin: None,
            pending_owner: None,
            sources: Set::empty(),
            configs: Map::empty(),
            states: Map::empty(),
            pending: Map::empty(),
            last_submissions: Map::empty(),
            stale_counts: Map::empty(),
            events: Seq::empty(),
        }
    }

    /// Why `initialize` is turned down, if it is.
    pub open spec fn initialize_refusal(self, env: Env, owner: Address) -> Option<OracleFault> {
        if self.admin is Some {
            Some(OracleFault::Error(OracleError::AlreadyInitialized))
        } else if !env.authorizes(owner) {
            Some(OracleFault::Unauthenticated)
        } else {
            None
        }
    }

    pub open spec fn initialized(self, owner: Address, payroll_contract: Address) -> OracleState {
        OracleState {
            admin: Some(OracleAdmin { owner, payroll_contract }),
            ..self
        }.publishing(OracleEvent::Initialized(owner))
    }

    pub open spec fn with_source(self, source: Address) -> OracleState {
        OracleState { sources: self.sources.insert(source), ..self }.publishing(
            OracleEvent::SourceAdded(source),
        )
    }

    pub open spec fn without_source(self, source: Address) -> OracleState {
        OracleState { sources: self.sources.remove(source), ..self }.publishing(
            OracleEvent::SourceRemoved(source),
        )
    }

    /// Why `configure_pair` is turned down, if it is.
    pub open spec fn configure_refusal(
        self,
        env: Env,
        caller: Address,
        pair: Pair,
        config: PairConfig,
    ) -> Option<OracleFault> {
        match self.admin_refusal(env, caller) {
            Some(fault) => Some(fault),
            None => if pair.base == pair.quote || !config.valid() {
                Some(OracleFault::Error(OracleError::InvalidPairConfig))
            } else {
                None
            },
        }
    }

    /// A configured pair starts without votes and without stale reads.
    pub open spec fn configured(self, pair: Pair, config: PairConfig) -> OracleState {
        OracleState {
            configs: self.configs.insert(pair, config),
            pending: self.pending.remove(pair),
            stale_counts: self.stale_counts.remove(pair),
            ..self
        }.publishing(OracleEvent::PairConfigured(pair))
    }

    /// Why an owner's call on a configured pair is turned down, if it is.
    pub open spec fn pair_refusal(
        self,
        env: Env,
        caller: Address,
        pair: Pair,
    ) -> Option<OracleFault> {
        match self.admin_refusal(env, caller) {
            Some(fault) => Some(fault),
            None => if !self.configs.contains_key(pair) {
                Some(OracleFault::Error(OracleError::PairNotConfigured))
            } else {
                None
            },
        }
    }

    pub open spec fn with_halt_threshold(self, pair: Pair, threshold: u32) -> OracleState {
        OracleState {
            configs: self.configs.insert(
                pair,
                PairConfig { max_stale_before_halt: threshold, ..self.configs[pair] },
            ),
            stale_counts: self.stale_counts.remove(pair),
            ..self
        }
    }

    /// A disabled pair keeps its configuration, and loses its votes and its price.
    pub open spec fn with_pair_disabled(self, pair: Pair) -> OracleState {
        OracleState {
            configs: self.configs.insert(pair, PairConfig { enabled: false, ..self.configs[pair] }),
            pending: self.pending.remove(pair),
            states: self.states.remove(pair),
            ..self
        }.publishing(OracleEvent::PairDisabled(pair))
    }

    pub open spec fn with_pair_enabled(self, pair: Pair) -> OracleState {
        OracleState {
            configs: self.configs.insert(pair, PairConfig { enabled: true, ..self.configs[pair] }),
            ..self
        }.publishing(OracleEvent::PairEnabled(pair))
    }

    /// The age of the accepted price of a pair.
    pub open spec fn price_age(self, env: Env, pair: Pair) -> int {
        crate::env::minus_or_zero(env.timestamp as int, self.states[pair].last_updated_ts as int)
    }

    /// Whether the pair has a price that it would serve while fresh.
    pub open spec fn serves(self, pair: Pair) -> bool {
        self.states.contains_key(pair) && self.configs.contains_key(pair)
            && self.configs[pair].enabled
    }

    /// Whether the accepted price of a pair is older than its configuration allows.
    pub open spec fn is_stale(self, env: Env, pair: Pair) -> bool {
        self.price_age(env, pair) > self.configs[pair].max_staleness_seconds
    }

    /// How many stale reads in a row a pair has seen, as far as they can be counted.
    pub open spec fn stale_count(self, pair: Pair) -> u32 {
        if self.stale_counts.contains_key(pair) {
            self.stale_counts[pair]
        } else {
            0
        }
    }

    /// The state in which one more stale read of a pair has been counted.
    pub open spec fn counting_stale_read(self, pair: Pair) -> OracleState {
        let before = self.stale_count(pair);
        let count = if before < u32::MAX {
            (before + 1) as u32
        } else {
            before
        };
        OracleState { stale_counts: self.stale_counts.insert(pair, count), ..self }
    }

    /// The state after a read of a pair's price, and the answer to it. A
    /// stale read is counted where the pair has a halt threshold. It is answered by
    /// `PriceTooOld` as many times in a row as the threshold says, and by `PairHalted`
    /// from then on.
    pub open spec fn after_read(
        self,
        env: Env,
        pair: Pair,
    ) -> (OracleState, Result<PairState, OracleError>) {
        let threshold = self.configs[pair].max_stale_before_halt;
        if !self.serves(pair) {
            (self, Err(OracleError::PairNotConfigured))
        } else if !self.is_stale(env, pair) {
            (self, Ok(self.states[pair]))
        } else if threshold == 0 {
            (self, Err(OracleError::PriceTooOld))
        } else {
            (
                self.counting_stale_read(pair),
                Err(
                    if self.stale_count(pair) >= threshold {
                        OracleError::PairHalted
                    } else {
                        OracleError::PriceTooOld
                    },
                ),
            )
        }
    }

    pub open spec fn with_pending_owner(self, new_owner: Address) -> OracleState {
        OracleState { pending_owner: Some(new_owner), ..self }.publishing(
            OracleEvent::OwnershipProposed(new_owner),
        )
    }

    /// Why `accept_ownership` is turned down, if it is.
    pub open spec fn accept_refusal(self, env: Env, caller: Address) -> Option<OracleFault> {
        if self.admin is None {
            Some(OracleFault::Error(OracleError::NotInitialized))
        } else if !env.authorizes(caller) {
            Some(OracleFault::Unauthenticated)
        } else if self.pending_owner != Some(caller) {
            Some(OracleFault::Error(OracleError::NotAuthorized))
        } else {
            None
        }
    }

    pub open spec fn with_owner(self, owner: Address) -> OracleState {
        OracleState {
            admin: Some(OracleAdmin { owner, ..self.admin->0 }),
            pending_owner: None,
            ..self
        }.publishing(OracleEvent::OwnershipAccepted(owner))
    }

    pub open spec fn without_pending_owner(self) -> OracleState {
        match self.pending_owner {
            Some(pending) => OracleState { pending_owner: None, ..self }.publishing(
                OracleEvent::OwnershipCancelled(pending),
            ),
            None => self,
        }
    }
}

/// The answer to a call that changes the state unless it is turned down.
pub open spec fn answer(
    before: OracleState,
    refusal: Option<OracleFault>,
    changed: OracleState,
) -> (OracleState, Result<(), OracleFault>) {
    match refusal {
        Some(fault) => (before, Err(fault)),
        None => (changed, Ok(())),
    }
}

impl PriceOracleContract {
    /// A freshly deployed oracle.
    pub fn new() -> (oracle: Self)
        ensures
            oracle@ == OracleState::fresh(),
            oracle@.wf(),
    {
        let oracle = PriceOracleContract {
            admin: None,
            pending_owner: None,
            sources: Table::new(),
            configs: Table::new(),
            states: Table::new(),
            pending: Table::new(),
            last_submissions: Table::new(),
            stale_counts: Table::new(),
            events: Vec::new(),
        };
        oracle
    }

    /// Checks that the contract is initialized and that its owner makes the call.
    fn require_admin(&self, env: &Env, caller: &Address) -> (r: Result<(), OracleFault>)
        ensures
            r == match self@.admin_refusal(*env, *caller) {
                Some(fault) => Err::<(), OracleFault>(fault),
                None => Ok(()),
            },
    {
        let admin: OracleAdmin = match self.admin {
            Some(admin) => admin,
            None => return Err(OracleFault::Error(OracleError::NotInitialized)),
        };
        if !env.is_authorized(caller) {
            return Err(OracleFault::Unauthenticated);
        }
        if admin.owner == *caller {
            Ok(())
        } else {
            Err(OracleFault::Error(OracleError::NotAuthorized))
        }
    }

    /// Sets the owner and the payroll contract that takes the rates, once.
    pub fn initialize(
        &mut self,
        env: &Env,
        owner: Address,
        payroll_contract: Address,
    ) -> (r: Result<(), OracleFault>)
        ensures
            (final(self)@, r) == answer(
                old(self)@,
                old(self)@.initialize_refusal(*env, owner),
                old(self)@.initialized(owner, payroll_contract),
            ),
            old(self)@.wf() ==> final(self)@.wf(),
    {
        if self.admin.is_some() {
            return Err(OracleFault::Error(OracleError::AlreadyInitialized));
        }
        if !env.is_authorized(&owner) {
            return Err(OracleFault::Unauthenticated);
        }
        self.admin = Some(OracleAdmin { owner, payroll_contract });
        self.events.push(OracleEvent::Initialized(owner));
        Ok(())
    }

    /// Registers a source. Only the owner may.
    pub fn add_source(
        &mut self,
        env: &Env,
        caller: Address,
        source: Address,
    ) -> (r: Result<(), OracleFault>)
        ensures
            (final(self)@, r) == answer(
                old(self)@,
                old(self)@.admin_refusal(*env, caller),
                old(self)@.with_source(source),
            ),
            old(self)@.wf() ==> final(self)@.wf(),
    {
        match self.require_admin(env, &caller) {
            Ok(()) => {},
            Err(fault) => return Err(fault),
        }
        self.sources.set(source, ());
        self.events.push(OracleEvent::SourceAdded(source));
        Ok(())
    }

    /// Takes a source off the register. Only the owner may. Prices accepted
    /// from the source stay.
    pub fn remove_source(
        &mut self,
        env: &Env,
        caller: Address,
        source: Address,
    ) -> (r: Result<(), OracleFault>)
        ensures
            (final(self)@, r) == answer(
                old(self)@,
                old(self)@.admin_refusal(*env, caller),
                old(self)@.without_source(source),
            ),
            old(self)@.wf() ==> final(self)@.wf(),
    {
        match self.require_admin(env, &caller) {
            Ok(()) => {},
            Err(fault) => return Err(fault),
        }
        self.sources.remove(&source);
        self.events.push(OracleEvent::SourceRemoved(source));
        Ok(())
    }

    /// Configures a pair and enables it, with the stale halt off. Only the owner may.
    pub fn configure_pair(
        &mut self,
        env: &Env,
        caller: Address,
        base: Address,
        quote: Address,
        min_rate: i128,
        max_rate: i128,
        max_staleness_seconds: u64,
        quorum_n: u32,
        tolerance_bps: u32,
        quorum_window_seconds: u64,
        min_submit_interval_secs: u64,
    ) -> (r: Result<(), OracleFault>)
        ensures
            ({
                let pair = Pair { base, quote };
                let config = PairConfig {
                    min_rate,
                    max_rate,
                    max_staleness_seconds,
                    enabled: true,
                    quorum_n,
                    tolerance_bps,
                    quorum_window_seconds,
                    min_submit_interval_secs,
                    max_stale_before_halt: 0,
                };
                (final(self)@, r) == answer(
                    old(self)@,
                    old(self)@.configure_refusal(*env, caller, pair, config),
                    old(self)@.configured(pair, config),
                )
            }),
            old(self)@.wf() ==> final(self)@.wf(),
    {
        match self.require_admin(env, &caller) {
            Ok(()) => {},
            Err(fault) => return Err(fault),
        }
        if base == quote || min_rate <= 0 || max_rate <= 0 || min_rate > max_rate {
            return Err(OracleFault::Error(OracleError::InvalidPairConfig));
        }
        if max_staleness_seconds == 0 || quorum_n == 0 || quorum_window_seconds == 0 {
            return Err(OracleFault::Error(OracleError::InvalidPairConfig));
        }
        if tolerance_bps as i128 > BPS_DENOMINATOR {
            return Err(OracleFault::Error(OracleError::InvalidPairConfig));
        }
        let pair = Pair { base, quote };
        let config = PairConfig {
            min_rate,
            max_rate,
            max_staleness_seconds,
            enabled: true,
            quorum_n,
            tolerance_bps,
            quorum_window_seconds,
            min_submit_interval_secs,
            max_stale_before_halt: 0,
        };
        proof {
            if self@.wf() {
                crate::laws::price_oracle::owner_calls_keep_wf(
                    self@,
                    *env,
                    caller,
                    pair,
                    config,
                    caller,
                    0,
                );
            }
        }
        self.configs.set(pair, config);
        self.pending.remove(&pair);
        self.stale_counts.remove(&pair);
        self.events.push(OracleEvent::PairConfigured(pair));
        assert(self@ =~= old(self)@.configured(pair, config));
        Ok(())
    }

    /// Sets after how many stale reads in a row a pair is halted, zero for never, and
    /// starts the count anew. Only the owner may.
    pub fn set_stale_halt_threshold(
        &mut self,
        env: &Env,
        caller: Address,
        base: Address,
        quote: Address,
        threshold: u32,
    ) -> (r: Result<(), OracleFault>)
        ensures
            (final(self)@, r) == answer(
                old(self)@,
                old(self)@.pair_refusal(*env, caller, Pair { base, quote }),
                old(self)@.with_halt_threshold(Pair { base, quote }, threshold),
            ),
            old(self)@.wf() ==> final(self)@.wf(),
    {
        match self.require_admin(env, &caller) {
            Ok(()) => {},
            Err(fault) => return Err(fault),
        }
        let pair = Pair { base, quote };
        let config: PairConfig = match self.configs.get(&pair) {
            Some(config) => *config,
            None => return Err(OracleFault::Error(OracleError::PairNotConfigured)),
        };
        self.configs.set(pair, PairConfig { max_stale_before_halt: threshold, ..config });
        self.stale_counts.remove(&pair);
        proof {
            assert(self@ =~= old(self)@.with_halt_threshold(pair, threshold));
            if old(self)@.wf() {
                crate::laws::price_oracle::owner_calls_keep_wf(
                    old(self)@,
                    *env,
                    caller,
                    pair,
                    config,
                    caller,
                    threshold,
                );
            }
        }
        Ok(())
    }

    /// Disables a pair: it takes no reports and has no price. Only the owner may.
    pub fn disable_pair(
        &mut self,
        env: &Env,
        caller: Address,
        base: Address,
        quote: Address,
    ) -> (r: Result<(), OracleFault>)
        ensures
            (final(self)@, r) == answer(
                old(self)@,
                old(self)@.pair_refusal(*env, caller, Pair { base, quote }),
                old(self)@.with_pair_disabled(Pair { base, quote }),
            ),
            old(self)@.wf() ==> final(self)@.wf(),
    {
        match self.require_admin(env, &caller) {
            Ok(()) => {},
            Err(fault) => return Err(fault),
        }
        let pair = Pair { base, quote };
        let config: PairConfig = match self.configs.get(&pair) {
            Some(config) => *config,
            None => return Err(OracleFault::Error(OracleError::PairNotConfigured)),
        };
        self.configs.set(pair, PairConfig { enabled: false, ..config });
        self.pending.remove(&pair);
        self.states.remove(&pair);
        self.events.push(OracleEvent::PairDisabled(pair));
        proof {
            assert(self@ =~= old(self)@.with_pair_disabled(pair));
            if old(self)@.wf() {
                crate::laws::price_oracle::owner_calls_keep_wf(
                    old(self)@,
                    *env,
                    caller,
                    pair,
                    config,
                    caller,
                    0,
                );
            }
        }
        Ok(())
    }

    /// Enables a configured pair. Only the owner may.
    pub fn enable_pair(
        &mut self,
        env: &Env,
        caller: Address,
        base: Address,
        quote: Address,
    ) -> (r: Result<(), OracleFault>)
        ensures
            (final(self)@, r) == answer(
                old(self)@,
                old(self)@.pair_refusal(*env, caller, Pair { base, quote }),
                old(self)@.with_pair_enabled(Pair { base, quote }),
            ),
            old(self)@.wf() ==> final(self)@.wf(),
    {
        match self.require_admin(env, &caller) {
            Ok(()) => {},
            Err(fault) => return Err(fault),
        }
        let pair = Pair { base, quote };
        let config: PairConfig = match self.configs.get(&pair) {
            Some(config) => *config,
            None => return Err(OracleFault::Error(OracleError::PairNotConfigured)),
        };
        self.configs.set(pair, PairConfig { enabled: true, ..config });
        self.events.push(OracleEvent::PairEnabled(pair));
        proof {
            assert(self@ =~= old(self)@.with_pair_enabled(pair));
            if old(self)@.wf() {
                crate::laws::price_oracle::owner_calls_keep_wf(
                    old(self)@,
                    *env,
                    caller,
                    pair,
                    config,
                    caller,
                    0,
                );
            }
        }
        Ok(())
    }

    /// The configuration of a pair, if it has one.
    pub fn get_pair_config(&self, base: Address, quote: Address) -> (r: Option<PairConfig>)
        ensures
            r == (if self@.configs.contains_key(Pair { base, quote }) {
                Some(self@.configs[Pair { base, quote }])
            } else {
                None
            }),
    {
        match self.configs.get(&Pair { base, quote }) {
            Some(config) => Some(*config),
            None => None,
        }
    }

    /// The accepted price of a pair, while it is fresh. A stale read is
    /// counted, and the count is kept, where the pair has a halt threshold.
    pub fn get_pair_state(
        &mut self,
        env: &Env,
        base: Address,
        quote: Address,
    ) -> (r: Result<PairState, OracleError>)
        ensures
            (final(self)@, r) == old(self)@.after_read(*env, Pair { base, quote }),
            old(self)@.wf() ==> final(self)@.wf(),
    {
        let pair = Pair { base, quote };
        let state: PairState = match self.states.get(&pair) {
            Some(state) => *state,
            None => return Err(OracleError::PairNotConfigured),
        };
        let config: PairConfig = match self.configs.get(&pair) {
            Some(config) => *config,
            None => return Err(OracleError::PairNotConfigured),
        };
        if !config.enabled {
            return Err(OracleError::PairNotConfigured);
        }
        let age: u64 = env.timestamp.saturating_sub(state.last_updated_ts);
        if age <= config.max_staleness_seconds {
            return Ok(state);
        }
        if config.max_stale_before_halt == 0 {
            return Err(OracleError::PriceTooOld);
        }
        let before: u32 = match self.stale_counts.get(&pair) {
            Some(count) => *count,
            None => 0,
        };
        self.stale_counts.set(pair, before.saturating_add(1));
        if before >= config.max_stale_before_halt {
            Err(OracleError::PairHalted)
        } else {
            Err(OracleError::PriceTooOld)
        }
    }

    /// The owner, once the contract is initialized.
    pub fn get_owner(&self) -> (r: Option<Address>)
        ensures
            r == (match self@.admin {
                Some(admin) => Some(admin.owner),
                None => None,
            }),
    {
        match self.admin {
            Some(admin) => Some(admin.owner),
            None => None,
        }
    }

    /// Whether an address is a registered source.
    pub fn is_source_address(&self, addr: Address) -> (r: bool)
        ensures
            r == self@.sources.contains(addr),
    {
        self.sources.has(&addr)
    }

    /// The accepted price of a pair, if it is at most `max_age_seconds` old.
    pub fn get_price_checked(
        &self,
        env: &Env,
        base: Address,
        quote: Address,
        max_age_seconds: u64,
    ) -> (r: Result<PairState, OracleError>)
        ensures
            ({
                let pair = Pair { base, quote };
                r == if !self@.states.contains_key(pair) {
                    Err::<PairState, OracleError>(OracleError::PairNotConfigured)
                } else if self@.price_age(*env, pair) > max_age_seconds {
                    Err(OracleError::PriceTooOld)
                } else {
                    Ok(self@.states[pair])
                }
            }),
    {
        let state: PairState = match self.states.get(&Pair { base, quote }) {
            Some(state) => *state,
            None => return Err(OracleError::PairNotConfigured),
        };
        let age: u64 = env.timestamp.saturating_sub(state.last_updated_ts);
        if age > max_age_seconds {
            return Err(OracleError::PriceTooOld);
        }
        Ok(state)
    }

    /// Proposes a new owner, who has no say until they accept. Only the owner may.
    pub fn propose_ownership(
        &mut self,
        env: &Env,
        caller: Address,
        new_owner: Address,
    ) -> (r: Result<(), OracleFault>)
        ensures
            (final(self)@, r) == answer(
                old(self)@,
                old(self)@.admin_refusal(*env, caller),
                old(self)@.with_pending_owner(new_owner),
            ),
            old(self)@.wf() ==> final(self)@.wf(),
    {
        match self.require_admin(env, &caller) {
            Ok(()) => {},
            Err(fault) => return Err(fault),
        }
        self.pending_owner = Some(new_owner);
        self.events.push(OracleEvent::OwnershipProposed(new_owner));
        Ok(())
    }

    /// Makes the proposed owner, who has to make the call, the owner.
    pub fn accept_ownership(&mut self, env: &Env, caller: Address) -> (r: Result<(), OracleFault>)
        ensures
            (final(self)@, r) == answer(
                old(self)@,
                old(self)@.accept_refusal(*env, caller),
                old(self)@.with_owner(caller),
            ),
            old(self)@.wf() ==> final(self)@.wf(),
    {
        let admin: OracleAdmin = match self.admin {
            Some(admin) => admin,
            None => return Err(OracleFault::Error(OracleError::NotInitialized)),
        };
        if !env.is_authorized(&caller) {
            return Err(OracleFault::Unauthenticated);
        }
        let pending: Address = match self.pending_owner {
            Some(pending) => pending,
            None => return Err(OracleFault::Error(OracleError::NotAuthorized)),
        };
        if caller != pending {
            return Err(OracleFault::Error(OracleError::NotAuthorized));
        }
        self.admin = Some(OracleAdmin { owner: caller, payroll_contract: admin.payroll_contract });
        self.pending_owner = None;
        self.events.push(OracleEvent::OwnershipAccepted(caller));
        Ok(())
    }

    /// Withdraws a proposal of a new owner, if there is one. Only the owner may.
    pub fn cancel_ownership_transfer(
        &mut self,
        env: &Env,
        caller: Address,
    ) -> (r: Result<(), OracleFault>)
        ensures
            (final(self)@, r) == answer(
                old(self)@,
                old(self)@.admin_refusal(*env, caller),
                old(self)@.without_pending_owner(),
            ),
            old(self)@.wf() ==> final(self)@.wf(),
    {
        match self.require_admin(env, &caller) {
            Ok(()) => {},
            Err(fault) => return Err(fault),
        }
        match self.pending_owner {
            Some(pending) => {
                self.pending_owner = None;
                self.events.push(OracleEvent::OwnershipCancelled(pending));
            },
            None => {},
        }
        Ok(())
    }
}

} // verus!
