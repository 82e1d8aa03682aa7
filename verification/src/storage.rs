//! What the payroll contract keeps: its types, and the entries of its storage.

use vstd::prelude::*;

use crate::address::Address;
use crate::env::Env;
use crate::table::{Key, Table};

verus! {

/// How many items a batch may hold.
pub const MAX_BATCH_SIZE: u32 = 20;

/// A long-lived entry is extended once it has fewer ledgers to live than this:
/// about thirty days of five-second ledgers.
pub const PERSISTENT_TTL_THRESHOLD: u32 = 30 * 17_280;

/// How many ledgers a long-lived entry is given to live when it is extended:
/// about ninety days.
pub const PERSISTENT_BUMP_AMOUNT: u32 = 90 * 17_280;

/// A piece of work with a price.
#[derive(Clone, Copy, Debug, PartialEq, Eq, Structural)]
pub struct Milestone {
    pub id: u32,
    pub amount: i128,
    pub approved: bool,
    pub claimed: bool,
}

impl Milestone {
    /// A milestone that is neither approved nor claimed.
    pub fn new(id: u32, amount: i128) -> (milestone: Self)
        ensures
            milestone == (Milestone { id, amount, approved: false, claimed: false }),
    {
        Milestone { id, amount, approved: false, claimed: false }
    }

    /// Whether the milestone can be claimed.
    pub fn can_claim(&self) -> (r: bool)
        ensures
            r == (self.approved && !self.claimed),
    {
        self.approved && !self.claimed
    }
}

#[derive(Clone, Copy, Debug, PartialEq, Eq, Structural)]
pub enum PaymentType {
    LumpSum,
    MilestoneBased,
}

/// How an agreement is run.
#[derive(Clone, Copy, Debug, PartialEq, Eq, Structural)]
pub enum AgreementMode {
    /// Contract work, paid from escrow.
    Escrow,
    /// Employees on a payroll.
    Payroll,
}

/// Where an agreement stands.
#[derive(Clone, Copy, Debug, PartialEq, Eq, Structural)]
pub enum AgreementStatus {
    /// It exists, and is not activated yet.
    Created,
    /// It is active, and pays.
    Active,
    /// It is paused for a time.
    Paused,
    /// Its employer cancelled it.
    Cancelled,
    /// It came to its end.
    Completed,
    /// It is in dispute.
    Disputed,
}

#[derive(Clone, Copy, Debug, PartialEq, PartialOrd, Eq, Structural)]
pub enum DisputeStatus {
    /// No dispute was raised.
    NoDispute,
    Raised,
    Resolved,
}

/// An agreement that is paid by milestones.
#[derive(Clone, Copy, Debug)]
pub struct MilestoneAgreement {
    pub id: u128,
    pub employer: Address,
    pub contributor: Address,
    pub token: Address,
    pub payment_type: PaymentType,
    pub status: AgreementStatus,
    pub total_amount: i128,
}

/// A payroll or escrow agreement.
#[derive(Clone, Copy, Debug)]
pub struct Agreement {
    pub id: u128,
    pub employer: Address,
    pub token: Address,
    pub mode: AgreementMode,
    pub status: AgreementStatus,
    pub total_amount: i128,
    pub paid_amount: i128,
    pub created_at: u64,
    pub activated_at: Option<u64>,
    pub cancelled_at: Option<u64>,
    pub grace_period_seconds: u64,
    pub dispute_status: DisputeStatus,
    pub dispute_raised_at: Option<u64>,
    /// What a period pays, in escrow mode.
    pub amount_per_period: Option<i128>,
    pub period_seconds: Option<u64>,
    pub num_periods: Option<u32>,
    pub claimed_periods: Option<u32>,
}

/// An employee of an agreement.
#[derive(Clone, Copy, Debug)]
pub struct EmployeeInfo {
    pub address: Address,
    pub salary_per_period: i128,
    pub added_at: u64,
}

/// How one claim of a payroll batch went.
#[derive(Clone, Copy, Debug, PartialEq, Eq, Structural)]
pub struct PayrollClaimResult {
    pub employee_index: u32,
    pub success: bool,
    pub amount_claimed: i128,
    /// Zero, or the number of the `PayrollError`.
    pub error_code: u32,
}

/// How a payroll batch went.
#[derive(Clone, Debug, PartialEq)]
pub struct BatchPayrollResult {
    pub agreement_id: u128,
    pub total_claimed: i128,
    pub successful_claims: u32,
    pub failed_claims: u32,
    pub results: Vec<PayrollClaimResult>,
}

/// How one claim of a milestone batch went.
#[derive(Clone, Copy, Debug, PartialEq, Eq, Structural)]
pub struct MilestoneClaimResult {
    pub milestone_id: u32,
    pub success: bool,
    pub amount_claimed: i128,
    /// 0: claimed; 1: named twice; 2: no such milestone; 3: not approved; 4: claimed before.
    pub error_code: u32,
}

/// How a milestone batch went.
#[derive(Clone, Debug, PartialEq)]
pub struct BatchMilestoneResult {
    pub agreement_id: u128,
    pub total_claimed: i128,
    pub successful_claims: u32,
    pub failed_claims: u32,
    pub results: Vec<MilestoneClaimResult>,
}

/// A payroll agreement to be created.
#[derive(Clone, Copy, Debug, PartialEq)]
pub struct PayrollCreateParams {
    pub token: Address,
    pub grace_period_seconds: u64,
}

/// An escrow agreement to be created.
#[derive(Clone, Copy, Debug, PartialEq)]
pub struct EscrowCreateParams {
    pub contributor: Address,
    pub token: Address,
    pub amount_per_period: i128,
    pub period_seconds: u64,
    pub num_periods: u32,
}

/// How the creation of one payroll agreement went.
#[derive(Clone, Copy, Debug, PartialEq)]
pub struct PayrollCreateResult {
    pub agreement_id: Option<u128>,
    pub success: bool,
    /// Zero, or the number of the `PayrollError`.
    pub error_code: u32,
}

/// How the creation of one escrow agreement went.
#[derive(Clone, Copy, Debug, PartialEq)]
pub struct EscrowCreateResult {
    pub agreement_id: Option<u128>,
    pub success: bool,
    /// Zero, or the number of the `PayrollError`.
    pub error_code: u32,
}

#[derive(Clone, Debug, PartialEq)]
pub struct BatchPayrollCreateResult {
    pub total_created: u32,
    pub total_failed: u32,
    pub agreement_ids: Vec<u128>,
    pub results: Vec<PayrollCreateResult>,
}

#[derive(Clone, Debug, PartialEq)]
pub struct BatchEscrowCreateResult {
    pub total_created: u32,
    pub total_failed: u32,
    pub agreement_ids: Vec<u128>,
    pub results: Vec<EscrowCreateResult>,
}

/// An exchange rate, and when it was set.
#[derive(Clone, Copy, Debug, PartialEq, Eq, Structural)]
pub struct ExchangeRateInfo {
    pub rate: i128,
    pub updated_at: u64,
}

/// How far the grace period of a cancelled agreement may be extended.
#[derive(Clone, Copy, Debug, PartialEq, Eq, Structural)]
pub struct GracePeriodExtensionPolicy {
    /// The most that may be added in all, in basis points of the agreement's grace period.
    pub max_cumulative_extension_bps: u32,
    /// The most that one call may add, in seconds.
    pub max_extension_per_call_seconds: u64,
}

/// Whether the contract is paused in an emergency.
#[derive(Clone, Copy, Debug, PartialEq, Eq)]
pub struct EmergencyPause {
    pub is_paused: bool,
    pub paused_at: Option<u64>,
    pub paused_by: Option<Address>,
    pub timelock_end: Option<u64>,
}

/// The errors that clients of the payroll contract know by number.
///
/// The numbers never change: a new error gets the next one.
#[derive(Clone, Copy, Debug, PartialEq, Eq, PartialOrd, Ord, Structural)]
pub enum PayrollError {
    /// A dispute was raised for the agreement before.
    DisputeAlreadyRaised,
    /// The agreement is not within its grace period.
    NotInGracePeriod,
    /// The caller is no party to the agreement.
    NotParty,
    /// The caller is not the arbiter.
    NotArbiter,
    /// The payout breaks the rules of the agreement.
    InvalidPayout,
    /// A dispute about the agreement is in progress.
    ActiveDispute,
    /// There is no such agreement.
    AgreementNotFound,
    /// There is no dispute to resolve.
    NoDispute,
    /// There is no such employee in the agreement.
    NoEmployee,
    /// The agreement was not activated yet.
    NotActivated,
    /// The caller may not do this.
    Unauthorized,
    /// The employee index is out of range.
    InvalidEmployeeIndex,
    /// The input is malformed.
    InvalidData,
    /// A token transfer failed.
    TransferFailed,
    /// The escrow does not cover what is asked of it.
    InsufficientEscrowBalance,
    /// No period is left to claim.
    NoPeriodsToClaim,
    /// The agreement is not in the activated state that this needs.
    AgreementNotActivated,
    /// The agreement is of the wrong mode for this.
    InvalidAgreementMode,
    /// The agreement is paused.
    AgreementPaused,
    /// Every period that is due was paid.
    AllPeriodsClaimed,
    /// The amount of a period is zero.
    ZeroAmountPerPeriod,
    /// The duration of a period is zero.
    ZeroPeriodDuration,
    /// The number of periods is zero.
    ZeroNumPeriods,
    /// The contract is paused in an emergency.
    EmergencyPaused,
    /// The caller is no emergency guardian.
    NotGuardian,
    /// A timelock is still running.
    TimelockActive,
    /// The timelock does not fit the operation.
    InvalidTimelock,
    /// The multisig has not approved this yet.
    MultisigApprovalRequired,
    /// No exchange rate is set for the pair.
    ExchangeRateNotFound,
    /// A currency conversion overflowed.
    ExchangeRateOverflow,
    /// The exchange rate is not one that can be set.
    ExchangeRateInvalid,
    /// The grace extension breaks the policy.
    GraceExtensionInvalid,
    /// The grace extension exceeds the cumulative cap.
    GraceExtensionCapExceeded,
    /// The caller is over the rate limit.
    RateLimited,
    /// The batch is longer than is allowed.
    BatchTooLarge,
    /// The amount of a milestone is not positive.
    MilestoneAmountInvalid,
    /// The milestone agreement is not in a status that allows this.
    MilestoneAgreementInvalidStatus,
    /// There is no such milestone.
    MilestoneNotFound,
    /// The milestone was approved before.
    MilestoneAlreadyApproved,
    /// The milestone was not approved.
    MilestoneNotApproved,
    /// The milestone was claimed before.
    MilestoneAlreadyClaimed,
    /// The employee is in the agreement already.
    EmployeeAlreadyExists,
    /// A claim was entered again while it ran.
    ReentrancyDetected,
    /// The arbiter is the caller, or is the arbiter already.
    InvalidArbiter,
    /// The milestone was rejected before.
    MilestoneAlreadyRejected,
    /// The milestone was approved and cannot be rejected.
    MilestoneAlreadyApprovedCannotReject,
    /// The milestone was claimed and cannot be rejected.
    MilestoneAlreadyClaimedCannotReject,
    /// The milestone was marked as expired before.
    MilestoneAlreadyExpired,
    /// The reason for a rejection is empty or blank.
    MilestoneRejectionReasonEmpty,
    /// A milestone agreement needs a milestone.
    EmptyMilestoneList,
}

impl PayrollError {
    /// The number of the error, as clients and indexers know it.
    pub open spec fn spec_code(self) -> u32 {
        match self {
            PayrollError::DisputeAlreadyRaised => 1,
            PayrollError::NotInGracePeriod => 2,
            PayrollError::NotParty => 3,
            PayrollError::NotArbiter => 4,
            PayrollError::InvalidPayout => 5,
            PayrollError::ActiveDispute => 6,
            PayrollError::AgreementNotFound => 7,
            PayrollError::NoDispute => 8,
            PayrollError::NoEmployee => 9,
            PayrollError::NotActivated => 10,
            PayrollError::Unauthorized => 11,
            PayrollError::InvalidEmployeeIndex => 12,
            PayrollError::InvalidData => 13,
            PayrollError::TransferFailed => 14,
            PayrollError::InsufficientEscrowBalance => 15,
            PayrollError::NoPeriodsToClaim => 16,
            PayrollError::AgreementNotActivated => 17,
            PayrollError::InvalidAgreementMode => 18,
            PayrollError::AgreementPaused => 19,
            PayrollError::AllPeriodsClaimed => 20,
            PayrollError::ZeroAmountPerPeriod => 21,
            PayrollError::ZeroPeriodDuration => 22,
            PayrollError::ZeroNumPeriods => 23,
            PayrollError::EmergencyPaused => 24,
            PayrollError::NotGuardian => 25,
            PayrollError::TimelockActive => 26,
            PayrollError::InvalidTimelock => 27,
            PayrollError::MultisigApprovalRequired => 28,
            PayrollError::ExchangeRateNotFound => 29,
            PayrollError::ExchangeRateOverflow => 30,
            PayrollError::ExchangeRateInvalid => 31,
            PayrollError::GraceExtensionInvalid => 32,
            PayrollError::GraceExtensionCapExceeded => 33,
            PayrollError::RateLimited => 34,
            PayrollError::BatchTooLarge => 35,
            PayrollError::MilestoneAmountInvalid => 36,
            PayrollError::MilestoneAgreementInvalidStatus => 37,
            PayrollError::MilestoneNotFound => 38,
            PayrollError::MilestoneAlreadyApproved => 39,
            PayrollError::MilestoneNotApproved => 40,
            PayrollError::MilestoneAlreadyClaimed => 41,
            PayrollError::EmployeeAlreadyExists => 42,
            PayrollError::ReentrancyDetected => 43,
            PayrollError::InvalidArbiter => 44,
            PayrollError::MilestoneAlreadyRejected => 45,
            PayrollError::MilestoneAlreadyApprovedCannotReject => 46,
            PayrollError::MilestoneAlreadyClaimedCannotReject => 47,
            PayrollError::MilestoneAlreadyExpired => 48,
            PayrollError::MilestoneRejectionReasonEmpty => 49,
            PayrollError::EmptyMilestoneList => 50,
        }
    }

    /// The number of the error, as clients and indexers know it.
    pub fn code(self) -> (r: u32)
        ensures
            r == self.spec_code(),
    {
        match self {
            PayrollError::DisputeAlreadyRaised => 1,
            PayrollError::NotInGracePeriod => 2,
            PayrollError::NotParty => 3,
            PayrollError::NotArbiter => 4,
            PayrollError::InvalidPayout => 5,
            PayrollError::ActiveDispute => 6,
            PayrollError::AgreementNotFound => 7,
            PayrollError::NoDispute => 8,
            PayrollError::NoEmployee => 9,
            PayrollError::NotActivated => 10,
            PayrollError::Unauthorized => 11,
            PayrollError::InvalidEmployeeIndex => 12,
            PayrollError::InvalidData => 13,
            PayrollError::TransferFailed => 14,
            PayrollError::InsufficientEscrowBalance => 15,
            PayrollError::NoPeriodsToClaim => 16,
            PayrollError::AgreementNotActivated => 17,
            PayrollError::InvalidAgreementMode => 18,
            PayrollError::AgreementPaused => 19,
            PayrollError::AllPeriodsClaimed => 20,
            PayrollError::ZeroAmountPerPeriod => 21,
            PayrollError::ZeroPeriodDuration => 22,
            PayrollError::ZeroNumPeriods => 23,
            PayrollError::EmergencyPaused => 24,
            PayrollError::NotGuardian => 25,
            PayrollError::TimelockActive => 26,
            PayrollError::InvalidTimelock => 27,
            PayrollError::MultisigApprovalRequired => 28,
            PayrollError::ExchangeRateNotFound => 29,
            PayrollError::ExchangeRateOverflow => 30,
            PayrollError::ExchangeRateInvalid => 31,
            PayrollError::GraceExtensionInvalid => 32,
            PayrollError::GraceExtensionCapExceeded => 33,
            PayrollError::RateLimited => 34,
            PayrollError::BatchTooLarge => 35,
            PayrollError::MilestoneAmountInvalid => 36,
            PayrollError::MilestoneAgreementInvalidStatus => 37,
            PayrollError::MilestoneNotFound => 38,
            PayrollError::MilestoneAlreadyApproved => 39,
            PayrollError::MilestoneNotApproved => 40,
            PayrollError::MilestoneAlreadyClaimed => 41,
            PayrollError::EmployeeAlreadyExists => 42,
            PayrollError::ReentrancyDetected => 43,
            PayrollError::InvalidArbiter => 44,
            PayrollError::MilestoneAlreadyRejected => 45,
            PayrollError::MilestoneAlreadyApprovedCannotReject => 46,
            PayrollError::MilestoneAlreadyClaimedCannotReject => 47,
            PayrollError::MilestoneAlreadyExpired => 48,
            PayrollError::MilestoneRejectionReasonEmpty => 49,
            PayrollError::EmptyMilestoneList => 50,
        }
    }
}

/// What an entry of the contract as a whole, or of an agreement, is stored under.
#[derive(Clone, Copy, Debug, PartialEq, Eq)]
pub enum StorageKey {
    Owner,
    /// The linked contract that says who is an admin.
    RbacContract,
    /// The version of the storage schema.
    ContractVersion,
    Agreement(u128),
    AgreementEmployees(u128),
    NextAgreementId,
    EmployerAgreements(Address),
    DisputeStatus(u128),
    DisputeRaisedAt(u128),
    Arbiter,
    EmergencyPause,
    EmergencyGuardians,
    PendingPause,
    PauseApprovals,
    /// Who may set exchange rates besides the owner.
    ExchangeRateAdmin,
    ExchangeRateMaxAgeSeconds,
    ExchangeRateMaxDeviationBps,
    ExchangeRateMaxRateSanityBound,
    /// By how much the grace period of a cancelled agreement was extended.
    GracePeriodExtensionSeconds(u128),
    GracePeriodExtensionPolicy,
    MultisigContract,
    /// From which amount on a payment needs the multisig's approval.
    LargePaymentThreshold,
    /// From which amount on a settlement needs the multisig's approval.
    DisputeResolutionThreshold,
    RateLimiterContract,
    SalaryAdjustmentContract,
    MilestoneHookContract,
    /// Set while a claim runs.
    ReentrancyGuard,
}

/// What an entry of a milestone agreement is stored under.
#[derive(Clone, Copy, Debug, PartialEq, Eq, Structural)]
pub enum MilestoneKey {
    /// The number of the last agreement.
    AgreementCounter,
    Agreement(u128),
    Employer(u128),
    Contributor(u128),
    Token(u128),
    PaymentType(u128),
    Status(u128),
    TotalAmount(u128),
    MilestoneCount(u128),
    MilestoneAmount(u128, u32),
    MilestoneApproved(u128, u32),
    MilestoneClaimed(u128, u32),
    MilestoneRejected(u128, u32),
    MilestoneExpired(u128, u32),
    /// What was deposited for an agreement and not paid out yet.
    MilestoneEscrowBalance(u128),
}

/// What an entry of the claiming system is stored under.
#[derive(Clone, Copy, Debug, PartialEq, Eq)]
pub enum DataKey {
    /// How many employees an agreement has.
    AgreementEmployeeCount(u128),
    /// The employee of an agreement at an index.
    AgreementEmployee(u128, u32),
    /// What the employee at an index is paid for a period.
    EmployeeSalary(u128, u32),
    /// How many periods the employee at an index has claimed.
    EmployeeClaimedPeriods(u128, u32),
    /// When an agreement was activated.
    AgreementActivationTime(u128),
    /// How long a period of an agreement is, in seconds.
    AgreementPeriodDuration(u128),
    /// The token that an agreement pays in.
    AgreementToken(u128),
    /// What an agreement has paid in all.
    AgreementPaidAmount(u128),
    /// What an agreement holds of a token.
    AgreementEscrowBalance(u128, Address),
    /// The exchange rate of a currency pair: base, then quote.
    ExchangeRate(Address, Address),
    /// Present once the grace period of an agreement is finalized.
    AgreementGracePeriodFinalized(u128),
}

impl Key for DataKey {
    fn same(&self, other: &Self) -> (r: bool) {
        match (self, other) {
            (DataKey::AgreementEmployeeCount(a), DataKey::AgreementEmployeeCount(b)) => *a == *b,
            (DataKey::AgreementEmployee(a, i), DataKey::AgreementEmployee(b, j)) => {
                *a == *b && *i == *j
            },
            (DataKey::EmployeeSalary(a, i), DataKey::EmployeeSalary(b, j)) => *a == *b && *i == *j,
            (DataKey::EmployeeClaimedPeriods(a, i), DataKey::EmployeeClaimedPeriods(b, j)) => {
                *a == *b && *i == *j
            },
            (DataKey::AgreementActivationTime(a), DataKey::AgreementActivationTime(b)) => *a == *b,
            (DataKey::AgreementPeriodDuration(a), DataKey::AgreementPeriodDuration(b)) => *a == *b,
            (DataKey::AgreementToken(a), DataKey::AgreementToken(b)) => *a == *b,
            (DataKey::AgreementPaidAmount(a), DataKey::AgreementPaidAmount(b)) => *a == *b,
            (DataKey::AgreementEscrowBalance(a, s), DataKey::AgreementEscrowBalance(b, t)) => {
                *a == *b && *s == *t
            },
            (DataKey::ExchangeRate(s, u), DataKey::ExchangeRate(t, v)) => *s == *t && *u == *v,
            (
                DataKey::AgreementGracePeriodFinalized(a),
                DataKey::AgreementGracePeriodFinalized(b),
            ) => *a == *b,
            _ => false,
        }
    }
}

/// A request to the host to keep an entry: where it has fewer ledgers to live than
/// `threshold`, it gets `extend_to`.
#[derive(Clone, Copy, Debug, PartialEq, Eq)]
pub struct TtlExtension {
    pub key: DataKey,
    pub threshold: u32,
    pub extend_to: u32,
}

/// The entries of the claiming system, by the type of what they hold.
pub struct PayrollStore {
    pub counts: Table<DataKey, u32>,
    pub accounts: Table<DataKey, Address>,
    pub amounts: Table<DataKey, i128>,
    pub times: Table<DataKey, u64>,
    pub rates: Table<DataKey, ExchangeRateInfo>,
    pub marks: Table<DataKey, ()>,
    /// How old an exchange rate may be to be used, in seconds.
    pub exchange_rate_max_age_seconds: Option<u64>,
    /// How far one update may move an exchange rate, in basis points.
    pub exchange_rate_max_deviation_bps: Option<u32>,
    /// The highest exchange rate that can be set.
    pub exchange_rate_max_rate_sanity_bound: Option<i128>,
    /// What the host was asked to keep, oldest first.
    pub ttl_extensions: Vec<TtlExtension>,
}

/// The entries of the claiming system, as mathematical values.
#[verifier::ext_equal]
pub struct StoreState {
    pub counts: Map<DataKey, u32>,
    pub accounts: Map<DataKey, Address>,
    pub amounts: Map<DataKey, i128>,
    pub times: Map<DataKey, u64>,
    pub rates: Map<DataKey, ExchangeRateInfo>,
    pub marks: Map<DataKey, ()>,
    pub exchange_rate_max_age_seconds: Option<u64>,
    pub exchange_rate_max_deviation_bps: Option<u32>,
    pub exchange_rate_max_rate_sanity_bound: Option<i128>,
    pub ttl_extensions: Seq<TtlExtension>,
}

impl View for PayrollStore {
    type V = StoreState;

    open spec fn view(&self) -> StoreState {
        StoreState {
            counts: self.counts@,
            accounts: self.accounts@,
            amounts: self.amounts@,
            times: self.times@,
            rates: self.rates@,
            marks: self.marks@,
            exchange_rate_max_age_seconds: self.exchange_rate_max_age_seconds,
            exchange_rate_max_deviation_bps: self.exchange_rate_max_deviation_bps,
            exchange_rate_max_rate_sanity_bound: self.exchange_rate_max_rate_sanity_bound,
            ttl_extensions: self.ttl_extensions@,
        }
    }
}

/// What is stored under a key, if anything is.
pub open spec fn entry<V>(entries: Map<DataKey, V>, key: DataKey) -> Option<V> {
    if entries.contains_key(key) {
        Some(entries[key])
    } else {
        None
    }
}

/// What is stored under a key, or else a default.
pub open spec fn entry_or<V>(entries: Map<DataKey, V>, key: DataKey, default: V) -> V {
    if entries.contains_key(key) {
        entries[key]
    } else {
        default
    }
}

impl StoreState {
    /// A store with no entry.
    pub open spec fn fresh() -> StoreState {
        StoreState {
            counts: Map::empty(),
            accounts: Map::empty(),
            amounts: Map::empty(),
            times: Map::empty(),
            rates: Map::empty(),
            marks: Map::empty(),
            exchange_rate_max_age_seconds: None,
            exchange_rate_max_deviation_bps: None,
            exchange_rate_max_rate_sanity_bound: None,
            ttl_extensions: Seq::empty(),
        }
    }

    /// Whether anything is stored under a key.
    pub open spec fn has(self, key: DataKey) -> bool {
        self.counts.contains_key(key) || self.accounts.contains_key(key)
            || self.amounts.contains_key(key) || self.times.contains_key(key)
            || self.rates.contains_key(key) || self.marks.contains_key(key)
    }

    /// The state in which the host was asked to keep an entry, if it exists.
    pub open spec fn extending(self, key: DataKey) -> StoreState {
        if self.has(key) {
            StoreState {
                ttl_extensions: self.ttl_extensions.push(
                    TtlExtension {
                        key,
                        threshold: PERSISTENT_TTL_THRESHOLD,
                        extend_to: PERSISTENT_BUMP_AMOUNT,
                    },
                ),
                ..self
            }
        } else {
            self
        }
    }

    pub open spec fn with_count(self, key: DataKey, value: u32) -> StoreState {
        StoreState { counts: self.counts.insert(key, value), ..self }
    }

    pub open spec fn with_account(self, key: DataKey, value: Address) -> StoreState {
        StoreState { accounts: self.accounts.insert(key, value), ..self }
    }

    pub open spec fn with_amount(self, key: DataKey, value: i128) -> StoreState {
        StoreState { amounts: self.amounts.insert(key, value), ..self }
    }

    pub open spec fn with_time(self, key: DataKey, value: u64) -> StoreState {
        StoreState { times: self.times.insert(key, value), ..self }
    }

    pub open spec fn with_rate(self, key: DataKey, value: ExchangeRateInfo) -> StoreState {
        StoreState { rates: self.rates.insert(key, value), ..self }
    }

    pub open spec fn with_mark(self, key: DataKey) -> StoreState {
        StoreState { marks: self.marks.insert(key, ()), ..self }
    }
}

impl PayrollStore {
    /// A store with no entry.
    pub fn new() -> (store: Self)
        ensures
            store@ == StoreState::fresh(),
    {
        PayrollStore {
            counts: Table::new(),
            accounts: Table::new(),
            amounts: Table::new(),
            times: Table::new(),
            rates: Table::new(),
            marks: Table::new(),
            exchange_rate_max_age_seconds: None,
            exchange_rate_max_deviation_bps: None,
            exchange_rate_max_rate_sanity_bound: None,
            ttl_extensions: Vec::new(),
        }
    }

    /// Whether anything is stored under a key.
    pub fn has(&self, key: &DataKey) -> (r: bool)
        ensures
            r == self@.has(*key),
    {
        self.counts.has(key) || self.accounts.has(key) || self.amounts.has(key) || self.times.has(
            key,
        ) || self.rates.has(key) || self.marks.has(key)
    }
}

/// Asks the host to keep a long-lived entry, if it exists.
pub fn extend_persistent_ttl(store: &mut PayrollStore, key: &DataKey)
    ensures
        final(store)@ == old(store)@.extending(*key),
{
    if store.has(key) {
        store.ttl_extensions.push(
            TtlExtension {
                key: *key,
                threshold: PERSISTENT_TTL_THRESHOLD,
                extend_to: PERSISTENT_BUMP_AMOUNT,
            },
        );
    }
}

/// What is stored under a key, if anything is.
fn read<V: Copy>(entries: &Table<DataKey, V>, key: DataKey) -> (r: Option<V>)
    ensures
        r == entry(entries@, key),
{
    match entries.get(&key) {
        Some(value) => Some(*value),
        None => None,
    }
}

/// What is stored under a key, or else a default.
fn read_or<V: Copy>(entries: &Table<DataKey, V>, key: DataKey, default: V) -> (r: V)
    ensures
        r == entry_or(entries@, key, default),
{
    match entries.get(&key) {
        Some(value) => *value,
        None => default,
    }
}

impl DataKey {
    /// How many employees an agreement has.
    pub fn get_employee_count(store: &PayrollStore, agreement_id: u128) -> (r: u32)
        ensures
            r == entry_or(store@.counts, DataKey::AgreementEmployeeCount(agreement_id), 0),
    {
        read_or(&store.counts, DataKey::AgreementEmployeeCount(agreement_id), 0)
    }

    /// Sets how many employees an agreement has.
    pub fn set_employee_count(store: &mut PayrollStore, agreement_id: u128, count: u32)
        ensures
            final(store)@ == old(store)@.with_count(
                DataKey::AgreementEmployeeCount(agreement_id),
                count,
            ),
    {
        store.counts.set(DataKey::AgreementEmployeeCount(agreement_id), count);
    }

    /// The employee of an agreement at an index.
    pub fn get_employee(
        store: &PayrollStore,
        agreement_id: u128,
        employee_index: u32,
    ) -> (r: Option<Address>)
        ensures
            r == entry(store@.accounts, DataKey::AgreementEmployee(agreement_id, employee_index)),
    {
        read(&store.accounts, DataKey::AgreementEmployee(agreement_id, employee_index))
    }

    /// Sets the employee of an agreement at an index.
    pub fn set_employee(
        store: &mut PayrollStore,
        agreement_id: u128,
        employee_index: u32,
        employee: &Address,
    )
        ensures
            final(store)@ == old(store)@.with_account(
                DataKey::AgreementEmployee(agreement_id, employee_index),
                *employee,
            ),
    {
        store.accounts.set(DataKey::AgreementEmployee(agreement_id, employee_index), *employee);
    }

    /// What the employee at an index is paid for a period.
    pub fn get_employee_salary(
        store: &PayrollStore,
        agreement_id: u128,
        employee_index: u32,
    ) -> (r: Option<i128>)
        ensures
            r == entry(store@.amounts, DataKey::EmployeeSalary(agreement_id, employee_index)),
    {
        read(&store.amounts, DataKey::EmployeeSalary(agreement_id, employee_index))
    }

    /// Sets what the employee at an index is paid for a period, and has the entry kept.
    pub fn set_employee_salary(
        store: &mut PayrollStore,
        agreement_id: u128,
        employee_index: u32,
        salary: i128,
    )
        ensures
            final(store)@ == old(store)@.with_amount(
                DataKey::EmployeeSalary(agreement_id, employee_index),
                salary,
            ).extending(DataKey::EmployeeSalary(agreement_id, employee_index)),
    {
        store.amounts.set(DataKey::EmployeeSalary(agreement_id, employee_index), salary);
        extend_persistent_ttl(store, &DataKey::EmployeeSalary(agreement_id, employee_index));
    }

    /// How many periods the employee at an index has claimed.
    pub fn get_employee_claimed_periods(
        store: &PayrollStore,
        agreement_id: u128,
        employee_index: u32,
    ) -> (r: u32)
        ensures
            r == entry_or(
                store@.counts,
                DataKey::EmployeeClaimedPeriods(agreement_id, employee_index),
                0,
            ),
    {
        read_or(&store.counts, DataKey::EmployeeClaimedPeriods(agreement_id, employee_index), 0)
    }

    /// Sets how many periods the employee at an index has claimed, and has the entry kept.
    pub fn set_employee_claimed_periods(
        store: &mut PayrollStore,
        agreement_id: u128,
        employee_index: u32,
        periods: u32,
    )
        ensures
            final(store)@ == old(store)@.with_count(
                DataKey::EmployeeClaimedPeriods(agreement_id, employee_index),
                periods,
            ).extending(DataKey::EmployeeClaimedPeriods(agreement_id, employee_index)),
    {
        store.counts.set(DataKey::EmployeeClaimedPeriods(agreement_id, employee_index), periods);
        extend_persistent_ttl(
            store,
            &DataKey::EmployeeClaimedPeriods(agreement_id, employee_index),
        );
    }

    /// When an agreement was activated.
    pub fn get_agreement_activation_time(
        store: &PayrollStore,
        agreement_id: u128,
    ) -> (r: Option<u64>)
        ensures
            r == entry(store@.times, DataKey::AgreementActivationTime(agreement_id)),
    {
        read(&store.times, DataKey::AgreementActivationTime(agreement_id))
    }

    /// Sets when an agreement was activated.
    pub fn set_agreement_activation_time(
        store: &mut PayrollStore,
        agreement_id: u128,
        timestamp: u64,
    )
        ensures
            final(store)@ == old(store)@.with_time(
                DataKey::AgreementActivationTime(agreement_id),
                timestamp,
            ),
    {
        store.times.set(DataKey::AgreementActivationTime(agreement_id), timestamp);
    }

    /// How long a period of an agreement is, in seconds.
    pub fn get_agreement_period_duration(
        store: &PayrollStore,
        agreement_id: u128,
    ) -> (r: Option<u64>)
        ensures
            r == entry(store@.times, DataKey::AgreementPeriodDuration(agreement_id)),
    {
        read(&store.times, DataKey::AgreementPeriodDuration(agreement_id))
    }

    /// Sets how long a period of an agreement is, in seconds.
    pub fn set_agreement_period_duration(
        store: &mut PayrollStore,
        agreement_id: u128,
        duration: u64,
    )
        ensures
            final(store)@ == old(store)@.with_time(
                DataKey::AgreementPeriodDuration(agreement_id),
                duration,
            ),
    {
        store.times.set(DataKey::AgreementPeriodDuration(agreement_id), duration);
    }

    /// The token that an agreement pays in.
    pub fn get_agreement_token(store: &PayrollStore, agreement_id: u128) -> (r: Option<Address>)
        ensures
            r == entry(store@.accounts, DataKey::AgreementToken(agreement_id)),
    {
        read(&store.accounts, DataKey::AgreementToken(agreement_id))
    }

    /// Sets the token that an agreement pays in.
    pub fn set_agreement_token(store: &mut PayrollStore, agreement_id: u128, token: &Address)
        ensures
            final(store)@ == old(store)@.with_account(
                DataKey::AgreementToken(agreement_id),
                *token,
            ),
    {
        store.accounts.set(DataKey::AgreementToken(agreement_id), *token);
    }

    /// What an agreement has paid in all.
    pub fn get_agreement_paid_amount(store: &PayrollStore, agreement_id: u128) -> (r: i128)
        ensures
            r == entry_or(store@.amounts, DataKey::AgreementPaidAmount(agreement_id), 0),
    {
        read_or(&store.amounts, DataKey::AgreementPaidAmount(agreement_id), 0)
    }

    /// Sets what an agreement has paid in all.
    pub fn set_agreement_paid_amount(store: &mut PayrollStore, agreement_id: u128, amount: i128)
        ensures
            final(store)@ == old(store)@.with_amount(
                DataKey::AgreementPaidAmount(agreement_id),
                amount,
            ),
    {
        store.amounts.set(DataKey::AgreementPaidAmount(agreement_id), amount);
    }

    /// What an agreement holds of a token. Reading it has the entry kept.
    pub fn get_agreement_escrow_balance(
        store: &mut PayrollStore,
        agreement_id: u128,
        token: &Address,
    ) -> (r: i128)
        ensures
            r == entry_or(
                old(store)@.amounts,
                DataKey::AgreementEscrowBalance(agreement_id, *token),
                0,
            ),
            final(store)@ == old(store)@.extending(
                DataKey::AgreementEscrowBalance(agreement_id, *token),
            ),
    {
        let key = DataKey::AgreementEscrowBalance(agreement_id, *token);
        let balance: i128 = read_or(&store.amounts, key, 0);
        extend_persistent_ttl(store, &key);
        balance
    }

    /// Sets what an agreement holds of a token, and has the entry kept.
    pub fn set_agreement_escrow_balance(
        store: &mut PayrollStore,
        agreement_id: u128,
        token: &Address,
        amount: i128,
    )
        ensures
            final(store)@ == old(store)@.with_amount(
                DataKey::AgreementEscrowBalance(agreement_id, *token),
                amount,
            ).extending(DataKey::AgreementEscrowBalance(agreement_id, *token)),
    {
        store.amounts.set(DataKey::AgreementEscrowBalance(agreement_id, *token), amount);
        extend_persistent_ttl(store, &DataKey::AgreementEscrowBalance(agreement_id, *token));
    }

    /// The exchange rate of a currency pair.
    pub fn get_exchange_rate(
        store: &PayrollStore,
        base: &Address,
        quote: &Address,
    ) -> (r: Option<ExchangeRateInfo>)
        ensures
            r == entry(store@.rates, DataKey::ExchangeRate(*base, *quote)),
    {
        read(&store.rates, DataKey::ExchangeRate(*base, *quote))
    }

    /// Sets the exchange rate of a currency pair, as of now. Who may do so is for the
    /// caller to decide.
    pub fn set_exchange_rate(
        store: &mut PayrollStore,
        env: &Env,
        base: &Address,
        quote: &Address,
        rate: i128,
    )
        ensures
            final(store)@ == old(store)@.with_rate(
                DataKey::ExchangeRate(*base, *quote),
                ExchangeRateInfo { rate, updated_at: env.timestamp },
            ),
    {
        let info = ExchangeRateInfo { rate, updated_at: env.timestamp };
        store.rates.set(DataKey::ExchangeRate(*base, *quote), info);
    }

    /// How old an exchange rate may be to be used, in seconds, if that is limited.
    pub fn get_exchange_rate_max_age_seconds(store: &PayrollStore) -> (r: Option<u64>)
        ensures
            r == store@.exchange_rate_max_age_seconds,
    {
        store.exchange_rate_max_age_seconds
    }

    /// Sets how old an exchange rate may be to be used, in seconds.
    pub fn set_exchange_rate_max_age_seconds(store: &mut PayrollStore, seconds: u64)
        ensures
            final(store)@ == (StoreState {
                exchange_rate_max_age_seconds: Some(seconds),
                ..old(store)@
            }),
    {
        store.exchange_rate_max_age_seconds = Some(seconds);
    }

    /// How far one update may move an exchange rate, in basis points, if that is limited.
    pub fn get_exchange_rate_max_deviation_bps(store: &PayrollStore) -> (r: Option<u32>)
        ensures
            r == store@.exchange_rate_max_deviation_bps,
    {
        store.exchange_rate_max_deviation_bps
    }

    /// Sets how far one update may move an exchange rate, in basis points.
    pub fn set_exchange_rate_max_deviation_bps(store: &mut PayrollStore, bps: u32)
        ensures
            final(store)@ == (StoreState {
                exchange_rate_max_deviation_bps: Some(bps),
                ..old(store)@
            }),
    {
        store.exchange_rate_max_deviation_bps = Some(bps);
    }

    /// The highest exchange rate that can be set, if that is limited.
    pub fn get_exchange_rate_max_rate_sanity_bound(store: &PayrollStore) -> (r: Option<i128>)
        ensures
            r == store@.exchange_rate_max_rate_sanity_bound,
    {
        store.exchange_rate_max_rate_sanity_bound
    }

    /// Sets the highest exchange rate that can be set.
    pub fn set_exchange_rate_max_rate_sanity_bound(store: &mut PayrollStore, max_rate: i128)
        ensures
            final(store)@ == (StoreState {
                exchange_rate_max_rate_sanity_bound: Some(max_rate),
                ..old(store)@
            }),
    {
        store.exchange_rate_max_rate_sanity_bound = Some(max_rate);
    }

    /// Records that the grace period of an agreement is finalized.
    pub fn set_agreement_grace_period_finalized(store: &mut PayrollStore, agreement_id: u128)
        ensures
            final(store)@ == old(store)@.with_mark(
                DataKey::AgreementGracePeriodFinalized(agreement_id),
            ),
    {
        store.marks.set(DataKey::AgreementGracePeriodFinalized(agreement_id), ());
    }

    /// Whether the grace period of an agreement is finalized.
    pub fn is_agreement_grace_period_finalized(
        store: &PayrollStore,
        agreement_id: u128,
    ) -> (r: bool)
        ensures
            r == store@.marks.contains_key(DataKey::AgreementGracePeriodFinalized(agreement_id)),
    {
        store.marks.has(&DataKey::AgreementGracePeriodFinalized(agreement_id))
    }
}

} // verus!
