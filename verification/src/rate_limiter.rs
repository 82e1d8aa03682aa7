//! The rate limiter: token buckets for each address, for each integrating
//! contract, and for everyone together.
//!
//! A call through an integrating contract draws from the subject's bucket and
//! from the contract's, so that changing the subject does not get around the
//! contract's budget. Balances are whole tokens and time is whole seconds: a
//! bucket gains `elapsed_seconds * refill_rate` tokens, up to its burst
//! capacity, and nothing within one second.

use vstd::prelude::*;

use crate::address::Address;
use crate::env::Env;
use crate::table::Table;

verus! {

/// The state of a bucket.
#[derive(Clone, Copy, Debug, PartialEq, Eq, Structural)]
pub struct Usage {
    /// When the bucket was last refilled, in whole seconds.
    pub last_update: u64,
    /// How many tokens the bucket held then.
    pub tokens: u32,
}

/// How large a bucket is, and how fast it fills.
#[derive(Clone, Copy, Debug, PartialEq, Eq, Structural)]
pub struct LimitConfig {
    /// How many tokens the bucket can hold.
    pub burst: u32,
    /// How many tokens the bucket gains each second.
    pub refill_rate: u32,
}

/// The limit on everyone together.
#[derive(Clone, Copy, Debug, PartialEq, Eq, Structural)]
pub struct GlobalLimit {
    /// Whether the limit is enforced.
    pub enabled: bool,
    pub limit: LimitConfig,
}

/// Why a call fails.
#[derive(Clone, Copy, Debug, PartialEq, Eq, Structural)]
pub enum RateLimiterFault {
    /// An address that has to authorize the call did not.
    Unauthenticated,
    AlreadyInitialized,
    NotInitialized,
    AdminNotSet,
    RateLimitExceeded,
}

/// What the rate limiter announces.
#[derive(Clone, Copy, Debug, PartialEq, Eq)]
pub enum RateLimiterEvent {
    Initialized { admin: Address, limit: LimitConfig, admin_bypass: bool },
    GlobalLimitSet(GlobalLimit),
    LimitSet(Address, LimitConfig),
    LimitCleared(Address),
    ContractLimitSet(Address, LimitConfig),
    ContractLimitCleared(Address),
    UsageReset(Address),
    ContractUsageReset(Address),
    AdminTransferred { old_admin: Address, new_admin: Address },
}

/// What `initialize` sets.
#[derive(Clone, Copy, Debug, PartialEq, Eq)]
pub struct RateLimiterConfig {
    /// Who controls the limits.
    pub admin: Address,
    /// The limit of an address that has none of its own.
    pub default_limit: LimitConfig,
    /// Whether the limits leave the admin alone.
    pub admin_bypass: bool,
}

/// The rate limiter's storage.
pub struct RateLimiter {
    /// Set once the contract is initialized.
    pub config: Option<RateLimiterConfig>,
    pub global_limit: GlobalLimit,
    pub global_usage: Option<Usage>,
    pub limits: Table<Address, LimitConfig>,
    pub usage: Table<Address, Usage>,
    pub contract_limits: Table<Address, LimitConfig>,
    pub contract_usage: Table<Address, Usage>,
    /// What was announced, oldest first.
    pub events: Vec<RateLimiterEvent>,
}

/// The rate limiter's storage, as mathematical values.
#[verifier::ext_equal]
pub struct RateLimiterState {
    pub config: Option<RateLimiterConfig>,
    pub global_limit: GlobalLimit,
    pub global_usage: Option<Usage>,
    pub limits: Map<Address, LimitConfig>,
    pub usage: Map<Address, Usage>,
    pub contract_limits: Map<Address, LimitConfig>,
    pub contract_usage: Map<Address, Usage>,
    pub events: Seq<RateLimiterEvent>,
}

impl View for RateLimiter {
    type V = RateLimiterState;

    open spec fn view(&self) -> RateLimiterState {
        RateLimiterState {
            config: self.config,
            global_limit: self.global_limit,
            global_usage: self.global_usage,
            limits: self.limits@,
            usage: self.usage@,
            contract_limits: self.contract_limits@,
            contract_usage: self.contract_usage@,
            events: self.events@,
        }
    }
}

/// What is stored under a key, if anything is.
pub open spec fn lookup<V>(stored: Map<Address, V>, address: Address) -> Option<V> {
    if stored.contains_key(address) {
        Some(stored[address])
    } else {
        None
    }
}

/// The state of a bucket at a time: the tokens gained since the last refill are
/// added, up to the burst capacity. Where no time has passed, nothing changes.
pub open spec fn refilled(usage: Usage, now: u64, limit: LimitConfig) -> Usage {
    if now <= usage.last_update {
        usage
    } else {
        let tokens = usage.tokens + (now - usage.last_update) * limit.refill_rate;
        Usage {
            last_update: now,
            tokens: if tokens > limit.burst {
                limit.burst
            } else {
                tokens as u32
            },
        }
    }
}

/// The state at a time of a bucket that may never have been used: such a bucket is full.
pub open spec fn bucket(stored: Option<Usage>, now: u64, limit: LimitConfig) -> Usage {
    match stored {
        Some(usage) => refilled(usage, now, limit),
        None => Usage { last_update: now, tokens: limit.burst },
    }
}

/// A bucket after one token was drawn from it.
pub open spec fn drawn(usage: Usage) -> Usage {
    Usage { tokens: (usage.tokens - 1) as u32, ..usage }
}

/// The answer to a call that changes the state unless it is turned down.
pub open spec fn answer(
    before: RateLimiterState,
    refusal: Option<RateLimiterFault>,
    changed: RateLimiterState,
) -> (RateLimiterState, Result<(), RateLimiterFault>) {
    match refusal {
        Some(fault) => (before, Err(fault)),
        None => (changed, Ok(())),
    }
}

impl RateLimiterState {
    /// A freshly deployed rate limiter.
    pub open spec fn fresh() -> RateLimiterState {
        RateLimiterState {
            config: None,
            global_limit: GlobalLimit {
                enabled: false,
                limit: LimitConfig { burst: 0, refill_rate: 0 },
            },
            global_usage: None,
            limits: Map::empty(),
            usage: Map::empty(),
            contract_limits: Map::empty(),
            contract_usage: Map::empty(),
            events: Seq::empty(),
        }
    }

    pub open spec fn announcing(self, event: RateLimiterEvent) -> RateLimiterState {
        RateLimiterState { events: self.events.push(event), ..self }
    }

    /// The limit of an address: its own, or else the default. Before
    /// `initialize`, the default admits nothing.
    pub open spec fn limit_of(self, address: Address) -> LimitConfig {
        if self.limits.contains_key(address) {
            self.limits[address]
        } else {
            match self.config {
                Some(config) => config.default_limit,
                None => LimitConfig { burst: 0, refill_rate: 0 },
            }
        }
    }

    /// Whether the limits leave an address alone.
    pub open spec fn is_exempt(self, address: Address) -> bool {
        self.config is Some && self.config->0.admin_bypass && self.config->0.admin == address
    }

    /// The bucket of everyone together, at a time.
    pub open spec fn global_bucket(self, now: u64) -> Usage {
        bucket(self.global_usage, now, self.global_limit.limit)
    }

    /// The bucket of an address, at a time.
    pub open spec fn bucket_of(self, address: Address, now: u64) -> Usage {
        bucket(lookup(self.usage, address), now, self.limit_of(address))
    }

    /// The bucket of a contract that has a budget, at a time.
    pub open spec fn contract_bucket_of(self, contract: Address, now: u64) -> Usage {
        bucket(
            lookup(self.contract_usage, contract),
            now,
            self.contract_limits[contract],
        )
    }

    /// Whether a call through a contract, if through any, is held to a budget of that contract.
    pub open spec fn is_budgeted(self, contract: Option<Address>) -> bool {
        contract is Some && self.contract_limits.contains_key(contract->0)
    }

    /// Why a token is not granted, if it is not.
    pub open spec fn consume_refusal(
        self,
        now: u64,
        subject: Address,
        contract: Option<Address>,
    ) -> Option<RateLimiterFault> {
        if self.config is None {
            Some(RateLimiterFault::NotInitialized)
        } else if self.is_exempt(subject) {
            None
        } else if self.global_limit.enabled && self.global_bucket(now).tokens == 0 {
            Some(RateLimiterFault::RateLimitExceeded)
        } else if self.is_budgeted(contract) && self.contract_bucket_of(contract->0, now).tokens
            == 0 {
            Some(RateLimiterFault::RateLimitExceeded)
        } else if self.bucket_of(subject, now).tokens == 0 {
            Some(RateLimiterFault::RateLimitExceeded)
        } else {
            None
        }
    }

    /// The state in which a token was drawn from every bucket that a call is held to.
    pub open spec fn consuming(
        self,
        now: u64,
        subject: Address,
        contract: Option<Address>,
    ) -> RateLimiterState {
        RateLimiterState {
            global_usage: if self.global_limit.enabled {
                Some(drawn(self.global_bucket(now)))
            } else {
                self.global_usage
            },
            contract_usage: if self.is_budgeted(contract) {
                self.contract_usage.insert(
                    contract->0,
                    drawn(self.contract_bucket_of(contract->0, now)),
                )
            } else {
                self.contract_usage
            },
            usage: self.usage.insert(subject, drawn(self.bucket_of(subject, now))),
            ..self
        }
    }

    /// The outcome of a request for a token. What is granted is how many tokens
    /// the subject has left.
    pub open spec fn after_consume(
        self,
        now: u64,
        subject: Address,
        contract: Option<Address>,
    ) -> (RateLimiterState, Result<u32, RateLimiterFault>) {
        match self.consume_refusal(now, subject, contract) {
            Some(fault) => (self, Err(fault)),
            None => if self.is_exempt(subject) {
                (self, Ok(u32::MAX))
            } else {
                (
                    self.consuming(now, subject, contract),
                    Ok(drawn(self.bucket_of(subject, now)).tokens),
                )
            },
        }
    }

    /// The outcome of a request for a token that the subject has to authorize.
    pub open spec fn after_authorized_consume(
        self,
        env: Env,
        subject: Address,
    ) -> (RateLimiterState, Result<u32, RateLimiterFault>) {
        if !env.authorizes(subject) {
            (self, Err(RateLimiterFault::Unauthenticated))
        } else {
            self.after_consume(env.timestamp, subject, None)
        }
    }

    /// Why `initialize` is turned down, if it is.
    pub open spec fn initialize_refusal(
        self,
        env: Env,
        admin: Address,
    ) -> Option<RateLimiterFault> {
        if !env.authorizes(admin) {
            Some(RateLimiterFault::Unauthenticated)
        } else if self.config is Some {
            Some(RateLimiterFault::AlreadyInitialized)
        } else {
            None
        }
    }

    /// The state in which the rate limiter has been initialized.
    pub open spec fn initializing(self, config: RateLimiterConfig) -> RateLimiterState {
        RateLimiterState { config: Some(config), ..self }.announcing(
            RateLimiterEvent::Initialized {
                admin: config.admin,
                limit: config.default_limit,
                admin_bypass: config.admin_bypass,
            },
        )
    }

    /// Why a call that is the admin's to make is turned down, if it is.
    pub open spec fn admin_refusal(self, env: Env) -> Option<RateLimiterFault> {
        if self.config is None {
            Some(RateLimiterFault::AdminNotSet)
        } else if !env.authorizes(self.config->0.admin) {
            Some(RateLimiterFault::Unauthenticated)
        } else {
            None
        }
    }

    pub open spec fn with_global_limit(self, global_limit: GlobalLimit) -> RateLimiterState {
        RateLimiterState { global_limit, ..self }.announcing(
            RateLimiterEvent::GlobalLimitSet(global_limit),
        )
    }

    pub open spec fn with_limit(self, address: Address, limit: LimitConfig) -> RateLimiterState {
        RateLimiterState { limits: self.limits.insert(address, limit), ..self }.announcing(
            RateLimiterEvent::LimitSet(address, limit),
        )
    }

    pub open spec fn without_limit(self, address: Address) -> RateLimiterState {
        RateLimiterState { limits: self.limits.remove(address), ..self }.announcing(
            RateLimiterEvent::LimitCleared(address),
        )
    }

    pub open spec fn with_contract_limit(
        self,
        contract: Address,
        limit: LimitConfig,
    ) -> RateLimiterState {
        RateLimiterState {
            contract_limits: self.contract_limits.insert(contract, limit),
            ..self
        }.announcing(RateLimiterEvent::ContractLimitSet(contract, limit))
    }

    pub open spec fn without_contract_limit(self, contract: Address) -> RateLimiterState {
        RateLimiterState {
            contract_limits: self.contract_limits.remove(contract),
            ..self
        }.announcing(RateLimiterEvent::ContractLimitCleared(contract))
    }

    pub open spec fn without_usage(self, address: Address) -> RateLimiterState {
        RateLimiterState { usage: self.usage.remove(address), ..self }.announcing(
            RateLimiterEvent::UsageReset(address),
        )
    }

    pub open spec fn without_contract_usage(self, contract: Address) -> RateLimiterState {
        RateLimiterState {
            contract_usage: self.contract_usage.remove(contract),
            ..self
        }.announcing(RateLimiterEvent::ContractUsageReset(contract))
    }

    pub open spec fn with_admin(self, new_admin: Address) -> RateLimiterState {
        let old_admin = self.config->0.admin;
        RateLimiterState {
            config: Some(RateLimiterConfig { admin: new_admin, ..self.config->0 }),
            ..self
        }.announcing(RateLimiterEvent::AdminTransferred { old_admin, new_admin })
    }
}

/// The state of a bucket at the time `now`; a bucket that was never used is full.
fn bucket_after_refill(stored: Option<Usage>, now: u64, limit: LimitConfig) -> (r: Usage)
    ensures
        r == bucket(stored, now, limit),
{
    match stored {
        Some(usage) => RateLimiter::preview_refill(usage, now, limit.burst, limit.refill_rate),
        None => Usage { last_update: now, tokens: limit.burst },
    }
}

/// What is stored under an address, if anything is.
fn read<V: Copy>(table: &Table<Address, V>, address: &Address) -> (r: Option<V>)
    ensures
        r == lookup(table@, *address),
{
    match table.get(address) {
        Some(value) => Some(*value),
        None => None,
    }
}

impl RateLimiter {
    /// A freshly deployed rate limiter.
    pub fn new() -> (limiter: Self)
        ensures
            limiter@ == RateLimiterState::fresh(),
    {
        RateLimiter {
            config: None,
            global_limit: GlobalLimit {
                enabled: false,
                limit: LimitConfig { burst: 0, refill_rate: 0 },
            },
            global_usage: None,
            limits: Table::new(),
            usage: Table::new(),
            contract_limits: Table::new(),
            contract_usage: Table::new(),
            events: Vec::new(),
        }
    }

    /// The state of a bucket at the time `now`, without drawing from it.
    pub fn preview_refill(usage: Usage, now: u64, burst: u32, refill_rate: u32) -> (r: Usage)
        ensures
            r == refilled(usage, now, (LimitConfig { burst, refill_rate })),
    {
        if now <= usage.last_update {
            return usage;
        }
        let elapsed: u64 = now - usage.last_update;
        proof {
            assert(elapsed * refill_rate <= 0xffff_ffff_ffff_ffff * 0xffff_ffff)
                by (nonlinear_arith)
                requires
                    0 <= elapsed <= 0xffff_ffff_ffff_ffff,
                    0 <= refill_rate <= 0xffff_ffff,
            ;
        }
        let tokens: u128 = usage.tokens as u128 + elapsed as u128 * refill_rate as u128;
        Usage {
            last_update: now,
            tokens: if tokens > burst as u128 {
                burst
            } else {
                tokens as u32
            },
        }
    }

    /// Checks that the admin makes the call.
    fn require_admin_auth(&self, env: &Env) -> (r: Result<(), RateLimiterFault>)
        ensures
            r == match self@.admin_refusal(*env) {
                Some(fault) => Err::<(), RateLimiterFault>(fault),
                None => Ok(()),
            },
    {
        match &self.config {
            None => Err(RateLimiterFault::AdminNotSet),
            Some(config) => if env.is_authorized(&config.admin) {
                Ok(())
            } else {
                Err(RateLimiterFault::Unauthenticated)
            },
        }
    }

    /// Sets the admin and the default limit, once.
    pub fn initialize(
        &mut self,
        env: &Env,
        admin: Address,
        default_burst: u32,
        default_refill_rate: u32,
        admin_bypass: bool,
    ) -> (r: Result<(), RateLimiterFault>)
        ensures
            (final(self)@, r) == answer(
                old(self)@,
                old(self)@.initialize_refusal(*env, admin),
                old(self)@.initializing(
                    RateLimiterConfig {
                        admin,
                        default_limit: LimitConfig {
                            burst: default_burst,
                            refill_rate: default_refill_rate,
                        },
                        admin_bypass,
                    },
                ),
            ),
    {
        if !env.is_authorized(&admin) {
            return Err(RateLimiterFault::Unauthenticated);
        }
        if self.config.is_some() {
            return Err(RateLimiterFault::AlreadyInitialized);
        }
        let limit = LimitConfig { burst: default_burst, refill_rate: default_refill_rate };
        self.config = Some(RateLimiterConfig { admin, default_limit: limit, admin_bypass });
        self.events.push(RateLimiterEvent::Initialized { admin, limit, admin_bypass });
        Ok(())
    }

    /// Sets the limit on everyone together. Only the admin may.
    pub fn set_global_limit(
        &mut self,
        env: &Env,
        enabled: bool,
        burst: u32,
        refill_rate: u32,
    ) -> (r: Result<(), RateLimiterFault>)
        ensures
            (final(self)@, r) == answer(
                old(self)@,
                old(self)@.admin_refusal(*env),
                old(self)@.with_global_limit(
                    GlobalLimit { enabled, limit: LimitConfig { burst, refill_rate } },
                ),
            ),
    {
        match self.require_admin_auth(env) {
            Ok(()) => {},
            Err(fault) => return Err(fault),
        }
        let global_limit = GlobalLimit { enabled, limit: LimitConfig { burst, refill_rate } };
        self.global_limit = global_limit;
        self.events.push(RateLimiterEvent::GlobalLimitSet(global_limit));
        Ok(())
    }

    /// Gives an address a limit of its own, in place of the default. Only the admin may.
    pub fn set_limit_for(
        &mut self,
        env: &Env,
        addr: Address,
        burst: u32,
        refill_rate: u32,
    ) -> (r: Result<(), RateLimiterFault>)
        ensures
            (final(self)@, r) == answer(
                old(self)@,
                old(self)@.admin_refusal(*env),
                old(self)@.with_limit(addr, LimitConfig { burst, refill_rate }),
            ),
    {
        match self.require_admin_auth(env) {
            Ok(()) => {},
            Err(fault) => return Err(fault),
        }
        let limit = LimitConfig { burst, refill_rate };
        self.limits.set(addr, limit);
        self.events.push(RateLimiterEvent::LimitSet(addr, limit));
        Ok(())
    }

    /// Takes away the limit that an address has of its own. Only the admin may.
    pub fn clear_limit_for(&mut self, env: &Env, addr: Address) -> (r: Result<(), RateLimiterFault>)
        ensures
            (final(self)@, r) == answer(
                old(self)@,
                old(self)@.admin_refusal(*env),
                old(self)@.without_limit(addr),
            ),
    {
        match self.require_admin_auth(env) {
            Ok(()) => {},
            Err(fault) => return Err(fault),
        }
        self.limits.remove(&addr);
        self.events.push(RateLimiterEvent::LimitCleared(addr));
        Ok(())
    }

    /// Gives an integrating contract a budget, which all the subjects that call
    /// through it share. Only the admin may.
    pub fn set_limit_for_contract(
        &mut self,
        env: &Env,
        contract: Address,
        burst: u32,
        refill_rate: u32,
    ) -> (r: Result<(), RateLimiterFault>)
        ensures
            (final(self)@, r) == answer(
                old(self)@,
                old(self)@.admin_refusal(*env),
                old(self)@.with_contract_limit(contract, LimitConfig { burst, refill_rate }),
            ),
    {
        match self.require_admin_auth(env) {
            Ok(()) => {},
            Err(fault) => return Err(fault),
        }
        let limit = LimitConfig { burst, refill_rate };
        self.contract_limits.set(contract, limit);
        self.events.push(RateLimiterEvent::ContractLimitSet(contract, limit));
        Ok(())
    }

    /// Takes away the budget of a contract, if it has one, but not the record of
    /// its use. Only the admin may.
    pub fn clear_limit_for_contract(
        &mut self,
        env: &Env,
        contract: Address,
    ) -> (r: Result<(), RateLimiterFault>)
        ensures
            (final(self)@, r) == answer(
                old(self)@,
                old(self)@.admin_refusal(*env),
                old(self)@.without_contract_limit(contract),
            ),
    {
        match self.require_admin_auth(env) {
            Ok(()) => {},
            Err(fault) => return Err(fault),
        }
        self.contract_limits.remove(&contract);
        self.events.push(RateLimiterEvent::ContractLimitCleared(contract));
        Ok(())
    }

    /// Draws a token from the subject's bucket, and from everyone's where there is
    /// one. Returns how many the subject has left. The subject has to authorize it.
    pub fn check_and_consume(
        &mut self,
        env: &Env,
        subject: Address,
    ) -> (r: Result<u32, RateLimiterFault>)
        ensures
            (final(self)@, r) == old(self)@.after_authorized_consume(*env, subject),
    {
        if !env.is_authorized(&subject) {
            return Err(RateLimiterFault::Unauthenticated);
        }
        self.check_and_consume_inner(env.timestamp, subject, None)
    }

    /// Draws a token from the subject's bucket and from the contract's, if it has
    /// a budget. Returns how many the subject has left.
    pub fn check_and_consume_for_contract(
        &mut self,
        env: &Env,
        subject: Address,
        contract: Address,
    ) -> (r: Result<u32, RateLimiterFault>)
        ensures
            (final(self)@, r) == old(self)@.after_consume(env.timestamp, subject, Some(contract)),
    {
        self.check_and_consume_inner(env.timestamp, subject, Some(contract))
    }

    /// Draws a token from every bucket that the request is held to, or from none.
    fn check_and_consume_inner(
        &mut self,
        now: u64,
        subject: Address,
        contract: Option<Address>,
    ) -> (r: Result<u32, RateLimiterFault>)
        ensures
            (final(self)@, r) == old(self)@.after_consume(now, subject, contract),
    {
        match &self.config {
            None => return Err(RateLimiterFault::NotInitialized),
            Some(config) => {
                if config.admin_bypass && config.admin == subject {
                    return Ok(u32::MAX);
                }
            },
        }
        let global = bucket_after_refill(self.global_usage, now, self.global_limit.limit);
        if self.global_limit.enabled && global.tokens == 0 {
            return Err(RateLimiterFault::RateLimitExceeded);
        }
        let budget: Option<(Address, LimitConfig)> = match contract {
            Some(address) => match read(&self.contract_limits, &address) {
                Some(limit) => Some((address, limit)),
                None => None,
            },
            None => None,
        };
        let shared: Option<(Address, Usage)> = match budget {
            Some((address, limit)) => {
                let usage = bucket_after_refill(read(&self.contract_usage, &address), now, limit);
                if usage.tokens == 0 {
                    return Err(RateLimiterFault::RateLimitExceeded);
                }
                Some((address, usage))
            },
            None => None,
        };
        let limit = self.get_limit_for(&subject);
        let mine = bucket_after_refill(read(&self.usage, &subject), now, limit);
        if mine.tokens == 0 {
            return Err(RateLimiterFault::RateLimitExceeded);
        }
        if self.global_limit.enabled {
            self.global_usage = Some(Usage { tokens: global.tokens - 1, ..global });
        }
        match shared {
            Some((address, usage)) => {
                self.contract_usage.set(address, Usage { tokens: usage.tokens - 1, ..usage });
            },
            None => {},
        }
        let left: u32 = mine.tokens - 1;
        self.usage.set(subject, Usage { tokens: left, ..mine });
        Ok(left)
    }

    /// Forgets what an address has used. Only the admin may.
    pub fn reset_usage(&mut self, env: &Env, addr: Address) -> (r: Result<(), RateLimiterFault>)
        ensures
            (final(self)@, r) == answer(
                old(self)@,
                old(self)@.admin_refusal(*env),
                old(self)@.without_usage(addr),
            ),
    {
        match self.require_admin_auth(env) {
            Ok(()) => {},
            Err(fault) => return Err(fault),
        }
        self.usage.remove(&addr);
        self.events.push(RateLimiterEvent::UsageReset(addr));
        Ok(())
    }

    /// Forgets what was used through a contract. Only the admin may.
    pub fn reset_contract_usage(
        &mut self,
        env: &Env,
        contract: Address,
    ) -> (r: Result<(), RateLimiterFault>)
        ensures
            (final(self)@, r) == answer(
                old(self)@,
                old(self)@.admin_refusal(*env),
                old(self)@.without_contract_usage(contract),
            ),
    {
        match self.require_admin_auth(env) {
            Ok(()) => {},
            Err(fault) => return Err(fault),
        }
        self.contract_usage.remove(&contract);
        self.events.push(RateLimiterEvent::ContractUsageReset(contract));
        Ok(())
    }

    /// Makes another address the admin. Only the admin may.
    pub fn transfer_admin(
        &mut self,
        env: &Env,
        new_admin: Address,
    ) -> (r: Result<(), RateLimiterFault>)
        ensures
            (final(self)@, r) == answer(
                old(self)@,
                old(self)@.admin_refusal(*env),
                old(self)@.with_admin(new_admin),
            ),
    {
        match self.require_admin_auth(env) {
            Ok(()) => {},
            Err(fault) => return Err(fault),
        }
        let config: RateLimiterConfig = match self.config {
            Some(config) => config,
            None => return Err(RateLimiterFault::AdminNotSet),
        };
        let old_admin: Address = config.admin;
        self.config = Some(RateLimiterConfig { admin: new_admin, ..config });
        self.events.push(RateLimiterEvent::AdminTransferred { old_admin, new_admin });
        Ok(())
    }

    /// The limit of an address: its own, or else the default.
    pub fn get_limit_for(&self, addr: &Address) -> (r: LimitConfig)
        ensures
            r == self@.limit_of(*addr),
    {
        match self.limits.get(addr) {
            Some(limit) => *limit,
            None => match &self.config {
                Some(config) => config.default_limit,
                None => LimitConfig { burst: 0, refill_rate: 0 },
            },
        }
    }

    /// The budget of a contract, if it has one.
    pub fn get_limit_for_contract(&self, contract: &Address) -> (r: Option<LimitConfig>)
        ensures
            r == lookup(self@.contract_limits, *contract),
    {
        read(&self.contract_limits, contract)
    }

    /// The bucket of an address now, if it was ever drawn from.
    pub fn get_usage(&self, env: &Env, addr: &Address) -> (r: Option<Usage>)
        ensures
            r == (if self@.usage.contains_key(*addr) {
                Some(self@.bucket_of(*addr, env.timestamp))
            } else {
                None
            }),
    {
        match self.usage.get(addr) {
            Some(usage) => {
                let limit = self.get_limit_for(addr);
                Some(Self::preview_refill(*usage, env.timestamp, limit.burst, limit.refill_rate))
            },
            None => None,
        }
    }

    /// The bucket of a contract now, if it has a budget that was ever drawn from.
    pub fn get_contract_usage(&self, env: &Env, contract: &Address) -> (r: Option<Usage>)
        ensures
            r == (if self@.contract_limits.contains_key(*contract)
                && self@.contract_usage.contains_key(*contract) {
                Some(self@.contract_bucket_of(*contract, env.timestamp))
            } else {
                None
            }),
    {
        match self.contract_limits.get(contract) {
            Some(limit) => match self.contract_usage.get(contract) {
                Some(usage) => {
                    let (burst, rate) = (limit.burst, limit.refill_rate);
                    Some(Self::preview_refill(*usage, env.timestamp, burst, rate))
                },
                None => None,
            },
            None => None,
        }
    }

    /// The admin, once there is one.
    pub fn get_admin(&self) -> (r: Option<Address>)
        ensures
            r == match self@.config {
                Some(config) => Some(config.admin),
                None => None,
            },
    {
        match &self.config {
            Some(config) => Some(config.admin),
            None => None,
        }
    }
}

} // verus!
