//! What holds of the rate limiter across calls.

use vstd::prelude::*;

use crate::address::Address;
use crate::env::Env;
use crate::rate_limiter::{
    GlobalLimit, LimitConfig, RateLimiter, RateLimiterConfig, RateLimiterEvent, RateLimiterFault,
    RateLimiterState, Usage,
};

verus! {

/// A call that is the admin's to make.
pub enum AdminCall {
    SetGlobalLimit(GlobalLimit),
    SetLimitFor(Address, LimitConfig),
    ClearLimitFor(Address),
    SetLimitForContract(Address, LimitConfig),
    ClearLimitForContract(Address),
    ResetUsage(Address),
    ResetContractUsage(Address),
    TransferAdmin(Address),
}

/// The state after a call of the admin's that is not turned down.
pub open spec fn changed_by(state: RateLimiterState, call: AdminCall) -> RateLimiterState {
    match call {
        AdminCall::SetGlobalLimit(global_limit) => state.with_global_limit(global_limit),
        AdminCall::SetLimitFor(address, limit) => state.with_limit(address, limit),
        AdminCall::ClearLimitFor(address) => state.without_limit(address),
        AdminCall::SetLimitForContract(contract, limit) => {
            state.with_contract_limit(contract, limit)
        },
        AdminCall::ClearLimitForContract(contract) => state.without_contract_limit(contract),
        AdminCall::ResetUsage(address) => state.without_usage(address),
        AdminCall::ResetContractUsage(contract) => state.without_contract_usage(contract),
        AdminCall::TransferAdmin(new_admin) => state.with_admin(new_admin),
    }
}

/// The state after a call of the admin's.
pub open spec fn after_admin_call(
    state: RateLimiterState,
    env: Env,
    call: AdminCall,
) -> RateLimiterState {
    crate::rate_limiter::answer(state, state.admin_refusal(env), changed_by(state, call)).0
}

/// A request for a token.
pub struct Request {
    pub time: u64,
    pub subject: Address,
    pub contract: Option<Address>,
}

/// The state after a series of requests.
pub open spec fn after_requests(state: RateLimiterState, requests: Seq<Request>) -> RateLimiterState
    decreases requests.len(),
{
    if requests.len() == 0 {
        state
    } else {
        let last = requests.last();
        after_requests(state, requests.drop_last()).after_consume(
            last.time,
            last.subject,
            last.contract,
        ).0
    }
}

/// Whether a series of requests is in order of time and starts at `start` or later.
pub open spec fn in_order(requests: Seq<Request>, start: u64) -> bool {
    &&& forall|i: int| 0 <= i < requests.len() ==> start <= #[trigger] requests[i].time
    &&& forall|i: int, j: int|
        0 <= i < j < requests.len() ==> #[trigger] requests[i].time <= #[trigger] requests[j].time
}

/// One of the buckets that requests can draw from.
pub enum Bucket {
    Global,
    Subject(Address),
    Contract(Address),
}

/// Whether a bucket is in force.
pub open spec fn is_enforced(state: RateLimiterState, which: Bucket) -> bool {
    match which {
        Bucket::Global => state.global_limit.enabled,
        Bucket::Subject(_) => true,
        Bucket::Contract(contract) => state.contract_limits.contains_key(contract),
    }
}

/// The limit of a bucket.
pub open spec fn limit_of_bucket(state: RateLimiterState, which: Bucket) -> LimitConfig {
    match which {
        Bucket::Global => state.global_limit.limit,
        Bucket::Subject(subject) => state.limit_of(subject),
        Bucket::Contract(contract) => state.contract_limits[contract],
    }
}

/// What a bucket last held, if it was ever drawn from.
pub open spec fn record_of_bucket(state: RateLimiterState, which: Bucket) -> Option<Usage> {
    match which {
        Bucket::Global => state.global_usage,
        Bucket::Subject(subject) => crate::rate_limiter::lookup(state.usage, subject),
        Bucket::Contract(contract) => crate::rate_limiter::lookup(state.contract_usage, contract),
    }
}

/// How many tokens a bucket holds at a time.
pub open spec fn level(state: RateLimiterState, which: Bucket, now: u64) -> nat {
    crate::rate_limiter::bucket(
        record_of_bucket(state, which),
        now,
        limit_of_bucket(state, which),
    ).tokens as nat
}

/// Whether a request draws from a bucket if it is granted.
pub open spec fn draws_from(request: Request, which: Bucket) -> bool {
    match which {
        Bucket::Global => true,
        Bucket::Subject(subject) => request.subject == subject,
        Bucket::Contract(contract) => request.contract == Some(contract),
    }
}

/// Whether a request is granted, and counts against a bucket.
pub open spec fn is_charged(state: RateLimiterState, request: Request, which: Bucket) -> bool {
    &&& draws_from(request, which)
    &&& !state.is_exempt(request.subject)
    &&& state.consume_refusal(request.time, request.subject, request.contract) is None
}

/// How many requests of a series are granted and count against a bucket.
pub open spec fn charges(state: RateLimiterState, requests: Seq<Request>, which: Bucket) -> nat
    decreases requests.len(),
{
    if requests.len() == 0 {
        0
    } else {
        let rest = requests.drop_last();
        charges(state, rest, which) + if is_charged(
            after_requests(state, rest),
            requests.last(),
            which,
        ) {
            1nat
        } else {
            0nat
        }
    }
}

/// A refill adds a whole number of tokens for each whole second, and stops at the
/// burst capacity.
pub proof fn refill_is_capped(usage: Usage, now: u64, limit: LimitConfig)
    ensures
        ({
            let after = crate::rate_limiter::refilled(usage, now, limit);
            &&& now > usage.last_update ==> after.tokens <= limit.burst
            &&& now > usage.last_update ==> after.last_update == now
            &&& now > usage.last_update && usage.tokens <= limit.burst ==> after.tokens
                >= usage.tokens
            &&& after.last_update >= usage.last_update
        }),
{
    assert(now > usage.last_update ==> (now - usage.last_update) * limit.refill_rate >= 0)
        by (nonlinear_arith);
}

/// Within one second nothing is gained.
pub proof fn no_refill_within_a_second(usage: Usage, limit: LimitConfig)
    ensures
        crate::rate_limiter::refilled(usage, usage.last_update, limit) == usage,
{
}

/// Looking at a bucket in between gains and loses nothing.
pub proof fn refill_in_steps_is_refill_at_once(
    usage: Usage,
    middle: u64,
    end: u64,
    limit: LimitConfig,
)
    requires
        usage.last_update <= middle <= end,
        usage.tokens <= limit.burst,
    ensures
        crate::rate_limiter::refilled(
            crate::rate_limiter::refilled(usage, middle, limit),
            end,
            limit,
        ) == crate::rate_limiter::refilled(usage, end, limit),
{
    let first = (middle - usage.last_update) * limit.refill_rate;
    let second = (end - middle) * limit.refill_rate;
    let whole = (end - usage.last_update) * limit.refill_rate;
    assert(first + second == whole && first >= 0 && second >= 0) by (nonlinear_arith)
        requires
            usage.last_update <= middle <= end,
            first == (middle - usage.last_update) * limit.refill_rate,
            second == (end - middle) * limit.refill_rate,
            whole == (end - usage.last_update) * limit.refill_rate,
            limit.refill_rate >= 0,
    ;
}

/// A bucket gains no more than its rate allows for the time that passes.
proof fn level_grows_by_the_rate(
    state: RateLimiterState,
    which: Bucket,
    start: u64,
    end: u64,
)
    requires
        start <= end,
    ensures
        level(state, which, end) <= level(state, which, start) + limit_of_bucket(
            state,
            which,
        ).refill_rate * (end - start),
{
    let limit = limit_of_bucket(state, which);
    let rate = limit.refill_rate as int;
    let gain = rate * (end - start);
    assert(gain >= 0) by (nonlinear_arith)
        requires
            gain == rate * (end - start),
            rate >= 0,
            start <= end,
    ;
    match record_of_bucket(state, which) {
        Some(usage) => {
            let last = usage.last_update as int;
            if last < start {
                assert((start - last) * rate + gain == (end - last) * rate) by (nonlinear_arith)
                    requires
                        gain == rate * (end - start),
                ;
                assert((end - last) * rate >= 0) by (nonlinear_arith)
                    requires
                        last <= end,
                        rate >= 0,
                ;
            } else if last < end {
                assert((end - last) * rate <= gain) by (nonlinear_arith)
                    requires
                        gain == rate * (end - start),
                        start <= last,
                        last <= end,
                        rate >= 0,
                ;
            }
        },
        None => {},
    }
}

/// A granted request takes one token from each bucket that it counts against,
/// and no request changes a limit.
proof fn request_draws_one_token(state: RateLimiterState, request: Request, which: Bucket)
    requires
        is_enforced(state, which),
    ensures
        ({
            let after = state.after_consume(request.time, request.subject, request.contract).0;
            &&& limit_of_bucket(after, which) == limit_of_bucket(state, which)
            &&& is_enforced(after, which)
            &&& level(after, which, request.time) + (if is_charged(state, request, which) {
                1nat
            } else {
                0nat
            }) == level(state, which, request.time)
        }),
{
}

/// The budget of a bucket holds over any series of requests: no more of them are
/// granted than the bucket held at the start and gained since. So whatever the
/// subjects are, requests through one contract cannot exceed its budget.
pub proof fn budget_holds(
    state: RateLimiterState,
    requests: Seq<Request>,
    which: Bucket,
    start: u64,
    end: u64,
)
    requires
        is_enforced(state, which),
        in_order(requests, start),
        start <= end,
        requests.len() > 0 ==> requests.last().time <= end,
    ensures
        charges(state, requests, which) + level(after_requests(state, requests), which, end)
            <= level(state, which, start) + limit_of_bucket(state, which).refill_rate * (end
            - start),
        limit_of_bucket(after_requests(state, requests), which) == limit_of_bucket(state, which),
        is_enforced(after_requests(state, requests), which),
    decreases requests.len(),
{
    if requests.len() == 0 {
        level_grows_by_the_rate(state, which, start, end);
    } else {
        let rest = requests.drop_last();
        let last = requests.last();
        let before = after_requests(state, rest);
        let after = after_requests(state, requests);
        let rate = limit_of_bucket(state, which).refill_rate as int;
        assert(last == requests[requests.len() - 1]);
        assert(in_order(rest, start)) by {
            assert forall|i: int| 0 <= i < rest.len() implies start <= #[trigger] rest[i].time by {
                assert(rest[i] == requests[i]);
            }
            assert forall|i: int, j: int| 0 <= i < j < rest.len() implies #[trigger] rest[i].time
                <= #[trigger] rest[j].time by {
                assert(rest[i] == requests[i]);
                assert(rest[j] == requests[j]);
            }
        }
        if rest.len() > 0 {
            assert(rest.last() == requests[rest.len() - 1]);
        }
        budget_holds(state, rest, which, start, last.time);
        request_draws_one_token(before, last, which);
        level_grows_by_the_rate(after, which, last.time, end);
        assert(rate * (last.time - start) + rate * (end - last.time) == rate * (end - start))
            by (nonlinear_arith);
    }
}

/// A bucket that was never used, or that had time to refill, holds its burst
/// capacity at most.
pub proof fn level_is_at_most_the_burst(state: RateLimiterState, which: Bucket, now: u64)
    requires
        record_of_bucket(state, which) matches Some(usage) ==> usage.last_update < now
            || usage.tokens <= limit_of_bucket(state, which).burst,
    ensures
        level(state, which, now) <= limit_of_bucket(state, which).burst,
{
}

/// A request that finds one of its buckets empty is refused, and takes nothing
/// from the others.
pub proof fn empty_bucket_refuses(
    state: RateLimiterState,
    request: Request,
    which: Bucket,
)
    requires
        state.config is Some,
        !state.is_exempt(request.subject),
        is_enforced(state, which),
        draws_from(request, which),
        level(state, which, request.time) == 0,
    ensures
        state.after_consume(request.time, request.subject, request.contract) == (
            state,
            Err::<u32, RateLimiterFault>(RateLimiterFault::RateLimitExceeded),
        ),
{
}

/// A request is granted when each of its buckets holds a token.
pub proof fn request_within_the_limits_is_granted(state: RateLimiterState, request: Request)
    requires
        state.config is Some,
        !state.is_exempt(request.subject),
        forall|which: Bucket| #[trigger]
            is_enforced(state, which) && draws_from(request, which) ==> level(
                state,
                which,
                request.time,
            ) > 0,
    ensures
        state.after_consume(request.time, request.subject, request.contract).1
            == Ok::<u32, RateLimiterFault>(
            (level(state, Bucket::Subject(request.subject), request.time) - 1) as u32,
        ),
{
    assert(is_enforced(state, Bucket::Subject(request.subject)));
    assert(state.global_limit.enabled ==> is_enforced(state, Bucket::Global));
    assert(state.is_budgeted(request.contract) ==> is_enforced(
        state,
        Bucket::Contract(request.contract->0),
    ));
}

/// Other addresses and other contracts are not touched by a request.
pub proof fn request_concerns_its_own_buckets(
    state: RateLimiterState,
    request: Request,
    which: Bucket,
)
    requires
        !draws_from(request, which),
    ensures
        ({
            let after = state.after_consume(request.time, request.subject, request.contract).0;
            record_of_bucket(after, which) == record_of_bucket(state, which)
        }),
{
}

/// The admin is exempt where the bypass is on, and draws from no bucket.
pub proof fn bypass_frees_the_admin(
    state: RateLimiterState,
    now: u64,
    contract: Option<Address>,
)
    requires
        state.config is Some,
        state.config->0.admin_bypass,
    ensures
        state.after_consume(now, state.config->0.admin, contract) == (
            state,
            Ok::<u32, RateLimiterFault>(u32::MAX),
        ),
{
}

/// Where the bypass is off, nobody is exempt.
pub proof fn nobody_is_exempt_without_the_bypass(state: RateLimiterState, subject: Address)
    requires
        state.config is Some,
        !state.config->0.admin_bypass,
    ensures
        !state.is_exempt(subject),
{
}

/// What a look at a bucket shows is what the next request finds.
pub proof fn preview_predicts_the_request(state: RateLimiterState, now: u64, subject: Address)
    requires
        state.config is Some,
        !state.is_exempt(subject),
        !state.global_limit.enabled,
    ensures
        state.after_consume(now, subject, None).1 == (if state.bucket_of(subject, now).tokens > 0 {
            Ok::<u32, RateLimiterFault>((state.bucket_of(subject, now).tokens - 1) as u32)
        } else {
            Err(RateLimiterFault::RateLimitExceeded)
        }),
{
}

/// A limit of one's own takes the place of the default until it is cleared, and
/// leaves the limits of others alone.
pub proof fn own_limit_comes_first(
    state: RateLimiterState,
    address: Address,
    limit: LimitConfig,
    other: Address,
)
    requires
        state.config is Some,
        other != address,
    ensures
        state.with_limit(address, limit).limit_of(address) == limit,
        state.with_limit(address, limit).limit_of(other) == state.limit_of(other),
        state.with_limit(address, limit).without_limit(address).limit_of(address)
            == state.config->0.default_limit,
{
}

/// A reset fills a bucket again.
pub proof fn reset_fills_the_bucket(state: RateLimiterState, address: Address, now: u64)
    ensures
        state.without_usage(address).bucket_of(address, now).tokens == state.limit_of(
            address,
        ).burst,
        state.contract_limits.contains_key(address) ==> state.without_contract_usage(
            address,
        ).contract_bucket_of(address, now).tokens == state.contract_limits[address].burst,
{
}

/// Clearing a contract's budget keeps the record of its use: where the same budget
/// is set again, it stands as it did.
pub proof fn cleared_budget_keeps_its_record(state: RateLimiterState, contract: Address, now: u64)
    requires
        state.contract_limits.contains_key(contract),
    ensures
        ({
            let cleared = state.without_contract_limit(contract);
            let again = cleared.with_contract_limit(contract, state.contract_limits[contract]);
            &&& !cleared.is_budgeted(Some(contract))
            &&& again.contract_bucket_of(contract, now) == state.contract_bucket_of(contract, now)
        }),
{
}

/// Clearing what was never set changes no limit.
pub proof fn clearing_nothing_changes_no_limit(state: RateLimiterState, address: Address)
    ensures
        !state.contract_limits.contains_key(address) ==> state.without_contract_limit(
            address,
        ).contract_limits == state.contract_limits,
        !state.limits.contains_key(address) ==> state.without_limit(address).limits
            == state.limits,
{
    assert(!state.contract_limits.contains_key(address) ==> state.contract_limits.remove(address)
        =~= state.contract_limits);
    assert(!state.limits.contains_key(address) ==> state.limits.remove(address) =~= state.limits);
}

/// The limits and the records are the admin's to change: without the admin's
/// authorization nothing happens.
pub proof fn configuration_is_the_admins(state: RateLimiterState, env: Env, call: AdminCall)
    requires
        state.config is None || !env.authorizes(state.config->0.admin),
    ensures
        after_admin_call(state, env, call) == state,
{
}

/// The limiter is initialized once: what was set stands, but for the admin, which
/// only the admin can pass on.
pub proof fn configuration_is_set_once(
    state: RateLimiterState,
    env: Env,
    call: AdminCall,
    admin: Address,
)
    requires
        state.config is Some,
    ensures
        state.initialize_refusal(env, admin) is Some,
        ({
            let after = after_admin_call(state, env, call);
            &&& after.config is Some
            &&& after.config == Some(
                RateLimiterConfig { admin: after.config->0.admin, ..state.config->0 },
            )
            &&& after.config->0.admin != state.config->0.admin ==> call is TransferAdmin
                && env.authorizes(state.config->0.admin)
        }),
{
}

/// Once the admin has passed the role on, the new admin has it and the old one does not.
pub proof fn transfer_moves_the_role(state: RateLimiterState, env: Env, new_admin: Address)
    requires
        state.config is Some,
        state.config->0.admin != new_admin,
    ensures
        ({
            let after = state.with_admin(new_admin);
            &&& env.authorizes(new_admin) ==> after.admin_refusal(env) is None
            &&& !env.authorizes(new_admin) ==> after.admin_refusal(env) is Some
            &&& !after.is_exempt(state.config->0.admin)
        }),
{
}

/// Whether a bucket holds exactly what it should at a time: what it held plus the rate for
/// each second since, or its burst capacity if that is less. A bucket that was never drawn
/// from is full, and one that is dated ahead holds what it held.
pub open spec fn holds_what_it_should(
    found: Usage,
    record: Option<Usage>,
    now: u64,
    limit: LimitConfig,
) -> bool {
    match record {
        None => found.tokens == limit.burst && found.last_update == now,
        Some(held) => if now <= held.last_update {
            found == held
        } else {
            let gained = held.tokens + (now - held.last_update) * limit.refill_rate;
            &&& found.last_update == now
            &&& found.tokens <= limit.burst
            &&& found.tokens <= gained
            &&& found.tokens == limit.burst || found.tokens == gained
        },
    }
}

/// The record kept under an address, if there is one.
pub open spec fn kept<V>(records: Map<Address, V>, address: Address) -> Option<V> {
    if records.contains_key(address) {
        Some(records[address])
    } else {
        None
    }
}

/// The limit in force for an address: its own if it has one, or else the default.
pub open spec fn limit_in_force(state: RateLimiterState, address: Address) -> LimitConfig {
    match (kept(state.limits, address), state.config) {
        (Some(limit), _) => limit,
        (None, Some(config)) => config.default_limit,
        (None, None) => LimitConfig { burst: 0, refill_rate: 0 },
    }
}

/// A bucket gains its rate for every second that passes, and nothing is lost or gained
/// otherwise: what a look shows is what is there.
pub proof fn bucket_fills_at_its_rate(
    state: RateLimiterState,
    usage: Usage,
    now: u64,
    limit: LimitConfig,
    address: Address,
)
    ensures
        holds_what_it_should(
            crate::rate_limiter::refilled(usage, now, limit),
            Some(usage),
            now,
            limit,
        ),
        holds_what_it_should(crate::rate_limiter::bucket(None, now, limit), None, now, limit),
        holds_what_it_should(
            state.bucket_of(address, now),
            kept(state.usage, address),
            now,
            limit_in_force(state, address),
        ),
        holds_what_it_should(
            state.global_bucket(now),
            state.global_usage,
            now,
            state.global_limit.limit,
        ),
        state.contract_limits.contains_key(address) ==> holds_what_it_should(
            state.contract_bucket_of(address, now),
            kept(state.contract_usage, address),
            now,
            state.contract_limits[address],
        ),
        state.limit_of(address) == limit_in_force(state, address),
        crate::rate_limiter::lookup(state.contract_limits, address) == kept(
            state.contract_limits,
            address,
        ),
        crate::rate_limiter::lookup(state.usage, address) == kept(state.usage, address),
{
    assert(now > usage.last_update ==> (now - usage.last_update) * limit.refill_rate >= 0)
        by (nonlinear_arith);
    lemma_fills(kept(state.usage, address), now, limit_in_force(state, address));
    lemma_fills(state.global_usage, now, state.global_limit.limit);
    lemma_fills(kept(state.contract_usage, address), now, state.contract_limits[address]);
}

proof fn lemma_fills(record: Option<Usage>, now: u64, limit: LimitConfig)
    ensures
        holds_what_it_should(
            crate::rate_limiter::bucket(record, now, limit),
            record,
            now,
            limit,
        ),
{
    if let Some(held) = record {
        assert(now > held.last_update ==> (now - held.last_update) * limit.refill_rate >= 0)
            by (nonlinear_arith);
    }
}

/// What a request does. Before the setup it is refused. The admin passes untouched where the
/// bypass is on. Anyone else is granted a token if and only if the bucket of everyone, where
/// that limit is on, the bucket of the contract, where it has a budget, and the subject's own
/// bucket each hold one. Each of those then holds one less, the subject is told how many are
/// left, and nothing else changes. A refused request changes nothing at all.
pub proof fn request_takes_a_token_from_each_bucket(
    state: RateLimiterState,
    now: u64,
    subject: Address,
    contract: Option<Address>,
    own: Usage,
    shared: Usage,
    everyones: Usage,
)
    requires
        holds_what_it_should(
            own,
            kept(state.usage, subject),
            now,
            limit_in_force(state, subject),
        ),
        holds_what_it_should(everyones, state.global_usage, now, state.global_limit.limit),
        contract matches Some(address) ==> holds_what_it_should(
            shared,
            kept(state.contract_usage, address),
            now,
            state.contract_limits[address],
        ),
    ensures
        ({
            let (after, r) = state.after_consume(now, subject, contract);
            let passes = state.config matches Some(config) && config.admin_bypass && config.admin
                == subject;
            let budgeted = contract matches Some(address) && state.contract_limits.contains_key(
                address,
            );
            let granted = own.tokens > 0 && (state.global_limit.enabled ==> everyones.tokens > 0)
                && (budgeted ==> shared.tokens > 0);
            &&& state.config is None ==> r == Err::<u32, RateLimiterFault>(
                RateLimiterFault::NotInitialized,
            )
            &&& passes ==> r == Ok::<u32, RateLimiterFault>(u32::MAX) && after == state
            &&& state.config is Some && !passes && !granted ==> r == Err::<u32, RateLimiterFault>(
                RateLimiterFault::RateLimitExceeded,
            )
            &&& r is Err ==> after == state
            &&& state.config is Some && !passes && granted ==> {
                &&& r matches Ok(left) && left == own.tokens - 1
                &&& kept(after.usage, subject) matches Some(usage) && usage.tokens == own.tokens - 1
                    && usage.last_update == own.last_update
                &&& state.global_limit.enabled ==> (after.global_usage matches Some(usage)
                    && usage.tokens == everyones.tokens - 1 && usage.last_update
                    == everyones.last_update)
                &&& !state.global_limit.enabled ==> after.global_usage == state.global_usage
                &&& budgeted ==> (kept(after.contract_usage, contract->0) matches Some(usage)
                    && usage.tokens == shared.tokens - 1 && usage.last_update
                    == shared.last_update)
                &&& !budgeted ==> after.contract_usage == state.contract_usage
                &&& budgeted ==> after.contract_usage.remove(contract->0)
                    == state.contract_usage.remove(contract->0)
                &&& after.usage.remove(subject) == state.usage.remove(subject)
            }
            &&& after.config == state.config
            &&& after.global_limit == state.global_limit
            &&& after.limits == state.limits
            &&& after.contract_limits == state.contract_limits
            &&& after.events == state.events
        }),
{
    let after = state.after_consume(now, subject, contract).0;
    lemma_same_bucket(kept(state.usage, subject), now, limit_in_force(state, subject), own);
    lemma_same_bucket(state.global_usage, now, state.global_limit.limit, everyones);
    if let Some(address) = contract {
        lemma_same_bucket(
            kept(state.contract_usage, address),
            now,
            state.contract_limits[address],
            shared,
        );
        assert(after.contract_usage.remove(address) =~= state.contract_usage.remove(address));
    }
    assert(after.usage.remove(subject) =~= state.usage.remove(subject));
}

proof fn lemma_same_bucket(record: Option<Usage>, now: u64, limit: LimitConfig, found: Usage)
    requires
        holds_what_it_should(found, record, now, limit),
    ensures
        crate::rate_limiter::bucket(record, now, limit) == found,
{
    lemma_fills(record, now, limit);
}

/// A subject's own request needs the subject's authorization, and is then like any other
/// that goes through no contract.
pub proof fn own_request_needs_authorization(
    state: RateLimiterState,
    env: Env,
    subject: Address,
)
    ensures
        ({
            let asked = state.after_authorized_consume(env, subject);
            &&& !env.authorized@.contains(subject) ==> asked.0 == state && asked.1 == Err::<
                u32,
                RateLimiterFault,
            >(RateLimiterFault::Unauthenticated)
            &&& env.authorized@.contains(subject) ==> asked == state.after_consume(
                env.timestamp,
                subject,
                None,
            )
        }),
{
}

/// The admin's calls go through with the admin's authorization and not without.
pub proof fn admins_calls_need_the_admin(
    state: RateLimiterState,
    env: Env,
    changed: RateLimiterState,
)
    ensures
        ({
            let (after, r) = crate::rate_limiter::answer(state, state.admin_refusal(env), changed);
            let signed = state.config matches Some(config) && env.authorized@.contains(
                config.admin,
            );
            &&& r is Ok <==> signed
            &&& r is Ok ==> after == changed
            &&& r is Err ==> after == state
            &&& state.config is None ==> r == Err::<(), RateLimiterFault>(
                RateLimiterFault::AdminNotSet,
            )
            &&& state.config is Some && !signed ==> r == Err::<(), RateLimiterFault>(
                RateLimiterFault::Unauthenticated,
            )
        }),
{
}

/// The setup is made once, by an admin who authorizes it, and sets what it was given. A new
/// limiter has no limits and no records, and holds nobody to a limit of everyone.
pub proof fn setup_sets_what_was_given(
    state: RateLimiterState,
    env: Env,
    config: RateLimiterConfig,
)
    ensures
        ({
            let (after, r) = crate::rate_limiter::answer(
                state,
                state.initialize_refusal(env, config.admin),
                state.initializing(config),
            );
            let signed = env.authorized@.contains(config.admin);
            &&& r is Ok <==> signed && state.config is None
            &&& !signed ==> r == Err::<(), RateLimiterFault>(RateLimiterFault::Unauthenticated)
            &&& signed && state.config is Some ==> r == Err::<(), RateLimiterFault>(
                RateLimiterFault::AlreadyInitialized,
            )
            &&& r is Err ==> after == state
            &&& r is Ok ==> after == RateLimiterState {
                config: Some(config),
                events: state.events.push(
                    RateLimiterEvent::Initialized {
                        admin: config.admin,
                        limit: config.default_limit,
                        admin_bypass: config.admin_bypass,
                    },
                ),
                ..state
            }
        }),
        ({
            let fresh = RateLimiterState::fresh();
            &&& fresh.config is None
            &&& !fresh.global_limit.enabled
            &&& fresh.global_usage is None
            &&& forall|a: Address| !fresh.limits.contains_key(a)
            &&& forall|a: Address| !fresh.usage.contains_key(a)
            &&& forall|a: Address| !fresh.contract_limits.contains_key(a)
            &&& forall|a: Address| !fresh.contract_usage.contains_key(a)
            &&& fresh.events.len() == 0
        }),
{
}

/// A limit that is set is the limit that holds from then on, whether there was one before
/// or not, for an address, for a contract and for everyone; and one that is cleared is gone.
/// The limits of others, and what was used so far, stay as they are.
pub proof fn limit_set_is_the_limit_in_force(
    state: RateLimiterState,
    address: Address,
    limit: LimitConfig,
    global_limit: GlobalLimit,
    other: Address,
)
    ensures
        ({
            let set = state.with_limit(address, limit);
            let cleared = state.without_limit(address);
            &&& kept(set.limits, address) == Some(limit)
            &&& limit_in_force(set, address) == limit
            &&& !cleared.limits.contains_key(address)
            &&& other != address ==> kept(set.limits, other) == kept(state.limits, other)
            &&& other != address ==> kept(cleared.limits, other) == kept(state.limits, other)
            &&& set.events == state.events.push(RateLimiterEvent::LimitSet(address, limit))
            &&& cleared.events == state.events.push(RateLimiterEvent::LimitCleared(address))
            &&& set == RateLimiterState { limits: set.limits, events: set.events, ..state }
            &&& cleared == RateLimiterState {
                limits: cleared.limits,
                events: cleared.events,
                ..state
            }
        }),
        ({
            let set = state.with_contract_limit(address, limit);
            let cleared = state.without_contract_limit(address);
            &&& kept(set.contract_limits, address) == Some(limit)
            &&& !cleared.contract_limits.contains_key(address)
            &&& other != address ==> kept(set.contract_limits, other) == kept(
                state.contract_limits,
                other,
            )
            &&& other != address ==> kept(cleared.contract_limits, other) == kept(
                state.contract_limits,
                other,
            )
            &&& set.events == state.events.push(RateLimiterEvent::ContractLimitSet(address, limit))
            &&& cleared.events == state.events.push(
                RateLimiterEvent::ContractLimitCleared(address),
            )
            &&& set == RateLimiterState {
                contract_limits: set.contract_limits,
                events: set.events,
                ..state
            }
            &&& cleared == RateLimiterState {
                contract_limits: cleared.contract_limits,
                events: cleared.events,
                ..state
            }
        }),
        state.with_global_limit(global_limit) == (RateLimiterState {
            global_limit,
            events: state.events.push(RateLimiterEvent::GlobalLimitSet(global_limit)),
            ..state
        }),
{
}

/// A reset forgets the one record that it names, and announces it.
pub proof fn reset_forgets_one_record(
    state: RateLimiterState,
    address: Address,
    other: Address,
)
    ensures
        ({
            let after = state.without_usage(address);
            &&& !after.usage.contains_key(address)
            &&& other != address ==> kept(after.usage, other) == kept(state.usage, other)
            &&& after.events == state.events.push(RateLimiterEvent::UsageReset(address))
            &&& after == RateLimiterState { usage: after.usage, events: after.events, ..state }
        }),
        ({
            let after = state.without_contract_usage(address);
            &&& !after.contract_usage.contains_key(address)
            &&& other != address ==> kept(after.contract_usage, other) == kept(
                state.contract_usage,
                other,
            )
            &&& after.events == state.events.push(RateLimiterEvent::ContractUsageReset(address))
            &&& after == RateLimiterState {
                contract_usage: after.contract_usage,
                events: after.events,
                ..state
            }
        }),
{
}

/// Passing the role on changes the admin and nothing else, and announces both names.
pub proof fn transfer_changes_the_admin_alone(state: RateLimiterState, new_admin: Address)
    requires
        state.config is Some,
    ensures
        ({
            let after = state.with_admin(new_admin);
            let before = state.config->0;
            &&& after.config matches Some(config) && config.admin == new_admin
                && config.default_limit == before.default_limit && config.admin_bypass
                == before.admin_bypass
            &&& after.events == state.events.push(
                RateLimiterEvent::AdminTransferred { old_admin: before.admin, new_admin },
            )
            &&& after == RateLimiterState { config: after.config, events: after.events, ..state }
        }),
{
}

/// What the limiter tells of itself is what it keeps: the limits in force, the admin, and of a
/// bucket that was drawn from, what it holds now.
pub proof fn queries_tell_what_is_kept(
    limiter: RateLimiter,
    env: Env,
    address: Address,
    held: Usage,
    now: u64,
    burst: u32,
    refill_rate: u32,
    shown: Usage,
    limit: LimitConfig,
    budget: Option<LimitConfig>,
    usage: Option<Usage>,
    shared: Option<Usage>,
    admin: Option<Address>,
)
    ensures
        call_ensures(RateLimiter::preview_refill, (held, now, burst, refill_rate), shown)
            ==> holds_what_it_should(
            shown,
            Some(held),
            now,
            (LimitConfig { burst, refill_rate }),
        ),
        call_ensures(RateLimiter::get_limit_for, (&limiter, &address), limit) ==> match kept(
            limiter.limits@,
            address,
        ) {
            Some(own) => limit == own,
            None => limiter.config matches Some(config) ==> limit == config.default_limit,
        },
        call_ensures(RateLimiter::get_limit_for_contract, (&limiter, &address), budget) ==> budget
            == kept(limiter.contract_limits@, address),
        call_ensures(RateLimiter::get_usage, (&limiter, &env, &address), usage) ==> {
            &&& usage is Some <==> limiter.usage@.contains_key(address)
            &&& usage matches Some(found) ==> holds_what_it_should(
                found,
                kept(limiter.usage@, address),
                env.timestamp,
                limit_in_force(limiter@, address),
            )
        },
        call_ensures(RateLimiter::get_contract_usage, (&limiter, &env, &address), shared) ==> {
            &&& shared is Some <==> limiter.contract_limits@.contains_key(address)
                && limiter.contract_usage@.contains_key(address)
            &&& shared matches Some(found) ==> holds_what_it_should(
                found,
                kept(limiter.contract_usage@, address),
                env.timestamp,
                limiter.contract_limits@[address],
            )
        },
        call_ensures(RateLimiter::get_admin, (&limiter,), admin) ==> match limiter.config {
            Some(config) => admin == Some(config.admin),
            None => admin is None,
        },
{
    bucket_fills_at_its_rate(limiter@, held, now, (LimitConfig { burst, refill_rate }), address);
    bucket_fills_at_its_rate(
        limiter@,
        held,
        env.timestamp,
        (LimitConfig { burst, refill_rate }),
        address,
    );
}

/// Each call of the admin's does what it is named after, with what it was given, and is told
/// why where it is turned down. The setup names the admin and the limit for everyone.
pub proof fn calls_make_their_change(
    limiter: &mut RateLimiter,
    env: Env,
    address: Address,
    burst: u32,
    refill_rate: u32,
    enabled: bool,
    r: Result<(), RateLimiterFault>,
)
    ensures
        call_ensures(
            RateLimiter::initialize,
            (old(limiter), &env, address, burst, refill_rate, enabled),
            r,
        ) ==> crate::laws::is_answered(
            old(limiter)@.initialize_refusal(env, address),
            old(limiter)@,
            RateLimiterState {
                config: Some(
                    RateLimiterConfig {
                        admin: address,
                        default_limit: LimitConfig { burst, refill_rate },
                        admin_bypass: enabled,
                    },
                ),
                events: old(limiter)@.events.push(
                    RateLimiterEvent::Initialized {
                        admin: address,
                        limit: LimitConfig { burst, refill_rate },
                        admin_bypass: enabled,
                    },
                ),
                ..old(limiter)@
            },
            final(limiter)@,
            r,
        ),
        call_ensures(
            RateLimiter::set_global_limit,
            (old(limiter), &env, enabled, burst, refill_rate),
            r,
        ) ==> crate::laws::is_answered(
            old(limiter)@.admin_refusal(env),
            old(limiter)@,
            changed_by(
                old(limiter)@,
                AdminCall::SetGlobalLimit(
                    GlobalLimit { enabled, limit: LimitConfig { burst, refill_rate } },
                ),
            ),
            final(limiter)@,
            r,
        ),
        call_ensures(
            RateLimiter::set_limit_for,
            (old(limiter), &env, address, burst, refill_rate),
            r,
        ) ==> crate::laws::is_answered(
            old(limiter)@.admin_refusal(env),
            old(limiter)@,
            changed_by(
                old(limiter)@,
                AdminCall::SetLimitFor(address, LimitConfig { burst, refill_rate }),
            ),
            final(limiter)@,
            r,
        ),
        call_ensures(
            RateLimiter::clear_limit_for,
            (old(limiter), &env, address),
            r,
        ) ==> crate::laws::is_answered(
            old(limiter)@.admin_refusal(env),
            old(limiter)@,
            changed_by(
                old(limiter)@,
                AdminCall::ClearLimitFor(address),
            ),
            final(limiter)@,
            r,
        ),
        call_ensures(
            RateLimiter::set_limit_for_contract,
            (old(limiter), &env, address, burst, refill_rate),
            r,
        ) ==> crate::laws::is_answered(
            old(limiter)@.admin_refusal(env),
            old(limiter)@,
            changed_by(
                old(limiter)@,
                AdminCall::SetLimitForContract(address, LimitConfig { burst, refill_rate }),
            ),
            final(limiter)@,
            r,
        ),
        call_ensures(
            RateLimiter::clear_limit_for_contract,
            (old(limiter), &env, address),
            r,
        ) ==> crate::laws::is_answered(
            old(limiter)@.admin_refusal(env),
            old(limiter)@,
            changed_by(
                old(limiter)@,
                AdminCall::ClearLimitForContract(address),
            ),
            final(limiter)@,
            r,
        ),
        call_ensures(
            RateLimiter::reset_usage,
            (old(limiter), &env, address),
            r,
        ) ==> crate::laws::is_answered(
            old(limiter)@.admin_refusal(env),
            old(limiter)@,
            changed_by(
                old(limiter)@,
                AdminCall::ResetUsage(address),
            ),
            final(limiter)@,
            r,
        ),
        call_ensures(
            RateLimiter::reset_contract_usage,
            (old(limiter), &env, address),
            r,
        ) ==> crate::laws::is_answered(
            old(limiter)@.admin_refusal(env),
            old(limiter)@,
            changed_by(
                old(limiter)@,
                AdminCall::ResetContractUsage(address),
            ),
            final(limiter)@,
            r,
        ),
        call_ensures(
            RateLimiter::transfer_admin,
            (old(limiter), &env, address),
            r,
        ) ==> crate::laws::is_answered(
            old(limiter)@.admin_refusal(env),
            old(limiter)@,
            changed_by(
                old(limiter)@,
                AdminCall::TransferAdmin(address),
            ),
            final(limiter)@,
            r,
        ),
{
}

/// A budget that the admin sets for a contract is the contract's budget from then on, whatever
/// it was before. A limit that they set for an address is the limit in force for it.
pub proof fn limit_given_is_in_force(
    limiter: &mut RateLimiter,
    env: Env,
    address: Address,
    burst: u32,
    refill_rate: u32,
    r: Result<(), RateLimiterFault>,
)
    requires
        r is Ok,
    ensures
        call_ensures(
            RateLimiter::set_limit_for_contract,
            (old(limiter), &env, address, burst, refill_rate),
            r,
        ) ==> kept(final(limiter).contract_limits@, address) == Some(
            LimitConfig { burst, refill_rate },
        ),
        call_ensures(
            RateLimiter::set_limit_for,
            (old(limiter), &env, address, burst, refill_rate),
            r,
        ) ==> limit_in_force(final(limiter)@, address) == (LimitConfig { burst, refill_rate }),
{
    let limit = LimitConfig { burst, refill_rate };
    let global_limit = old(limiter)@.global_limit;
    limit_set_is_the_limit_in_force(old(limiter)@, address, limit, global_limit, address);
}

/// A request draws on the buckets of the one who makes it, now, and on those of the contract
/// that it names, if it names one.
pub proof fn request_is_made_for_its_subject(
    limiter: &mut RateLimiter,
    env: Env,
    subject: Address,
    contract: Address,
    r: Result<u32, RateLimiterFault>,
)
    ensures
        call_ensures(RateLimiter::check_and_consume, (old(limiter), &env, subject), r) ==> if
            env.authorized@.contains(subject) {
            (final(limiter)@, r) == old(limiter)@.after_consume(env.timestamp, subject, None)
        } else {
            final(limiter)@ == old(limiter)@ && r is Err
        },
        call_ensures(
            RateLimiter::check_and_consume_for_contract,
            (old(limiter), &env, subject, contract),
            r,
        ) ==> (final(limiter)@, r) == old(limiter)@.after_consume(
            env.timestamp,
            subject,
            Some(contract),
        ),
{
}

} // verus!
