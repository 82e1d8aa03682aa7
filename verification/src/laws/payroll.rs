//! What holds of the payroll contract across calls.

use vstd::prelude::*;

use crate::address::{Address, WasmHash};
use crate::env::Env;
use crate::payroll::{
    ContractMigratedEvent, PayrollContract, PayrollEffect, PayrollFault, PayrollState,
    RoleQuestion,
};
use crate::rbac::{RbacState, Role};
use crate::storage::{
    DataKey, ExchangeRateInfo, PayrollError, PayrollStore, StoreState, TtlExtension,
};

verus! {

/// The numbers by which clients know the errors tell them apart.
pub proof fn error_codes_are_distinct(a: PayrollError, b: PayrollError)
    ensures
        a.spec_code() == b.spec_code() ==> a == b,
        1 <= a.spec_code() <= 50,
{
}

/// The contract gets its owner once.
pub proof fn ownership_is_set_once(state: PayrollState, env: Env, owner: Address)
    requires
        state.owner is Some,
    ensures
        state.initialize_refusal(env, owner) is Some,
{
}

/// The owner's calls need the owner: whoever else calls, and whatever they authorize,
/// the call is refused.
pub proof fn configuration_is_the_owners(state: PayrollState, env: Env, caller: Address)
    ensures
        state.owner_refusal(env, caller) is None <==> state.owner == Some(caller)
            && env.authorizes(caller),
{
}

/// An admin's calls need the operator's own authorization in any case.
pub proof fn administration_needs_the_operator(
    state: PayrollState,
    env: Env,
    operator: Address,
    has_admin_role: bool,
)
    requires
        !env.authorizes(operator),
    ensures
        state.admin_refusal(env, operator, has_admin_role) is Some,
{
}

/// Where a role contract is linked, its word decides, for the owner too; where none is,
/// the owner alone is an admin and the word is not heard.
pub proof fn linked_roles_decide(
    state: PayrollState,
    roles: RbacState,
    env: Env,
    operator: Address,
    has_admin_role: bool,
)
    requires
        env.authorizes(operator),
        state.rbac_contract is Some ==> has_admin_role == roles.has(operator, Role::Admin),
    ensures
        state.admin_refusal(env, operator, has_admin_role) is None <==> (
        if state.rbac_contract is Some {
            roles.has(operator, Role::Admin)
        } else {
            state.owner == Some(operator)
        }),
        state.rbac_contract is Some ==> (state.admin_question(operator) matches Some(question)
            && question.rbac_contract == state.rbac_contract->0 && question.address == operator
            && question.role == Role::Admin),
{
}

/// The schema is migrated once: from then on every migration is refused.
pub proof fn migration_happens_once(
    state: PayrollState,
    env: Env,
    operator: Address,
    has_admin_role: bool,
    from_version: u32,
)
    requires
        state.contract_version == 0,
    ensures
        state.migrating().contract_version == 1,
        state.migrating().migrate_refusal(env, operator, has_admin_role, from_version) is Some,
{
}

/// No correction sets a negative amount or a period of no length: an admin's is refused as
/// just that. Whoever is no admin corrects nothing, and is `Unauthorized` to correct a
/// balance, whether a role contract is linked or not.
pub proof fn corrections_are_checked(
    state: PayrollState,
    env: Env,
    operator: Address,
    has_admin_role: bool,
    amount: i128,
    duration: u64,
)
    ensures
        ({
            let is_admin = state.admin_refusal(env, operator, has_admin_role) is None;
            let amount_refusal = state.set_amount_refusal(env, operator, has_admin_role, amount);
            let duration_refusal = state.set_duration_refusal(
                env,
                operator,
                has_admin_role,
                duration,
            );
            &&& amount_refusal is None <==> is_admin && amount >= 0
            &&& is_admin && amount < 0 ==> amount_refusal == Some(PayrollFault::InvalidAmount)
            &&& !is_admin && env.authorizes(operator) ==> amount_refusal == Some(
                PayrollFault::Error(PayrollError::Unauthorized),
            )
            &&& duration_refusal is None <==> is_admin && duration > 0
            &&& is_admin && duration == 0 ==> duration_refusal == Some(
                PayrollFault::InvalidDuration,
            )
        }),
{
}

/// Once a sanity bound is set, no exchange rate above it can be, whoever tries and for
/// whatever pair.
pub proof fn rate_above_the_bound_is_refused(
    state: PayrollState,
    max_rate: i128,
    env: Env,
    caller: Address,
    pair: DataKey,
    rate: i128,
)
    requires
        rate > max_rate,
    ensures
        state.bounding_rates(max_rate).rate_refusal(env, caller, pair, rate) is Some,
{
}

/// Exchange rates are set by the owner and by whoever the owner named, and by nobody else.
/// One that is set is positive, and passes every guard that is in force.
pub proof fn set_rate_passes_the_guards(
    state: PayrollState,
    env: Env,
    caller: Address,
    pair: DataKey,
    rate: i128,
)
    requires
        state.rate_refusal(env, caller, pair, rate) is None,
    ensures
        env.authorizes(caller),
        state.owner == Some(caller) || state.exchange_rate_admin == Some(caller),
        rate > 0,
        state.store.exchange_rate_max_rate_sanity_bound matches Some(most) ==> rate <= most,
        state.store.exchange_rate_max_deviation_bps matches Some(bps) ==> (crate::storage::entry(
            state.store.rates,
            pair,
        ) matches Some(before) ==> !crate::payroll::deviates(
            before.rate as int,
            rate as int,
            bps as int,
        )),
{
}

/// What is written under a key is read back.
pub proof fn write_is_read_back(
    store: StoreState,
    key: DataKey,
    count: u32,
    account: Address,
    amount: i128,
    time: u64,
    rate: ExchangeRateInfo,
)
    ensures
        crate::storage::entry_or(store.with_count(key, count).counts, key, 0) == count,
        crate::storage::entry(store.with_account(key, account).accounts, key) == Some(account),
        crate::storage::entry(store.with_amount(key, amount).amounts, key) == Some(amount),
        crate::storage::entry_or(store.with_amount(key, amount).amounts, key, 0) == amount,
        crate::storage::entry(store.with_time(key, time).times, key) == Some(time),
        crate::storage::entry(store.with_rate(key, rate).rates, key) == Some(rate),
        store.with_mark(key).marks.contains_key(key),
{
}

/// What is written under one key leaves what is stored under the others.
pub proof fn write_touches_its_key_alone(
    store: StoreState,
    key: DataKey,
    other: DataKey,
    count: u32,
    account: Address,
    amount: i128,
    time: u64,
    rate: ExchangeRateInfo,
)
    requires
        key != other,
    ensures
        crate::storage::entry(store.with_count(key, count).counts, other) == crate::storage::entry(
            store.counts,
            other,
        ),
        crate::storage::entry(store.with_account(key, account).accounts, other)
            == crate::storage::entry(store.accounts, other),
        crate::storage::entry(store.with_amount(key, amount).amounts, other)
            == crate::storage::entry(store.amounts, other),
        crate::storage::entry(store.with_time(key, time).times, other) == crate::storage::entry(
            store.times,
            other,
        ),
        crate::storage::entry(store.with_rate(key, rate).rates, other) == crate::storage::entry(
            store.rates,
            other,
        ),
        store.with_mark(key).marks.contains_key(other) == store.marks.contains_key(other),
{
}

/// Having an entry kept changes no entry, and asks the host for nothing where there is
/// no entry. Where there is one, it is given more ledgers than it is extended at.
pub proof fn extension_changes_no_entry(store: StoreState, key: DataKey)
    ensures
        ({
            let after = store.extending(key);
            &&& after.counts == store.counts
            &&& after.accounts == store.accounts
            &&& after.amounts == store.amounts
            &&& after.times == store.times
            &&& after.rates == store.rates
            &&& after.marks == store.marks
            &&& !store.has(key) ==> after == store
            &&& store.has(key) ==> after.ttl_extensions.last().key == key
                && after.ttl_extensions.last().extend_to > after.ttl_extensions.last().threshold
        }),
{
}

/// A call that is granted is answered as such and does what it does; one that is not is
/// told why and changes nothing.
pub proof fn answer_tells_what_happened(
    state: PayrollState,
    refused: Option<PayrollFault>,
    changed: PayrollState,
)
    ensures
        crate::payroll::answer(state, refused, changed) == match refused {
            Some(fault) => (state, Err::<(), PayrollFault>(fault)),
            None => (changed, Ok::<(), PayrollFault>(())),
        },
{
}

/// A new contract has no owner, no links, no agreements and no entries, and is at version 0.
pub proof fn new_contract_is_empty()
    ensures
        ({
            let fresh = PayrollState::fresh();
            &&& fresh.owner is None
            &&& fresh.rbac_contract is None
            &&& fresh.rate_limiter_contract is None
            &&& fresh.salary_adjustment_contract is None
            &&& fresh.milestone_hook_contract is None
            &&& fresh.audit_logger is None
            &&& fresh.exchange_rate_admin is None
            &&& fresh.contract_version == 0
            &&& fresh.milestone_agreement_counter == 0
            &&& forall|id: u128| !fresh.agreements.contains_key(id)
            &&& forall|id: u128| !fresh.milestone_agreements.contains_key(id)
            &&& forall|key: DataKey| !fresh.store.has(key)
            &&& fresh.store.exchange_rate_max_age_seconds is None
            &&& fresh.store.exchange_rate_max_deviation_bps is None
            &&& fresh.store.exchange_rate_max_rate_sanity_bound is None
            &&& fresh.store.ttl_extensions.len() == 0
            &&& fresh.outbox.len() == 0
        }),
{
}

/// Who may set the contract up, run it and administer it, and what the others are told. The
/// setup is made once, by an owner who authorizes it. The owner's calls are the owner's. An
/// admin's call is judged by the linked role contract, which is asked about that very
/// address and the admin role, and is the owner's where none is linked.
pub proof fn callers_are_judged(
    state: PayrollState,
    env: Env,
    caller: Address,
    has_admin_role: bool,
)
    ensures
        ({
            let signed = env.authorized@.contains(caller);
            let setup = state.initialize_refusal(env, caller);
            let owners = state.owner_refusal(env, caller);
            let admins = state.admin_refusal(env, caller, has_admin_role);
            &&& !signed ==> setup == Some(PayrollFault::Unauthenticated)
            &&& signed && state.owner is Some ==> setup == Some(
                PayrollFault::Error(PayrollError::InvalidData),
            )
            &&& signed && state.owner is None ==> setup is None
            &&& state.owner is None ==> owners == Some(
                PayrollFault::Error(PayrollError::Unauthorized),
            )
            &&& state.owner is Some && !signed ==> owners == Some(PayrollFault::Unauthenticated)
            &&& state.owner is Some && signed && state.owner != Some(caller) ==> owners == Some(
                PayrollFault::Error(PayrollError::Unauthorized),
            )
            &&& signed && state.owner == Some(caller) ==> owners is None
            &&& state.rbac_contract is None ==> admins == owners
            &&& state.rbac_contract is Some && !signed ==> admins == Some(
                PayrollFault::Unauthenticated,
            )
            &&& state.rbac_contract is Some && signed && !has_admin_role ==> admins == Some(
                PayrollFault::MissingRequiredRole,
            )
            &&& state.rbac_contract is Some && signed && has_admin_role ==> admins is None
            &&& state.rbac_contract is None ==> state.admin_question(caller) is None
            &&& state.rbac_contract matches Some(rbac_contract) ==> state.admin_question(caller)
                == Some(RoleQuestion { rbac_contract, address: caller, role: Role::Admin })
        }),
{
}

/// What the contract asks of the outside comes after what it asked for before, and is all
/// that changes by it.
pub proof fn asking_adds_one_effect(state: PayrollState, effect: PayrollEffect)
    ensures
        ({
            let after = state.sending(effect);
            &&& after.outbox.len() == state.outbox.len() + 1
            &&& after.outbox.last() == effect
            &&& after.outbox.drop_last() == state.outbox
            &&& after == PayrollState { outbox: after.outbox, ..state }
        }),
{
    assert(state.sending(effect).outbox.drop_last() =~= state.outbox);
}

/// A migration goes from version 0 to version 1. It is refused from any other version than
/// the current one, and from any but 0. All that it does is to count the version up and to
/// announce it.
pub proof fn migration_counts_the_version_up(
    state: PayrollState,
    env: Env,
    operator: Address,
    has_admin_role: bool,
    from_version: u32,
)
    ensures
        ({
            let (after, r) = crate::payroll::answer(
                state,
                state.migrate_refusal(env, operator, has_admin_role, from_version),
                state.migrating(),
            );
            let admins = state.admin_refusal(env, operator, has_admin_role);
            &&& r is Ok <==> admins is None && from_version == 0 && state.contract_version == 0
            &&& admins matches Some(fault) ==> r == Err::<(), PayrollFault>(fault)
            &&& admins is None && from_version != state.contract_version ==> r == Err::<
                (),
                PayrollFault,
            >(PayrollFault::InvalidMigrationVersion)
            &&& admins is None && from_version == state.contract_version && from_version > 0 ==> r
                == Err::<(), PayrollFault>(PayrollFault::Error(PayrollError::InvalidData))
            &&& r is Err ==> after == state
            &&& r is Ok ==> after == PayrollState {
                contract_version: 1,
                outbox: state.outbox.push(
                    PayrollEffect::Migrated(
                        ContractMigratedEvent { from_version: 0, to_version: 1 },
                    ),
                ),
                ..state
            }
        }),
{
}

/// A sanity bound is set by the owner, and has to be positive. It is then the bound, and
/// nothing else changes.
pub proof fn bound_set_is_the_bound(
    state: PayrollState,
    env: Env,
    caller: Address,
    max_rate: i128,
)
    ensures
        ({
            let (after, r) = crate::payroll::answer(
                state,
                state.sanity_bound_refusal(env, caller, max_rate),
                state.bounding_rates(max_rate),
            );
            let owners = state.owner_refusal(env, caller);
            &&& r is Ok <==> owners is None && max_rate > 0
            &&& owners matches Some(fault) ==> r == Err::<(), PayrollFault>(fault)
            &&& owners is None && max_rate <= 0 ==> r == Err::<(), PayrollFault>(
                PayrollFault::Error(PayrollError::ExchangeRateInvalid),
            )
            &&& r is Err ==> after == state
            &&& r is Ok ==> after.store.exchange_rate_max_rate_sanity_bound == Some(max_rate)
            &&& after.store == StoreState {
                exchange_rate_max_rate_sanity_bound:
                    after.store.exchange_rate_max_rate_sanity_bound,
                ..state.store
            }
            &&& after == PayrollState { store: after.store, ..state }
        }),
{
}

/// A rate goes too far if it is more than so many ten-thousandths of the old one away from
/// it, up or down.
pub proof fn deviation_is_a_share_of_the_old_rate(before: int, rate: int, bps: int)
    requires
        before > 0,
        bps >= 0,
    ensures
        crate::payroll::deviates(before, rate, bps) <==> {
            ||| 10_000 * rate > (10_000 + bps) * before
            ||| 10_000 * rate < (10_000 - bps) * before
        },
{
    assert((10_000 + bps) * before == 10_000 * before + bps * before) by (nonlinear_arith);
    assert((10_000 - bps) * before == 10_000 * before - bps * before) by (nonlinear_arith);
    assert(bps * before >= 0) by (nonlinear_arith)
        requires
            before > 0,
            bps >= 0,
    ;
}

/// A rate is set if the owner or the rate admin authorizes it and it is positive, not above
/// the bound, where there is one, and not too far from the old rate, where that matters.
/// Whoever else tries is told so first. What is set is that rate, dated now, and nothing else.
pub proof fn sound_rate_is_set(
    state: PayrollState,
    env: Env,
    caller: Address,
    base: Address,
    quote: Address,
    rate: i128,
)
    ensures
        ({
            let pair = DataKey::ExchangeRate(base, quote);
            let info = ExchangeRateInfo { rate, updated_at: env.timestamp };
            let (after, r) = crate::payroll::answer(
                state,
                state.rate_refusal(env, caller, pair, rate),
                state.with_store(state.store.with_rate(pair, info)),
            );
            let signed = env.authorized@.contains(caller);
            let entitled = state.owner == Some(caller) || state.exchange_rate_admin == Some(caller);
            let bounded = state.store.exchange_rate_max_rate_sanity_bound matches Some(most)
                ==> rate <= most;
            let near = state.store.exchange_rate_max_deviation_bps matches Some(bps)
                ==> state.store.rates.contains_key(pair) && state.store.rates[pair].rate > 0 ==> {
                let before = state.store.rates[pair].rate;
                &&& 10_000 * rate <= (10_000 + bps) * before
                &&& 10_000 * rate >= (10_000 - bps) * before
            };
            let sound = rate > 0 && bounded && near;
            &&& r is Ok <==> state.owner is Some && signed && entitled && sound
            &&& state.owner is None ==> r == Err::<(), PayrollFault>(
                PayrollFault::Error(PayrollError::Unauthorized),
            )
            &&& state.owner is Some && !signed ==> r == Err::<(), PayrollFault>(
                PayrollFault::Unauthenticated,
            )
            &&& state.owner is Some && signed && !entitled ==> r == Err::<(), PayrollFault>(
                PayrollFault::Error(PayrollError::Unauthorized),
            )
            &&& state.owner is Some && signed && entitled && !sound ==> r == Err::<
                (),
                PayrollFault,
            >(PayrollFault::Error(PayrollError::ExchangeRateInvalid))
            &&& r is Err ==> after == state
            &&& r is Ok ==> after == PayrollState {
                store: StoreState { rates: state.store.rates.insert(pair, info), ..state.store },
                ..state
            }
        }),
{
    let pair = DataKey::ExchangeRate(base, quote);
    if let Some(bps) = state.store.exchange_rate_max_deviation_bps {
        if state.store.rates.contains_key(pair) && state.store.rates[pair].rate > 0 {
            deviation_is_a_share_of_the_old_rate(
                state.store.rates[pair].rate as int,
                rate as int,
                bps as int,
            );
        }
    }
}

/// A correction writes what it was given under the key that it is for, and nothing else; a
/// refused one is told why. Who is not an admin is told so before the value is looked at.
pub proof fn refused_correction_is_told_why(
    state: PayrollState,
    env: Env,
    operator: Address,
    has_admin_role: bool,
    amount: i128,
    duration: u64,
)
    ensures
        ({
            let signed = env.authorized@.contains(operator);
            let linked = state.rbac_contract is Some;
            let owned = state.owner == Some(operator);
            let admin = signed && if linked {
                has_admin_role
            } else {
                owned
            };
            let amounts = state.set_amount_refusal(env, operator, has_admin_role, amount);
            let durations = state.set_duration_refusal(env, operator, has_admin_role, duration);
            &&& amounts is None <==> admin && amount >= 0
            &&& durations is None <==> admin && duration > 0
            &&& admin && amount < 0 ==> amounts == Some(PayrollFault::InvalidAmount)
            &&& admin && duration == 0 ==> durations == Some(PayrollFault::InvalidDuration)
            &&& (linked || state.owner is Some) && !signed ==> amounts == Some(
                PayrollFault::Unauthenticated,
            ) && durations == Some(PayrollFault::Unauthenticated)
            &&& signed && !admin ==> amounts == Some(
                PayrollFault::Error(PayrollError::Unauthorized),
            )
            &&& signed && !admin && linked ==> durations == Some(PayrollFault::MissingRequiredRole)
            &&& signed && !admin && !linked ==> durations == Some(
                PayrollFault::Error(PayrollError::Unauthorized),
            )
        }),
{
}

/// A write of one kind leaves the entries of the other kinds, the limits on exchange rates
/// and what the host was asked for as they are.
pub proof fn write_touches_its_kind_alone(
    state: PayrollState,
    key: DataKey,
    count: u32,
    account: Address,
    amount: i128,
    time: u64,
    rate: ExchangeRateInfo,
    written: StoreState,
)
    ensures
        ({
            let store = state.store;
            &&& store.with_count(key, count) == StoreState {
                counts: store.counts.insert(key, count),
                ..store
            }
            &&& store.with_account(key, account) == StoreState {
                accounts: store.accounts.insert(key, account),
                ..store
            }
            &&& store.with_amount(key, amount) == StoreState {
                amounts: store.amounts.insert(key, amount),
                ..store
            }
            &&& store.with_time(key, time) == StoreState {
                times: store.times.insert(key, time),
                ..store
            }
            &&& store.with_rate(key, rate) == StoreState {
                rates: store.rates.insert(key, rate),
                ..store
            }
            &&& store.with_mark(key) == StoreState { marks: store.marks.insert(key, ()), ..store }
            &&& state.with_store(written) == PayrollState { store: written, ..state }
        }),
{
}

/// What is read under a key is what is stored there, of the kind that is asked for, or else
/// nothing or the default.
pub proof fn reads_give_what_is_stored(
    store: StoreState,
    key: DataKey,
    default: i128,
    count: u32,
)
    ensures
        store.amounts.contains_key(key) ==> crate::storage::entry_or(store.amounts, key, default)
            == store.amounts[key],
        !store.amounts.contains_key(key) ==> crate::storage::entry_or(store.amounts, key, default)
            == default,
        store.counts.contains_key(key) ==> crate::storage::entry_or(store.counts, key, count)
            == store.counts[key],
        !store.counts.contains_key(key) ==> crate::storage::entry_or(store.counts, key, count)
            == count,
        store.times.contains_key(key) ==> crate::storage::entry(store.times, key) == Some(
            store.times[key],
        ),
        !store.times.contains_key(key) ==> crate::storage::entry(store.times, key) is None,
        store.rates.contains_key(key) ==> crate::storage::entry(store.rates, key) == Some(
            store.rates[key],
        ),
        !store.rates.contains_key(key) ==> crate::storage::entry(store.rates, key) is None,
        store.accounts.contains_key(key) ==> crate::storage::entry(store.accounts, key) == Some(
            store.accounts[key],
        ),
        !store.accounts.contains_key(key) ==> crate::storage::entry(store.accounts, key) is None,
        store.has(key) <==> store.counts.contains_key(key) || store.accounts.contains_key(key)
            || store.amounts.contains_key(key) || store.times.contains_key(key)
            || store.rates.contains_key(key) || store.marks.contains_key(key),
{
}

/// The host is asked to keep an entry that exists, once for each time, for ninety days as
/// soon as thirty are left, at a ledger every five seconds, and for nothing else.
pub proof fn extension_asks_for_the_entry(store: StoreState, key: DataKey)
    ensures
        store.has(key) ==> store.extending(key) == (StoreState {
            ttl_extensions: store.ttl_extensions.push(
                TtlExtension { key, threshold: 518_400, extend_to: 1_555_200 },
            ),
            ..store
        }),
        !store.has(key) ==> store.extending(key) == store,
{
}

/// The owner is named once. What the owner links, the contract has linked from then on, each
/// in its own place, and nothing else changes. Nobody else can link anything.
pub proof fn link_set_is_the_link(
    contract: &mut PayrollContract,
    env: Env,
    caller: Address,
    linked: Address,
    r: Result<(), PayrollFault>,
)
    ensures
        call_ensures(
            PayrollContract::initialize,
            (old(contract), &env, caller),
            r,
        ) ==> crate::laws::is_answered(
            old(contract)@.initialize_refusal(env, caller),
            old(contract)@,
            PayrollState { owner: Some(caller), ..old(contract)@ },
            final(contract)@,
            r,
        ),
        call_ensures(
            PayrollContract::set_rbac_contract,
            (old(contract), &env, caller, linked),
            r,
        ) ==> crate::laws::is_answered(
            old(contract)@.owner_refusal(env, caller),
            old(contract)@,
            PayrollState { rbac_contract: Some(linked), ..old(contract)@ },
            final(contract)@,
            r,
        ),
        call_ensures(
            PayrollContract::set_rate_limiter_contract,
            (old(contract), &env, caller, linked),
            r,
        ) ==> crate::laws::is_answered(
            old(contract)@.owner_refusal(env, caller),
            old(contract)@,
            PayrollState { rate_limiter_contract: Some(linked), ..old(contract)@ },
            final(contract)@,
            r,
        ),
        call_ensures(
            PayrollContract::set_salary_adjustment_contract,
            (old(contract), &env, caller, linked),
            r,
        ) ==> crate::laws::is_answered(
            old(contract)@.owner_refusal(env, caller),
            old(contract)@,
            PayrollState { salary_adjustment_contract: Some(linked), ..old(contract)@ },
            final(contract)@,
            r,
        ),
        call_ensures(
            PayrollContract::set_milestone_hook_contract,
            (old(contract), &env, caller, linked),
            r,
        ) ==> crate::laws::is_answered(
            old(contract)@.owner_refusal(env, caller),
            old(contract)@,
            PayrollState { milestone_hook_contract: Some(linked), ..old(contract)@ },
            final(contract)@,
            r,
        ),
        call_ensures(
            PayrollContract::set_audit_logger,
            (old(contract), &env, caller, linked),
            r,
        ) ==> crate::laws::is_answered(
            old(contract)@.owner_refusal(env, caller),
            old(contract)@,
            PayrollState { audit_logger: Some(linked), ..old(contract)@ },
            final(contract)@,
            r,
        ),
        call_ensures(
            PayrollContract::set_exchange_rate_admin,
            (old(contract), &env, caller, linked),
            r,
        ) ==> crate::laws::is_answered(
            old(contract)@.owner_refusal(env, caller),
            old(contract)@,
            PayrollState { exchange_rate_admin: Some(linked), ..old(contract)@ },
            final(contract)@,
            r,
        ),
{
}

/// An upgrade asks for the given code, a migration counts the version up, and a bound on the
/// rates is the bound from then on. Nothing else changes.
pub proof fn administration_does_what_it_says(
    contract: &mut PayrollContract,
    env: Env,
    operator: Address,
    has_admin_role: bool,
    hash: WasmHash,
    from_version: u32,
    max_rate: i128,
    r: Result<(), PayrollFault>,
)
    ensures
        call_ensures(
            PayrollContract::upgrade,
            (old(contract), &env, hash, operator, has_admin_role),
            r,
        ) ==> crate::laws::is_answered(
            old(contract)@.admin_refusal(env, operator, has_admin_role),
            old(contract)@,
            PayrollState {
                outbox: old(contract)@.outbox.push(PayrollEffect::CodeReplaced(hash)),
                ..old(contract)@
            },
            final(contract)@,
            r,
        ),
        call_ensures(
            PayrollContract::migrate_state,
            (old(contract), &env, operator, has_admin_role, from_version),
            r,
        ) ==> {
            &&& r is Ok ==> final(contract)@.contract_version == old(contract)@.contract_version + 1
            &&& r is Ok ==> old(contract)@.contract_version == from_version
            &&& r is Err ==> final(contract)@ == old(contract)@
            &&& final(contract)@ == PayrollState {
                contract_version: final(contract)@.contract_version,
                outbox: final(contract)@.outbox,
                ..old(contract)@
            }
        },
        call_ensures(
            PayrollContract::set_fx_rate_sanity_bound,
            (old(contract), &env, operator, max_rate),
            r,
        ) ==> crate::laws::is_answered(
            old(contract)@.sanity_bound_refusal(env, operator, max_rate),
            old(contract)@,
            PayrollState {
                store: StoreState {
                    exchange_rate_max_rate_sanity_bound: Some(max_rate),
                    ..old(contract)@.store
                },
                ..old(contract)@
            },
            final(contract)@,
            r,
        ),
{
    migration_counts_the_version_up(
        old(contract)@,
        env,
        operator,
        has_admin_role,
        from_version,
    );
}

/// A rate that is set is on record for its pair, dated now. Nothing else changes.
pub proof fn rate_set_is_the_rate(
    contract: &mut PayrollContract,
    env: Env,
    caller: Address,
    base: Address,
    quote: Address,
    rate: i128,
    r: Result<(), PayrollFault>,
)
    ensures
        call_ensures(
            PayrollContract::set_exchange_rate,
            (old(contract), &env, caller, base, quote, rate),
            r,
        ) ==> crate::laws::is_answered(
            old(contract)@.rate_refusal(
                env,
                caller,
                DataKey::ExchangeRate(base, quote),
                rate,
            ),
            old(contract)@,
            PayrollState {
                store: StoreState {
                    rates: old(contract)@.store.rates.insert(
                        DataKey::ExchangeRate(base, quote),
                        ExchangeRateInfo { rate, updated_at: env.timestamp },
                    ),
                    ..old(contract)@.store
                },
                ..old(contract)@
            },
            final(contract)@,
            r,
        ),
{
}

/// An admin's correction of an agreement's record puts the given value in the one place that
/// it is about. Nothing else changes, but that the host is asked to keep a balance.
pub proof fn correction_sets_one_entry(
    contract: &mut PayrollContract,
    env: Env,
    operator: Address,
    has_admin_role: bool,
    id: u128,
    amount: i128,
    token: Address,
    time: u64,
    r: Result<(), PayrollFault>,
)
    ensures
        call_ensures(
            PayrollContract::admin_set_agreement_paid_amount,
            (old(contract), &env, operator, has_admin_role, id, amount),
            r,
        ) ==> crate::laws::is_answered(
            old(contract)@.set_amount_refusal(env, operator, has_admin_role, amount),
            old(contract)@,
            PayrollState {
                store: StoreState {
                    amounts: old(contract)@.store.amounts.insert(
                        DataKey::AgreementPaidAmount(id),
                        amount,
                    ),
                    ..old(contract)@.store
                },
                ..old(contract)@
            },
            final(contract)@,
            r,
        ),
        call_ensures(
            PayrollContract::admin_set_escrow_balance,
            (old(contract), &env, operator, has_admin_role, id, token, amount),
            r,
        ) ==> crate::laws::is_answered(
            old(contract)@.set_amount_refusal(env, operator, has_admin_role, amount),
            old(contract)@,
            PayrollState {
                store: StoreState {
                    amounts: old(contract)@.store.amounts.insert(
                        DataKey::AgreementEscrowBalance(id, token),
                        amount,
                    ),
                    ttl_extensions: old(contract)@.store.ttl_extensions.push(
                        TtlExtension {
                            key: DataKey::AgreementEscrowBalance(id, token),
                            threshold: 518_400,
                            extend_to: 1_555_200,
                        },
                    ),
                    ..old(contract)@.store
                },
                ..old(contract)@
            },
            final(contract)@,
            r,
        ),
        call_ensures(
            PayrollContract::admin_set_agreement_token,
            (old(contract), &env, operator, has_admin_role, id, token),
            r,
        ) ==> crate::laws::is_answered(
            old(contract)@.admin_refusal(env, operator, has_admin_role),
            old(contract)@,
            PayrollState {
                store: StoreState {
                    accounts: old(contract)@.store.accounts.insert(
                        DataKey::AgreementToken(id),
                        token,
                    ),
                    ..old(contract)@.store
                },
                ..old(contract)@
            },
            final(contract)@,
            r,
        ),
        call_ensures(
            PayrollContract::admin_set_activation_time,
            (old(contract), &env, operator, has_admin_role, id, time),
            r,
        ) ==> crate::laws::is_answered(
            old(contract)@.admin_refusal(env, operator, has_admin_role),
            old(contract)@,
            PayrollState {
                store: StoreState {
                    times: old(contract)@.store.times.insert(
                        DataKey::AgreementActivationTime(id),
                        time,
                    ),
                    ..old(contract)@.store
                },
                ..old(contract)@
            },
            final(contract)@,
            r,
        ),
        call_ensures(
            PayrollContract::admin_set_period_duration,
            (old(contract), &env, operator, has_admin_role, id, time),
            r,
        ) ==> crate::laws::is_answered(
            old(contract)@.set_duration_refusal(env, operator, has_admin_role, time),
            old(contract)@,
            PayrollState {
                store: StoreState {
                    times: old(contract)@.store.times.insert(
                        DataKey::AgreementPeriodDuration(id),
                        time,
                    ),
                    ..old(contract)@.store
                },
                ..old(contract)@
            },
            final(contract)@,
            r,
        ),
{
}

/// What the contract tells of itself is what it keeps: its owner, what is linked, and how
/// many periods were claimed.
pub proof fn queries_tell_what_is_kept(
    contract: PayrollContract,
    id: u128,
    index: u32,
    owner: Result<Address, PayrollError>,
    link: Option<Address>,
    count: u32,
    probes: u128,
)
    ensures
        call_ensures(PayrollContract::contract_owner, (&contract,), owner)
            ==> match contract.owner {
            Some(kept) => owner == Ok::<Address, PayrollError>(kept),
            None => owner == Err::<Address, PayrollError>(PayrollError::Unauthorized),
        },
        call_ensures(PayrollContract::get_rate_limiter_contract, (&contract,), link) ==> link
            == contract.rate_limiter_contract,
        call_ensures(PayrollContract::get_salary_adjustment_contract, (&contract,), link) ==> link
            == contract.salary_adjustment_contract,
        call_ensures(PayrollContract::get_milestone_hook_contract, (&contract,), link) ==> link
            == contract.milestone_hook_contract,
        call_ensures(PayrollContract::get_audit_logger, (&contract,), link) ==> link
            == contract.audit_logger,
        call_ensures(PayrollContract::get_employee_claimed_periods, (&contract, id, index), count)
            ==> ({
            let key = DataKey::EmployeeClaimedPeriods(id, index);
            let counts = contract.store@.counts;
            count == if counts.contains_key(key) {
                counts[key]
            } else {
                0
            }
        }),
        call_ensures(crate::payroll::migration_probe_count, (id,), probes) ==> probes == if id
            < 10 {
            id
        } else {
            10
        },
{
}

/// What is found under a key, if anything is.
pub open spec fn found<V>(entries: Map<DataKey, V>, key: DataKey) -> Option<V> {
    if entries.contains_key(key) {
        Some(entries[key])
    } else {
        None
    }
}

/// Each entry that is set has its own place and takes the given value there. No other entry
/// changes. The host is asked to keep those that money depends on: salaries, claimed periods
/// and balances.
pub proof fn entry_set_is_the_entry(
    store: &mut PayrollStore,
    env: Env,
    id: u128,
    index: u32,
    count: u32,
    amount: i128,
    time: u64,
    account: Address,
    other: Address,
)
    ensures
        call_ensures(
            DataKey::set_employee_count,
            (old(store), id, count),
            (),
        ) ==> final(store)@ == (StoreState {
            counts: old(store)@.counts.insert(DataKey::AgreementEmployeeCount(id), count),
            ..old(store)@
        }),
        call_ensures(
            DataKey::set_employee,
            (old(store), id, index, &account),
            (),
        ) ==> final(store)@ == (StoreState {
            accounts: old(store)@.accounts.insert(DataKey::AgreementEmployee(id, index), account),
            ..old(store)@
        }),
        call_ensures(
            DataKey::set_employee_salary,
            (old(store), id, index, amount),
            (),
        ) ==> final(store)@ == (StoreState {
            amounts: old(store)@.amounts.insert(DataKey::EmployeeSalary(id, index), amount),
            ttl_extensions: old(store)@.ttl_extensions.push(
                TtlExtension {
                    key: DataKey::EmployeeSalary(id, index),
                    threshold: 518_400,
                    extend_to: 1_555_200,
                },
            ),
            ..old(store)@
        }),
        call_ensures(
            DataKey::set_employee_claimed_periods,
            (old(store), id, index, count),
            (),
        ) ==> final(store)@ == (StoreState {
            counts: old(store)@.counts.insert(DataKey::EmployeeClaimedPeriods(id, index), count),
            ttl_extensions: old(store)@.ttl_extensions.push(
                TtlExtension {
                    key: DataKey::EmployeeClaimedPeriods(id, index),
                    threshold: 518_400,
                    extend_to: 1_555_200,
                },
            ),
            ..old(store)@
        }),
        call_ensures(
            DataKey::set_agreement_activation_time,
            (old(store), id, time),
            (),
        ) ==> final(store)@ == (StoreState {
            times: old(store)@.times.insert(DataKey::AgreementActivationTime(id), time),
            ..old(store)@
        }),
        call_ensures(
            DataKey::set_agreement_period_duration,
            (old(store), id, time),
            (),
        ) ==> final(store)@ == (StoreState {
            times: old(store)@.times.insert(DataKey::AgreementPeriodDuration(id), time),
            ..old(store)@
        }),
        call_ensures(
            DataKey::set_agreement_token,
            (old(store), id, &account),
            (),
        ) ==> final(store)@ == (StoreState {
            accounts: old(store)@.accounts.insert(DataKey::AgreementToken(id), account),
            ..old(store)@
        }),
        call_ensures(
            DataKey::set_agreement_paid_amount,
            (old(store), id, amount),
            (),
        ) ==> final(store)@ == (StoreState {
            amounts: old(store)@.amounts.insert(DataKey::AgreementPaidAmount(id), amount),
            ..old(store)@
        }),
        call_ensures(
            DataKey::set_agreement_escrow_balance,
            (old(store), id, &account, amount),
            (),
        ) ==> final(store)@ == (StoreState {
            amounts: old(store)@.amounts.insert(
                DataKey::AgreementEscrowBalance(id, account),
                amount,
            ),
            ttl_extensions: old(store)@.ttl_extensions.push(
                TtlExtension {
                    key: DataKey::AgreementEscrowBalance(id, account),
                    threshold: 518_400,
                    extend_to: 1_555_200,
                },
            ),
            ..old(store)@
        }),
        call_ensures(
            DataKey::set_exchange_rate,
            (old(store), &env, &account, &other, amount),
            (),
        ) ==> final(store)@ == (StoreState {
            rates: old(store)@.rates.insert(
                DataKey::ExchangeRate(account, other),
                ExchangeRateInfo { rate: amount, updated_at: env.timestamp },
            ),
            ..old(store)@
        }),
        call_ensures(
            DataKey::set_exchange_rate_max_age_seconds,
            (old(store), time),
            (),
        ) ==> final(store)@ == (StoreState {
            exchange_rate_max_age_seconds: Some(time),
            ..old(store)@
        }),
        call_ensures(
            DataKey::set_exchange_rate_max_deviation_bps,
            (old(store), count),
            (),
        ) ==> final(store)@ == (StoreState {
            exchange_rate_max_deviation_bps: Some(count),
            ..old(store)@
        }),
        call_ensures(
            DataKey::set_exchange_rate_max_rate_sanity_bound,
            (old(store), amount),
            (),
        ) ==> final(store)@ == (StoreState {
            exchange_rate_max_rate_sanity_bound: Some(amount),
            ..old(store)@
        }),
        call_ensures(
            DataKey::set_agreement_grace_period_finalized,
            (old(store), id),
            (),
        ) ==> final(store)@ == (StoreState {
            marks: old(store)@.marks.insert(DataKey::AgreementGracePeriodFinalized(id), ()),
            ..old(store)@
        }),
{
}

/// Each entry that is asked for is looked up in its own place: what was set is told, and what
/// was not is none, or nought where it is a number of things or of coins.
pub proof fn entry_told_is_the_entry(
    store: PayrollStore,
    id: u128,
    index: u32,
    base: Address,
    quote: Address,
    count: u32,
    amount: i128,
    account: Option<Address>,
    salary: Option<i128>,
    time: Option<u64>,
    rate: Option<ExchangeRateInfo>,
    bps: Option<u32>,
    marked: bool,
)
    ensures
        call_ensures(DataKey::get_employee_count, (&store, id), count) ==> match found(
            store.counts@,
            DataKey::AgreementEmployeeCount(id),
        ) {
            Some(kept) => count == kept,
            None => count == 0,
        },
        call_ensures(DataKey::get_employee, (&store, id, index), account) ==> account == found(
            store.accounts@,
            DataKey::AgreementEmployee(id, index),
        ),
        call_ensures(DataKey::get_employee_salary, (&store, id, index), salary) ==> salary == found(
            store.amounts@,
            DataKey::EmployeeSalary(id, index),
        ),
        call_ensures(
            DataKey::get_employee_claimed_periods,
            (&store, id, index),
            count,
        ) ==> match found(
            store.counts@,
            DataKey::EmployeeClaimedPeriods(id, index),
        ) {
            Some(kept) => count == kept,
            None => count == 0,
        },
        call_ensures(DataKey::get_agreement_activation_time, (&store, id), time) ==> time == found(
            store.times@,
            DataKey::AgreementActivationTime(id),
        ),
        call_ensures(DataKey::get_agreement_period_duration, (&store, id), time) ==> time == found(
            store.times@,
            DataKey::AgreementPeriodDuration(id),
        ),
        call_ensures(DataKey::get_agreement_token, (&store, id), account) ==> account == found(
            store.accounts@,
            DataKey::AgreementToken(id),
        ),
        call_ensures(DataKey::get_agreement_paid_amount, (&store, id), amount) ==> match found(
            store.amounts@,
            DataKey::AgreementPaidAmount(id),
        ) {
            Some(kept) => amount == kept,
            None => amount == 0,
        },
        call_ensures(DataKey::get_exchange_rate, (&store, &base, &quote), rate) ==> rate == found(
            store.rates@,
            DataKey::ExchangeRate(base, quote),
        ),
        call_ensures(
            DataKey::get_exchange_rate_max_age_seconds,
            (&store,),
            time,
        ) ==> time == store.exchange_rate_max_age_seconds,
        call_ensures(
            DataKey::get_exchange_rate_max_deviation_bps,
            (&store,),
            bps,
        ) ==> bps == store.exchange_rate_max_deviation_bps,
        call_ensures(DataKey::get_exchange_rate_max_rate_sanity_bound, (&store,), salary) ==> salary
            == store.exchange_rate_max_rate_sanity_bound,
        call_ensures(DataKey::is_agreement_grace_period_finalized, (&store, id), marked) ==> marked
            == store.marks@.contains_key(DataKey::AgreementGracePeriodFinalized(id)),
{
}

/// The balance that is told is the one on record, and nought where there is none. The host is
/// asked to keep it, and no entry changes.
pub proof fn balance_told_is_the_balance(
    store: &mut PayrollStore,
    id: u128,
    token: Address,
    balance: i128,
)
    ensures
        call_ensures(
            DataKey::get_agreement_escrow_balance,
            (old(store), id, &token),
            balance,
        ) ==> {
            let key = DataKey::AgreementEscrowBalance(id, token);
            &&& match found(old(store)@.amounts, key) {
                Some(kept) => balance == kept,
                None => balance == 0,
            }
            &&& final(store)@ == StoreState {
                ttl_extensions: final(store)@.ttl_extensions,
                ..old(store)@
            }
            &&& old(store)@.amounts.contains_key(key) ==> final(store)@.ttl_extensions == old(
                store,
            )@.ttl_extensions.push(
                TtlExtension { key, threshold: 518_400, extend_to: 1_555_200 },
            )
        },
{
}

/// What to ask the role contract, and how many periods of an agreement were claimed.
pub proof fn agreement_tells_its_periods(
    contract: PayrollContract,
    id: u128,
    operator: Address,
    count: u32,
    question: Option<RoleQuestion>,
)
    ensures
        call_ensures(PayrollContract::get_claimed_periods, (&contract, id), count) ==> {
            let known = contract.agreements@.contains_key(id);
            let periods = contract.agreements@[id].claimed_periods;
            &&& known && periods is Some ==> count == periods->0
            &&& !known || periods is None ==> count == 0
        },
        call_ensures(PayrollContract::admin_question, (&contract, operator), question)
            ==> match contract.rbac_contract {
            Some(linked) => question == Some(
                RoleQuestion { rbac_contract: linked, address: operator, role: Role::Admin },
            ),
            None => question is None,
        },
{
}

} // verus!
