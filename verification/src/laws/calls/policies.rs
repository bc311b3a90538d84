//! Laws of the calls on policies themselves.

use vstd::prelude::*;
use crate::env::Env;
use crate::errors::Error;
use crate::events::{SubjectView, Topic};
use crate::laws::calls::{
    announcement,
    asks_for,
    keeps_all_but,
    leaves_alone,
    lemma_same_view,
    lemma_view,
    owner_answer,
    Part,
};
use crate::policies::{Policy, PolicyContract};
use crate::values::{Address, Digest, Text};

verus! {

/// A rotation stores the new digest and the new maximum in the policy, and touches
/// no other field of it, no other policy and no other entry of the ledger.
pub proof fn law_rotate_policy(
    env: &mut Env,
    caller: Address,
    policy_id: Text,
    new_hash: Digest,
    new_max: i128,
    outcome: Result<(), Error>,
)
    requires
        call_ensures(
            PolicyContract::rotate_policy,
            (env, caller, policy_id, new_hash, new_max),
            outcome,
        ),
    ensures
        outcome == owner_answer(*old(env), caller, policy_id@, Ok(())),
        outcome is Err ==> leaves_alone(*old(env), *final(env)),
        outcome is Ok ==> ({
            let before = old(env).ledger.policies@;
            let after = final(env).ledger.policies@;
            let policy = after[policy_id@];
            &&& after.contains_key(policy_id@)
            &&& policy.config_hash == new_hash
            &&& policy.max_amount == new_max
            &&& policy.owner == before[policy_id@].owner
            &&& policy.allowed_recipient == before[policy_id@].allowed_recipient
            &&& policy.allowed_asset == before[policy_id@].allowed_asset
            &&& policy.expires_at == before[policy_id@].expires_at
            &&& policy.enabled == before[policy_id@].enabled
            &&& after.remove(policy_id@) == before.remove(policy_id@)
            &&& keeps_all_but(Part::Policies, *old(env), *final(env))
            &&& asks_for(
                seq![announcement(Topic::Rotated, policy_id@, SubjectView::Policy)],
                *old(env),
                *final(env),
            )
        }),
{
    if outcome is Err {
        lemma_same_view(*old(env), *final(env));
    } else {
        lemma_view(
            *old(env),
            *final(env),
            seq![announcement(Topic::Rotated, policy_id@, SubjectView::Policy)],
        );
    }
}

/// Setting the contract up records a counter at 0, once, and does nothing else.
pub proof fn law_initialize(
    env: &mut Env,
    outcome: Result<(), Error>,
)
    requires
        call_ensures(PolicyContract::initialize, (env,), outcome),
    ensures
        outcome == if old(env).ledger.count is Some {
            Err::<(), Error>(Error::AlreadyInitialized)
        } else {
            Ok(())
        },
        outcome is Err ==> leaves_alone(*old(env), *final(env)),
        outcome is Ok ==> ({
            &&& final(env).ledger.count == Some(0u32)
            &&& keeps_all_but(Part::Count, *old(env), *final(env))
            &&& asks_for(
                seq![],
                *old(env),
                *final(env),
            )
        }),
{
    if outcome is Err {
        lemma_same_view(*old(env), *final(env));
    } else {
        lemma_view(
            *old(env),
            *final(env),
            seq![],
        );
    }
}

/// A policy is registered under a name that is not taken, for its owner, with the
/// gates that were asked for, and switched on; nothing else of the ledger changes.
pub proof fn law_register_policy(
    env: &mut Env,
    owner: Address,
    policy_id: Text,
    config_hash: Digest,
    max_amount: i128,
    allowed_recipient: Option<Address>,
    allowed_asset: Option<Address>,
    expires_at: u64,
    outcome: Result<(), Error>,
)
    requires
        call_ensures(
            PolicyContract::register_policy,
            (
                env,
                owner,
                policy_id,
                config_hash,
                max_amount,
                allowed_recipient,
                allowed_asset,
                expires_at,
            ),
            outcome,
        ),
    ensures
        outcome == if policy_id@.len() == 0 {
            Err::<(), Error>(Error::InvalidInput)
        } else if old(env).ledger.policies@.contains_key(policy_id@) {
            Err(Error::AlreadyExists)
        } else {
            Ok(())
        },
        outcome is Err ==> leaves_alone(*old(env), *final(env)),
        outcome is Ok ==> ({
            let before = old(env).ledger.policies@;
            let after = final(env).ledger.policies@;
            let policy = after[policy_id@];
            &&& after.contains_key(policy_id@)
            &&& policy.owner == owner
            &&& policy.config_hash == config_hash
            &&& policy.max_amount == max_amount
            &&& policy.allowed_recipient == allowed_recipient
            &&& policy.allowed_asset == allowed_asset
            &&& policy.expires_at == expires_at
            &&& policy.enabled
            &&& after.remove(policy_id@) == before
            &&& keeps_all_but(Part::Policies, *old(env), *final(env))
            &&& asks_for(
                seq![announcement(Topic::Registered, policy_id@, SubjectView::Policy)],
                *old(env),
                *final(env),
            )
        }),
{
    if outcome is Err {
        lemma_same_view(*old(env), *final(env));
    } else {
        lemma_view(
            *old(env),
            *final(env),
            seq![announcement(Topic::Registered, policy_id@, SubjectView::Policy)],
        );
    }
}

/// A switch turns the policy on or off and touches no other field of it, no other
/// policy and no other entry of the ledger.
pub proof fn law_set_enabled(
    env: &mut Env,
    caller: Address,
    policy_id: Text,
    enabled: bool,
    outcome: Result<(), Error>,
)
    requires
        call_ensures(
            PolicyContract::set_enabled,
            (env, caller, policy_id, enabled),
            outcome,
        ),
    ensures
        outcome == owner_answer(
            *old(env),
            caller,
            policy_id@,
            Ok(()),
        ),
        outcome is Err ==> leaves_alone(*old(env), *final(env)),
        outcome is Ok ==> ({
            let before = old(env).ledger.policies@;
            let after = final(env).ledger.policies@;
            let policy = after[policy_id@];
            &&& after.contains_key(policy_id@)
            &&& policy.enabled == enabled
            &&& policy.owner == before[policy_id@].owner
            &&& policy.config_hash == before[policy_id@].config_hash
            &&& policy.max_amount == before[policy_id@].max_amount
            &&& policy.allowed_recipient == before[policy_id@].allowed_recipient
            &&& policy.allowed_asset == before[policy_id@].allowed_asset
            &&& policy.expires_at == before[policy_id@].expires_at
            &&& after.remove(policy_id@) == before.remove(policy_id@)
            &&& keeps_all_but(Part::Policies, *old(env), *final(env))
            &&& asks_for(
                seq![],
                *old(env),
                *final(env),
            )
        }),
{
    if outcome is Err {
        lemma_same_view(*old(env), *final(env));
    } else {
        lemma_view(
            *old(env),
            *final(env),
            seq![],
        );
    }
}

/// A policy is read back as it is stored, and a caller passes for its owner if and
/// only if it is stored with that owner.
pub proof fn law_read_policy(
    env: Env,
    caller: Address,
    policy_id: Text,
    got: Result<Policy, Error>,
    loaded: Result<Policy, Error>,
    gate: Result<(), Error>,
)
    requires
        call_ensures(PolicyContract::get, (&env, policy_id), got),
        call_ensures(PolicyContract::load, (&env, &policy_id), loaded),
        call_ensures(PolicyContract::require_policy_owner, (&env, &caller, &policy_id), gate),
    ensures
        env.ledger.policies@.contains_key(policy_id@) ==> got == Ok::<Policy, Error>(
            env.ledger.policies@[policy_id@],
        ),
        !env.ledger.policies@.contains_key(policy_id@) ==> got == Err::<Policy, Error>(
            Error::NotFound,
        ),
        loaded == got,
        gate == match got {
            Ok(policy) => if policy.owner == caller {
                Ok::<(), Error>(())
            } else {
                Err(Error::Unauthorized)
            },
            Err(error) => Err(error),
        },
{
}

} // verus!
