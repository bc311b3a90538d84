//! Policies and their life: registration, rotation, switching on and off.

use vstd::prelude::*;
use crate::checks::require_non_empty;
use crate::env::{Env, EnvView, LedgerView};
use crate::errors::Error;
use crate::events::{Event, EventView, Subject, SubjectView, Topic};
use crate::values::{Address, Digest, Text};

verus! {

/// A registered policy.
#[derive(Clone, Copy, Debug, PartialEq, Eq)]
pub struct Policy {
    /// The address that controls the policy.
    pub owner: Address,
    /// The digest of the configuration that is managed elsewhere.
    pub config_hash: Digest,
    /// The most that one transfer may move (0 = no maximum).
    pub max_amount: i128,
    /// The only recipient that is allowed (`None` = any).
    pub allowed_recipient: Option<Address>,
    /// The only asset that is allowed (`None` = any).
    pub allowed_asset: Option<Address>,
    /// The time from which on the policy denies every transfer (0 = never).
    pub expires_at: u64,
    /// Whether the policy is switched on.
    pub enabled: bool,
}

impl View for Policy {
    type V = Policy;

    open spec fn view(&self) -> Policy {
        *self
    }
}

/// The policy contract.
pub struct PolicyContract;

/// Whether `caller` may change the policy `policy_id`: it must be registered,
/// and `caller` must own it.
pub open spec fn owner_gate(
    ledger: LedgerView,
    caller: Address,
    policy_id: Seq<u8>,
) -> Result<(), Error> {
    if !ledger.policies.contains_key(policy_id) {
        Err(Error::NotFound)
    } else if ledger.policies[policy_id].owner != caller {
        Err(Error::Unauthorized)
    } else {
        Ok(())
    }
}

/// What the owner of a policy is answered who adds an entry to a list, and what
/// anyone else is: an entry can be added if it is not `present`.
pub open spec fn add_outcome(gate: Result<(), Error>, present: bool) -> Result<(), Error> {
    if gate is Ok && present {
        Err(Error::AlreadyExists)
    } else {
        gate
    }
}

/// What the owner of a policy is answered who removes an entry from a list, and
/// what anyone else is: an entry can be removed if it is `present`.
pub open spec fn remove_outcome(gate: Result<(), Error>, present: bool) -> Result<(), Error> {
    if gate is Ok && !present {
        Err(Error::NotFound)
    } else {
        gate
    }
}

/// The ledger with `policy` stored under `policy_id`.
pub open spec fn policy_stored(
    ledger: LedgerView,
    policy_id: Seq<u8>,
    policy: Policy,
) -> LedgerView {
    LedgerView { policies: ledger.policies.insert(policy_id, policy), ..ledger }
}

/// The event that says that `topic` happened to the policy, with nothing more.
pub open spec fn policy_event(topic: Topic, policy_id: Seq<u8>) -> EventView {
    EventView::Policy { topic, policy_id, subject: SubjectView::Policy }
}

/// The event that says that `topic` happened to the policy and `address`.
pub open spec fn address_event(topic: Topic, policy_id: Seq<u8>, address: Address) -> EventView {
    EventView::Policy { topic, policy_id, subject: SubjectView::Address(address) }
}

/// The event that says that `topic` happened to the policy and `text`.
pub open spec fn text_event(topic: Topic, policy_id: Seq<u8>, text: Seq<u8>) -> EventView {
    EventView::Policy { topic, policy_id, subject: SubjectView::Text(text) }
}

/// What a registration under `policy_id` is answered.
pub open spec fn register_outcome(ledger: LedgerView, policy_id: Seq<u8>) -> Result<(), Error> {
    if policy_id.len() == 0 {
        Err(Error::InvalidInput)
    } else if ledger.policies.contains_key(policy_id) {
        Err(Error::AlreadyExists)
    } else {
        Ok(())
    }
}

/// The environment after a policy was registered.
pub open spec fn registered(env: EnvView, policy_id: Seq<u8>, policy: Policy) -> EnvView {
    env.with_ledger(policy_stored(env.ledger, policy_id, policy)).publish(
        policy_event(Topic::Registered, policy_id),
    )
}

/// The environment after a policy was given a new digest and maximum.
pub open spec fn rotated(
    env: EnvView,
    policy_id: Seq<u8>,
    new_hash: Digest,
    new_max: i128,
) -> EnvView {
    let policy = Policy {
        config_hash: new_hash,
        max_amount: new_max,
        ..env.ledger.policies[policy_id]
    };
    env.with_ledger(policy_stored(env.ledger, policy_id, policy)).publish(
        policy_event(Topic::Rotated, policy_id),
    )
}

/// The environment after a policy was switched on or off.
pub open spec fn switched(env: EnvView, policy_id: Seq<u8>, enabled: bool) -> EnvView {
    let policy = Policy { enabled, ..env.ledger.policies[policy_id] };
    env.with_ledger(policy_stored(env.ledger, policy_id, policy))
}

impl PolicyContract {
    /// Sets the contract up. It can be done once.
    pub fn initialize(env: &mut Env) -> (outcome: Result<(), Error>)
        ensures
            outcome == if old(env)@.ledger.count is Some {
                Err::<(), Error>(Error::AlreadyInitialized)
            } else {
                Ok(())
            },
            outcome is Err ==> final(env)@ == old(env)@,
            outcome is Ok ==> final(env)@ == old(env)@.with_ledger(
                LedgerView { count: Some(0), ..old(env)@.ledger },
            ),
            old(env)@.ledger.consistent() ==> final(env)@.ledger.consistent(),
    {
        if env.ledger.count.is_some() {
            return Err(Error::AlreadyInitialized);
        }
        env.ledger.count = Some(0);
        Ok(())
    }

    /// Registers a policy, switched on. `owner` is who may change it later.
    pub fn register_policy(
        env: &mut Env,
        owner: Address,
        policy_id: Text,
        config_hash: Digest,
        max_amount: i128,
        allowed_recipient: Option<Address>,
        allowed_asset: Option<Address>,
        expires_at: u64,
    ) -> (outcome: Result<(), Error>)
        requires
            old(env)@.authorized.contains(owner),
        ensures
            outcome == register_outcome(old(env)@.ledger, policy_id@),
            outcome is Err ==> final(env)@ == old(env)@,
            outcome is Ok ==> final(env)@ == registered(
                old(env)@,
                policy_id@,
                (Policy {
                    owner,
                    config_hash,
                    max_amount,
                    allowed_recipient,
                    allowed_asset,
                    expires_at,
                    enabled: true,
                }),
            ),
            old(env)@.ledger.consistent() ==> final(env)@.ledger.consistent(),
    {
        require_non_empty(&policy_id)?;
        if env.ledger.policies.has(&policy_id) {
            return Err(Error::AlreadyExists);
        }
        let policy = Policy {
            owner,
            config_hash,
            max_amount,
            allowed_recipient,
            allowed_asset,
            expires_at,
            enabled: true,
        };
        env.ledger.policies.set(policy_id.clone(), policy);
        env.publish(
            Event::Policy { topic: Topic::Registered, policy_id, subject: Subject::Policy },
        );
        Ok(())
    }

    /// Gives a policy a new digest and a new maximum (owner only).
    pub fn rotate_policy(
        env: &mut Env,
        caller: Address,
        policy_id: Text,
        new_hash: Digest,
        new_max: i128,
    ) -> (outcome: Result<(), Error>)
        requires
            old(env)@.authorized.contains(caller),
        ensures
            outcome == owner_gate(old(env)@.ledger, caller, policy_id@),
            outcome is Err ==> final(env)@ == old(env)@,
            outcome is Ok ==> final(env)@ == rotated(old(env)@, policy_id@, new_hash, new_max),
            old(env)@.ledger.consistent() ==> final(env)@.ledger.consistent(),
    {
        let mut policy = Self::load(env, &policy_id)?;
        if policy.owner != caller {
            return Err(Error::Unauthorized);
        }
        policy.config_hash = new_hash;
        policy.max_amount = new_max;
        env.ledger.policies.set(policy_id.clone(), policy);
        env.publish(Event::Policy { topic: Topic::Rotated, policy_id, subject: Subject::Policy });
        Ok(())
    }

    /// Switches a policy on or off (owner only).
    pub fn set_enabled(
        env: &mut Env,
        caller: Address,
        policy_id: Text,
        enabled: bool,
    ) -> (outcome: Result<(), Error>)
        requires
            old(env)@.authorized.contains(caller),
        ensures
            outcome == owner_gate(old(env)@.ledger, caller, policy_id@),
            outcome is Err ==> final(env)@ == old(env)@,
            outcome is Ok ==> final(env)@ == switched(old(env)@, policy_id@, enabled),
            old(env)@.ledger.consistent() ==> final(env)@.ledger.consistent(),
    {
        let mut policy = Self::load(env, &policy_id)?;
        if policy.owner != caller {
            return Err(Error::Unauthorized);
        }
        policy.enabled = enabled;
        env.ledger.policies.set(policy_id, policy);
        Ok(())
    }

    /// The policy `policy_id`.
    pub fn get(env: &Env, policy_id: Text) -> (policy: Result<Policy, Error>)
        ensures
            policy == if env@.ledger.policies.contains_key(policy_id@) {
                Ok::<Policy, Error>(env@.ledger.policies[policy_id@])
            } else {
                Err(Error::NotFound)
            },
    {
        Self::load(env, &policy_id)
    }

    /// Reads the policy `id` from the ledger.
    pub fn load(env: &Env, id: &Text) -> (policy: Result<Policy, Error>)
        ensures
            policy == if env@.ledger.policies.contains_key(id@) {
                Ok::<Policy, Error>(env@.ledger.policies[id@])
            } else {
                Err(Error::NotFound)
            },
    {
        match env.ledger.policies.get(id) {
            Some(policy) => Ok(*policy),
            None => Err(Error::NotFound),
        }
    }

    /// Requires that `caller` owns the policy `policy_id`.
    pub fn require_policy_owner(
        env: &Env,
        caller: &Address,
        policy_id: &Text,
    ) -> (outcome: Result<(), Error>)
        requires
            env@.authorized.contains(*caller),
        ensures
            outcome == owner_gate(env@.ledger, *caller, policy_id@),
    {
        let policy = Self::load(env, policy_id)?;
        if policy.owner != *caller {
            return Err(Error::Unauthorized);
        }
        Ok(())
    }
}

} // verus!
