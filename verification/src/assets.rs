//! The assets that a policy allows or denies.

use vstd::prelude::*;
use crate::env::{events_policy_violation, Env, EnvView, LedgerView};
use crate::errors::Error;
use crate::events::{Event, Reason, Subject, Topic};
use crate::policies::{add_outcome, address_event, owner_gate, remove_outcome, PolicyContract};
use crate::values::{Address, Text};

verus! {

/// The environment after an asset was put on a policy's whitelist.
pub open spec fn asset_whitelisted(env: EnvView, policy_id: Seq<u8>, asset: Address) -> EnvView {
    env.with_ledger(
        LedgerView {
            asset_whitelist: env.ledger.asset_whitelist.insert((policy_id, asset), true),
            ..env.ledger
        },
    ).publish(address_event(Topic::AssetWhitelisted, policy_id, asset))
}

/// The environment after an asset was taken off a policy's whitelist.
pub open spec fn asset_unwhitelisted(env: EnvView, policy_id: Seq<u8>, asset: Address) -> EnvView {
    env.with_ledger(
        LedgerView {
            asset_whitelist: env.ledger.asset_whitelist.remove((policy_id, asset)),
            ..env.ledger
        },
    ).publish(address_event(Topic::AssetUnwhitelisted, policy_id, asset))
}

/// The environment after an asset was put on a policy's deny list.
pub open spec fn asset_blacklisted(env: EnvView, policy_id: Seq<u8>, asset: Address) -> EnvView {
    env.with_ledger(
        LedgerView {
            asset_blacklist: env.ledger.asset_blacklist.insert((policy_id, asset), ()),
            ..env.ledger
        },
    ).publish(address_event(Topic::AssetBlacklisted, policy_id, asset))
}

/// The environment after an asset was taken off a policy's deny list.
pub open spec fn asset_unblacklisted(env: EnvView, policy_id: Seq<u8>, asset: Address) -> EnvView {
    env.with_ledger(
        LedgerView {
            asset_blacklist: env.ledger.asset_blacklist.remove((policy_id, asset)),
            ..env.ledger
        },
    ).publish(address_event(Topic::AssetUnblacklisted, policy_id, asset))
}

/// The environment after a policy's asset whitelist was switched on or off.
pub open spec fn whitelist_switched(env: EnvView, policy_id: Seq<u8>, enabled: bool) -> EnvView {
    env.with_ledger(
        LedgerView {
            asset_whitelist_enabled: env.ledger.asset_whitelist_enabled.insert(policy_id, enabled),
            ..env.ledger
        },
    )
}

/// Whether the asset whitelist of a policy lets `asset` pass: the whitelist is
/// off, which it is until it is switched on, or it holds the asset.
pub open spec fn whitelist_allows(ledger: LedgerView, policy_id: Seq<u8>, asset: Address) -> bool {
    ||| !ledger.asset_whitelist_enabled.contains_key(policy_id)
    ||| !ledger.asset_whitelist_enabled[policy_id]
    ||| ledger.asset_whitelist.contains_key((policy_id, asset))
}

impl PolicyContract {
    /// Puts an asset on the policy's whitelist (owner only). While the whitelist is
    /// on, only the assets on it pass `check_transfer`.
    pub fn add_asset_to_whitelist(
        env: &mut Env,
        caller: Address,
        policy_id: Text,
        asset: Address,
    ) -> (outcome: Result<(), Error>)
        requires
            old(env)@.authorized.contains(caller),
        ensures
            outcome == add_outcome(
                owner_gate(old(env)@.ledger, caller, policy_id@),
                old(env)@.ledger.asset_whitelist.contains_key((policy_id@, asset)),
            ),
            outcome is Err ==> final(env)@ == old(env)@,
            outcome is Ok ==> final(env)@ == asset_whitelisted(old(env)@, policy_id@, asset),
            old(env)@.ledger.consistent() ==> final(env)@.ledger.consistent(),
    {
        let policy = Self::load(env, &policy_id)?;
        if policy.owner != caller {
            return Err(Error::Unauthorized);
        }
        let key = (policy_id.clone(), asset);
        if env.ledger.asset_whitelist.has(&key) {
            return Err(Error::AlreadyExists);
        }
        env.ledger.asset_whitelist.set(key, true);
        env.publish(
            Event::Policy {
                topic: Topic::AssetWhitelisted,
                policy_id,
                subject: Subject::Address(asset),
            },
        );
        Ok(())
    }

    /// Takes an asset off the policy's whitelist (owner only).
    pub fn remove_asset_from_whitelist(
        env: &mut Env,
        caller: Address,
        policy_id: Text,
        asset: Address,
    ) -> (outcome: Result<(), Error>)
        requires
            old(env)@.authorized.contains(caller),
        ensures
            outcome == remove_outcome(
                owner_gate(old(env)@.ledger, caller, policy_id@),
                old(env)@.ledger.asset_whitelist.contains_key((policy_id@, asset)),
            ),
            outcome is Err ==> final(env)@ == old(env)@,
            outcome is Ok ==> final(env)@ == asset_unwhitelisted(old(env)@, policy_id@, asset),
            old(env)@.ledger.consistent() ==> final(env)@.ledger.consistent(),
    {
        let policy = Self::load(env, &policy_id)?;
        if policy.owner != caller {
            return Err(Error::Unauthorized);
        }
        let key = (policy_id.clone(), asset);
        if !env.ledger.asset_whitelist.has(&key) {
            return Err(Error::NotFound);
        }
        env.ledger.asset_whitelist.remove(&key);
        env.publish(
            Event::Policy {
                topic: Topic::AssetUnwhitelisted,
                policy_id,
                subject: Subject::Address(asset),
            },
        );
        Ok(())
    }

    /// Denies an asset under a policy (owner only). No transfer under the policy may
    /// move the asset from then on, whatever its other gates say.
    pub fn add_asset_blacklist(
        env: &mut Env,
        caller: Address,
        policy_id: Text,
        asset: Address,
    ) -> (outcome: Result<(), Error>)
        requires
            old(env)@.authorized.contains(caller),
        ensures
            outcome == add_outcome(
                owner_gate(old(env)@.ledger, caller, policy_id@),
                old(env)@.ledger.asset_blacklist.contains_key((policy_id@, asset)),
            ),
            outcome is Err ==> final(env)@ == old(env)@,
            outcome is Ok ==> final(env)@ == asset_blacklisted(old(env)@, policy_id@, asset),
            old(env)@.ledger.consistent() ==> final(env)@.ledger.consistent(),
    {
        Self::require_policy_owner(env, &caller, &policy_id)?;
        let key = (policy_id.clone(), asset);
        if env.ledger.asset_blacklist.has(&key) {
            return Err(Error::AlreadyExists);
        }
        env.ledger.asset_blacklist.set(key, ());
        env.publish(
            Event::Policy {
                topic: Topic::AssetBlacklisted,
                policy_id,
                subject: Subject::Address(asset),
            },
        );
        Ok(())
    }

    /// Takes an asset off a policy's deny list (owner only).
    pub fn remove_asset_blacklist(
        env: &mut Env,
        caller: Address,
        policy_id: Text,
        asset: Address,
    ) -> (outcome: Result<(), Error>)
        requires
            old(env)@.authorized.contains(caller),
        ensures
            outcome == remove_outcome(
                owner_gate(old(env)@.ledger, caller, policy_id@),
                old(env)@.ledger.asset_blacklist.contains_key((policy_id@, asset)),
            ),
            outcome is Err ==> final(env)@ == old(env)@,
            outcome is Ok ==> final(env)@ == asset_unblacklisted(old(env)@, policy_id@, asset),
            old(env)@.ledger.consistent() ==> final(env)@.ledger.consistent(),
    {
        Self::require_policy_owner(env, &caller, &policy_id)?;
        let key = (policy_id.clone(), asset);
        if !env.ledger.asset_blacklist.has(&key) {
            return Err(Error::NotFound);
        }
        env.ledger.asset_blacklist.remove(&key);
        env.publish(
            Event::Policy {
                topic: Topic::AssetUnblacklisted,
                policy_id,
                subject: Subject::Address(asset),
            },
        );
        Ok(())
    }

    /// Whether `asset` is denied under `policy_id`.
    pub fn is_asset_blacklisted(env: &Env, policy_id: Text, asset: Address) -> (listed: bool)
        ensures
            listed == env@.ledger.asset_blacklist.contains_key((policy_id@, asset)),
    {
        env.ledger.asset_blacklist.has(&(policy_id, asset))
    }

    /// Switches the policy's asset whitelist on or off (owner only).
    pub fn set_asset_whitelist_enabled(
        env: &mut Env,
        caller: Address,
        policy_id: Text,
        enabled: bool,
    ) -> (outcome: Result<(), Error>)
        requires
            old(env)@.authorized.contains(caller),
        ensures
            outcome == owner_gate(old(env)@.ledger, caller, policy_id@),
            outcome is Err ==> final(env)@ == old(env)@,
            outcome is Ok ==> final(env)@ == whitelist_switched(old(env)@, policy_id@, enabled),
            old(env)@.ledger.consistent() ==> final(env)@.ledger.consistent(),
    {
        let policy = Self::load(env, &policy_id)?;
        if policy.owner != caller {
            return Err(Error::Unauthorized);
        }
        env.ledger.asset_whitelist_enabled.set(policy_id, enabled);
        Ok(())
    }

    /// Refuses an asset that the policy's whitelist does not let pass, and
    /// publishes the violation.
    pub fn validate_asset(
        env: &mut Env,
        policy_id: Text,
        asset: Address,
    ) -> (outcome: Result<(), Error>)
        ensures
            outcome == if whitelist_allows(old(env)@.ledger, policy_id@, asset) {
                Ok::<(), Error>(())
            } else {
                Err(Error::AssetNotWhitelisted)
            },
            outcome is Ok ==> final(env)@ == old(env)@,
            outcome is Err ==> final(env)@ == old(env)@.violation(
                policy_id@,
                Reason::AssetNotWhitelisted,
            ),
    {
        if !Self::whitelist_passes(env, &policy_id, asset) {
            events_policy_violation(env, &policy_id, Reason::AssetNotWhitelisted);
            return Err(Error::AssetNotWhitelisted);
        }
        Ok(())
    }

    /// Whether the policy's whitelist lets `asset` pass.
    pub fn whitelist_passes(env: &Env, policy_id: &Text, asset: Address) -> (passes: bool)
        ensures
            passes == whitelist_allows(env@.ledger, policy_id@, asset),
    {
        let whitelist_enabled = match env.ledger.asset_whitelist_enabled.get(policy_id) {
            Some(enabled) => *enabled,
            None => false,
        };
        !whitelist_enabled || env.ledger.asset_whitelist.has(&(policy_id.clone(), asset))
    }
}

} // verus!
