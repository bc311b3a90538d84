//! The recipients, merchants and spending categories that are restricted under
//! every policy.

use vstd::prelude::*;
use crate::checks::require_non_empty;
use crate::env::{events_policy_violation, Env, EnvView, LedgerView};
use crate::errors::Error;
use crate::events::{Event, Reason, Subject, Topic};
use crate::policies::{
    add_outcome,
    address_event,
    owner_gate,
    remove_outcome,
    text_event,
    PolicyContract,
};
use crate::values::{Address, Text};

verus! {

/// The environment after a recipient was restricted.
pub open spec fn recipient_blacklisted(
    env: EnvView,
    policy_id: Seq<u8>,
    address: Address,
) -> EnvView {
    env.with_ledger(
        LedgerView { blacklist: env.ledger.blacklist.insert(address, policy_id), ..env.ledger },
    ).publish(address_event(Topic::Blacklisted, policy_id, address))
}

/// The environment after a recipient was released.
pub open spec fn recipient_unblacklisted(
    env: EnvView,
    policy_id: Seq<u8>,
    address: Address,
) -> EnvView {
    env.with_ledger(
        LedgerView { blacklist: env.ledger.blacklist.remove(address), ..env.ledger },
    ).publish(address_event(Topic::Unblacklisted, policy_id, address))
}

/// The environment after a merchant was restricted.
pub open spec fn merchant_blacklisted(
    env: EnvView,
    policy_id: Seq<u8>,
    merchant: Address,
) -> EnvView {
    env.with_ledger(
        LedgerView {
            merchant_blacklist: env.ledger.merchant_blacklist.insert(merchant, policy_id),
            ..env.ledger
        },
    ).publish(address_event(Topic::MerchantBlacklisted, policy_id, merchant))
}

/// The environment after a merchant was released.
pub open spec fn merchant_unblacklisted(
    env: EnvView,
    policy_id: Seq<u8>,
    merchant: Address,
) -> EnvView {
    env.with_ledger(
        LedgerView {
            merchant_blacklist: env.ledger.merchant_blacklist.remove(merchant),
            ..env.ledger
        },
    ).publish(address_event(Topic::MerchantUnblacklisted, policy_id, merchant))
}

/// The environment after a spending category was restricted.
pub open spec fn category_blacklisted(
    env: EnvView,
    policy_id: Seq<u8>,
    category: Seq<u8>,
) -> EnvView {
    env.with_ledger(
        LedgerView {
            category_blacklist: env.ledger.category_blacklist.insert(category, policy_id),
            ..env.ledger
        },
    ).publish(text_event(Topic::CategoryBlacklisted, policy_id, category))
}

/// The environment after a spending category was released.
pub open spec fn category_unblacklisted(
    env: EnvView,
    policy_id: Seq<u8>,
    category: Seq<u8>,
) -> EnvView {
    env.with_ledger(
        LedgerView {
            category_blacklist: env.ledger.category_blacklist.remove(category),
            ..env.ledger
        },
    ).publish(text_event(Topic::CategoryUnblacklisted, policy_id, category))
}

/// Whether `caller` may restrict `category`: it must own the policy, and the
/// category must have a name.
pub open spec fn category_gate(
    ledger: LedgerView,
    caller: Address,
    policy_id: Seq<u8>,
    category: Seq<u8>,
) -> Result<(), Error> {
    let gate = owner_gate(ledger, caller, policy_id);
    if gate is Ok && category.len() == 0 {
        Err(Error::InvalidInput)
    } else {
        gate
    }
}

impl PolicyContract {
    /// Restricts a recipient (owner of `policy_id` only).
    pub fn add_blacklist(
        env: &mut Env,
        caller: Address,
        policy_id: Text,
        address: Address,
    ) -> (outcome: Result<(), Error>)
        requires
            old(env)@.authorized.contains(caller),
        ensures
            outcome == add_outcome(
                owner_gate(old(env)@.ledger, caller, policy_id@),
                old(env)@.ledger.blacklist.contains_key(address),
            ),
            outcome is Err ==> final(env)@ == old(env)@,
            outcome is Ok ==> final(env)@ == recipient_blacklisted(old(env)@, policy_id@, address),
            old(env)@.ledger.consistent() ==> final(env)@.ledger.consistent(),
    {
        Self::require_policy_owner(env, &caller, &policy_id)?;
        if env.ledger.blacklist.has(&address) {
            return Err(Error::AlreadyExists);
        }
        env.ledger.blacklist.set(address, policy_id.clone());
        env.publish(
            Event::Policy {
                topic: Topic::Blacklisted,
                policy_id,
                subject: Subject::Address(address),
            },
        );
        Ok(())
    }

    /// Releases a restricted recipient (owner of `policy_id` only).
    pub fn remove_blacklist(
        env: &mut Env,
        caller: Address,
        policy_id: Text,
        address: Address,
    ) -> (outcome: Result<(), Error>)
        requires
            old(env)@.authorized.contains(caller),
        ensures
            outcome == remove_outcome(
                owner_gate(old(env)@.ledger, caller, policy_id@),
                old(env)@.ledger.blacklist.contains_key(address),
            ),
            outcome is Err ==> final(env)@ == old(env)@,
            outcome is Ok ==> final(env)@ == recipient_unblacklisted(
                old(env)@,
                policy_id@,
                address,
            ),
            old(env)@.ledger.consistent() ==> final(env)@.ledger.consistent(),
    {
        Self::require_policy_owner(env, &caller, &policy_id)?;
        if !env.ledger.blacklist.has(&address) {
            return Err(Error::NotFound);
        }
        env.ledger.blacklist.remove(&address);
        env.publish(
            Event::Policy {
                topic: Topic::Unblacklisted,
                policy_id,
                subject: Subject::Address(address),
            },
        );
        Ok(())
    }

    /// Restricts a merchant (owner of `policy_id` only).
    pub fn add_merchant_blacklist(
        env: &mut Env,
        caller: Address,
        policy_id: Text,
        merchant_address: Address,
    ) -> (outcome: Result<(), Error>)
        requires
            old(env)@.authorized.contains(caller),
        ensures
            outcome == add_outcome(
                owner_gate(old(env)@.ledger, caller, policy_id@),
                old(env)@.ledger.merchant_blacklist.contains_key(merchant_address),
            ),
            outcome is Err ==> final(env)@ == old(env)@,
            outcome is Ok ==> final(env)@ == merchant_blacklisted(
                old(env)@,
                policy_id@,
                merchant_address,
            ),
            old(env)@.ledger.consistent() ==> final(env)@.ledger.consistent(),
    {
        let policy = Self::load(env, &policy_id)?;
        if policy.owner != caller {
            return Err(Error::Unauthorized);
        }
        if env.ledger.merchant_blacklist.has(&merchant_address) {
            return Err(Error::AlreadyExists);
        }
        env.ledger.merchant_blacklist.set(merchant_address, policy_id.clone());
        env.publish(
            Event::Policy {
                topic: Topic::MerchantBlacklisted,
                policy_id,
                subject: Subject::Address(merchant_address),
            },
        );
        Ok(())
    }

    /// Releases a restricted merchant (owner of `policy_id` only).
    pub fn remove_merchant_blacklist(
        env: &mut Env,
        caller: Address,
        policy_id: Text,
        merchant_address: Address,
    ) -> (outcome: Result<(), Error>)
        requires
            old(env)@.authorized.contains(caller),
        ensures
            outcome == remove_outcome(
                owner_gate(old(env)@.ledger, caller, policy_id@),
                old(env)@.ledger.merchant_blacklist.contains_key(merchant_address),
            ),
            outcome is Err ==> final(env)@ == old(env)@,
            outcome is Ok ==> final(env)@ == merchant_unblacklisted(
                old(env)@,
                policy_id@,
                merchant_address,
            ),
            old(env)@.ledger.consistent() ==> final(env)@.ledger.consistent(),
    {
        let policy = Self::load(env, &policy_id)?;
        if policy.owner != caller {
            return Err(Error::Unauthorized);
        }
        if !env.ledger.merchant_blacklist.has(&merchant_address) {
            return Err(Error::NotFound);
        }
        env.ledger.merchant_blacklist.remove(&merchant_address);
        env.publish(
            Event::Policy {
                topic: Topic::MerchantUnblacklisted,
                policy_id,
                subject: Subject::Address(merchant_address),
            },
        );
        Ok(())
    }

    /// Restricts a spending category (owner of `policy_id` only).
    pub fn add_category_blacklist(
        env: &mut Env,
        caller: Address,
        policy_id: Text,
        category: Text,
    ) -> (outcome: Result<(), Error>)
        requires
            old(env)@.authorized.contains(caller),
        ensures
            outcome == add_outcome(
                category_gate(old(env)@.ledger, caller, policy_id@, category@),
                old(env)@.ledger.category_blacklist.contains_key(category@),
            ),
            outcome is Err ==> final(env)@ == old(env)@,
            outcome is Ok ==> final(env)@ == category_blacklisted(
                old(env)@,
                policy_id@,
                category@,
            ),
            old(env)@.ledger.consistent() ==> final(env)@.ledger.consistent(),
    {
        let policy = Self::load(env, &policy_id)?;
        if policy.owner != caller {
            return Err(Error::Unauthorized);
        }
        require_non_empty(&category)?;
        if env.ledger.category_blacklist.has(&category) {
            return Err(Error::AlreadyExists);
        }
        env.ledger.category_blacklist.set(category.clone(), policy_id.clone());
        env.publish(
            Event::Policy {
                topic: Topic::CategoryBlacklisted,
                policy_id,
                subject: Subject::Text(category),
            },
        );
        Ok(())
    }

    /// Releases a restricted spending category (owner of `policy_id` only).
    pub fn remove_category_blacklist(
        env: &mut Env,
        caller: Address,
        policy_id: Text,
        category: Text,
    ) -> (outcome: Result<(), Error>)
        requires
            old(env)@.authorized.contains(caller),
        ensures
            outcome == remove_outcome(
                owner_gate(old(env)@.ledger, caller, policy_id@),
                old(env)@.ledger.category_blacklist.contains_key(category@),
            ),
            outcome is Err ==> final(env)@ == old(env)@,
            outcome is Ok ==> final(env)@ == category_unblacklisted(
                old(env)@,
                policy_id@,
                category@,
            ),
            old(env)@.ledger.consistent() ==> final(env)@.ledger.consistent(),
    {
        let policy = Self::load(env, &policy_id)?;
        if policy.owner != caller {
            return Err(Error::Unauthorized);
        }
        if !env.ledger.category_blacklist.has(&category) {
            return Err(Error::NotFound);
        }
        env.ledger.category_blacklist.remove(&category);
        env.publish(
            Event::Policy {
                topic: Topic::CategoryUnblacklisted,
                policy_id,
                subject: Subject::Text(category),
            },
        );
        Ok(())
    }

    /// Blocks a recipient (owner of `policy_id` only). A blocked recipient is refused
    /// by `check_transfer` before any other gate of a policy is evaluated. The
    /// blocklist and the blacklist are one list.
    pub fn add_to_blocklist(
        env: &mut Env,
        caller: Address,
        policy_id: Text,
        address: Address,
    ) -> (outcome: Result<(), Error>)
        requires
            old(env)@.authorized.contains(caller),
        ensures
            outcome == add_outcome(
                owner_gate(old(env)@.ledger, caller, policy_id@),
                old(env)@.ledger.blacklist.contains_key(address),
            ),
            outcome is Err ==> final(env)@ == old(env)@,
            outcome is Ok ==> final(env)@ == recipient_blacklisted(old(env)@, policy_id@, address),
            old(env)@.ledger.consistent() ==> final(env)@.ledger.consistent(),
    {
        let policy = Self::load(env, &policy_id)?;
        if policy.owner != caller {
            return Err(Error::Unauthorized);
        }
        if env.ledger.blacklist.has(&address) {
            return Err(Error::AlreadyExists);
        }
        env.ledger.blacklist.set(address, policy_id.clone());
        env.publish(
            Event::Policy {
                topic: Topic::Blacklisted,
                policy_id,
                subject: Subject::Address(address),
            },
        );
        Ok(())
    }

    /// Unblocks a recipient (owner of `policy_id` only).
    pub fn remove_from_blocklist(
        env: &mut Env,
        caller: Address,
        policy_id: Text,
        address: Address,
    ) -> (outcome: Result<(), Error>)
        requires
            old(env)@.authorized.contains(caller),
        ensures
            outcome == remove_outcome(
                owner_gate(old(env)@.ledger, caller, policy_id@),
                old(env)@.ledger.blacklist.contains_key(address),
            ),
            outcome is Err ==> final(env)@ == old(env)@,
            outcome is Ok ==> final(env)@ == recipient_unblacklisted(
                old(env)@,
                policy_id@,
                address,
            ),
            old(env)@.ledger.consistent() ==> final(env)@.ledger.consistent(),
    {
        let policy = Self::load(env, &policy_id)?;
        if policy.owner != caller {
            return Err(Error::Unauthorized);
        }
        if !env.ledger.blacklist.has(&address) {
            return Err(Error::NotFound);
        }
        env.ledger.blacklist.remove(&address);
        env.publish(
            Event::Policy {
                topic: Topic::Unblacklisted,
                policy_id,
                subject: Subject::Address(address),
            },
        );
        Ok(())
    }

    /// Refuses a restricted spending category, and publishes the violation. A
    /// spend without a category is never refused.
    pub fn check_category(
        env: &mut Env,
        policy_id: Text,
        category: Text,
    ) -> (outcome: Result<(), Error>)
        ensures
            outcome == if category@.len() > 0 && old(env)@.ledger.category_blacklist.contains_key(
                category@,
            ) {
                Err::<(), Error>(Error::PolicyDenied)
            } else {
                Ok(())
            },
            outcome is Ok ==> final(env)@ == old(env)@,
            outcome is Err ==> final(env)@ == old(env)@.violation(
                policy_id@,
                Reason::CategoryRestricted,
            ),
    {
        if category.is_empty() {
            return Ok(());
        }
        if env.ledger.category_blacklist.has(&category) {
            events_policy_violation(env, &policy_id, Reason::CategoryRestricted);
            return Err(Error::PolicyDenied);
        }
        Ok(())
    }
}

} // verus!
