//! Per-asset spending allowances.

use vstd::prelude::*;
use crate::checks::{checked_add, checked_sub, fits, require_non_negative_amount};
use crate::env::{publish_denial, Env, EnvView, LedgerView};
use crate::errors::Error;
use crate::events::{denied, Denial, Event, EventView, Reason, Subject, SubjectView, Topic};
use crate::policies::{address_event, owner_gate, remove_outcome, PolicyContract};
use crate::values::{Address, Text};

verus! {

/// A spending allowance for one asset under one policy.
#[derive(Debug, PartialEq, Eq)]
pub struct AssetAllowance {
    /// The policy that the allowance belongs to.
    pub policy_id: Text,
    /// The asset that the allowance is for.
    pub asset: Address,
    /// The most that may be spent in all (0 = not limited).
    pub limit: i128,
    /// What has been spent.
    pub spent: i128,
    /// The time from which on nothing more may be spent (0 = never).
    pub expires_at: u64,
}

/// The view of an [`AssetAllowance`].
pub struct AllowanceView {
    pub policy_id: Seq<u8>,
    pub asset: Address,
    pub limit: i128,
    pub spent: i128,
    pub expires_at: u64,
}

impl View for AssetAllowance {
    type V = AllowanceView;

    open spec fn view(&self) -> AllowanceView {
        AllowanceView {
            policy_id: self.policy_id@,
            asset: self.asset,
            limit: self.limit,
            spent: self.spent,
            expires_at: self.expires_at,
        }
    }
}

impl Clone for AssetAllowance {
    fn clone(&self) -> (copy: AssetAllowance)
        ensures
            copy@ == self@,
    {
        AssetAllowance {
            policy_id: self.policy_id.clone(),
            asset: self.asset,
            limit: self.limit,
            spent: self.spent,
            expires_at: self.expires_at,
        }
    }
}

/// The allowance for an asset under a policy: the stored one, or one without a
/// limit and without spend.
pub open spec fn allowance_of(
    ledger: LedgerView,
    policy_id: Seq<u8>,
    asset: Address,
) -> AllowanceView {
    if ledger.allowances.contains_key((policy_id, asset)) {
        ledger.allowances[(policy_id, asset)]
    } else {
        AllowanceView { policy_id, asset, limit: 0, spent: 0, expires_at: 0 }
    }
}

/// Whether the time `expires_at` has come (0 never comes).
pub open spec fn has_expired(expires_at: u64, timestamp: u64) -> bool {
    expires_at != 0 && timestamp >= expires_at
}

/// Why spending `amount` of `asset` under a policy is refused, if it is. An
/// allowance without a limit refuses negative amounts only.
pub open spec fn allowance_denial(
    env: EnvView,
    policy_id: Seq<u8>,
    asset: Address,
    amount: i128,
) -> Option<Denial> {
    let allowance = allowance_of(env.ledger, policy_id, asset);
    if amount < 0 {
        Some(Denial { error: Error::InvalidAmount, reason: None })
    } else if allowance.limit == 0 {
        None
    } else if has_expired(allowance.expires_at, env.timestamp) {
        Some(Denial { error: Error::PolicyDenied, reason: Some(Reason::AllowanceExpired) })
    } else if !fits(allowance.limit - allowance.spent) {
        Some(Denial { error: Error::Overflow, reason: None })
    } else if amount > allowance.limit - allowance.spent {
        Some(
            Denial {
                error: Error::PolicyAllowanceExceeded,
                reason: Some(Reason::AllowanceExceeded),
            },
        )
    } else {
        None
    }
}

/// What is left of an allowance once `amount` is spent; the largest amount if the
/// allowance has no limit.
pub open spec fn headroom(allowance: AllowanceView, amount: i128) -> int {
    if allowance.limit == 0 {
        i128::MAX as int
    } else {
        allowance.limit - allowance.spent - amount
    }
}

/// What setting an allowance is answered.
pub open spec fn set_allowance_outcome(
    ledger: LedgerView,
    caller: Address,
    policy_id: Seq<u8>,
    limit: i128,
) -> Result<(), Error> {
    let gate = owner_gate(ledger, caller, policy_id);
    if gate is Ok && limit < 0 {
        Err(Error::InvalidAmount)
    } else {
        gate
    }
}

/// The ledger with `allowance` stored for an asset under a policy.
pub open spec fn allowance_stored(
    ledger: LedgerView,
    policy_id: Seq<u8>,
    asset: Address,
    allowance: AllowanceView,
) -> LedgerView {
    LedgerView { allowances: ledger.allowances.insert((policy_id, asset), allowance), ..ledger }
}

/// The environment after an allowance was given a limit and an end. What has
/// been spent is kept.
pub open spec fn allowance_set(
    env: EnvView,
    policy_id: Seq<u8>,
    asset: Address,
    limit: i128,
    expires_at: u64,
) -> EnvView {
    let spent = allowance_of(env.ledger, policy_id, asset).spent;
    env.with_ledger(
        allowance_stored(
            env.ledger,
            policy_id,
            asset,
            AllowanceView { policy_id, asset, limit, spent, expires_at },
        ),
    ).publish(
        EventView::Policy {
            topic: Topic::AllowanceSet,
            policy_id,
            subject: SubjectView::Limit { asset, limit },
        },
    )
}

/// The environment after an allowance was removed.
pub open spec fn allowance_removed(env: EnvView, policy_id: Seq<u8>, asset: Address) -> EnvView {
    env.with_ledger(
        LedgerView {
            allowances: env.ledger.allowances.remove((policy_id, asset)),
            ..env.ledger
        },
    ).publish(address_event(Topic::AllowanceRemoved, policy_id, asset))
}

/// The environment after `amount` of an asset was spent. Without a limit nothing
/// is kept account of.
pub open spec fn allowance_used(
    env: EnvView,
    policy_id: Seq<u8>,
    asset: Address,
    amount: i128,
) -> EnvView {
    let allowance = allowance_of(env.ledger, policy_id, asset);
    let spent = (allowance.spent + amount) as i128;
    if allowance.limit == 0 {
        env
    } else {
        env.with_ledger(
            allowance_stored(
                env.ledger,
                policy_id,
                asset,
                AllowanceView { spent, ..allowance },
            ),
        ).publish(
            EventView::Policy {
                topic: Topic::AllowanceUsed,
                policy_id,
                subject: SubjectView::Usage { asset, amount, spent },
            },
        )
    }
}

impl PolicyContract {
    /// Creates or changes the allowance for an asset under a policy (owner only).
    /// `expires_at == 0` means never.
    pub fn set_allowance(
        env: &mut Env,
        caller: Address,
        policy_id: Text,
        asset: Address,
        limit: i128,
        expires_at: u64,
    ) -> (outcome: Result<(), Error>)
        requires
            old(env)@.authorized.contains(caller),
        ensures
            outcome == set_allowance_outcome(old(env)@.ledger, caller, policy_id@, limit),
            outcome is Err ==> final(env)@ == old(env)@,
            outcome is Ok ==> final(env)@ == allowance_set(
                old(env)@,
                policy_id@,
                asset,
                limit,
                expires_at,
            ),
            old(env)@.ledger.consistent() ==> final(env)@.ledger.consistent(),
    {
        let policy = Self::load(env, &policy_id)?;
        if policy.owner != caller {
            return Err(Error::Unauthorized);
        }
        require_non_negative_amount(limit)?;
        // What was spent before counts against the new limit too.
        let mut allowance = Self::get_allowance(env, policy_id.clone(), asset);
        allowance.limit = limit;
        allowance.expires_at = expires_at;
        allowance.policy_id = policy_id.clone();
        allowance.asset = asset;
        env.ledger.allowances.set((policy_id.clone(), asset), allowance);
        env.publish(
            Event::Policy {
                topic: Topic::AllowanceSet,
                policy_id,
                subject: Subject::Limit { asset, limit },
            },
        );
        Ok(())
    }

    /// Removes the allowance for an asset under a policy (owner only).
    pub fn remove_allowance(
        env: &mut Env,
        caller: Address,
        policy_id: Text,
        asset: Address,
    ) -> (outcome: Result<(), Error>)
        requires
            old(env)@.authorized.contains(caller),
        ensures
            outcome == remove_outcome(
                owner_gate(old(env)@.ledger, caller, policy_id@),
                old(env)@.ledger.allowances.contains_key((policy_id@, asset)),
            ),
            outcome is Err ==> final(env)@ == old(env)@,
            outcome is Ok ==> final(env)@ == allowance_removed(old(env)@, policy_id@, asset),
            old(env)@.ledger.consistent() ==> final(env)@.ledger.consistent(),
    {
        let policy = Self::load(env, &policy_id)?;
        if policy.owner != caller {
            return Err(Error::Unauthorized);
        }
        let key = (policy_id.clone(), asset);
        if !env.ledger.allowances.has(&key) {
            return Err(Error::NotFound);
        }
        env.ledger.allowances.remove(&key);
        env.publish(
            Event::Policy {
                topic: Topic::AllowanceRemoved,
                policy_id,
                subject: Subject::Address(asset),
            },
        );
        Ok(())
    }

    /// The allowance for an asset under a policy; one without a limit and without
    /// spend when none was set.
    pub fn get_allowance(env: &Env, policy_id: Text, asset: Address) -> (allowance: AssetAllowance)
        ensures
            allowance@ == allowance_of(env@.ledger, policy_id@, asset),
    {
        let key = (policy_id, asset);
        match env.ledger.allowances.get(&key) {
            Some(allowance) => allowance.clone(),
            None => AssetAllowance {
                policy_id: key.0,
                asset,
                limit: 0,
                spent: 0,
                expires_at: 0,
            },
        }
    }

    /// Whether `amount` of `asset` can still be spent under a policy, and if so
    /// what is left of the allowance afterwards. An allowance that would be used
    /// up exactly is not exceeded. A violation is published when the allowance
    /// has expired or would be exceeded.
    pub fn check_allowance(
        env: &mut Env,
        policy_id: Text,
        asset: Address,
        amount: i128,
    ) -> (left: Result<i128, Error>)
        ensures
            ({
                let denial = allowance_denial(old(env)@, policy_id@, asset, amount);
                &&& left == match denial {
                    Some(d) => Err::<i128, Error>(d.error),
                    None => Ok(
                        headroom(
                            allowance_of(old(env)@.ledger, policy_id@, asset),
                            amount,
                        ) as i128,
                    ),
                }
                &&& final(env)@ == old(env)@.after(policy_id@, denial)
            }),
            left matches Ok(rest) ==> rest == headroom(
                allowance_of(old(env)@.ledger, policy_id@, asset),
                amount,
            ) && rest >= 0,
    {
        if let Some(denial) = Self::allowance_refusal(env, &policy_id, asset, amount) {
            publish_denial(env, &policy_id, denial);
            return Err(denial.error);
        }
        let allowance = Self::get_allowance(env, policy_id, asset);
        if allowance.limit == 0 {
            return Ok(i128::MAX);
        }
        let headroom_before_spend = checked_sub(allowance.limit, allowance.spent)?;
        checked_sub(headroom_before_spend, amount)
    }

    /// Why spending `amount` of `asset` under a policy is refused, if it is.
    pub fn allowance_refusal(env: &Env, policy_id: &Text, asset: Address, amount: i128) -> (
    refusal: Option<Denial>)
        ensures
            refusal == allowance_denial(env@, policy_id@, asset, amount),
    {
        if let Err(error) = require_non_negative_amount(amount) {
            return Some(Denial { error, reason: None });
        }
        let allowance = Self::get_allowance(env, policy_id.clone(), asset);
        if allowance.limit == 0 {
            return None;
        }
        if allowance.expires_at != 0 && env.timestamp >= allowance.expires_at {
            return Some(
                Denial { error: Error::PolicyDenied, reason: Some(Reason::AllowanceExpired) },
            );
        }
        match checked_sub(allowance.limit, allowance.spent) {
            Err(error) => Some(Denial { error, reason: None }),
            Ok(headroom_before_spend) => if amount > headroom_before_spend {
                Some(
                    Denial {
                        error: Error::PolicyAllowanceExceeded,
                        reason: Some(Reason::AllowanceExceeded),
                    },
                )
            } else {
                None
            },
        }
    }

    /// Spends `amount` of the allowance for `asset` under a policy, or refuses to
    /// and changes nothing.
    pub fn update_allowance(
        env: &mut Env,
        caller: Address,
        policy_id: Text,
        asset: Address,
        amount: i128,
    ) -> (outcome: Result<(), Error>)
        requires
            old(env)@.authorized.contains(caller),
        ensures
            outcome == denied(allowance_denial(old(env)@, policy_id@, asset, amount)),
            outcome is Err ==> final(env)@ == old(env)@,
            outcome is Ok ==> final(env)@ == allowance_used(old(env)@, policy_id@, asset, amount),
            outcome is Ok ==> fits(
                allowance_of(old(env)@.ledger, policy_id@, asset).spent + amount,
            ) || allowance_of(old(env)@.ledger, policy_id@, asset).limit == 0,
            old(env)@.ledger.consistent() ==> final(env)@.ledger.consistent(),
    {
        if let Some(denial) = Self::allowance_refusal(env, &policy_id, asset, amount) {
            return Err(denial.error);
        }
        let mut allowance = Self::get_allowance(env, policy_id.clone(), asset);
        if allowance.limit == 0 {
            return Ok(());
        }
        let spent = checked_add(allowance.spent, amount)?;
        allowance.spent = spent;
        env.ledger.allowances.set((policy_id.clone(), asset), allowance);
        env.publish(
            Event::Policy {
                topic: Topic::AllowanceUsed,
                policy_id,
                subject: Subject::Usage { asset, amount, spent },
            },
        );
        Ok(())
    }
}

} // verus!
