//! The composite rule of a policy.

use vstd::prelude::*;
use crate::env::{Env, EnvView, LedgerView};
use crate::errors::Error;
use crate::events::{Event, Subject, Topic};
use crate::policies::{owner_gate, policy_event, remove_outcome, PolicyContract};
use crate::rule_tree::{
    evaluate_node,
    node_verdict,
    RuleNode,
    RuleTree,
    TransactionPayload,
    MAX_RULE_DEPTH,
};
use crate::values::{Address, Text};

verus! {

/// What setting a composite rule is answered: the caller must own the policy,
/// and the rule must have a root.
pub open spec fn set_composite_outcome(
    ledger: LedgerView,
    caller: Address,
    policy_id: Seq<u8>,
    rule_tree: Seq<RuleNode>,
) -> Result<(), Error> {
    let gate = owner_gate(ledger, caller, policy_id);
    if gate is Ok && rule_tree.len() == 0 {
        Err(Error::InvalidInput)
    } else {
        gate
    }
}

/// The environment after a policy was given a composite rule.
pub open spec fn composite_set(
    env: EnvView,
    policy_id: Seq<u8>,
    rule_tree: Seq<RuleNode>,
) -> EnvView {
    env.with_ledger(
        LedgerView {
            composite_rules: env.ledger.composite_rules.insert(policy_id, rule_tree),
            ..env.ledger
        },
    ).publish(policy_event(Topic::CompositeSet, policy_id))
}

/// The environment after the composite rule of a policy was removed.
pub open spec fn composite_cleared(env: EnvView, policy_id: Seq<u8>) -> EnvView {
    env.with_ledger(
        LedgerView {
            composite_rules: env.ledger.composite_rules.remove(policy_id),
            ..env.ledger
        },
    ).publish(policy_event(Topic::CompositeCleared, policy_id))
}

/// Whether a transfer meets the composite rule of a policy, or that the rule is
/// malformed or too deep. Without a rule every transfer does.
pub open spec fn composite_verdict(
    ledger: LedgerView,
    policy_id: Seq<u8>,
    payload: TransactionPayload,
) -> Result<bool, Error> {
    if !ledger.composite_rules.contains_key(policy_id)
        || ledger.composite_rules[policy_id].len() == 0 {
        Ok(true)
    } else {
        node_verdict(
            ledger,
            ledger.composite_rules[policy_id],
            0,
            payload,
            MAX_RULE_DEPTH as nat,
        )
    }
}

impl PolicyContract {
    /// Gives a policy a composite rule, in place of the one it had (owner only).
    /// The rule takes part in `check_transfer` after all the other gates.
    pub fn set_composite_rule(
        env: &mut Env,
        caller: Address,
        policy_id: Text,
        rule_tree: RuleTree,
    ) -> (outcome: Result<(), Error>)
        requires
            old(env)@.authorized.contains(caller),
        ensures
            outcome == set_composite_outcome(
                old(env)@.ledger,
                caller,
                policy_id@,
                rule_tree@,
            ),
            outcome is Err ==> final(env)@ == old(env)@,
            outcome is Ok ==> final(env)@ == composite_set(old(env)@, policy_id@, rule_tree@),
            old(env)@.ledger.consistent() ==> final(env)@.ledger.consistent(),
    {
        let policy = Self::load(env, &policy_id)?;
        if policy.owner != caller {
            return Err(Error::Unauthorized);
        }
        if rule_tree.len() == 0 {
            return Err(Error::InvalidInput);
        }
        env.ledger.composite_rules.set(policy_id.clone(), rule_tree);
        env.publish(
            Event::Policy { topic: Topic::CompositeSet, policy_id, subject: Subject::Policy },
        );
        Ok(())
    }

    /// Removes the composite rule of a policy (owner only).
    pub fn clear_composite_rule(
        env: &mut Env,
        caller: Address,
        policy_id: Text,
    ) -> (outcome: Result<(), Error>)
        requires
            old(env)@.authorized.contains(caller),
        ensures
            outcome == remove_outcome(
                owner_gate(old(env)@.ledger, caller, policy_id@),
                old(env)@.ledger.composite_rules.contains_key(policy_id@),
            ),
            outcome is Err ==> final(env)@ == old(env)@,
            outcome is Ok ==> final(env)@ == composite_cleared(old(env)@, policy_id@),
            old(env)@.ledger.consistent() ==> final(env)@.ledger.consistent(),
    {
        let policy = Self::load(env, &policy_id)?;
        if policy.owner != caller {
            return Err(Error::Unauthorized);
        }
        if !env.ledger.composite_rules.has(&policy_id) {
            return Err(Error::NotFound);
        }
        env.ledger.composite_rules.remove(&policy_id);
        env.publish(
            Event::Policy { topic: Topic::CompositeCleared, policy_id, subject: Subject::Policy },
        );
        Ok(())
    }

    /// The composite rule of a policy, if it has one.
    pub fn get_composite_rule(env: &Env, policy_id: Text) -> (rule_tree: Result<RuleTree, Error>)
        ensures
            match rule_tree {
                Ok(tree) => env@.ledger.composite_rules.contains_key(policy_id@) && tree@
                    == env@.ledger.composite_rules[policy_id@],
                Err(error) => !env@.ledger.composite_rules.contains_key(policy_id@) && error
                    == Error::NotFound,
            },
    {
        match env.ledger.composite_rules.get(&policy_id) {
            Some(stored) => {
                let tree = stored.clone();
                assert(tree@ =~= stored@);
                Ok(tree)
            },
            None => Err(Error::NotFound),
        }
    }

    /// Whether a transfer meets the composite rule of a policy.
    pub fn meets_composite_rule(
        env: &Env,
        policy_id: &Text,
        payload: &TransactionPayload,
    ) -> (verdict: Result<bool, Error>)
        ensures
            verdict == composite_verdict(env@.ledger, policy_id@, *payload),
    {
        let tree = match env.ledger.composite_rules.get(policy_id) {
            Some(tree) => tree,
            None => {
                return Ok(true);
            },
        };
        if tree.len() == 0 {
            return Ok(true);
        }
        evaluate_node(env, tree, 0, payload, MAX_RULE_DEPTH)
    }

    /// Evaluates the composite rule of a policy against a transfer: `Ok(true)` if
    /// the rule, or the lack of one, permits the transfer, and
    /// `Err(Error::PolicyDenied)` if the rule denies it.
    pub fn evaluate_composite_rule(
        env: &Env,
        policy_id: Text,
        payload: TransactionPayload,
    ) -> (verdict: Result<bool, Error>)
        ensures
            verdict == match composite_verdict(env@.ledger, policy_id@, payload) {
                Ok(true) => Ok::<bool, Error>(true),
                Ok(false) => Err(Error::PolicyDenied),
                Err(error) => Err(error),
            },
    {
        match Self::meets_composite_rule(env, &policy_id, &payload) {
            Ok(true) => Ok(true),
            Ok(false) => Err(Error::PolicyDenied),
            Err(error) => Err(error),
        }
    }
}

} // verus!
