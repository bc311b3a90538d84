//! The central question: may this transfer be made?

use vstd::prelude::*;
use crate::allowances::{allowance_denial, allowance_of, has_expired};
use crate::assets::whitelist_allows;
use crate::checks::fits;
use crate::composite::composite_verdict;
use crate::env::{events_policy_violation, publish_denial, Env, EnvView};
use crate::errors::Error;
use crate::events::{denied, Denial, Reason};
use crate::policies::{Policy, PolicyContract};
use crate::rule_tree::TransactionPayload;
use crate::rules::{heard, rule_book_denies, rule_question, RuleAnswer, RuleQuery};
use crate::values::{Address, Text};

verus! {

/// A refusal with a published violation.
pub open spec fn denial(error: Error, reason: Reason) -> Option<Denial> {
    Some(Denial { error, reason: Some(reason) })
}

/// Whether the scalar gates of `policy` deny a transfer at the time `timestamp`,
/// and why: it is switched off, it has expired, the amount is above its maximum,
/// or the recipient or the asset is not the one it allows.
pub open spec fn scalar_denial(
    policy: Policy,
    timestamp: u64,
    payload: TransactionPayload,
) -> Option<Denial> {
    if !policy.enabled {
        denial(Error::PolicyDenied, Reason::Disabled)
    } else if has_expired(policy.expires_at, timestamp) {
        denial(Error::PolicyDenied, Reason::Expired)
    } else if policy.max_amount != 0 && payload.amount > policy.max_amount {
        denial(Error::PolicyDenied, Reason::AboveMax)
    } else if policy.allowed_recipient matches Some(allowed) && allowed != payload.recipient {
        denial(Error::PolicyDenied, Reason::BadRecipient)
    } else if policy.allowed_asset matches Some(allowed) && allowed != payload.asset {
        denial(Error::PolicyDenied, Reason::BadAsset)
    } else {
        None
    }
}

/// Whether the rules of a policy deny a transfer, and why. `rules` is the answer
/// of the rule book: of its errors only a denial counts.
pub open spec fn rule_denial(
    env: EnvView,
    policy_id: Seq<u8>,
    payload: TransactionPayload,
    rules: Result<(), Error>,
) -> Option<Denial> {
    if rules == Err::<(), Error>(Error::RuleDenied) {
        denial(Error::RuleDenied, Reason::RuleDenied)
    } else {
        match composite_verdict(env.ledger, policy_id, payload) {
            Ok(true) => None,
            Ok(false) => denial(Error::PolicyDenied, Reason::RuleDenied),
            Err(error) => Some(Denial { error, reason: None }),
        }
    }
}

/// Whether a gate that stands before the rules denies a transfer under a policy,
/// and why. The gates are evaluated in this order: the recipient lists, the scalar
/// gates, the asset lists, the allowance; the first that denies the transfer gives
/// the reason.
pub open spec fn gate_denial(
    env: EnvView,
    policy_id: Seq<u8>,
    payload: TransactionPayload,
) -> Option<Denial> {
    let ledger = env.ledger;
    let scalar = scalar_denial(ledger.policies[policy_id], env.timestamp, payload);
    if !ledger.policies.contains_key(policy_id) {
        Some(Denial { error: Error::NotFound, reason: None })
    } else if ledger.blacklist.contains_key(payload.recipient) {
        denial(Error::PolicyRecipientRestricted, Reason::Blacklisted)
    } else if ledger.merchant_blacklist.contains_key(payload.recipient) {
        denial(Error::PolicyDenied, Reason::MerchantBlocked)
    } else if scalar is Some {
        scalar
    } else if ledger.asset_blacklist.contains_key((policy_id, payload.asset)) {
        denial(Error::PolicyDenied, Reason::AssetBlacklisted)
    } else if !whitelist_allows(ledger, policy_id, payload.asset) {
        denial(Error::AssetNotWhitelisted, Reason::AssetNotWhitelisted)
    } else {
        allowance_denial(env, policy_id, payload.asset, payload.amount)
    }
}

/// Why a transfer is refused under a policy, if it is. The rules stand behind all
/// the other gates.
pub open spec fn transfer_denial(
    env: EnvView,
    policy_id: Seq<u8>,
    payload: TransactionPayload,
    rules: Result<(), Error>,
) -> Option<Denial> {
    match gate_denial(env, policy_id, payload) {
        Some(d) => Some(d),
        None => rule_denial(env, policy_id, payload, rules),
    }
}

/// Whether a transfer may be made under a policy: every gate must let it pass.
pub open spec fn permits(
    env: EnvView,
    policy_id: Seq<u8>,
    payload: TransactionPayload,
    rules: Result<(), Error>,
) -> bool {
    let ledger = env.ledger;
    let policy = ledger.policies[policy_id];
    let allowance = allowance_of(ledger, policy_id, payload.asset);
    // The policy is there, and in force.
    &&& ledger.policies.contains_key(policy_id)
    &&& policy.enabled
    &&& policy.expires_at == 0 || env.timestamp < policy.expires_at
    // The recipient.
    &&& !ledger.blacklist.contains_key(payload.recipient)
    &&& !ledger.merchant_blacklist.contains_key(payload.recipient)
    &&& policy.allowed_recipient is None || policy.allowed_recipient == Some(payload.recipient)
    // The asset.
    &&& policy.allowed_asset is None || policy.allowed_asset == Some(payload.asset)
    &&& !ledger.asset_blacklist.contains_key((policy_id, payload.asset))
    &&& whitelist_allows(ledger, policy_id, payload.asset)
    // The amount.
    &&& payload.amount >= 0
    &&& policy.max_amount == 0 || payload.amount <= policy.max_amount
    &&& allowance.limit == 0 || {
        &&& allowance.expires_at == 0 || env.timestamp < allowance.expires_at
        &&& fits(allowance.limit - allowance.spent)
        &&& allowance.spent + payload.amount <= allowance.limit
    }
    // The rules.
    &&& rules != Err::<(), Error>(Error::RuleDenied)
    &&& composite_verdict(ledger, policy_id, payload) == Ok::<bool, Error>(true)
}

/// The surface through which other contracts have a transfer checked.
pub trait PolicyInterface {
    /// `Ok(())` if the policy `policy_id` permits to transfer `amount` of `asset`
    /// to `recipient`, and otherwise why it does not. `rules` is the rule book's
    /// answer to the question of [`rule_query`]. Where there is no question, it is
    /// not looked at; where there is one, a missing answer and an answer to another
    /// question deny the transfer.
    fn check_transfer(
        env: &mut Env,
        policy_id: Text,
        asset: Address,
        recipient: Address,
        amount: i128,
        rules: Option<RuleAnswer>,
    ) -> (outcome: Result<(), Error>)
        ensures
            ({
                let payload = TransactionPayload { asset, recipient, amount };
                let answer = heard(rules, policy_id@, payload);
                let refusal = transfer_denial(old(env)@, policy_id@, payload, answer);
                &&& outcome == denied(refusal)
                &&& outcome is Ok <==> permits(old(env)@, policy_id@, payload, answer)
                &&& final(env)@ == old(env)@.after(policy_id@, refusal)
            }),
            final(env)@.ledger == old(env)@.ledger,
    ;
}

/// Why the scalar gates of a policy deny a transfer, if they do.
pub fn scalar_refusal(policy: &Policy, timestamp: u64, payload: &TransactionPayload) -> (refusal:
    Option<Denial>)
    ensures
        refusal == scalar_denial(*policy, timestamp, *payload),
{
    // A policy that is switched off denies every spend.
    if !policy.enabled {
        return policy_denial(Reason::Disabled);
    }
    if policy.expires_at != 0 && timestamp >= policy.expires_at {
        return policy_denial(Reason::Expired);
    }
    if policy.max_amount != 0 && payload.amount > policy.max_amount {
        return policy_denial(Reason::AboveMax);
    }
    if let Some(allowed) = policy.allowed_recipient {
        if allowed != payload.recipient {
            return policy_denial(Reason::BadRecipient);
        }
    }
    if let Some(allowed) = policy.allowed_asset {
        if allowed != payload.asset {
            return policy_denial(Reason::BadAsset);
        }
    }
    None
}

fn policy_denial(reason: Reason) -> (refusal: Option<Denial>)
    ensures
        refusal == denial(Error::PolicyDenied, reason),
{
    Some(Denial { error: Error::PolicyDenied, reason: Some(reason) })
}

/// Why a gate that stands before the rules denies a transfer, if one does. Nothing
/// is published.
pub fn gate_refusal(env: &Env, policy_id: &Text, payload: &TransactionPayload) -> (refusal: Option<
    Denial,
>)
    ensures
        refusal == gate_denial(env@, policy_id@, *payload),
{
    let policy = match PolicyContract::load(env, policy_id) {
        Ok(policy) => policy,
        Err(error) => {
            return Some(Denial { error, reason: None });
        },
    };
    // Restricted recipients are refused before any gate of the policy.
    if env.ledger.blacklist.has(&payload.recipient) {
        return Some(
            Denial {
                error: Error::PolicyRecipientRestricted,
                reason: Some(Reason::Blacklisted),
            },
        );
    }
    if env.ledger.merchant_blacklist.has(&payload.recipient) {
        return policy_denial(Reason::MerchantBlocked);
    }
    let scalar = scalar_refusal(&policy, env.timestamp, payload);
    if scalar.is_some() {
        return scalar;
    }
    // A denied asset is denied whatever allows it.
    if env.ledger.asset_blacklist.has(&(policy_id.clone(), payload.asset)) {
        return policy_denial(Reason::AssetBlacklisted);
    }
    if !PolicyContract::whitelist_passes(env, policy_id, payload.asset) {
        return Some(
            Denial {
                error: Error::AssetNotWhitelisted,
                reason: Some(Reason::AssetNotWhitelisted),
            },
        );
    }
    PolicyContract::allowance_refusal(env, policy_id, payload.asset, payload.amount)
}

/// Whether the rule book is asked about a transfer: it is if and only if every gate
/// before the rules lets the transfer pass, that is, if its denial would be the
/// reason of the refusal.
pub fn rules_wanted(env: &Env, policy_id: &Text, payload: &TransactionPayload) -> (wanted: bool)
    ensures
        wanted == (gate_denial(env@, policy_id@, *payload) is None),
        wanted == (transfer_denial(env@, policy_id@, *payload, Err(Error::RuleDenied)) == denial(
            Error::RuleDenied,
            Reason::RuleDenied,
        )),
{
    gate_refusal(env, policy_id, payload).is_none()
}

/// The question to put to the rule book about a transfer, if it is asked at all.
pub fn rule_query(env: &Env, policy_id: &Text, payload: &TransactionPayload) -> (query: Option<
    RuleQuery,
>)
    ensures
        query is Some == (gate_denial(env@, policy_id@, *payload) is None),
        query matches Some(q) ==> q@ == rule_question(policy_id@, *payload),
{
    if rules_wanted(env, policy_id, payload) {
        Some(
            RuleQuery {
                policy_id: policy_id.clone(),
                recipient: payload.recipient,
                asset: payload.asset,
            },
        )
    } else {
        None
    }
}

impl PolicyInterface for PolicyContract {
    fn check_transfer(
        env: &mut Env,
        policy_id: Text,
        asset: Address,
        recipient: Address,
        amount: i128,
        rules: Option<RuleAnswer>,
    ) -> (outcome: Result<(), Error>) {
        let payload = TransactionPayload { asset, recipient, amount };
        if let Some(refusal) = gate_refusal(env, &policy_id, &payload) {
            publish_denial(env, &policy_id, refusal);
            return Err(refusal.error);
        }
        if rule_book_denies(&rules, &policy_id, &payload) {
            events_policy_violation(env, &policy_id, Reason::RuleDenied);
            return Err(Error::RuleDenied);
        }
        if !Self::meets_composite_rule(env, &policy_id, &payload)? {
            events_policy_violation(env, &policy_id, Reason::RuleDenied);
            return Err(Error::PolicyDenied);
        }
        Ok(())
    }
}

} // verus!
