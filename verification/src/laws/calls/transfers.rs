//! Laws of the check of a transfer.

use vstd::prelude::*;
use crate::env::Env;
use crate::errors::Error;
use crate::events::{Denial, Reason};
use crate::laws::calls::{
    leaves_alone,
    lemma_same_view,
    only_reports,
    lemma_reported,
};
use crate::laws::calls::allowances::is_spend_answer;
use crate::laws::rule_trees::{law_stored_rule_has_ten_levels, is_reading};
use crate::policies::{Policy, PolicyContract};
use crate::rule_tree::TransactionPayload;
use crate::rules::{RuleAnswer, RuleQuery};
use crate::transfer::{gate_refusal, rule_query, rules_wanted, scalar_refusal, PolicyInterface};
use crate::upgrade::check;
use crate::values::{Address, Text};

verus! {

/// What the gates of a policy's own fields make of a transfer, told of each field: a
/// policy that is off, whose end has come, whose maximum is passed, or that names
/// another recipient or asset denies the transfer, and the first of these gives the
/// reason; a policy of which none holds does not deny it.
pub open spec fn is_field_answer(
    policy: Policy,
    timestamp: u64,
    payload: TransactionPayload,
    reason: Option<Reason>,
) -> bool {
    let off = !policy.enabled;
    let ended = policy.expires_at != 0 && timestamp >= policy.expires_at;
    let above = policy.max_amount != 0 && payload.amount > policy.max_amount;
    let elsewhere = policy.allowed_recipient is Some && policy.allowed_recipient
        != Some(payload.recipient);
    let other_asset = policy.allowed_asset is Some && policy.allowed_asset != Some(payload.asset);
    &&& off ==> reason == Some(Reason::Disabled)
    &&& !off && ended ==> reason == Some(Reason::Expired)
    &&& !off && !ended && above ==> reason == Some(Reason::AboveMax)
    &&& !off && !ended && !above && elsewhere ==> reason == Some(Reason::BadRecipient)
    &&& !off && !ended && !above && !elsewhere && other_asset ==> reason == Some(Reason::BadAsset)
    &&& !off && !ended && !above && !elsewhere && !other_asset ==> reason is None
}

/// What the gates before the rules make of a transfer, told of each stored entry, in
/// the order in which they are asked: the policy must be there; the recipient lists;
/// the policy's own fields; its deny list; its whitelist; its allowance.
pub open spec fn is_gate_answer(
    env: Env,
    policy_id: Seq<u8>,
    payload: TransactionPayload,
    refusal: Option<(Error, Option<Reason>)>,
) -> bool {
    let ledger = env.ledger;
    let known = ledger.policies@.contains_key(policy_id);
    let restricted = ledger.blacklist@.contains_key(payload.recipient);
    let blocked = ledger.merchant_blacklist@.contains_key(payload.recipient);
    let policy = ledger.policies@[policy_id];
    let fields_pass = is_field_answer(policy, env.timestamp, payload, None);
    let denied = ledger.asset_blacklist@.contains_key((policy_id, payload.asset));
    let unlisted = ledger.asset_whitelist_enabled@.contains_key(policy_id)
        && ledger.asset_whitelist_enabled@[policy_id] && !ledger.asset_whitelist@.contains_key(
        (policy_id, payload.asset),
    );
    &&& !known ==> refusal == Some((Error::NotFound, None::<Reason>))
    &&& known && restricted ==> refusal == Some(
        (Error::PolicyRecipientRestricted, Some(Reason::Blacklisted)),
    )
    &&& known && !restricted && blocked ==> refusal == Some(
        (Error::PolicyDenied, Some(Reason::MerchantBlocked)),
    )
    &&& known && !restricted && !blocked && !fields_pass ==> (refusal matches Some(r) && r.0
        == Error::PolicyDenied && is_field_answer(policy, env.timestamp, payload, r.1))
    &&& known && !restricted && !blocked && fields_pass && denied ==> refusal == Some(
        (Error::PolicyDenied, Some(Reason::AssetBlacklisted)),
    )
    &&& known && !restricted && !blocked && fields_pass && !denied && unlisted ==> refusal == Some(
        (Error::AssetNotWhitelisted, Some(Reason::AssetNotWhitelisted)),
    )
    &&& known && !restricted && !blocked && fields_pass && !denied && !unlisted
        ==> is_spend_answer(env, policy_id, payload.asset, payload.amount, refusal)
}

/// Whether the rule book answered this very question, and not with a denial.
pub open spec fn rule_book_agrees(
    rules: Option<RuleAnswer>,
    policy_id: Seq<u8>,
    payload: TransactionPayload,
) -> bool {
    &&& rules is Some
    &&& rules->0.query.policy_id@ == policy_id
    &&& rules->0.query.recipient == payload.recipient
    &&& rules->0.query.asset == payload.asset
    &&& rules->0.outcome != Err::<(), Error>(Error::RuleDenied)
}

/// Each field of a policy denies what it says, whatever the others are.
pub proof fn law_scalar_refusal(
    policy: Policy,
    timestamp: u64,
    payload: TransactionPayload,
    refusal: Option<Denial>,
)
    requires
        call_ensures(scalar_refusal, (&policy, timestamp, &payload), refusal),
    ensures
        refusal is None ==> is_field_answer(policy, timestamp, payload, None),
        refusal matches Some(d) ==> d.error == Error::PolicyDenied && d.reason is Some
            && is_field_answer(policy, timestamp, payload, d.reason),
{
}

/// The gates before the rules answer as [`is_gate_answer`] says of the stored entries.
pub proof fn law_gate_refusal(
    env: Env,
    policy_id: Text,
    payload: TransactionPayload,
    refusal: Option<Denial>,
)
    requires
        call_ensures(gate_refusal, (&env, &policy_id, &payload), refusal),
    ensures
        is_gate_answer(
            env,
            policy_id@,
            payload,
            match refusal {
                Some(d) => Some((d.error, d.reason)),
                None => None,
            },
        ),
{
}

/// The rule book is asked if and only if no gate before it denies the transfer, and it
/// is asked about the policy, the recipient and the asset of the transfer.
pub proof fn law_rule_query(
    env: Env,
    policy_id: Text,
    payload: TransactionPayload,
    wanted: bool,
    query: Option<RuleQuery>,
)
    requires
        call_ensures(rules_wanted, (&env, &policy_id, &payload), wanted),
        call_ensures(rule_query, (&env, &policy_id, &payload), query),
    ensures
        wanted <==> is_gate_answer(env, policy_id@, payload, None),
        query is Some <==> wanted,
        query matches Some(q) ==> q.policy_id@ == policy_id@ && q.recipient == payload.recipient
            && q.asset == payload.asset,
{
}

/// A transfer that is let pass is let pass by every single gate, whatever the others
/// say: the policy is stored, on, not ended, and its maximum, its recipient and its
/// asset, where it names them, are kept; the recipient is on neither list; the asset
/// is not denied and, where the whitelist is on, is on it; the amount is not negative
/// and stays within the allowance; and the rule book and the composite rule agree.
pub proof fn law_every_gate_binds(
    env: &mut Env,
    policy_id: Text,
    asset: Address,
    recipient: Address,
    amount: i128,
    rules: Option<RuleAnswer>,
    verdict: Result<bool, Error>,
)
    requires
        call_ensures(
            <PolicyContract as PolicyInterface>::check_transfer,
            (env, policy_id, asset, recipient, amount, rules),
            Ok(()),
        ),
        call_ensures(
            PolicyContract::meets_composite_rule,
            (&*env, &policy_id, &(TransactionPayload { asset, recipient, amount })),
            verdict,
        ),
    ensures
        ({
            let ledger = old(env).ledger;
            let policy = ledger.policies@[policy_id@];
            let key = (policy_id@, asset);
            let allowance = ledger.allowances@[key];
            &&& ledger.policies@.contains_key(policy_id@)
            &&& policy.enabled
            &&& policy.expires_at == 0 || old(env).timestamp < policy.expires_at
            &&& policy.max_amount == 0 || amount <= policy.max_amount
            &&& policy.allowed_recipient matches Some(only) ==> only == recipient
            &&& policy.allowed_asset matches Some(only) ==> only == asset
            &&& !ledger.blacklist@.contains_key(recipient)
            &&& !ledger.merchant_blacklist@.contains_key(recipient)
            &&& !ledger.asset_blacklist@.contains_key(key)
            &&& ledger.asset_whitelist_enabled@.contains_key(policy_id@)
                && ledger.asset_whitelist_enabled@[policy_id@]
                ==> ledger.asset_whitelist@.contains_key(key)
            &&& amount >= 0
            &&& ledger.allowances@.contains_key(key) && allowance.limit != 0 ==> allowance.spent
                + amount <= allowance.limit && (allowance.expires_at == 0 || old(env).timestamp
                < allowance.expires_at)
            &&& rule_book_agrees(
                rules,
                policy_id@,
                (TransactionPayload { asset, recipient, amount }),
            )
            &&& verdict == Ok::<bool, Error>(true)
        }),
        leaves_alone(*old(env), *final(env)),
{
    lemma_same_view(*old(env), *final(env));
}

/// Nothing else denies a transfer, and the first gate that does says why: a gate before
/// the rules, with its error and its reported reason; then the rule book; then the
/// composite rule, of which `verdict` is what it says. A check changes no entry and
/// publishes the violation only.
pub proof fn law_check_transfer(
    env: &mut Env,
    policy_id: Text,
    asset: Address,
    recipient: Address,
    amount: i128,
    rules: Option<RuleAnswer>,
    gates: Option<(Error, Option<Reason>)>,
    verdict: Result<bool, Error>,
    outcome: Result<(), Error>,
)
    requires
        call_ensures(
            <PolicyContract as PolicyInterface>::check_transfer,
            (env, policy_id, asset, recipient, amount, rules),
            outcome,
        ),
        call_ensures(
            PolicyContract::meets_composite_rule,
            (&*env, &policy_id, &(TransactionPayload { asset, recipient, amount })),
            verdict,
        ),
        is_gate_answer(
            *env,
            policy_id@,
            (TransactionPayload { asset, recipient, amount }),
            gates,
        ),
    ensures
        ({
            let payload = TransactionPayload { asset, recipient, amount };
            let agreed = rule_book_agrees(rules, policy_id@, payload);
            let reason = match gates {
                Some(g) => g.1,
                None => if !agreed || verdict == Ok::<bool, Error>(false) {
                    Some(Reason::RuleDenied)
                } else {
                    None
                },
            };
            &&& gates matches Some(g) ==> outcome == Err::<(), Error>(g.0)
            &&& gates is None && !agreed ==> outcome == Err::<(), Error>(Error::RuleDenied)
            &&& gates is None && agreed ==> outcome == match verdict {
                Ok(true) => Ok::<(), Error>(()),
                Ok(false) => Err(Error::PolicyDenied),
                Err(error) => Err(error),
            }
            &&& match reason {
                Some(reported) => only_reports(policy_id@, reported, *old(env), *final(env)),
                None => leaves_alone(*old(env), *final(env)),
            }
        }),
{
    let payload = TransactionPayload { asset, recipient, amount };
    let agreed = rule_book_agrees(rules, policy_id@, payload);
    let reason = match gates {
        Some(g) => g.1,
        None => if !agreed || verdict == Ok::<bool, Error>(false) {
            Some(Reason::RuleDenied)
        } else {
            None
        },
    };
    match reason {
        Some(reported) => {
            lemma_reported(policy_id@, reported, *old(env), *final(env));
        },
        None => {
            lemma_same_view(*old(env), *final(env));
        },
    }
}

/// A stored rule of up to ten levels decides a transfer that everything else lets pass:
/// the transfer is let pass where the rule's formula holds and denied where it does
/// not.
pub proof fn law_transfer_follows_the_formula(
    env: &mut Env,
    policy_id: Text,
    asset: Address,
    recipient: Address,
    amount: i128,
    rules: Option<RuleAnswer>,
    part: Set<int>,
    height: spec_fn(int) -> nat,
    truth: spec_fn(int) -> bool,
    outcome: Result<(), Error>,
)
    requires
        call_ensures(
            <PolicyContract as PolicyInterface>::check_transfer,
            (env, policy_id, asset, recipient, amount, rules),
            outcome,
        ),
        is_gate_answer(
            *env,
            policy_id@,
            (TransactionPayload { asset, recipient, amount }),
            None,
        ),
        rule_book_agrees(rules, policy_id@, (TransactionPayload { asset, recipient, amount })),
        env.ledger.composite_rules@.contains_key(policy_id@),
        is_reading(
            env.ledger.composite_rules@[policy_id@],
            (TransactionPayload { asset, recipient, amount }),
            env.ledger.blacklist@.contains_key(recipient),
            env.ledger.merchant_blacklist@.contains_key(recipient),
            part,
            height,
            truth,
        ),
        part.contains(0),
        height(0) <= 10,
    ensures
        outcome == if truth(0) {
            Ok::<(), Error>(())
        } else {
            Err(Error::PolicyDenied)
        },
{
    law_stored_rule_has_ten_levels(
        env@.ledger,
        policy_id@,
        (TransactionPayload { asset, recipient, amount }),
        part,
        height,
        truth,
    );
}

} // verus!
