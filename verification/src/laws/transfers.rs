//! Laws of the check of a transfer.

use vstd::prelude::*;
use crate::allowances::{
    allowance_denial,
    allowance_of,
    allowance_removed,
    allowance_set,
    allowance_used,
    has_expired,
};
use crate::assets::{
    asset_blacklisted,
    asset_unblacklisted,
    asset_unwhitelisted,
    asset_whitelisted,
    whitelist_switched,
};
use crate::composite::{composite_cleared, composite_set, composite_verdict};
use crate::env::{EnvView, LedgerView};
use crate::errors::Error;
use crate::events::{denied, Reason};
use crate::policies::{registered, rotated, switched, Policy};
use crate::restrictions::{merchant_blacklisted, recipient_blacklisted};
use crate::laws::rule_trees::law_rule_reads_recipient_lists;
use crate::rule_tree::{RuleNode, TransactionPayload, MAX_RULE_DEPTH};
use crate::rules::{heard, rule_question, RuleAnswer};
use crate::transfer::{denial, gate_denial, permits, transfer_denial};
use crate::values::{Address, Digest};

verus! {

/// A transfer is refused if and only if some gate does not let it pass.
pub proof fn law_denied_unless_permitted(
    env: EnvView,
    policy_id: Seq<u8>,
    payload: TransactionPayload,
    rules: Result<(), Error>,
)
    ensures
        transfer_denial(env, policy_id, payload, rules) is None <==> permits(
            env,
            policy_id,
            payload,
            rules,
        ),
        denied(transfer_denial(env, policy_id, payload, rules)) is Ok <==> permits(
            env,
            policy_id,
            payload,
            rules,
        ),
{
}

/// A restricted recipient is refused under every policy, before any gate of the
/// policy is looked at.
pub proof fn law_restricted_recipient_first(
    env: EnvView,
    listing: Seq<u8>,
    policy_id: Seq<u8>,
    payload: TransactionPayload,
    rules: Result<(), Error>,
)
    requires
        env.ledger.policies.contains_key(policy_id),
    ensures
        transfer_denial(
            recipient_blacklisted(env, listing, payload.recipient),
            policy_id,
            payload,
            rules,
        ) == denial(Error::PolicyRecipientRestricted, Reason::Blacklisted),
        !env.ledger.blacklist.contains_key(payload.recipient) ==> transfer_denial(
            merchant_blacklisted(env, listing, payload.recipient),
            policy_id,
            payload,
            rules,
        ) == denial(Error::PolicyDenied, Reason::MerchantBlocked),
{
}

/// The deny list wins: a denied asset moves under its policy on no account, though
/// the policy allows it or its whitelist holds it.
pub proof fn law_denied_asset_never_moves(
    env: EnvView,
    policy_id: Seq<u8>,
    payload: TransactionPayload,
    rules: Result<(), Error>,
)
    ensures
        ({
            let denying = asset_blacklisted(env, policy_id, payload.asset);
            &&& !permits(denying, policy_id, payload, rules)
            &&& !permits(
                asset_whitelisted(denying, policy_id, payload.asset),
                policy_id,
                payload,
                rules,
            )
            &&& permits(env, policy_id, payload, rules) ==> transfer_denial(
                denying,
                policy_id,
                payload,
                rules,
            ) == denial(Error::PolicyDenied, Reason::AssetBlacklisted)
        }),
{
    let denying = asset_blacklisted(env, policy_id, payload.asset);
    if permits(env, policy_id, payload, rules) {
        law_denied_unless_permitted(env, policy_id, payload, rules);
    }
}

/// A policy that is switched off permits nothing; switching it on again brings
/// back what it permitted.
pub proof fn law_disabled_denies(
    env: EnvView,
    policy_id: Seq<u8>,
    payload: TransactionPayload,
    rules: Result<(), Error>,
)
    requires
        env.ledger.policies.contains_key(policy_id),
    ensures
        !permits(switched(env, policy_id, false), policy_id, payload, rules),
        env.ledger.policies[policy_id].enabled ==> switched(
            switched(env, policy_id, false),
            policy_id,
            true,
        ) == env,
{
    let back = switched(switched(env, policy_id, false), policy_id, true);
    if env.ledger.policies[policy_id].enabled {
        assert(back.ledger.policies =~= env.ledger.policies);
    }
}

/// A policy that has expired permits nothing, and never will again.
pub proof fn law_expired_denies(
    env: EnvView,
    policy_id: Seq<u8>,
    payload: TransactionPayload,
    rules: Result<(), Error>,
    later: u64,
)
    requires
        env.ledger.policies.contains_key(policy_id),
        has_expired(env.ledger.policies[policy_id].expires_at, env.timestamp),
        later >= env.timestamp,
    ensures
        !permits(EnvView { timestamp: later, ..env }, policy_id, payload, rules),
{
}

/// Every transfer that is permitted is within the maximum, within what is left of
/// the allowance, and not negative.
pub proof fn law_permitted_within_limits(
    env: EnvView,
    policy_id: Seq<u8>,
    payload: TransactionPayload,
    rules: Result<(), Error>,
)
    requires
        permits(env, policy_id, payload, rules),
    ensures
        payload.amount >= 0,
        env.ledger.policies[policy_id].max_amount == 0 || payload.amount
            <= env.ledger.policies[policy_id].max_amount,
        allowance_of(env.ledger, policy_id, payload.asset).limit == 0 || allowance_of(
            env.ledger,
            policy_id,
            payload.asset,
        ).spent + payload.amount <= allowance_of(env.ledger, policy_id, payload.asset).limit,
{
}

/// A smaller transfer is permitted where a larger one is, if the policy has no
/// composite rule or the smaller transfer meets it.
pub proof fn law_smaller_transfer_permitted(
    env: EnvView,
    policy_id: Seq<u8>,
    payload: TransactionPayload,
    rules: Result<(), Error>,
    smaller: i128,
)
    requires
        permits(env, policy_id, payload, rules),
        0 <= smaller <= payload.amount,
        composite_verdict(
            env.ledger,
            policy_id,
            (TransactionPayload { amount: smaller, ..payload }),
        ) == Ok::<bool, Error>(true),
    ensures
        permits(env, policy_id, TransactionPayload { amount: smaller, ..payload }, rules),
{
}

/// A new maximum takes effect at once: under a rotated policy no larger transfer
/// is permitted, and every transfer within both maxima is permitted if and only if
/// it was before.
pub proof fn law_rotation_takes_effect(
    env: EnvView,
    policy_id: Seq<u8>,
    new_hash: Digest,
    new_max: i128,
    payload: TransactionPayload,
    rules: Result<(), Error>,
)
    requires
        env.ledger.policies.contains_key(policy_id),
    ensures
        new_max != 0 && payload.amount > new_max ==> !permits(
            rotated(env, policy_id, new_hash, new_max),
            policy_id,
            payload,
            rules,
        ),
        (new_max == 0 || payload.amount <= new_max) && permits(env, policy_id, payload, rules)
            ==> permits(rotated(env, policy_id, new_hash, new_max), policy_id, payload, rules),
        (new_max == 0 || payload.amount <= new_max) && (
        env.ledger.policies[policy_id].max_amount == 0 || payload.amount
            <= env.ledger.policies[policy_id].max_amount) ==> (permits(
            rotated(env, policy_id, new_hash, new_max),
            policy_id,
            payload,
            rules,
        ) <==> permits(env, policy_id, payload, rules)),
{
    let after = rotated(env, policy_id, new_hash, new_max);
    lemma_same_rule_same_verdict(env, after, policy_id, payload);
}

/// What is permitted can be spent: the allowance does not refuse the amount of a
/// permitted transfer.
pub proof fn law_permitted_can_be_spent(
    env: EnvView,
    policy_id: Seq<u8>,
    payload: TransactionPayload,
    rules: Result<(), Error>,
)
    requires
        permits(env, policy_id, payload, rules),
    ensures
        allowance_denial(env, policy_id, payload.asset, payload.amount) is None,
{
}

/// Restricting a recipient or a merchant, and denying an asset, permits nothing
/// that was not permitted before. Though a composite rule may ask that a recipient
/// is restricted, the lists refuse such a recipient before the rule is looked at.
pub proof fn law_restricting_permits_nothing_new(
    env: EnvView,
    listing: Seq<u8>,
    address: Address,
    policy_id: Seq<u8>,
    payload: TransactionPayload,
    rules: Result<(), Error>,
)
    requires
        !permits(env, policy_id, payload, rules),
    ensures
        !permits(recipient_blacklisted(env, listing, address), policy_id, payload, rules),
        !permits(merchant_blacklisted(env, listing, address), policy_id, payload, rules),
        !permits(asset_blacklisted(env, listing, address), policy_id, payload, rules),
{
    if address != payload.recipient {
        let restricting = recipient_blacklisted(env, listing, address);
        lemma_same_rule_same_verdict(env, restricting, policy_id, payload);
        let blocking = merchant_blacklisted(env, listing, address);
        lemma_same_rule_same_verdict(env, blocking, policy_id, payload);
    }
    let denying = asset_blacklisted(env, listing, address);
    lemma_same_rule_same_verdict(env, denying, policy_id, payload);
}

/// Whether the two ledgers agree on the eight entries that a transfer of `asset` to
/// `recipient` under the policy `policy_id` is checked by.
pub open spec fn agree_on_transfer(
    one: LedgerView,
    other: LedgerView,
    policy_id: Seq<u8>,
    asset: Address,
    recipient: Address,
) -> bool {
    &&& same_entry(one.policies, other.policies, policy_id)
    &&& same_entry(one.blacklist, other.blacklist, recipient)
    &&& same_entry(one.merchant_blacklist, other.merchant_blacklist, recipient)
    &&& same_entry(one.asset_blacklist, other.asset_blacklist, (policy_id, asset))
    &&& same_entry(one.asset_whitelist_enabled, other.asset_whitelist_enabled, policy_id)
    &&& same_entry(one.asset_whitelist, other.asset_whitelist, (policy_id, asset))
    &&& same_entry(one.allowances, other.allowances, (policy_id, asset))
    &&& same_entry(one.composite_rules, other.composite_rules, policy_id)
}

/// Whether the two ledgers agree on the policy `policy_id` and on all that is
/// listed, allowed or ruled under it, and on the recipient lists that all policies
/// share.
pub open spec fn agree_on(one: LedgerView, other: LedgerView, policy_id: Seq<u8>) -> bool {
    &&& one.blacklist == other.blacklist
    &&& one.merchant_blacklist == other.merchant_blacklist
    &&& same_entry(one.policies, other.policies, policy_id)
    &&& same_entry(one.asset_whitelist_enabled, other.asset_whitelist_enabled, policy_id)
    &&& same_entry(one.composite_rules, other.composite_rules, policy_id)
    &&& forall|asset: Address| #[trigger]
        same_entry(one.asset_whitelist, other.asset_whitelist, (policy_id, asset))
    &&& forall|asset: Address| #[trigger]
        same_entry(one.asset_blacklist, other.asset_blacklist, (policy_id, asset))
    &&& forall|asset: Address| #[trigger]
        same_entry(one.allowances, other.allowances, (policy_id, asset))
}

/// Whether the two maps hold the same under `key`.
pub open spec fn same_entry<K, V>(one: Map<K, V>, other: Map<K, V>, key: K) -> bool {
    &&& one.contains_key(key) == other.contains_key(key)
    &&& one.contains_key(key) ==> one[key] == other[key]
}

/// A transfer is checked by eight entries and nothing else of the ledger: the
/// policy, its composite rule, the switch of its whitelist, the recipient on the
/// two recipient lists, and the asset on the policy's two asset lists and among its
/// allowances. A ledger into which only these were read gives the same answers, and
/// asks the rule book about the same transfers.
pub proof fn law_transfer_reads_its_entries(
    env: EnvView,
    other: LedgerView,
    policy_id: Seq<u8>,
    payload: TransactionPayload,
    rules: Result<(), Error>,
)
    requires
        agree_on_transfer(env.ledger, other, policy_id, payload.asset, payload.recipient),
    ensures
        gate_denial(env.with_ledger(other), policy_id, payload) == gate_denial(
            env,
            policy_id,
            payload,
        ),
        transfer_denial(env.with_ledger(other), policy_id, payload, rules) == transfer_denial(
            env,
            policy_id,
            payload,
            rules,
        ),
{
    lemma_same_rule_same_verdict(env, env.with_ledger(other), policy_id, payload);
}

/// Each policy governs its own transfers: what it answers depends on its own
/// entries and on the shared recipient lists, and on nothing else of the ledger.
pub proof fn law_policy_reads_own_entries(
    env: EnvView,
    other: LedgerView,
    policy_id: Seq<u8>,
    payload: TransactionPayload,
    rules: Result<(), Error>,
)
    requires
        agree_on(env.ledger, other, policy_id),
    ensures
        transfer_denial(env.with_ledger(other), policy_id, payload, rules) == transfer_denial(
            env,
            policy_id,
            payload,
            rules,
        ),
{
    law_transfer_reads_its_entries(env, other, policy_id, payload, rules);
}

/// Whatever is registered, rotated, switched, allowed, denied, limited or ruled
/// under one policy leaves the entries of every other policy alone.
pub proof fn law_changes_stay_in_their_policy(
    env: EnvView,
    changed: Seq<u8>,
    policy: Policy,
    new_hash: Digest,
    asset: Address,
    rule_tree: Seq<RuleNode>,
    limit: i128,
    expires_at: u64,
    amount: i128,
    enabled: bool,
    policy_id: Seq<u8>,
)
    requires
        changed != policy_id,
    ensures
        agree_on(
            env.ledger,
            asset_whitelisted(env, changed, asset).ledger,
            policy_id,
        ),
        agree_on(
            env.ledger,
            asset_unwhitelisted(env, changed, asset).ledger,
            policy_id,
        ),
        agree_on(
            env.ledger,
            asset_blacklisted(env, changed, asset).ledger,
            policy_id,
        ),
        agree_on(
            env.ledger,
            asset_unblacklisted(env, changed, asset).ledger,
            policy_id,
        ),
        agree_on(
            env.ledger,
            whitelist_switched(env, changed, enabled).ledger,
            policy_id,
        ),
        agree_on(
            env.ledger,
            allowance_set(env, changed, asset, limit, expires_at).ledger,
            policy_id,
        ),
        agree_on(
            env.ledger,
            allowance_removed(env, changed, asset).ledger,
            policy_id,
        ),
        agree_on(
            env.ledger,
            allowance_used(env, changed, asset, amount).ledger,
            policy_id,
        ),
        agree_on(
            env.ledger,
            composite_set(env, changed, rule_tree).ledger,
            policy_id,
        ),
        agree_on(
            env.ledger,
            composite_cleared(env, changed).ledger,
            policy_id,
        ),
        agree_on(
            env.ledger,
            switched(env, changed, enabled).ledger,
            policy_id,
        ),
        agree_on(
            env.ledger,
            rotated(env, changed, new_hash, limit).ledger,
            policy_id,
        ),
        agree_on(
            env.ledger,
            registered(env, changed, policy).ledger,
            policy_id,
        ),
{
}

proof fn lemma_same_rule_same_verdict(
    env: EnvView,
    other: EnvView,
    policy_id: Seq<u8>,
    payload: TransactionPayload,
)
    requires
        same_entry(env.ledger.blacklist, other.ledger.blacklist, payload.recipient),
        same_entry(
            env.ledger.merchant_blacklist,
            other.ledger.merchant_blacklist,
            payload.recipient,
        ),
        same_entry(env.ledger.composite_rules, other.ledger.composite_rules, policy_id),
    ensures
        composite_verdict(env.ledger, policy_id, payload) == composite_verdict(
            other.ledger,
            policy_id,
            payload,
        ),
{
    if env.ledger.composite_rules.contains_key(policy_id) {
        law_rule_reads_recipient_lists(
            env.ledger,
            other.ledger,
            env.ledger.composite_rules[policy_id],
            0,
            payload,
            MAX_RULE_DEPTH as nat,
        );
    }
}

/// The rule book is asked last but for the composite rule. Where a gate before it
/// denies the transfer, no answer of the rule book changes the refusal; where none
/// does, its denial is the refusal, and any other answer leaves the decision to the
/// composite rule.
pub proof fn law_rule_book_decides_only_if_asked(
    env: EnvView,
    policy_id: Seq<u8>,
    payload: TransactionPayload,
    one: Result<(), Error>,
    other: Result<(), Error>,
)
    ensures
        ({
            let gates = gate_denial(env, policy_id, payload);
            let refusal = transfer_denial(env, policy_id, payload, one);
            let is_denial = one == Err::<(), Error>(Error::RuleDenied);
            &&& gates is Some ==> refusal == gates && refusal == transfer_denial(
                env,
                policy_id,
                payload,
                other,
            )
            &&& gates is None && is_denial ==> refusal == denial(
                Error::RuleDenied,
                Reason::RuleDenied,
            )
            &&& gates is None && !is_denial ==> (refusal is None <==> composite_verdict(
                env.ledger,
                policy_id,
                payload,
            ) == Ok::<bool, Error>(true))
        }),
{
}

/// Silence of the rule book, and its answer to a question about another policy,
/// recipient or asset, permit nothing.
pub proof fn law_unheard_rule_book_permits_nothing(
    env: EnvView,
    policy_id: Seq<u8>,
    payload: TransactionPayload,
    answer: Option<RuleAnswer>,
)
    requires
        answer matches Some(a) ==> a.query@ != rule_question(policy_id, payload),
    ensures
        !permits(env, policy_id, payload, heard(answer, policy_id, payload)),
{
}

/// A composite rule that does not hold denies the transfer, however open the other
/// gates are.
pub proof fn law_composite_rule_denies(
    env: EnvView,
    policy_id: Seq<u8>,
    payload: TransactionPayload,
    rules: Result<(), Error>,
)
    requires
        composite_verdict(env.ledger, policy_id, payload) != Ok::<bool, Error>(true),
    ensures
        !permits(env, policy_id, payload, rules),
{
}

/// A policy whose gates are all open permits every transfer that is not negative,
/// once it is registered under a fresh id that no list, allowance or rule speaks
/// of.
pub proof fn law_open_policy_permits(
    env: EnvView,
    policy_id: Seq<u8>,
    policy: Policy,
    payload: TransactionPayload,
    rules: Result<(), Error>,
)
    requires
        env.ledger.consistent(),
        !env.ledger.policies.contains_key(policy_id),
        policy.enabled,
        policy.max_amount == 0,
        policy.allowed_recipient is None,
        policy.allowed_asset is None,
        policy.expires_at == 0,
        !env.ledger.blacklist.contains_key(payload.recipient),
        !env.ledger.merchant_blacklist.contains_key(payload.recipient),
        payload.amount >= 0,
        rules != Err::<(), Error>(Error::RuleDenied),
    ensures
        permits(registered(env, policy_id, policy), policy_id, payload, rules),
{
    let after = registered(env, policy_id, policy);
    assert(!env.ledger.asset_blacklist.contains_key((policy_id, payload.asset)));
    assert(!env.ledger.asset_whitelist_enabled.contains_key(policy_id));
    assert(!env.ledger.allowances.contains_key((policy_id, payload.asset)));
    assert(!env.ledger.composite_rules.contains_key(policy_id));
}

} // verus!
