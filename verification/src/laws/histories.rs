//! Laws of what a series of calls leaves behind.

use vstd::prelude::*;
use crate::allowances::{
    allowance_denial,
    allowance_of,
    allowance_removed,
    allowance_set,
    allowance_used,
    has_expired,
    set_allowance_outcome,
};
use crate::assets::{
    asset_blacklisted,
    asset_unblacklisted,
    asset_unwhitelisted,
    asset_whitelisted,
    whitelist_allows,
    whitelist_switched,
};
use crate::composite::{composite_cleared, composite_set, set_composite_outcome};
use crate::env::{EnvView, LedgerView};
use crate::errors::Error;
use crate::events::denied;
use crate::laws::transfers::{agree_on, same_entry};
use crate::policies::{
    add_outcome,
    owner_gate,
    register_outcome,
    registered,
    remove_outcome,
    rotated,
    switched,
    Policy,
};
use crate::restrictions::{
    category_blacklisted,
    category_gate,
    category_unblacklisted,
    merchant_blacklisted,
    merchant_unblacklisted,
    recipient_blacklisted,
    recipient_unblacklisted,
};
use crate::rule_tree::{RuleNode, TransactionPayload};
use crate::transfer::permits;
use crate::upgrade::{authority_recorded, set_authority_outcome, UpgradeAuthority};
use crate::values::{Address, Digest};

verus! {

/// What a call asks to be changed.
pub enum Change {
    /// `initialize`.
    Initialize,
    /// `register_policy`.
    Register {
        config_hash: Digest,
        max_amount: i128,
        allowed_recipient: Option<Address>,
        allowed_asset: Option<Address>,
        expires_at: u64,
    },
    /// `rotate_policy`.
    Rotate { new_hash: Digest, new_max: i128 },
    /// `set_enabled`.
    Switch { enabled: bool },
    /// `add_blacklist` and `add_to_blocklist`.
    RestrictRecipient { address: Address },
    /// `remove_blacklist` and `remove_from_blocklist`.
    ReleaseRecipient { address: Address },
    /// `add_merchant_blacklist`.
    RestrictMerchant { merchant: Address },
    /// `remove_merchant_blacklist`.
    ReleaseMerchant { merchant: Address },
    /// `add_category_blacklist`.
    RestrictCategory { category: Seq<u8> },
    /// `remove_category_blacklist`.
    ReleaseCategory { category: Seq<u8> },
    /// `add_asset_to_whitelist`.
    AllowAsset { asset: Address },
    /// `remove_asset_from_whitelist`.
    DisallowAsset { asset: Address },
    /// `add_asset_blacklist`.
    DenyAsset { asset: Address },
    /// `remove_asset_blacklist`.
    UndenyAsset { asset: Address },
    /// `set_asset_whitelist_enabled`.
    SwitchWhitelist { enabled: bool },
    /// `set_allowance`.
    SetAllowance { asset: Address, limit: i128, expires_at: u64 },
    /// `remove_allowance`.
    RemoveAllowance { asset: Address },
    /// `update_allowance`.
    Spend { asset: Address, amount: i128 },
    /// `set_composite_rule`.
    SetRule { rule_tree: Seq<RuleNode> },
    /// `clear_composite_rule`.
    ClearRule,
    /// `set_upgrade_authority`.
    RecordAuthority { admin: Address, registry: Address },
    /// Nothing but the time: the calls that change no ledger entry.
    Wait { until: u64 },
}

/// A call that `caller` makes on a policy.
pub struct Call {
    pub caller: Address,
    pub policy_id: Seq<u8>,
    pub change: Change,
}

/// What a call is answered.
pub open spec fn call_outcome(env: EnvView, call: Call) -> Result<(), Error> {
    let ledger = env.ledger;
    let id = call.policy_id;
    let gate = owner_gate(ledger, call.caller, id);
    match call.change {
        Change::Initialize => if ledger.count is Some {
            Err(Error::AlreadyInitialized)
        } else {
            Ok(())
        },
        Change::Register { .. } => register_outcome(ledger, id),
        Change::Rotate { .. } => gate,
        Change::Switch { .. } => gate,
        Change::RestrictRecipient { address } => add_outcome(
            gate,
            ledger.blacklist.contains_key(address),
        ),
        Change::ReleaseRecipient { address } => remove_outcome(
            gate,
            ledger.blacklist.contains_key(address),
        ),
        Change::RestrictMerchant { merchant } => add_outcome(
            gate,
            ledger.merchant_blacklist.contains_key(merchant),
        ),
        Change::ReleaseMerchant { merchant } => remove_outcome(
            gate,
            ledger.merchant_blacklist.contains_key(merchant),
        ),
        Change::RestrictCategory { category } => add_outcome(
            category_gate(ledger, call.caller, id, category),
            ledger.category_blacklist.contains_key(category),
        ),
        Change::ReleaseCategory { category } => remove_outcome(
            gate,
            ledger.category_blacklist.contains_key(category),
        ),
        Change::AllowAsset { asset } => add_outcome(
            gate,
            ledger.asset_whitelist.contains_key((id, asset)),
        ),
        Change::DisallowAsset { asset } => remove_outcome(
            gate,
            ledger.asset_whitelist.contains_key((id, asset)),
        ),
        Change::DenyAsset { asset } => add_outcome(
            gate,
            ledger.asset_blacklist.contains_key((id, asset)),
        ),
        Change::UndenyAsset { asset } => remove_outcome(
            gate,
            ledger.asset_blacklist.contains_key((id, asset)),
        ),
        Change::SwitchWhitelist { .. } => gate,
        Change::SetAllowance { limit, .. } => set_allowance_outcome(
            ledger,
            call.caller,
            id,
            limit,
        ),
        Change::RemoveAllowance { asset } => remove_outcome(
            gate,
            ledger.allowances.contains_key((id, asset)),
        ),
        Change::Spend { asset, amount } => denied(allowance_denial(env, id, asset, amount)),
        Change::SetRule { rule_tree } => set_composite_outcome(ledger, call.caller, id, rule_tree),
        Change::ClearRule => remove_outcome(gate, ledger.composite_rules.contains_key(id)),
        Change::RecordAuthority { .. } => set_authority_outcome(ledger, call.caller),
        Change::Wait { .. } => Ok(()),
    }
}

/// The environment after a call that was answered `Ok`.
pub open spec fn call_effect(env: EnvView, call: Call) -> EnvView {
    let id = call.policy_id;
    match call.change {
        Change::Initialize => env.with_ledger(LedgerView { count: Some(0), ..env.ledger }),
        Change::Register {
            config_hash,
            max_amount,
            allowed_recipient,
            allowed_asset,
            expires_at,
        } => registered(
            env,
            id,
            Policy {
                owner: call.caller,
                config_hash,
                max_amount,
                allowed_recipient,
                allowed_asset,
                expires_at,
                enabled: true,
            },
        ),
        Change::Rotate { new_hash, new_max } => rotated(env, id, new_hash, new_max),
        Change::Switch { enabled } => switched(env, id, enabled),
        Change::RestrictRecipient { address } => recipient_blacklisted(env, id, address),
        Change::ReleaseRecipient { address } => recipient_unblacklisted(env, id, address),
        Change::RestrictMerchant { merchant } => merchant_blacklisted(env, id, merchant),
        Change::ReleaseMerchant { merchant } => merchant_unblacklisted(env, id, merchant),
        Change::RestrictCategory { category } => category_blacklisted(env, id, category),
        Change::ReleaseCategory { category } => category_unblacklisted(env, id, category),
        Change::AllowAsset { asset } => asset_whitelisted(env, id, asset),
        Change::DisallowAsset { asset } => asset_unwhitelisted(env, id, asset),
        Change::DenyAsset { asset } => asset_blacklisted(env, id, asset),
        Change::UndenyAsset { asset } => asset_unblacklisted(env, id, asset),
        Change::SwitchWhitelist { enabled } => whitelist_switched(env, id, enabled),
        Change::SetAllowance { asset, limit, expires_at } => allowance_set(
            env,
            id,
            asset,
            limit,
            expires_at,
        ),
        Change::RemoveAllowance { asset } => allowance_removed(env, id, asset),
        Change::Spend { asset, amount } => allowance_used(env, id, asset, amount),
        Change::SetRule { rule_tree } => composite_set(env, id, rule_tree),
        Change::ClearRule => composite_cleared(env, id),
        Change::RecordAuthority { admin, registry } => authority_recorded(
            env,
            UpgradeAuthority { admin, registry },
        ),
        Change::Wait { until } => EnvView { timestamp: until, ..env },
    }
}

/// The environment after the calls were made one after the other. A call that is
/// refused changes nothing.
pub open spec fn history(env: EnvView, calls: Seq<Call>) -> EnvView
    decreases calls.len(),
{
    if calls.len() == 0 {
        env
    } else {
        let before = history(env, calls.drop_last());
        if call_outcome(before, calls.last()) is Ok {
            call_effect(before, calls.last())
        } else {
            before
        }
    }
}

/// Whether the call number `i` of the series is answered `Ok`.
pub open spec fn succeeds(env: EnvView, calls: Seq<Call>, i: int) -> bool {
    call_outcome(history(env, calls.take(i)), calls[i]) is Ok
}

/// The calls of a series fare the same whatever follows them.
proof fn lemma_earlier_calls(env: EnvView, calls: Seq<Call>)
    requires
        calls.len() > 0,
    ensures
        succeeds(env, calls, calls.len() - 1) <==> call_outcome(
            history(env, calls.drop_last()),
            calls.last(),
        ) is Ok,
        forall|i: int|
            0 <= i < calls.len() - 1 ==> #[trigger] succeeds(env, calls.drop_last(), i)
                == succeeds(env, calls, i),
{
    let earlier = calls.drop_last();
    assert(calls.take(calls.len() - 1) =~= earlier);
    assert forall|i: int| 0 <= i < calls.len() - 1 implies #[trigger] succeeds(env, earlier, i)
        == succeeds(env, calls, i) by {
        assert(earlier.take(i) =~= calls.take(i));
    }
}

/// Whether the two ledgers hold a policy under `policy_id` with the same owner,
/// the same allowed recipient and asset, and the same end.
pub open spec fn same_terms(one: LedgerView, other: LedgerView, policy_id: Seq<u8>) -> bool {
    &&& one.policies.contains_key(policy_id)
    &&& other.policies.contains_key(policy_id)
    &&& one.policies[policy_id].owner == other.policies[policy_id].owner
    &&& one.policies[policy_id].allowed_recipient == other.policies[policy_id].allowed_recipient
    &&& one.policies[policy_id].allowed_asset == other.policies[policy_id].allowed_asset
    &&& one.policies[policy_id].expires_at == other.policies[policy_id].expires_at
}

/// A policy that is registered stays registered, with its owner, its allowed
/// recipient and asset, and its end, whatever is called.
pub proof fn law_registered_terms_stay(env: EnvView, policy_id: Seq<u8>, calls: Seq<Call>)
    requires
        env.ledger.policies.contains_key(policy_id),
    ensures
        same_terms(env.ledger, history(env, calls).ledger, policy_id),
    decreases calls.len(),
{
    if calls.len() > 0 {
        law_registered_terms_stay(env, policy_id, calls.drop_last());
    }
}

/// Every state that calls lead to from an empty ledger is consistent.
pub proof fn law_every_state_is_consistent(env: EnvView, calls: Seq<Call>)
    requires
        env.ledger == LedgerView::empty(),
    ensures
        history(env, calls).ledger.consistent(),
    decreases calls.len(),
{
    if calls.len() > 0 {
        law_every_state_is_consistent(env, calls.drop_last());
        let before = history(env, calls.drop_last());
        if call_outcome(before, calls.last()) is Ok {
            lemma_call_keeps_consistency(before, calls.last());
        }
    }
}

proof fn lemma_call_keeps_consistency(env: EnvView, call: Call)
    requires
        env.ledger.consistent(),
        call_outcome(env, call) is Ok,
    ensures
        call_effect(env, call).ledger.consistent(),
{
}

/// An asset that a policy denies stays denied, whatever is called and whoever
/// calls, until the owner of the policy takes it off the deny list; meanwhile the
/// policy permits no transfer of it.
pub proof fn law_denied_asset_stays_denied(
    env: EnvView,
    policy_id: Seq<u8>,
    payload: TransactionPayload,
    rules: Result<(), Error>,
    calls: Seq<Call>,
)
    requires
        env.ledger.policies.contains_key(policy_id),
        env.ledger.asset_blacklist.contains_key((policy_id, payload.asset)),
        forall|i: int|
            0 <= i < calls.len() && #[trigger] succeeds(env, calls, i) ==> calls[i] != (Call {
                caller: env.ledger.policies[policy_id].owner,
                policy_id,
                change: Change::UndenyAsset { asset: payload.asset },
            }),
    ensures
        history(env, calls).ledger.asset_blacklist.contains_key((policy_id, payload.asset)),
        !permits(history(env, calls), policy_id, payload, rules),
    decreases calls.len(),
{
    if calls.len() > 0 {
        lemma_earlier_calls(env, calls);
        law_denied_asset_stays_denied(env, policy_id, payload, rules, calls.drop_last());
        law_registered_terms_stay(env, policy_id, calls.drop_last());
    }
}

/// The last switch counts: once the owner of a policy has switched its asset
/// whitelist, it stays on or off, whatever is called and whoever calls, until the
/// owner switches it again.
pub proof fn law_last_whitelist_switch_counts(
    env: EnvView,
    policy_id: Seq<u8>,
    enabled: bool,
    asset: Address,
    calls: Seq<Call>,
)
    requires
        env.ledger.policies.contains_key(policy_id),
        forall|i: int|
            0 <= i < calls.len() && #[trigger] succeeds(
                whitelist_switched(env, policy_id, enabled),
                calls,
                i,
            ) ==> !(calls[i].caller == env.ledger.policies[policy_id].owner && calls[i].policy_id
                == policy_id && calls[i].change is SwitchWhitelist),
    ensures
        ({
            let ledger = history(whitelist_switched(env, policy_id, enabled), calls).ledger;
            &&& ledger.asset_whitelist_enabled.contains_key(policy_id)
            &&& ledger.asset_whitelist_enabled[policy_id] == enabled
            &&& whitelist_allows(ledger, policy_id, asset) <==> !enabled
                || ledger.asset_whitelist.contains_key((policy_id, asset))
        }),
    decreases calls.len(),
{
    if calls.len() > 0 {
        let start = whitelist_switched(env, policy_id, enabled);
        lemma_earlier_calls(start, calls);
        law_last_whitelist_switch_counts(env, policy_id, enabled, asset, calls.drop_last());
        law_registered_terms_stay(start, policy_id, calls.drop_last());
    }
}

/// A whitelist that was never switched is off: under its policy every asset passes
/// it, whatever else is called.
pub proof fn law_whitelist_is_off_at_first(
    env: EnvView,
    policy_id: Seq<u8>,
    asset: Address,
    calls: Seq<Call>,
)
    requires
        !env.ledger.asset_whitelist_enabled.contains_key(policy_id),
        forall|i: int|
            0 <= i < calls.len() && #[trigger] succeeds(env, calls, i) ==> !(calls[i].policy_id
                == policy_id && calls[i].change is SwitchWhitelist),
    ensures
        !history(env, calls).ledger.asset_whitelist_enabled.contains_key(policy_id),
        whitelist_allows(history(env, calls).ledger, policy_id, asset),
    decreases calls.len(),
{
    if calls.len() > 0 {
        lemma_earlier_calls(env, calls);
        law_whitelist_is_off_at_first(env, policy_id, asset, calls.drop_last());
    }
}

/// What the calls of a series that are answered `Ok` spend of an asset under a
/// policy.
pub open spec fn spent_by(
    env: EnvView,
    calls: Seq<Call>,
    policy_id: Seq<u8>,
    asset: Address,
) -> int
    decreases calls.len(),
{
    if calls.len() == 0 {
        0
    } else {
        let before = history(env, calls.drop_last());
        let earlier = spent_by(env, calls.drop_last(), policy_id, asset);
        match spend_of(calls.last(), policy_id, asset) {
            Some(amount) => if call_outcome(before, calls.last()) is Ok {
                earlier + amount
            } else {
                earlier
            },
            None => earlier,
        }
    }
}

/// What the call asks to spend of an asset under a policy, if it asks for that.
pub open spec fn spend_of(call: Call, policy_id: Seq<u8>, asset: Address) -> Option<i128> {
    match call.change {
        Change::Spend { asset: spent, amount } => if call.policy_id == policy_id && spent == asset {
            Some(amount)
        } else {
            None
        },
        _ => None,
    }
}

/// Whether the call asks for the end of the limit on an asset under a policy: it
/// removes the allowance, or sets its limit to 0.
pub open spec fn lifts_limit(call: Call, policy_id: Seq<u8>, asset: Address) -> bool {
    call.policy_id == policy_id && match call.change {
        Change::RemoveAllowance { asset: removed } => removed == asset,
        Change::SetAllowance { asset: set, limit, .. } => set == asset && limit == 0,
        _ => false,
    }
}

/// Whether the call asks for a limit above `cap` on an asset under a policy.
pub open spec fn raises_limit(
    call: Call,
    policy_id: Seq<u8>,
    asset: Address,
    cap: i128,
) -> bool {
    call.policy_id == policy_id && match call.change {
        Change::SetAllowance { asset: set, limit, .. } => set == asset && limit > cap,
        _ => false,
    }
}

/// The limit is cumulative over the life of an allowance. As long as no call lifts
/// it, every spend is counted and nothing else is, whatever is called between the
/// spends and however the limit and the end change; and a spend that is let pass
/// leaves all that was spent within the limit of its day.
pub proof fn law_limit_is_cumulative(
    env: EnvView,
    policy_id: Seq<u8>,
    asset: Address,
    calls: Seq<Call>,
)
    requires
        allowance_of(env.ledger, policy_id, asset).limit != 0,
        forall|i: int|
            0 <= i < calls.len() && #[trigger] succeeds(env, calls, i) ==> !lifts_limit(
                calls[i],
                policy_id,
                asset,
            ),
    ensures
        ({
            let before = allowance_of(env.ledger, policy_id, asset);
            let after = allowance_of(history(env, calls).ledger, policy_id, asset);
            &&& after.limit != 0
            &&& after.spent == before.spent + spent_by(env, calls, policy_id, asset)
            &&& calls.len() > 0 && succeeds(env, calls, calls.len() - 1) && spend_of(
                calls.last(),
                policy_id,
                asset,
            ) is Some ==> after.spent <= after.limit
        }),
    decreases calls.len(),
{
    if calls.len() > 0 {
        lemma_earlier_calls(env, calls);
        law_limit_is_cumulative(env, policy_id, asset, calls.drop_last());
    }
}

/// What is spent never passes the highest limit: as long as no call lifts the limit
/// or sets one above `cap`, all spends together stay within `cap`.
pub proof fn law_spends_stay_within_the_cap(
    env: EnvView,
    policy_id: Seq<u8>,
    asset: Address,
    cap: i128,
    calls: Seq<Call>,
)
    requires
        allowance_of(env.ledger, policy_id, asset).limit != 0,
        allowance_of(env.ledger, policy_id, asset).limit <= cap,
        allowance_of(env.ledger, policy_id, asset).spent <= cap,
        forall|i: int|
            0 <= i < calls.len() && #[trigger] succeeds(env, calls, i) ==> !lifts_limit(
                calls[i],
                policy_id,
                asset,
            ) && !raises_limit(calls[i], policy_id, asset, cap),
    ensures
        allowance_of(env.ledger, policy_id, asset).spent + spent_by(env, calls, policy_id, asset)
            <= cap,
        allowance_of(history(env, calls).ledger, policy_id, asset).limit <= cap,
    decreases calls.len(),
{
    law_limit_is_cumulative(env, policy_id, asset, calls);
    if calls.len() > 0 {
        lemma_earlier_calls(env, calls);
        law_spends_stay_within_the_cap(env, policy_id, asset, cap, calls.drop_last());
        law_limit_is_cumulative(env, policy_id, asset, calls.drop_last());
    }
}

/// A policy whose end has come permits nothing, whatever was called: its end is as
/// fixed as its other terms.
pub proof fn law_ended_policy_permits_nothing(
    env: EnvView,
    policy_id: Seq<u8>,
    payload: TransactionPayload,
    rules: Result<(), Error>,
    calls: Seq<Call>,
)
    requires
        env.ledger.policies.contains_key(policy_id),
        has_expired(env.ledger.policies[policy_id].expires_at, history(env, calls).timestamp),
    ensures
        !permits(history(env, calls), policy_id, payload, rules),
{
    law_registered_terms_stay(env, policy_id, calls);
}

/// A policy that is switched off stays off, and permits nothing, until its owner
/// switches it on.
pub proof fn law_disabled_policy_stays_disabled(
    env: EnvView,
    policy_id: Seq<u8>,
    payload: TransactionPayload,
    rules: Result<(), Error>,
    calls: Seq<Call>,
)
    requires
        env.ledger.policies.contains_key(policy_id),
        !env.ledger.policies[policy_id].enabled,
        forall|i: int|
            0 <= i < calls.len() && #[trigger] succeeds(env, calls, i) ==> calls[i] != (Call {
                caller: env.ledger.policies[policy_id].owner,
                policy_id,
                change: Change::Switch { enabled: true },
            }),
    ensures
        history(env, calls).ledger.policies.contains_key(policy_id),
        !history(env, calls).ledger.policies[policy_id].enabled,
        !permits(history(env, calls), policy_id, payload, rules),
    decreases calls.len(),
{
    if calls.len() > 0 {
        lemma_earlier_calls(env, calls);
        law_disabled_policy_stays_disabled(env, policy_id, payload, rules, calls.drop_last());
        law_registered_terms_stay(env, policy_id, calls.drop_last());
    }
}

/// A composite rule that is stored for a policy stays stored, node by node, whatever
/// is called, until the owner of the policy sets another or clears it; and a policy
/// without one has none until its owner sets one.
pub proof fn law_composite_rule_stays(env: EnvView, policy_id: Seq<u8>, calls: Seq<Call>)
    requires
        env.ledger.policies.contains_key(policy_id),
        forall|i: int|
            0 <= i < calls.len() && #[trigger] succeeds(env, calls, i) ==> !(calls[i].caller
                == env.ledger.policies[policy_id].owner && calls[i].policy_id == policy_id && (
            calls[i].change is SetRule || calls[i].change is ClearRule)),
    ensures
        ({
            let before = env.ledger.composite_rules;
            let after = history(env, calls).ledger.composite_rules;
            &&& after.contains_key(policy_id) == before.contains_key(policy_id)
            &&& before.contains_key(policy_id) ==> after[policy_id] == before[policy_id]
        }),
    decreases calls.len(),
{
    if calls.len() > 0 {
        lemma_earlier_calls(env, calls);
        law_composite_rule_stays(env, policy_id, calls.drop_last());
        law_registered_terms_stay(env, policy_id, calls.drop_last());
    }
}

/// Whether the call changes one of the lists that all policies share and that a
/// transfer is checked by.
pub open spec fn changes_recipient_lists(call: Call) -> bool {
    ||| call.change is RestrictRecipient
    ||| call.change is ReleaseRecipient
    ||| call.change is RestrictMerchant
    ||| call.change is ReleaseMerchant
}

/// Each policy governs its own: calls on other policies leave its entries alone,
/// as long as they do not change the recipient lists that all policies share.
pub proof fn law_other_policies_leave_it_alone(
    env: EnvView,
    policy_id: Seq<u8>,
    calls: Seq<Call>,
)
    requires
        forall|i: int|
            0 <= i < calls.len() && #[trigger] succeeds(env, calls, i) ==> calls[i].policy_id
                != policy_id && !changes_recipient_lists(calls[i]),
    ensures
        agree_on(env.ledger, history(env, calls).ledger, policy_id),
    decreases calls.len(),
{
    if calls.len() > 0 {
        lemma_earlier_calls(env, calls);
        law_other_policies_leave_it_alone(env, policy_id, calls.drop_last());
        let before = history(env, calls.drop_last()).ledger;
        let after = history(env, calls).ledger;
        assert forall|asset: Address| #[trigger]
            same_entry(
                env.ledger.asset_whitelist,
                after.asset_whitelist,
                (policy_id, asset),
            ) by {
            assert(same_entry(
                env.ledger.asset_whitelist,
                before.asset_whitelist,
                (policy_id, asset),
            ));
        }
        assert forall|asset: Address| #[trigger]
            same_entry(
                env.ledger.asset_blacklist,
                after.asset_blacklist,
                (policy_id, asset),
            ) by {
            assert(same_entry(
                env.ledger.asset_blacklist,
                before.asset_blacklist,
                (policy_id, asset),
            ));
        }
        assert forall|asset: Address| #[trigger]
            same_entry(env.ledger.allowances, after.allowances, (policy_id, asset)) by {
            assert(same_entry(env.ledger.allowances, before.allowances, (policy_id, asset)));
        }
    }
}

/// The recorded upgrade authority stays until its admin records another.
pub proof fn law_authority_stays(env: EnvView, authority: UpgradeAuthority, calls: Seq<Call>)
    requires
        env.ledger.authority == Some(authority),
        forall|i: int|
            0 <= i < calls.len() && #[trigger] succeeds(env, calls, i) ==> !(calls[i].caller
                == authority.admin && calls[i].change is RecordAuthority),
    ensures
        history(env, calls).ledger.authority == Some(authority),
    decreases calls.len(),
{
    if calls.len() > 0 {
        lemma_earlier_calls(env, calls);
        law_authority_stays(env, authority, calls.drop_last());
    }
}

/// A restricted merchant stays restricted under every policy until someone releases
/// it.
pub proof fn law_restricted_merchant_stays(
    env: EnvView,
    policy_id: Seq<u8>,
    payload: TransactionPayload,
    rules: Result<(), Error>,
    calls: Seq<Call>,
)
    requires
        env.ledger.merchant_blacklist.contains_key(payload.recipient),
        forall|i: int|
            0 <= i < calls.len() && #[trigger] succeeds(env, calls, i) ==> calls[i].change != (
            Change::ReleaseMerchant { merchant: payload.recipient }),
    ensures
        history(env, calls).ledger.merchant_blacklist.contains_key(payload.recipient),
        !permits(history(env, calls), policy_id, payload, rules),
    decreases calls.len(),
{
    if calls.len() > 0 {
        lemma_earlier_calls(env, calls);
        law_restricted_merchant_stays(env, policy_id, payload, rules, calls.drop_last());
    }
}

/// A restricted recipient stays restricted under every policy until someone
/// releases it.
pub proof fn law_restricted_recipient_stays(
    env: EnvView,
    policy_id: Seq<u8>,
    payload: TransactionPayload,
    rules: Result<(), Error>,
    calls: Seq<Call>,
)
    requires
        env.ledger.blacklist.contains_key(payload.recipient),
        forall|i: int|
            0 <= i < calls.len() && #[trigger] succeeds(env, calls, i) ==> calls[i].change != (
            Change::ReleaseRecipient { address: payload.recipient }),
    ensures
        history(env, calls).ledger.blacklist.contains_key(payload.recipient),
        !permits(history(env, calls), policy_id, payload, rules),
    decreases calls.len(),
{
    if calls.len() > 0 {
        lemma_earlier_calls(env, calls);
        law_restricted_recipient_stays(env, policy_id, payload, rules, calls.drop_last());
    }
}

} // verus!
