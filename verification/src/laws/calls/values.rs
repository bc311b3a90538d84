//! Laws of the values, tables and environments that calls work on.

use vstd::prelude::*;
use crate::allowances::{AllowanceView, AssetAllowance};
use crate::checks::{checked_add, checked_sub, require_non_empty, require_non_negative_amount};
use crate::env::{events_policy_violation, publish_denial, Env, Ledger};
use crate::errors::Error;
use crate::events::{
    Action,
    ActionView,
    Denial,
    Event,
    EventView,
    Reason,
    Subject,
    SubjectView,
    Topic,
};
use crate::laws::calls::{
    announcement,
    asks_for,
    keeps_all_but,
    leaves_alone,
    lemma_same_view,
    lemma_view,
    only_reports,
    Part,
    lemma_reported,
};
use crate::policies::Policy;
use crate::rule_tree::RuleNode;
use crate::table::{lemma_position, Key, Table};
use crate::values::{Address, Text};

verus! {

/// The views leave nothing out and change nothing: every field of a value is found
/// again in its view.
pub proof fn law_views_are_faithful(
    env: Env,
    text: Text,
    allowance: AssetAllowance,
    policy: Policy,
    address: Address,
    i: int,
)
    ensures
        text@ == text.bytes@,
        policy@ == policy,
        address@ == address,
        allowance@.policy_id == allowance.policy_id.bytes@,
        allowance@.asset == allowance.asset,
        allowance@.limit == allowance.limit,
        allowance@.spent == allowance.spent,
        allowance@.expires_at == allowance.expires_at,
        env@.timestamp == env.timestamp,
        env@.authorized == env.authorized@.to_set(),
        env@.actions.len() == env.actions@.len(),
        0 <= i < env.actions@.len() ==> env@.actions[i] == env.actions@[i]@,
        env@.ledger.count == env.ledger.count,
        env@.ledger.authority == env.ledger.authority,
        env@.ledger.policies == env.ledger.policies@,
        env@.ledger.blacklist == env.ledger.blacklist@,
        env@.ledger.merchant_blacklist == env.ledger.merchant_blacklist@,
        env@.ledger.category_blacklist == env.ledger.category_blacklist@,
        env@.ledger.asset_whitelist == env.ledger.asset_whitelist@,
        env@.ledger.asset_blacklist == env.ledger.asset_blacklist@,
        env@.ledger.asset_whitelist_enabled == env.ledger.asset_whitelist_enabled@,
        env@.ledger.allowances == env.ledger.allowances@,
        env@.ledger.composite_rules == env.ledger.composite_rules@,
{
}

/// The view of an action, of its event and of the event's subject is of the same sort
/// and says the same, byte for byte.
pub proof fn law_action_views_are_faithful(action: Action)
    ensures
        match action {
            Action::ExtendInstance => action@ == ActionView::ExtendInstance,
            Action::ReplaceCode(h) => action@ == ActionView::ReplaceCode(h),
            Action::Publish(Event::Violation { policy_id, reason }) => action@
                == ActionView::Publish(
                EventView::Violation { policy_id: policy_id.bytes@, reason },
            ),
            Action::Publish(Event::PolicyViolation { policy_id, reason }) => action@
                == ActionView::Publish(
                EventView::PolicyViolation { policy_id: policy_id.bytes@, reason },
            ),
            Action::Publish(Event::AuthorityRecorded { admin, registry }) => action@
                == ActionView::Publish(EventView::AuthorityRecorded { admin, registry }),
            Action::Publish(Event::UpgradeApplied { kind, wasm_hash }) => action@
                == ActionView::Publish(EventView::UpgradeApplied { kind, wasm_hash }),
            Action::Publish(Event::Policy { topic, policy_id, subject }) => action@
                == announcement(
                topic,
                policy_id.bytes@,
                match subject {
                    Subject::Policy => SubjectView::Policy,
                    Subject::Address(address) => SubjectView::Address(address),
                    Subject::Text(text) => SubjectView::Text(text.bytes@),
                    Subject::Limit { asset, limit } => SubjectView::Limit { asset, limit },
                    Subject::Usage { asset, amount, spent } => SubjectView::Usage {
                        asset,
                        amount,
                        spent,
                    },
                },
            ),
        },
{
}

/// Each reason for a violation is published under its own stable name.
pub proof fn law_reason_names(reason: Reason, name: &'static str)
    requires
        call_ensures(Reason::name, (&reason,), name),
    ensures
        name@ == match reason {
            Reason::Disabled => "disabled"@,
            Reason::Blacklisted => "blacklisted"@,
            Reason::MerchantBlocked => "merchant_blocked"@,
            Reason::Expired => "expired"@,
            Reason::AboveMax => "above_max"@,
            Reason::BadRecipient => "bad_recipient"@,
            Reason::BadAsset => "bad_asset"@,
            Reason::AssetBlacklisted => "asset_blacklisted"@,
            Reason::AssetNotWhitelisted => "asset_not_whitelisted"@,
            Reason::AllowanceExpired => "allowance_expired"@,
            Reason::AllowanceExceeded => "allowance_exceeded"@,
            Reason::CategoryRestricted => "category_restricted"@,
            Reason::RuleDenied => "rule_denied"@,
        },
{
}

/// Each happening under a policy is published under its own stable topic.
pub proof fn law_topic_names(topic: Topic, name: &'static str)
    requires
        call_ensures(Topic::name, (&topic,), name),
    ensures
        name@ == match topic {
            Topic::Registered => "registd"@,
            Topic::Rotated => "rotated"@,
            Topic::AssetWhitelisted => "asset_add"@,
            Topic::AssetUnwhitelisted => "asset_rem"@,
            Topic::AssetBlacklisted => "ablk_add"@,
            Topic::AssetUnblacklisted => "ablk_rem"@,
            Topic::Blacklisted => "blk_add"@,
            Topic::Unblacklisted => "blk_rem"@,
            Topic::MerchantBlacklisted => "merch_add"@,
            Topic::MerchantUnblacklisted => "merch_rem"@,
            Topic::CategoryBlacklisted => "cat_add"@,
            Topic::CategoryUnblacklisted => "cat_rem"@,
            Topic::AllowanceSet => "allow_set"@,
            Topic::AllowanceRemoved => "allow_rem"@,
            Topic::AllowanceUsed => "allow_use"@,
            Topic::CompositeSet => "rule_set"@,
            Topic::CompositeCleared => "rule_clr"@,
            Topic::RuleAdded => "rule_add"@,
            Topic::RuleRemoved => "rule_rm"@,
        },
{
}

/// A text is made of the bytes given, a copy of the bytes copied, and it is empty if
/// and only if it has none.
pub proof fn law_texts(bytes: Vec<u8>, made: Text, copied: Text, empty: bool)
    requires
        call_ensures(Text::new, (bytes,), made),
        call_ensures(<Text as Clone>::clone, (&made,), copied),
        call_ensures(Text::is_empty, (&made,), empty),
    ensures
        made.bytes@ == bytes@,
        copied.bytes@ == bytes@,
        empty <==> bytes@.len() == 0,
{
}

/// Names must not be empty, and amounts must not be negative.
pub proof fn law_argument_checks(
    text: Text,
    amount: i128,
    named: Result<(), Error>,
    counted: Result<(), Error>,
)
    requires
        call_ensures(require_non_empty, (&text,), named),
        call_ensures(require_non_negative_amount, (amount,), counted),
    ensures
        named is Ok <==> text.bytes@.len() > 0,
        named matches Err(error) ==> error == Error::InvalidInput,
        counted is Ok <==> amount >= 0,
        counted matches Err(error) ==> error == Error::InvalidAmount,
{
}

/// A sum and a difference are exact or refused, and refused only if they cannot be
/// held in 128 bits.
pub proof fn law_exact_arithmetic(
    a: i128,
    b: i128,
    sum: Result<i128, Error>,
    difference: Result<i128, Error>,
)
    requires
        call_ensures(checked_add, (a, b), sum),
        call_ensures(checked_sub, (a, b), difference),
    ensures
        sum matches Ok(s) ==> s == a + b,
        sum is Err <==> a + b > i128::MAX || a + b < i128::MIN,
        sum matches Err(error) ==> error == Error::Overflow,
        difference matches Ok(d) ==> d + b == a,
        difference is Err <==> a - b > i128::MAX || a - b < i128::MIN,
        difference matches Err(error) ==> error == Error::Overflow,
{
}

/// A table gives back what was stored last under a key, and nothing for a key that was
/// removed or never stored; other keys are not affected.
pub proof fn law_tables<K: Key, V: View>(
    fresh: Table<K, V>,
    table: &mut Table<K, V>,
    removing: &mut Table<K, V>,
    key: K,
    value: V,
    other: K::V,
)
    requires
        call_ensures(Table::<K, V>::new, (), fresh),
        call_ensures(Table::<K, V>::set, (table, key, value), ()),
        call_ensures(Table::<K, V>::remove, (removing, &key), ()),
    ensures
        !fresh@.contains_key(other),
        final(table)@.contains_key(key@),
        final(table)@[key@] == value@,
        !final(removing)@.contains_key(key@),
        other != key@ ==> final(table)@.contains_key(other) == old(table)@.contains_key(other),
        other != key@ && old(table)@.contains_key(other) ==> final(table)@[other]
            == old(table)@[other],
        other != key@ ==> final(removing)@.contains_key(other) == old(removing)@.contains_key(
            other,
        ),
        other != key@ && old(removing)@.contains_key(other) ==> final(removing)@[other]
            == old(removing)@[other],
{
}

/// What is looked up in a table is what it holds under the key.
pub proof fn law_table_lookups<K: Key, V: View>(
    table: Table<K, V>,
    key: K,
    found: bool,
    value: Option<&V>,
)
    requires
        call_ensures(Table::<K, V>::has, (&table, &key), found),
        call_ensures(Table::<K, V>::get, (&table, &key), value),
    ensures
        found <==> table@.contains_key(key@),
        value is Some <==> found,
        value matches Some(v) ==> v@ == table@[key@],
{
}

/// What a table holds is what its entries say: a key is held if and only if an entry
/// has it, and of the entries that have it the first one counts.
pub proof fn law_table_holds_its_entries<K: Key, V: View>(table: Table<K, V>, i: int)
    requires
        0 <= i < table.entries@.len(),
        forall|j: int| 0 <= j < i ==> (#[trigger] table.entries@[j]).0@ != table.entries@[i].0@,
    ensures
        table@.contains_key(table.entries@[i].0@),
        table@[table.entries@[i].0@] == table.entries@[i].1@,
{
    lemma_position(table.entries@, table.entries@[i].0@, i);
}

/// A table holds no key that none of its entries has.
pub proof fn law_table_holds_nothing_else<K: Key, V: View>(table: Table<K, V>, key: K::V)
    requires
        forall|j: int| 0 <= j < table.entries@.len() ==> (#[trigger] table.entries@[j]).0@ != key,
    ensures
        !table@.contains_key(key),
{
    lemma_position(table.entries@, key, table.entries@.len() as int);
}

/// Keys are the same if and only if they are made of the same.
pub proof fn law_same_keys(
    text: Text,
    other_text: Text,
    address: Address,
    other_address: Address,
    same_text: bool,
    same_address: bool,
    same_pair: bool,
)
    requires
        call_ensures(<Text as Key>::same, (&text, &other_text), same_text),
        call_ensures(<Address as Key>::same, (&address, &other_address), same_address),
        call_ensures(
            <(Text, Address) as Key>::same,
            (&(text, address), &(other_text, other_address)),
            same_pair,
        ),
    ensures
        same_text <==> text.bytes@ == other_text.bytes@,
        same_address <==> address == other_address,
        same_pair <==> same_text && same_address,
{
}

/// A copy of an allowance has all its fields, and a new ledger holds nothing.
pub proof fn law_copies_and_new_ledgers(
    allowance: AssetAllowance,
    copied: AssetAllowance,
    ledger: Ledger,
    id: Seq<u8>,
    address: Address,
)
    requires
        call_ensures(<AssetAllowance as Clone>::clone, (&allowance,), copied),
        call_ensures(Ledger::new, (), ledger),
    ensures
        copied.policy_id.bytes@ == allowance.policy_id.bytes@,
        copied.asset == allowance.asset,
        copied.limit == allowance.limit,
        copied.spent == allowance.spent,
        copied.expires_at == allowance.expires_at,
        ledger.count is None,
        ledger.authority is None,
        !ledger.policies@.contains_key(id),
        !ledger.blacklist@.contains_key(address),
        !ledger.merchant_blacklist@.contains_key(address),
        !ledger.category_blacklist@.contains_key(id),
        !ledger.asset_whitelist@.contains_key((id, address)),
        !ledger.asset_blacklist@.contains_key((id, address)),
        !ledger.asset_whitelist_enabled@.contains_key(id),
        !ledger.allowances@.contains_key((id, address)),
        !ledger.composite_rules@.contains_key(id),
{
}

/// A first environment holds nothing, at the time given; an address that authorizes
/// the call joins the signers, and only it does; and the signers are found again.
pub proof fn law_environments(
    timestamp: u64,
    fresh: Env,
    env: &mut Env,
    address: Address,
    other: Address,
    signed: bool,
)
    requires
        call_ensures(Env::new, (timestamp,), fresh),
        call_ensures(Env::authorize, (env, address), ()),
        call_ensures(Env::is_authorized, (&fresh, &other), signed),
    ensures
        fresh.timestamp == timestamp,
        fresh.actions@.len() == 0,
        !signed,
        fresh.ledger.count is None,
        fresh.ledger.authority is None,
        fresh.ledger.policies@ == Map::<Seq<u8>, Policy>::empty(),
        fresh.ledger.blacklist@ == Map::<Address, Seq<u8>>::empty(),
        fresh.ledger.merchant_blacklist@ == Map::<Address, Seq<u8>>::empty(),
        fresh.ledger.category_blacklist@ == Map::<Seq<u8>, Seq<u8>>::empty(),
        fresh.ledger.asset_whitelist@ == Map::<(Seq<u8>, Address), bool>::empty(),
        fresh.ledger.asset_blacklist@ == Map::<(Seq<u8>, Address), ()>::empty(),
        fresh.ledger.asset_whitelist_enabled@ == Map::<Seq<u8>, bool>::empty(),
        fresh.ledger.allowances@ == Map::<(Seq<u8>, Address), AllowanceView>::empty(),
        fresh.ledger.composite_rules@ == Map::<Seq<u8>, Seq<RuleNode>>::empty(),
        final(env)@.authorized.contains(address),
        other != address ==> (final(env)@.authorized.contains(other)
            <==> old(env)@.authorized.contains(other)),
        final(env).timestamp == old(env).timestamp,
        final(env)@.ledger == old(env)@.ledger,
        final(env)@.actions == old(env)@.actions,
{
    assert(fresh@.actions.len() == 0);
}

/// Whether an address has authorized the call is whether it is among the signers.
pub proof fn law_is_authorized(env: Env, address: Address, signed: bool)
    requires
        call_ensures(Env::is_authorized, (&env, &address), signed),
    ensures
        signed <==> env.authorized@.to_set().contains(address),
{
}

/// An action and an event that are asked for stand behind those asked for before, and
/// nothing else changes.
pub proof fn law_asking(
    env: &mut Env,
    action: Action,
    publishing: &mut Env,
    event: Event,
)
    requires
        call_ensures(Env::act, (env, action), ()),
        call_ensures(Env::publish, (publishing, event), ()),
    ensures
        keeps_all_but(Part::Nothing, *old(env), *final(env)),
        asks_for(seq![action@], *old(env), *final(env)),
        keeps_all_but(Part::Nothing, *old(publishing), *final(publishing)),
        asks_for(seq![ActionView::Publish(event@)], *old(publishing), *final(publishing)),
{
    lemma_view(*old(env), *final(env), seq![action@]);
    lemma_view(*old(publishing), *final(publishing), seq![ActionView::Publish(event@)]);
}

/// A violation is reported in both of its forms, with its policy and its reason; a
/// denial is reported if and only if it has a reason.
pub proof fn law_reporting(
    env: &mut Env,
    policy_id: Text,
    reason: Reason,
    denying: &mut Env,
    denial: Denial,
)
    requires
        call_ensures(events_policy_violation, (env, &policy_id, reason), ()),
        call_ensures(publish_denial, (denying, &policy_id, denial), ()),
    ensures
        only_reports(policy_id@, reason, *old(env), *final(env)),
        match denial.reason {
            Some(reported) => only_reports(policy_id@, reported, *old(denying), *final(denying)),
            None => leaves_alone(*old(denying), *final(denying)),
        },
{
    lemma_reported(policy_id@, reason, *old(env), *final(env));
    match denial.reason {
        Some(reported) => {
            lemma_reported(policy_id@, reported, *old(denying), *final(denying));
        },
        None => {
            lemma_same_view(*old(denying), *final(denying));
        },
    }
}

} // verus!
