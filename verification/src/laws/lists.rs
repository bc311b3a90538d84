//! Laws of the lists: what is added can be read, is not added twice, and can be
//! taken back.

use vstd::prelude::*;
use crate::assets::{
    asset_blacklisted,
    asset_unblacklisted,
    asset_unwhitelisted,
    asset_whitelisted,
    whitelist_allows,
    whitelist_switched,
};
use crate::env::EnvView;
use crate::errors::Error;
use crate::policies::{add_outcome, owner_gate, remove_outcome};
use crate::restrictions::{
    category_blacklisted,
    category_gate,
    category_unblacklisted,
    merchant_blacklisted,
    merchant_unblacklisted,
    recipient_blacklisted,
    recipient_unblacklisted,
};
use crate::values::Address;

verus! {

/// A recipient that was restricted is on the list and is not listed again;
/// releasing it succeeds and leaves the ledger as it was before.
pub proof fn law_blacklist_add_remove(
    env: EnvView,
    caller: Address,
    policy_id: Seq<u8>,
    address: Address,
)
    requires
        add_outcome(
            owner_gate(env.ledger, caller, policy_id),
            env.ledger.blacklist.contains_key(address),
        ) is Ok,
    ensures
        ({
            let added = recipient_blacklisted(env, policy_id, address);
            let gate = owner_gate(added.ledger, caller, policy_id);
            let listed = added.ledger.blacklist.contains_key(address);
            let removed = recipient_unblacklisted(added, policy_id, address);
            &&& listed
            &&& added.ledger.blacklist[address] == policy_id
            &&& add_outcome(gate, listed) == Err::<(), Error>(Error::AlreadyExists)
            &&& remove_outcome(gate, listed) == Ok::<(), Error>(())
            &&& removed.ledger == env.ledger
            &&& remove_outcome(
                owner_gate(removed.ledger, caller, policy_id),
                removed.ledger.blacklist.contains_key(address),
            ) == Err::<(), Error>(Error::NotFound)
        }),
{
    let added = recipient_blacklisted(env, policy_id, address);
    let removed = recipient_unblacklisted(added, policy_id, address);
    assert(removed.ledger.blacklist =~= env.ledger.blacklist);
}

/// A merchant that was restricted is on the list and is not listed again;
/// releasing it succeeds and leaves the ledger as it was before.
pub proof fn law_merchant_blacklist_add_remove(
    env: EnvView,
    caller: Address,
    policy_id: Seq<u8>,
    merchant: Address,
)
    requires
        add_outcome(
            owner_gate(env.ledger, caller, policy_id),
            env.ledger.merchant_blacklist.contains_key(merchant),
        ) is Ok,
    ensures
        ({
            let added = merchant_blacklisted(env, policy_id, merchant);
            let gate = owner_gate(added.ledger, caller, policy_id);
            let listed = added.ledger.merchant_blacklist.contains_key(merchant);
            let removed = merchant_unblacklisted(added, policy_id, merchant);
            &&& listed
            &&& added.ledger.merchant_blacklist[merchant] == policy_id
            &&& add_outcome(gate, listed) == Err::<(), Error>(Error::AlreadyExists)
            &&& remove_outcome(gate, listed) == Ok::<(), Error>(())
            &&& removed.ledger == env.ledger
            &&& remove_outcome(
                owner_gate(removed.ledger, caller, policy_id),
                removed.ledger.merchant_blacklist.contains_key(merchant),
            ) == Err::<(), Error>(Error::NotFound)
        }),
{
    let added = merchant_blacklisted(env, policy_id, merchant);
    let removed = merchant_unblacklisted(added, policy_id, merchant);
    assert(removed.ledger.merchant_blacklist =~= env.ledger.merchant_blacklist);
}

/// A category that was restricted is on the list and is not listed again;
/// releasing it succeeds and leaves the ledger as it was before.
pub proof fn law_category_blacklist_add_remove(
    env: EnvView,
    caller: Address,
    policy_id: Seq<u8>,
    category: Seq<u8>,
)
    requires
        add_outcome(
            category_gate(env.ledger, caller, policy_id, category),
            env.ledger.category_blacklist.contains_key(category),
        ) is Ok,
    ensures
        ({
            let added = category_blacklisted(env, policy_id, category);
            let listed = added.ledger.category_blacklist.contains_key(category);
            let removed = category_unblacklisted(added, policy_id, category);
            &&& listed
            &&& added.ledger.category_blacklist[category] == policy_id
            &&& add_outcome(category_gate(added.ledger, caller, policy_id, category), listed)
                == Err::<(), Error>(Error::AlreadyExists)
            &&& remove_outcome(owner_gate(added.ledger, caller, policy_id), listed) == Ok::<
                (),
                Error,
            >(())
            &&& removed.ledger == env.ledger
            &&& remove_outcome(
                owner_gate(removed.ledger, caller, policy_id),
                removed.ledger.category_blacklist.contains_key(category),
            ) == Err::<(), Error>(Error::NotFound)
        }),
{
    let added = category_blacklisted(env, policy_id, category);
    let removed = category_unblacklisted(added, policy_id, category);
    assert(removed.ledger.category_blacklist =~= env.ledger.category_blacklist);
}

/// An asset that was denied is on the policy's deny list and is not listed
/// again; taking it off succeeds and leaves the ledger as it was before.
pub proof fn law_asset_blacklist_add_remove(
    env: EnvView,
    caller: Address,
    policy_id: Seq<u8>,
    asset: Address,
)
    requires
        add_outcome(
            owner_gate(env.ledger, caller, policy_id),
            env.ledger.asset_blacklist.contains_key((policy_id, asset)),
        ) is Ok,
    ensures
        ({
            let added = asset_blacklisted(env, policy_id, asset);
            let gate = owner_gate(added.ledger, caller, policy_id);
            let listed = added.ledger.asset_blacklist.contains_key((policy_id, asset));
            let removed = asset_unblacklisted(added, policy_id, asset);
            &&& listed
            &&& add_outcome(gate, listed) == Err::<(), Error>(Error::AlreadyExists)
            &&& remove_outcome(gate, listed) == Ok::<(), Error>(())
            &&& removed.ledger == env.ledger
            &&& remove_outcome(
                owner_gate(removed.ledger, caller, policy_id),
                removed.ledger.asset_blacklist.contains_key((policy_id, asset)),
            ) == Err::<(), Error>(Error::NotFound)
        }),
{
    let added = asset_blacklisted(env, policy_id, asset);
    let removed = asset_unblacklisted(added, policy_id, asset);
    assert(removed.ledger.asset_blacklist =~= env.ledger.asset_blacklist);
}

/// An asset that was whitelisted passes the whitelist and is not listed again;
/// taking it off succeeds and leaves the ledger as it was before.
pub proof fn law_asset_whitelist_add_remove(
    env: EnvView,
    caller: Address,
    policy_id: Seq<u8>,
    asset: Address,
)
    requires
        add_outcome(
            owner_gate(env.ledger, caller, policy_id),
            env.ledger.asset_whitelist.contains_key((policy_id, asset)),
        ) is Ok,
    ensures
        ({
            let added = asset_whitelisted(env, policy_id, asset);
            let gate = owner_gate(added.ledger, caller, policy_id);
            let listed = added.ledger.asset_whitelist.contains_key((policy_id, asset));
            let removed = asset_unwhitelisted(added, policy_id, asset);
            &&& listed
            &&& whitelist_allows(added.ledger, policy_id, asset)
            &&& add_outcome(gate, listed) == Err::<(), Error>(Error::AlreadyExists)
            &&& remove_outcome(gate, listed) == Ok::<(), Error>(())
            &&& removed.ledger == env.ledger
            &&& remove_outcome(
                owner_gate(removed.ledger, caller, policy_id),
                removed.ledger.asset_whitelist.contains_key((policy_id, asset)),
            ) == Err::<(), Error>(Error::NotFound)
        }),
{
    let added = asset_whitelisted(env, policy_id, asset);
    let removed = asset_unwhitelisted(added, policy_id, asset);
    assert(removed.ledger.asset_whitelist =~= env.ledger.asset_whitelist);
}

/// While its whitelist is off a policy lets every asset pass it; while it is on,
/// the assets on the list and no others. The whitelist of another policy is not
/// touched.
pub proof fn law_whitelist_switch(
    env: EnvView,
    policy_id: Seq<u8>,
    enabled: bool,
    asset: Address,
    other: Seq<u8>,
)
    ensures
        ({
            let after = whitelist_switched(env, policy_id, enabled);
            &&& whitelist_allows(after.ledger, policy_id, asset) == (!enabled
                || env.ledger.asset_whitelist.contains_key((policy_id, asset)))
            &&& other != policy_id ==> whitelist_allows(after.ledger, other, asset)
                == whitelist_allows(env.ledger, other, asset)
        }),
{
}

/// A policy's asset lists are its own: what one policy allows or denies is not
/// seen under another.
pub proof fn law_asset_lists_per_policy(
    env: EnvView,
    policy_id: Seq<u8>,
    asset: Address,
    other: Seq<u8>,
    other_asset: Address,
)
    requires
        other != policy_id,
    ensures
        asset_blacklisted(env, policy_id, asset).ledger.asset_blacklist.contains_key(
            (other, other_asset),
        ) == env.ledger.asset_blacklist.contains_key((other, other_asset)),
        asset_unblacklisted(env, policy_id, asset).ledger.asset_blacklist.contains_key(
            (other, other_asset),
        ) == env.ledger.asset_blacklist.contains_key((other, other_asset)),
        whitelist_allows(
            asset_whitelisted(env, policy_id, asset).ledger,
            other,
            other_asset,
        ) == whitelist_allows(env.ledger, other, other_asset),
        whitelist_allows(
            asset_unwhitelisted(env, policy_id, asset).ledger,
            other,
            other_asset,
        ) == whitelist_allows(env.ledger, other, other_asset),
{
}

} // verus!
