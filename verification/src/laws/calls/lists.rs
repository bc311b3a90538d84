//! Laws of the calls on lists.

use vstd::prelude::*;
use crate::env::Env;
use crate::errors::Error;
use crate::events::{Reason, SubjectView, Topic};
use crate::laws::calls::{
    announcement,
    asks_for,
    keeps_all_but,
    leaves_alone,
    lemma_same_view,
    lemma_view,
    only_reports,
    owner_answer,
    Part,
    lemma_reported,
};
use crate::policies::PolicyContract;
use crate::values::{Address, Text};

verus! {

/// `add_blacklist` puts exactly this recipient on the list, once, and touches nothing else.
pub proof fn law_add_blacklist(
    env: &mut Env,
    caller: Address,
    policy_id: Text,
    address: Address,
    outcome: Result<(), Error>,
)
    requires
        call_ensures(
            PolicyContract::add_blacklist,
            (env, caller, policy_id, address),
            outcome,
        ),
    ensures
        outcome == owner_answer(
            *old(env),
            caller,
            policy_id@,
            if old(env).ledger.blacklist@.contains_key(address) {
                Err::<(), Error>(Error::AlreadyExists)
            } else {
                Ok(())
            },
        ),
        outcome is Err ==> leaves_alone(*old(env), *final(env)),
        outcome is Ok ==> ({
            &&& final(env).ledger.blacklist@
                == old(env).ledger.blacklist@.insert(address, policy_id@)
            &&& keeps_all_but(Part::Blacklist, *old(env), *final(env))
            &&& asks_for(
                seq![announcement(Topic::Blacklisted, policy_id@, SubjectView::Address(address))],
                *old(env),
                *final(env),
            )
        }),
{
    if outcome is Err {
        lemma_same_view(*old(env), *final(env));
    } else {
        lemma_view(
            *old(env),
            *final(env),
            seq![announcement(Topic::Blacklisted, policy_id@, SubjectView::Address(address))],
        );
    }
}

/// `add_to_blocklist` puts exactly this recipient on the list, once, and touches nothing else.
pub proof fn law_add_to_blocklist(
    env: &mut Env,
    caller: Address,
    policy_id: Text,
    address: Address,
    outcome: Result<(), Error>,
)
    requires
        call_ensures(
            PolicyContract::add_to_blocklist,
            (env, caller, policy_id, address),
            outcome,
        ),
    ensures
        outcome == owner_answer(
            *old(env),
            caller,
            policy_id@,
            if old(env).ledger.blacklist@.contains_key(address) {
                Err::<(), Error>(Error::AlreadyExists)
            } else {
                Ok(())
            },
        ),
        outcome is Err ==> leaves_alone(*old(env), *final(env)),
        outcome is Ok ==> ({
            &&& final(env).ledger.blacklist@
                == old(env).ledger.blacklist@.insert(address, policy_id@)
            &&& keeps_all_but(Part::Blacklist, *old(env), *final(env))
            &&& asks_for(
                seq![announcement(Topic::Blacklisted, policy_id@, SubjectView::Address(address))],
                *old(env),
                *final(env),
            )
        }),
{
    if outcome is Err {
        lemma_same_view(*old(env), *final(env));
    } else {
        lemma_view(
            *old(env),
            *final(env),
            seq![announcement(Topic::Blacklisted, policy_id@, SubjectView::Address(address))],
        );
    }
}

/// `remove_blacklist` takes exactly this recipient off the list and touches nothing else.
pub proof fn law_remove_blacklist(
    env: &mut Env,
    caller: Address,
    policy_id: Text,
    address: Address,
    outcome: Result<(), Error>,
)
    requires
        call_ensures(
            PolicyContract::remove_blacklist,
            (env, caller, policy_id, address),
            outcome,
        ),
    ensures
        outcome == owner_answer(
            *old(env),
            caller,
            policy_id@,
            if old(env).ledger.blacklist@.contains_key(address) {
                Ok::<(), Error>(())
            } else {
                Err(Error::NotFound)
            },
        ),
        outcome is Err ==> leaves_alone(*old(env), *final(env)),
        outcome is Ok ==> ({
            &&& final(env).ledger.blacklist@ == old(env).ledger.blacklist@.remove(address)
            &&& keeps_all_but(Part::Blacklist, *old(env), *final(env))
            &&& asks_for(
                seq![announcement(Topic::Unblacklisted, policy_id@, SubjectView::Address(address))],
                *old(env),
                *final(env),
            )
        }),
{
    if outcome is Err {
        lemma_same_view(*old(env), *final(env));
    } else {
        lemma_view(
            *old(env),
            *final(env),
            seq![announcement(Topic::Unblacklisted, policy_id@, SubjectView::Address(address))],
        );
    }
}

/// `remove_from_blocklist` takes exactly this recipient off the list and touches nothing else.
pub proof fn law_remove_from_blocklist(
    env: &mut Env,
    caller: Address,
    policy_id: Text,
    address: Address,
    outcome: Result<(), Error>,
)
    requires
        call_ensures(
            PolicyContract::remove_from_blocklist,
            (env, caller, policy_id, address),
            outcome,
        ),
    ensures
        outcome == owner_answer(
            *old(env),
            caller,
            policy_id@,
            if old(env).ledger.blacklist@.contains_key(address) {
                Ok::<(), Error>(())
            } else {
                Err(Error::NotFound)
            },
        ),
        outcome is Err ==> leaves_alone(*old(env), *final(env)),
        outcome is Ok ==> ({
            &&& final(env).ledger.blacklist@ == old(env).ledger.blacklist@.remove(address)
            &&& keeps_all_but(Part::Blacklist, *old(env), *final(env))
            &&& asks_for(
                seq![announcement(Topic::Unblacklisted, policy_id@, SubjectView::Address(address))],
                *old(env),
                *final(env),
            )
        }),
{
    if outcome is Err {
        lemma_same_view(*old(env), *final(env));
    } else {
        lemma_view(
            *old(env),
            *final(env),
            seq![announcement(Topic::Unblacklisted, policy_id@, SubjectView::Address(address))],
        );
    }
}

/// `add_merchant_blacklist` puts exactly this merchant on the list, once, and touches nothing else.
pub proof fn law_add_merchant_blacklist(
    env: &mut Env,
    caller: Address,
    policy_id: Text,
    merchant: Address,
    outcome: Result<(), Error>,
)
    requires
        call_ensures(
            PolicyContract::add_merchant_blacklist,
            (env, caller, policy_id, merchant),
            outcome,
        ),
    ensures
        outcome == owner_answer(
            *old(env),
            caller,
            policy_id@,
            if old(env).ledger.merchant_blacklist@.contains_key(merchant) {
                Err::<(), Error>(Error::AlreadyExists)
            } else {
                Ok(())
            },
        ),
        outcome is Err ==> leaves_alone(*old(env), *final(env)),
        outcome is Ok ==> ({
            &&& final(env).ledger.merchant_blacklist@
                == old(env).ledger.merchant_blacklist@.insert(merchant, policy_id@)
            &&& keeps_all_but(Part::MerchantBlacklist, *old(env), *final(env))
            &&& asks_for(
                seq![
                    announcement(
                        Topic::MerchantBlacklisted,
                        policy_id@,
                        SubjectView::Address(merchant),
                    ),
                ],
                *old(env),
                *final(env),
            )
        }),
{
    if outcome is Err {
        lemma_same_view(*old(env), *final(env));
    } else {
        lemma_view(
            *old(env),
            *final(env),
            seq![
                announcement(
                    Topic::MerchantBlacklisted,
                    policy_id@,
                    SubjectView::Address(merchant),
                ),
            ],
        );
    }
}

/// `remove_merchant_blacklist` takes exactly this merchant off the list and touches nothing else.
pub proof fn law_remove_merchant_blacklist(
    env: &mut Env,
    caller: Address,
    policy_id: Text,
    merchant: Address,
    outcome: Result<(), Error>,
)
    requires
        call_ensures(
            PolicyContract::remove_merchant_blacklist,
            (env, caller, policy_id, merchant),
            outcome,
        ),
    ensures
        outcome == owner_answer(
            *old(env),
            caller,
            policy_id@,
            if old(env).ledger.merchant_blacklist@.contains_key(merchant) {
                Ok::<(), Error>(())
            } else {
                Err(Error::NotFound)
            },
        ),
        outcome is Err ==> leaves_alone(*old(env), *final(env)),
        outcome is Ok ==> ({
            &&& final(env).ledger.merchant_blacklist@
                == old(env).ledger.merchant_blacklist@.remove(merchant)
            &&& keeps_all_but(Part::MerchantBlacklist, *old(env), *final(env))
            &&& asks_for(
                seq![
                    announcement(
                        Topic::MerchantUnblacklisted,
                        policy_id@,
                        SubjectView::Address(merchant),
                    ),
                ],
                *old(env),
                *final(env),
            )
        }),
{
    if outcome is Err {
        lemma_same_view(*old(env), *final(env));
    } else {
        lemma_view(
            *old(env),
            *final(env),
            seq![
                announcement(
                    Topic::MerchantUnblacklisted,
                    policy_id@,
                    SubjectView::Address(merchant),
                ),
            ],
        );
    }
}

/// `add_category_blacklist` puts exactly this category on the list, once, and touches nothing else.
pub proof fn law_add_category_blacklist(
    env: &mut Env,
    caller: Address,
    policy_id: Text,
    category: Text,
    outcome: Result<(), Error>,
)
    requires
        call_ensures(
            PolicyContract::add_category_blacklist,
            (env, caller, policy_id, category),
            outcome,
        ),
    ensures
        outcome == owner_answer(
            *old(env),
            caller,
            policy_id@,
            if category@.len() == 0 {
                Err::<(), Error>(Error::InvalidInput)
            } else if old(env).ledger.category_blacklist@.contains_key(category@) {
                Err::<(), Error>(Error::AlreadyExists)
            } else {
                Ok(())
            },
        ),
        outcome is Err ==> leaves_alone(*old(env), *final(env)),
        outcome is Ok ==> ({
            &&& final(env).ledger.category_blacklist@
                == old(env).ledger.category_blacklist@.insert(category@, policy_id@)
            &&& keeps_all_but(Part::CategoryBlacklist, *old(env), *final(env))
            &&& asks_for(
                seq![
                    announcement(
                        Topic::CategoryBlacklisted,
                        policy_id@,
                        SubjectView::Text(category@),
                    ),
                ],
                *old(env),
                *final(env),
            )
        }),
{
    if outcome is Err {
        lemma_same_view(*old(env), *final(env));
    } else {
        lemma_view(
            *old(env),
            *final(env),
            seq![
                announcement(Topic::CategoryBlacklisted, policy_id@, SubjectView::Text(category@)),
            ],
        );
    }
}

/// `remove_category_blacklist` takes exactly this category off the list and touches nothing else.
pub proof fn law_remove_category_blacklist(
    env: &mut Env,
    caller: Address,
    policy_id: Text,
    category: Text,
    outcome: Result<(), Error>,
)
    requires
        call_ensures(
            PolicyContract::remove_category_blacklist,
            (env, caller, policy_id, category),
            outcome,
        ),
    ensures
        outcome == owner_answer(
            *old(env),
            caller,
            policy_id@,
            if old(env).ledger.category_blacklist@.contains_key(category@) {
                Ok::<(), Error>(())
            } else {
                Err(Error::NotFound)
            },
        ),
        outcome is Err ==> leaves_alone(*old(env), *final(env)),
        outcome is Ok ==> ({
            &&& final(env).ledger.category_blacklist@
                == old(env).ledger.category_blacklist@.remove(category@)
            &&& keeps_all_but(Part::CategoryBlacklist, *old(env), *final(env))
            &&& asks_for(
                seq![
                    announcement(
                        Topic::CategoryUnblacklisted,
                        policy_id@,
                        SubjectView::Text(category@),
                    ),
                ],
                *old(env),
                *final(env),
            )
        }),
{
    if outcome is Err {
        lemma_same_view(*old(env), *final(env));
    } else {
        lemma_view(
            *old(env),
            *final(env),
            seq![
                announcement(
                    Topic::CategoryUnblacklisted,
                    policy_id@,
                    SubjectView::Text(category@),
                ),
            ],
        );
    }
}

/// `add_asset_to_whitelist` puts exactly this asset on the list, once, and touches nothing else.
pub proof fn law_add_asset_to_whitelist(
    env: &mut Env,
    caller: Address,
    policy_id: Text,
    asset: Address,
    outcome: Result<(), Error>,
)
    requires
        call_ensures(
            PolicyContract::add_asset_to_whitelist,
            (env, caller, policy_id, asset),
            outcome,
        ),
    ensures
        outcome == owner_answer(
            *old(env),
            caller,
            policy_id@,
            if old(env).ledger.asset_whitelist@.contains_key((policy_id@, asset)) {
                Err::<(), Error>(Error::AlreadyExists)
            } else {
                Ok(())
            },
        ),
        outcome is Err ==> leaves_alone(*old(env), *final(env)),
        outcome is Ok ==> ({
            &&& final(env).ledger.asset_whitelist@
                == old(env).ledger.asset_whitelist@.insert((policy_id@, asset), true)
            &&& keeps_all_but(Part::AssetWhitelist, *old(env), *final(env))
            &&& asks_for(
                seq![
                    announcement(Topic::AssetWhitelisted, policy_id@, SubjectView::Address(asset)),
                ],
                *old(env),
                *final(env),
            )
        }),
{
    if outcome is Err {
        lemma_same_view(*old(env), *final(env));
    } else {
        lemma_view(
            *old(env),
            *final(env),
            seq![announcement(Topic::AssetWhitelisted, policy_id@, SubjectView::Address(asset))],
        );
    }
}

/// `remove_asset_from_whitelist` takes exactly this asset off the list and touches nothing else.
pub proof fn law_remove_asset_from_whitelist(
    env: &mut Env,
    caller: Address,
    policy_id: Text,
    asset: Address,
    outcome: Result<(), Error>,
)
    requires
        call_ensures(
            PolicyContract::remove_asset_from_whitelist,
            (env, caller, policy_id, asset),
            outcome,
        ),
    ensures
        outcome == owner_answer(
            *old(env),
            caller,
            policy_id@,
            if old(env).ledger.asset_whitelist@.contains_key((policy_id@, asset)) {
                Ok::<(), Error>(())
            } else {
                Err(Error::NotFound)
            },
        ),
        outcome is Err ==> leaves_alone(*old(env), *final(env)),
        outcome is Ok ==> ({
            &&& final(env).ledger.asset_whitelist@
                == old(env).ledger.asset_whitelist@.remove((policy_id@, asset))
            &&& keeps_all_but(Part::AssetWhitelist, *old(env), *final(env))
            &&& asks_for(
                seq![
                    announcement(
                        Topic::AssetUnwhitelisted,
                        policy_id@,
                        SubjectView::Address(asset),
                    ),
                ],
                *old(env),
                *final(env),
            )
        }),
{
    if outcome is Err {
        lemma_same_view(*old(env), *final(env));
    } else {
        lemma_view(
            *old(env),
            *final(env),
            seq![announcement(Topic::AssetUnwhitelisted, policy_id@, SubjectView::Address(asset))],
        );
    }
}

/// `add_asset_blacklist` puts exactly this asset on the list, once, and touches nothing else.
pub proof fn law_add_asset_blacklist(
    env: &mut Env,
    caller: Address,
    policy_id: Text,
    asset: Address,
    outcome: Result<(), Error>,
)
    requires
        call_ensures(
            PolicyContract::add_asset_blacklist,
            (env, caller, policy_id, asset),
            outcome,
        ),
    ensures
        outcome == owner_answer(
            *old(env),
            caller,
            policy_id@,
            if old(env).ledger.asset_blacklist@.contains_key((policy_id@, asset)) {
                Err::<(), Error>(Error::AlreadyExists)
            } else {
                Ok(())
            },
        ),
        outcome is Err ==> leaves_alone(*old(env), *final(env)),
        outcome is Ok ==> ({
            &&& final(env).ledger.asset_blacklist@
                == old(env).ledger.asset_blacklist@.insert((policy_id@, asset), ())
            &&& keeps_all_but(Part::AssetBlacklist, *old(env), *final(env))
            &&& asks_for(
                seq![
                    announcement(Topic::AssetBlacklisted, policy_id@, SubjectView::Address(asset)),
                ],
                *old(env),
                *final(env),
            )
        }),
{
    if outcome is Err {
        lemma_same_view(*old(env), *final(env));
    } else {
        lemma_view(
            *old(env),
            *final(env),
            seq![announcement(Topic::AssetBlacklisted, policy_id@, SubjectView::Address(asset))],
        );
    }
}

/// `remove_asset_blacklist` takes exactly this asset off the list and touches nothing else.
pub proof fn law_remove_asset_blacklist(
    env: &mut Env,
    caller: Address,
    policy_id: Text,
    asset: Address,
    outcome: Result<(), Error>,
)
    requires
        call_ensures(
            PolicyContract::remove_asset_blacklist,
            (env, caller, policy_id, asset),
            outcome,
        ),
    ensures
        outcome == owner_answer(
            *old(env),
            caller,
            policy_id@,
            if old(env).ledger.asset_blacklist@.contains_key((policy_id@, asset)) {
                Ok::<(), Error>(())
            } else {
                Err(Error::NotFound)
            },
        ),
        outcome is Err ==> leaves_alone(*old(env), *final(env)),
        outcome is Ok ==> ({
            &&& final(env).ledger.asset_blacklist@
                == old(env).ledger.asset_blacklist@.remove((policy_id@, asset))
            &&& keeps_all_but(Part::AssetBlacklist, *old(env), *final(env))
            &&& asks_for(
                seq![
                    announcement(
                        Topic::AssetUnblacklisted,
                        policy_id@,
                        SubjectView::Address(asset),
                    ),
                ],
                *old(env),
                *final(env),
            )
        }),
{
    if outcome is Err {
        lemma_same_view(*old(env), *final(env));
    } else {
        lemma_view(
            *old(env),
            *final(env),
            seq![announcement(Topic::AssetUnblacklisted, policy_id@, SubjectView::Address(asset))],
        );
    }
}

/// The whitelist of a policy is switched as it was asked for, and nothing else is
/// touched.
pub proof fn law_set_asset_whitelist_enabled(
    env: &mut Env,
    caller: Address,
    policy_id: Text,
    enabled: bool,
    outcome: Result<(), Error>,
)
    requires
        call_ensures(
            PolicyContract::set_asset_whitelist_enabled,
            (env, caller, policy_id, enabled),
            outcome,
        ),
    ensures
        outcome == owner_answer(
            *old(env),
            caller,
            policy_id@,
            Ok(()),
        ),
        outcome is Err ==> leaves_alone(*old(env), *final(env)),
        outcome is Ok ==> ({
            &&& final(env).ledger.asset_whitelist_enabled@
                == old(env).ledger.asset_whitelist_enabled@.insert(policy_id@, enabled)
            &&& keeps_all_but(Part::AssetWhitelistEnabled, *old(env), *final(env))
            &&& asks_for(
                seq![],
                *old(env),
                *final(env),
            )
        }),
{
    if outcome is Err {
        lemma_same_view(*old(env), *final(env));
    } else {
        lemma_view(
            *old(env),
            *final(env),
            seq![],
        );
    }
}

/// An asset passes the whitelist of a policy unless the whitelist is stored as on
/// and does not hold the asset; the refusal is reported, and nothing is changed.
pub proof fn law_validate_asset(
    env: &mut Env,
    policy_id: Text,
    asset: Address,
    outcome: Result<(), Error>,
)
    requires
        call_ensures(PolicyContract::validate_asset, (env, policy_id, asset), outcome),
    ensures
        ({
            let ledger = old(env).ledger;
            let refused = ledger.asset_whitelist_enabled@.contains_key(policy_id@)
                && ledger.asset_whitelist_enabled@[policy_id@]
                && !ledger.asset_whitelist@.contains_key((policy_id@, asset));
            &&& refused ==> outcome == Err::<(), Error>(Error::AssetNotWhitelisted)
                && only_reports(
                policy_id@,
                Reason::AssetNotWhitelisted,
                *old(env),
                *final(env),
            )
            &&& !refused ==> outcome == Ok::<(), Error>(()) && leaves_alone(
                *old(env),
                *final(env),
            )
        }),
{
    if outcome is Ok {
        lemma_same_view(*old(env), *final(env));
    } else {
        lemma_reported(policy_id@, Reason::AssetNotWhitelisted, *old(env), *final(env));
    }
}

/// A spending category is refused if and only if it has a name and is on the list;
/// the refusal is reported, and nothing is changed.
pub proof fn law_check_category(
    env: &mut Env,
    policy_id: Text,
    category: Text,
    outcome: Result<(), Error>,
)
    requires
        call_ensures(PolicyContract::check_category, (env, policy_id, category), outcome),
    ensures
        ({
            let refused = category@.len() > 0 && old(env).ledger.category_blacklist@.contains_key(
                category@,
            );
            &&& refused ==> outcome == Err::<(), Error>(Error::PolicyDenied) && only_reports(
                policy_id@,
                Reason::CategoryRestricted,
                *old(env),
                *final(env),
            )
            &&& !refused ==> outcome == Ok::<(), Error>(()) && leaves_alone(
                *old(env),
                *final(env),
            )
        }),
{
    if outcome is Ok {
        lemma_same_view(*old(env), *final(env));
    } else {
        lemma_reported(policy_id@, Reason::CategoryRestricted, *old(env), *final(env));
    }
}

/// What is read of the asset lists is what is stored: whether the policy denies the
/// asset, and whether its whitelist lets it pass.
pub proof fn law_read_asset_lists(
    env: Env,
    policy_id: Text,
    asset: Address,
    denied: bool,
    passes: bool,
)
    requires
        call_ensures(PolicyContract::is_asset_blacklisted, (&env, policy_id, asset), denied),
        call_ensures(PolicyContract::whitelist_passes, (&env, &policy_id, asset), passes),
    ensures
        denied <==> env.ledger.asset_blacklist@.contains_key((policy_id@, asset)),
        !passes <==> env.ledger.asset_whitelist_enabled@.contains_key(policy_id@)
            && env.ledger.asset_whitelist_enabled@[policy_id@]
            && !env.ledger.asset_whitelist@.contains_key((policy_id@, asset)),
{
}

} // verus!
