//! Laws of single calls: what each entry point answers and leaves behind, told
//! entry by entry and action by action.
//!
//! A premise `call_ensures(f, (arguments), result)` says that `result` is what the
//! call of `f` with these arguments gave; `old` and `final` are the environment
//! before and after it.

use vstd::prelude::*;
use crate::env::Env;
use crate::errors::Error;
use crate::events::{ActionView, EventView, Reason, SubjectView, Topic};
use crate::values::Address;

pub mod allowances;
pub mod composites;
pub mod lists;
pub mod policies;
pub mod rules;
pub mod transfers;
pub mod upgrades;
pub mod values;

verus! {

/// A part of the ledger.
pub enum Part {
    Nothing,
    Count,
    Authority,
    Policies,
    Blacklist,
    MerchantBlacklist,
    CategoryBlacklist,
    AssetWhitelist,
    AssetBlacklist,
    AssetWhitelistEnabled,
    Allowances,
    CompositeRules,
}

/// Whether everything but one part of the ledger and the actions is as before: the
/// other parts of the ledger, the time and the signers.
pub open spec fn keeps_all_but(part: Part, before: Env, after: Env) -> bool {
    let old_ledger = before.ledger;
    let new_ledger = after.ledger;
    &&& after.timestamp == before.timestamp
    &&& after.authorized@.to_set() == before.authorized@.to_set()
    &&& !(part is Count) ==> new_ledger.count == old_ledger.count
    &&& !(part is Authority) ==> new_ledger.authority == old_ledger.authority
    &&& !(part is Policies) ==> new_ledger.policies@ == old_ledger.policies@
    &&& !(part is Blacklist) ==> new_ledger.blacklist@ == old_ledger.blacklist@
    &&& !(part is MerchantBlacklist) ==> new_ledger.merchant_blacklist@
        == old_ledger.merchant_blacklist@
    &&& !(part is CategoryBlacklist) ==> new_ledger.category_blacklist@
        == old_ledger.category_blacklist@
    &&& !(part is AssetWhitelist) ==> new_ledger.asset_whitelist@ == old_ledger.asset_whitelist@
    &&& !(part is AssetBlacklist) ==> new_ledger.asset_blacklist@ == old_ledger.asset_blacklist@
    &&& !(part is AssetWhitelistEnabled) ==> new_ledger.asset_whitelist_enabled@
        == old_ledger.asset_whitelist_enabled@
    &&& !(part is Allowances) ==> new_ledger.allowances@ == old_ledger.allowances@
    &&& !(part is CompositeRules) ==> new_ledger.composite_rules@ == old_ledger.composite_rules@
}

/// Whether the actions asked for are those asked for before and, behind them,
/// exactly `more`.
pub open spec fn asks_for(more: Seq<ActionView>, before: Env, after: Env) -> bool {
    &&& after.actions@.len() == before.actions@.len() + more.len()
    &&& forall|i: int|
        0 <= i < before.actions@.len() ==> #[trigger] after.actions@[i]@ == before.actions@[i]@
    &&& forall|i: int|
        0 <= i < more.len() ==> after.actions@[before.actions@.len() + i]@ == #[trigger] more[i]
}

/// Whether the call left everything as it was and asked for nothing.
pub open spec fn leaves_alone(before: Env, after: Env) -> bool {
    &&& keeps_all_but(Part::Nothing, before, after)
    &&& asks_for(seq![], before, after)
}

/// Whether the call left everything as it was and asked for the two events that
/// make a violation known, and for nothing else.
pub open spec fn only_reports(
    policy_id: Seq<u8>,
    reason: Reason,
    before: Env,
    after: Env,
) -> bool {
    &&& keeps_all_but(Part::Nothing, before, after)
    &&& asks_for(
        seq![
            ActionView::Publish(EventView::Violation { policy_id, reason }),
            ActionView::Publish(EventView::PolicyViolation { policy_id, reason }),
        ],
        before,
        after,
    )
}

/// The action that makes known that `topic` happened under a policy.
pub open spec fn announcement(
    topic: Topic,
    policy_id: Seq<u8>,
    subject: SubjectView,
) -> ActionView {
    ActionView::Publish(EventView::Policy { topic, policy_id, subject })
}

/// What a caller is answered who asks for a change under a policy: whoever does not
/// own it is turned away, and `owner` is what its owner is answered.
pub open spec fn owner_answer(
    env: Env,
    caller: Address,
    policy_id: Seq<u8>,
    owner: Result<(), Error>,
) -> Result<(), Error> {
    if !env.ledger.policies@.contains_key(policy_id) {
        Err(Error::NotFound)
    } else if env.ledger.policies@[policy_id].owner != caller {
        Err(Error::Unauthorized)
    } else {
        owner
    }
}

/// An environment with the view that it had before was left alone.
pub(crate) proof fn lemma_same_view(before: Env, after: Env)
    requires
        after@ == before@,
    ensures
        leaves_alone(before, after),
{
    lemma_view(before, after, seq![]);
}

/// What an environment's view says of its entries and actions.
pub(crate) proof fn lemma_view(before: Env, after: Env, more: Seq<ActionView>)
    requires
        after@.timestamp == before@.timestamp,
        after@.authorized == before@.authorized,
        after@.actions =~= before@.actions + more,
    ensures
        after.timestamp == before.timestamp,
        after.authorized@.to_set() == before.authorized@.to_set(),
        asks_for(more, before, after),
{
    let n = before.actions@.len();
    assert(after@.actions.len() == n + more.len());
    assert forall|i: int| 0 <= i < n implies #[trigger] after.actions@[i]@
        == before.actions@[i]@ by {
        assert(after@.actions[i] == before@.actions[i]);
    }
    assert forall|i: int| 0 <= i < more.len() implies after.actions@[n + i]@
        == #[trigger] more[i] by {
        assert(after@.actions[n + i] == more[i]);
    }
}

/// An environment that has two events more, those of a violation, reports it.
pub(crate) proof fn lemma_reported(policy_id: Seq<u8>, reason: Reason, before: Env, after: Env)
    requires
        after@ == before@.violation(policy_id, reason),
    ensures
        only_reports(policy_id, reason, before, after),
{
    lemma_view(
        before,
        after,
        seq![
            ActionView::Publish(EventView::Violation { policy_id, reason }),
            ActionView::Publish(EventView::PolicyViolation { policy_id, reason }),
        ],
    );
}

} // verus!
