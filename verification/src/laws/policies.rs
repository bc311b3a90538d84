//! Laws of the life of a policy.

use vstd::prelude::*;
use crate::env::{EnvView, LedgerView};
use crate::errors::Error;
use crate::events::Reason;
use crate::policies::{owner_gate, register_outcome, registered, rotated, switched, Policy};
use crate::values::{Address, Digest};

verus! {

/// A ledger that holds nothing is consistent. Every call that changes the ledger
/// says that it keeps it consistent, so every ledger that the contract reaches
/// is.
pub proof fn law_empty_ledger_consistent()
    ensures
        LedgerView::empty().consistent(),
{
}

/// A registered policy is read back as it was given, its owner may change it and
/// nobody else, its id is not registered again, and no other policy is touched.
pub proof fn law_registered_reads_back(
    env: EnvView,
    policy_id: Seq<u8>,
    policy: Policy,
    caller: Address,
    other: Seq<u8>,
)
    requires
        register_outcome(env.ledger, policy_id) is Ok,
    ensures
        ({
            let after = registered(env, policy_id, policy).ledger;
            &&& after.policies.contains_key(policy_id)
            &&& after.policies[policy_id] == policy
            &&& owner_gate(after, caller, policy_id) == if caller == policy.owner {
                Ok::<(), Error>(())
            } else {
                Err(Error::Unauthorized)
            }
            &&& register_outcome(after, policy_id) == Err::<(), Error>(Error::AlreadyExists)
            &&& other != policy_id ==> after.policies.contains_key(other)
                == env.ledger.policies.contains_key(other)
            &&& other != policy_id && env.ledger.policies.contains_key(other)
                ==> after.policies[other] == env.ledger.policies[other]
        }),
{
}

/// A rotation gives the policy its new digest and maximum and changes nothing
/// else: not the policy's other gates, not its owner, not another policy.
pub proof fn law_rotation_keeps_the_rest(
    env: EnvView,
    policy_id: Seq<u8>,
    new_hash: Digest,
    new_max: i128,
    caller: Address,
    other: Seq<u8>,
)
    requires
        env.ledger.policies.contains_key(policy_id),
    ensures
        ({
            let before = env.ledger.policies[policy_id];
            let ledger = rotated(env, policy_id, new_hash, new_max).ledger;
            let after = ledger.policies[policy_id];
            &&& after.config_hash == new_hash
            &&& after.max_amount == new_max
            &&& after.owner == before.owner
            &&& after.allowed_recipient == before.allowed_recipient
            &&& after.allowed_asset == before.allowed_asset
            &&& after.expires_at == before.expires_at
            &&& after.enabled == before.enabled
            &&& owner_gate(ledger, caller, policy_id) == owner_gate(env.ledger, caller, policy_id)
            &&& other != policy_id ==> owner_gate(ledger, caller, other) == owner_gate(
                env.ledger,
                caller,
                other,
            )
            &&& other != policy_id && env.ledger.policies.contains_key(other)
                ==> ledger.policies[other] == env.ledger.policies[other]
        }),
{
}

/// Switching a policy off and on again leaves the ledger as it was if the policy
/// was on; only the last switch counts, and the owner stays who it was.
pub proof fn law_last_switch_counts(
    env: EnvView,
    policy_id: Seq<u8>,
    first: bool,
    last: bool,
    caller: Address,
)
    requires
        env.ledger.policies.contains_key(policy_id),
    ensures
        switched(switched(env, policy_id, first), policy_id, last) == switched(
            env,
            policy_id,
            last,
        ),
        switched(env, policy_id, last).ledger.policies[policy_id].enabled == last,
        owner_gate(switched(env, policy_id, last).ledger, caller, policy_id) == owner_gate(
            env.ledger,
            caller,
            policy_id,
        ),
        env.ledger.policies[policy_id].enabled == last ==> switched(env, policy_id, last) == env,
{
    let once = switched(env, policy_id, last);
    let twice = switched(switched(env, policy_id, first), policy_id, last);
    assert(twice.ledger.policies =~= once.ledger.policies);
    if env.ledger.policies[policy_id].enabled == last {
        assert(once.ledger.policies =~= env.ledger.policies);
    }
}

/// Violations are told apart by their names: no two reasons share one.
pub proof fn law_reason_names_differ(one: Reason, other: Reason)
    requires
        one != other,
    ensures
        one.spec_name() != other.spec_name(),
{
    reveal_strlit("disabled");
    reveal_strlit("blacklisted");
    reveal_strlit("merchant_blocked");
    reveal_strlit("expired");
    reveal_strlit("above_max");
    reveal_strlit("bad_recipient");
    reveal_strlit("bad_asset");
    reveal_strlit("asset_blacklisted");
    reveal_strlit("asset_not_whitelisted");
    reveal_strlit("allowance_expired");
    reveal_strlit("allowance_exceeded");
    reveal_strlit("category_restricted");
    reveal_strlit("rule_denied");
    if one.spec_name() == other.spec_name() {
        assert(one.spec_name().len() == other.spec_name().len());
        assert(one.spec_name()[0] == other.spec_name()[0]);
        assert(one.spec_name()[1] == other.spec_name()[1]);
    }
}

} // verus!
