//! Laws of the spending allowances.

use vstd::prelude::*;
use crate::allowances::{
    allowance_denial,
    allowance_of,
    allowance_removed,
    allowance_set,
    allowance_used,
    has_expired,
    headroom,
    AllowanceView,
};
use crate::checks::fits;
use crate::env::EnvView;
use crate::errors::Error;
use crate::events::denied;
use crate::values::Address;

verus! {

/// A spend that the allowance lets pass is added to what was spent, never past
/// the limit; the limit, the end and every other allowance stay as they are.
pub proof fn law_spend_is_counted(
    env: EnvView,
    policy_id: Seq<u8>,
    asset: Address,
    amount: i128,
    other: (Seq<u8>, Address),
)
    requires
        allowance_denial(env, policy_id, asset, amount) is None,
    ensures
        ({
            let before = allowance_of(env.ledger, policy_id, asset);
            let ledger = allowance_used(env, policy_id, asset, amount).ledger;
            let after = allowance_of(ledger, policy_id, asset);
            &&& before.limit == 0 ==> after == before
            &&& before.limit != 0 ==> after == (AllowanceView { spent: after.spent, ..before })
                && after.spent == before.spent + amount && after.spent <= after.limit
            &&& other != (policy_id, asset) ==> allowance_of(ledger, other.0, other.1)
                == allowance_of(env.ledger, other.0, other.1)
        }),
{
}

/// What is checked is what can be spent: the headroom that the check promises for
/// a spend is the headroom that a check without an amount finds afterwards.
pub proof fn law_check_foretells_spend(
    env: EnvView,
    policy_id: Seq<u8>,
    asset: Address,
    amount: i128,
)
    requires
        allowance_denial(env, policy_id, asset, amount) is None,
    ensures
        ({
            let after = allowance_used(env, policy_id, asset, amount);
            let promised = headroom(allowance_of(env.ledger, policy_id, asset), amount);
            &&& promised >= 0
            &&& allowance_denial(after, policy_id, asset, 0) is None
            &&& headroom(allowance_of(after.ledger, policy_id, asset), 0) == promised
        }),
{
}

/// Two spends in a row are one spend of their sum: both are let pass, one after the
/// other, if and only if the sum is, and what is stored afterwards is the same.
pub proof fn law_spends_add_up(
    env: EnvView,
    policy_id: Seq<u8>,
    asset: Address,
    first: i128,
    second: i128,
)
    requires
        first >= 0,
        second >= 0,
        fits(first + second),
    ensures
        ({
            let sum = (first + second) as i128;
            let once = allowance_used(env, policy_id, asset, first);
            let twice = allowance_used(once, policy_id, asset, second);
            let both_pass = allowance_denial(env, policy_id, asset, first) is None
                && allowance_denial(once, policy_id, asset, second) is None;
            &&& both_pass <==> allowance_denial(env, policy_id, asset, sum) is None
            &&& both_pass ==> twice.ledger == allowance_used(env, policy_id, asset, sum).ledger
        }),
{
    let once = allowance_used(env, policy_id, asset, first);
    let twice = allowance_used(once, policy_id, asset, second);
    let both = allowance_used(env, policy_id, asset, (first + second) as i128);
    if allowance_denial(env, policy_id, asset, (first + second) as i128) is None {
        assert(twice.ledger.allowances =~= both.ledger.allowances);
    }
}

/// Setting an allowance gives it its limit and its end and keeps what was spent;
/// every other allowance stays as it is.
pub proof fn law_set_keeps_spend(
    env: EnvView,
    policy_id: Seq<u8>,
    asset: Address,
    limit: i128,
    expires_at: u64,
    other: (Seq<u8>, Address),
)
    ensures
        ({
            let ledger = allowance_set(env, policy_id, asset, limit, expires_at).ledger;
            &&& allowance_of(ledger, policy_id, asset) == (AllowanceView {
                policy_id,
                asset,
                limit,
                spent: allowance_of(env.ledger, policy_id, asset).spent,
                expires_at,
            })
            &&& other != (policy_id, asset) ==> allowance_of(ledger, other.0, other.1)
                == allowance_of(env.ledger, other.0, other.1)
        }),
{
}

/// Without an allowance every amount that is not negative can be spent; removing
/// one brings that about, and forgets what was spent.
pub proof fn law_removed_is_unrestricted(
    env: EnvView,
    policy_id: Seq<u8>,
    asset: Address,
    amount: i128,
    other: (Seq<u8>, Address),
)
    requires
        amount >= 0,
    ensures
        ({
            let after = allowance_removed(env, policy_id, asset);
            &&& allowance_denial(after, policy_id, asset, amount) is None
            &&& allowance_of(after.ledger, policy_id, asset).spent == 0
            &&& allowance_used(after, policy_id, asset, amount) == after
            &&& other != (policy_id, asset) ==> allowance_of(after.ledger, other.0, other.1)
                == allowance_of(env.ledger, other.0, other.1)
        }),
{
}

/// In a consistent ledger the arithmetic of allowances never overflows: no check
/// and no spend is refused for it.
pub proof fn law_no_overflow(env: EnvView, policy_id: Seq<u8>, asset: Address, amount: i128)
    requires
        env.ledger.consistent(),
    ensures
        allowance_denial(env, policy_id, asset, amount) matches Some(d) ==> d.error
            != Error::Overflow,
{
}

/// An allowance that has expired denies every spend, and goes on to do so.
pub proof fn law_expired_allowance_denies(
    env: EnvView,
    policy_id: Seq<u8>,
    asset: Address,
    amount: i128,
    later: u64,
)
    requires
        amount >= 0,
        allowance_of(env.ledger, policy_id, asset).limit != 0,
        has_expired(allowance_of(env.ledger, policy_id, asset).expires_at, env.timestamp),
        later >= env.timestamp,
    ensures
        denied(
            allowance_denial(EnvView { timestamp: later, ..env }, policy_id, asset, amount),
        ) == Err::<(), Error>(Error::PolicyDenied),
{
}

/// A smaller spend passes where a larger one does.
pub proof fn law_smaller_spend_passes(
    env: EnvView,
    policy_id: Seq<u8>,
    asset: Address,
    amount: i128,
    smaller: i128,
)
    requires
        allowance_denial(env, policy_id, asset, amount) is None,
        0 <= smaller <= amount,
    ensures
        allowance_denial(env, policy_id, asset, smaller) is None,
{
}

} // verus!
