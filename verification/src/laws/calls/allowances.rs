//! Laws of the calls on allowances.

use vstd::prelude::*;
use crate::allowances::AssetAllowance;
use crate::env::Env;
use crate::errors::Error;
use crate::events::{Denial, Reason, SubjectView, Topic};
use crate::laws::calls::{
    announcement,
    asks_for,
    keeps_all_but,
    leaves_alone,
    lemma_same_view,
    lemma_view,
    only_reports,
    owner_answer,
    Part,
    lemma_reported,
};
use crate::policies::PolicyContract;
use crate::upgrade::check;
use crate::values::{Address, Text};

verus! {

/// What becomes of a wish to spend, told of the stored allowance: a negative amount
/// is refused; without an allowance, and with a limit of 0, everything else passes;
/// an allowance whose end has come lets nothing pass; and otherwise the amount passes
/// if and only if, with what was spent, it stays within the limit. `refusal` is the
/// error and the reported reason.
pub open spec fn is_spend_answer(
    env: Env,
    policy_id: Seq<u8>,
    asset: Address,
    amount: i128,
    refusal: Option<(Error, Option<Reason>)>,
) -> bool {
    let stored = env.ledger.allowances@.contains_key((policy_id, asset));
    let allowance = env.ledger.allowances@[(policy_id, asset)];
    let limited = stored && allowance.limit != 0;
    let ended = allowance.expires_at != 0 && env.timestamp >= allowance.expires_at;
    let left = allowance.limit - allowance.spent;
    let held = i128::MIN <= left <= i128::MAX;
    &&& amount < 0 ==> refusal == Some((Error::InvalidAmount, None::<Reason>))
    &&& amount >= 0 && !limited ==> refusal is None
    &&& amount >= 0 && limited && ended ==> refusal == Some(
        (Error::PolicyDenied, Some(Reason::AllowanceExpired)),
    )
    &&& amount >= 0 && limited && !ended && !held ==> refusal == Some(
        (Error::Overflow, None::<Reason>),
    )
    &&& amount >= 0 && limited && !ended && held && allowance.spent + amount > allowance.limit
        ==> refusal == Some(
        (Error::PolicyAllowanceExceeded, Some(Reason::AllowanceExceeded)),
    )
    &&& amount >= 0 && limited && !ended && held && allowance.spent + amount <= allowance.limit
        ==> refusal is None
}

/// Whether a wish to spend is refused depends on the stored allowance as
/// [`is_spend_answer`] says.
pub proof fn law_allowance_refusal(
    env: Env,
    policy_id: Text,
    asset: Address,
    amount: i128,
    refusal: Option<Denial>,
)
    requires
        call_ensures(
            PolicyContract::allowance_refusal,
            (&env, &policy_id, asset, amount),
            refusal,
        ),
    ensures
        is_spend_answer(
            env,
            policy_id@,
            asset,
            amount,
            match refusal {
                Some(d) => Some((d.error, d.reason)),
                None => None,
            },
        ),
{
}

/// A check refuses and reports what cannot be spent, and otherwise says what is left:
/// what was spent, the amount and what is left make up the limit. Without a limit
/// the largest amount is left. A check changes nothing.
pub proof fn law_check_allowance(
    env: &mut Env,
    policy_id: Text,
    asset: Address,
    amount: i128,
    left: Result<i128, Error>,
    reason: Option<Reason>,
)
    requires
        call_ensures(PolicyContract::check_allowance, (env, policy_id, asset, amount), left),
        left matches Err(error) ==> is_spend_answer(
            *env,
            policy_id@,
            asset,
            amount,
            Some((error, reason)),
        ),
    ensures
        left is Ok ==> is_spend_answer(*old(env), policy_id@, asset, amount, None),
        left is Ok ==> leaves_alone(*old(env), *final(env)),
        left matches Ok(rest) ==> ({
            let stored = old(env).ledger.allowances@.contains_key((policy_id@, asset));
            let allowance = old(env).ledger.allowances@[(policy_id@, asset)];
            if stored && allowance.limit != 0 {
                rest >= 0 && allowance.spent + amount + rest == allowance.limit
            } else {
                rest == i128::MAX
            }
        }),
        left is Err ==> match reason {
            Some(reported) => only_reports(policy_id@, reported, *old(env), *final(env)),
            None => leaves_alone(*old(env), *final(env)),
        },
{
    if left is Ok {
        lemma_same_view(*old(env), *final(env));
    } else {
        match reason {
            Some(reported) => {
                lemma_reported(policy_id@, reported, *old(env), *final(env));
            },
            None => {
                lemma_same_view(*old(env), *final(env));
            },
        }
    }
}

/// A check is refused with an error that the stored allowance gives.
pub proof fn law_check_allowance_refusal(
    env: &mut Env,
    policy_id: Text,
    asset: Address,
    amount: i128,
    left: Result<i128, Error>,
)
    requires
        call_ensures(PolicyContract::check_allowance, (env, policy_id, asset, amount), left),
    ensures
        left matches Err(error) ==> exists|reason: Option<Reason>|
            is_spend_answer(*old(env), policy_id@, asset, amount, Some((error, reason))),
{
    if let Err(error) = left {
        let expired = Some(Reason::AllowanceExpired);
        let exceeded = Some(Reason::AllowanceExceeded);
        assert(is_spend_answer(*old(env), policy_id@, asset, amount, Some((error, expired)))
            || is_spend_answer(*old(env), policy_id@, asset, amount, Some((error, exceeded)))
            || is_spend_answer(*old(env), policy_id@, asset, amount, Some((error, None))));
    }
}

/// What a check says is left is what can be spent beyond the amount: of a limited
/// allowance that lets `amount` pass and leaves `rest`, another check lets `more`
/// pass if and only if `more` is at most `amount` and `rest` together.
pub proof fn law_rest_can_be_spent_and_no_more(
    env: &mut Env,
    again: &mut Env,
    policy_id: Text,
    asset: Address,
    amount: i128,
    more: i128,
    rest: i128,
    answer: Result<i128, Error>,
)
    requires
        call_ensures(PolicyContract::check_allowance, (env, policy_id, asset, amount), Ok(rest)),
        call_ensures(PolicyContract::check_allowance, (again, policy_id, asset, more), answer),
        *again == *env,
        env.ledger.allowances@.contains_key((policy_id@, asset)),
        env.ledger.allowances@[(policy_id@, asset)].limit != 0,
        more >= 0,
    ensures
        answer is Ok <==> more <= amount + rest,
{
}

/// Setting an allowance stores its limit and its end, keeps what was spent, and
/// touches no other allowance and no other entry.
pub proof fn law_set_allowance(
    env: &mut Env,
    caller: Address,
    policy_id: Text,
    asset: Address,
    limit: i128,
    expires_at: u64,
    outcome: Result<(), Error>,
)
    requires
        call_ensures(
            PolicyContract::set_allowance,
            (env, caller, policy_id, asset, limit, expires_at),
            outcome,
        ),
    ensures
        outcome == owner_answer(
            *old(env),
            caller,
            policy_id@,
            if limit < 0 {
                Err::<(), Error>(Error::InvalidAmount)
            } else {
                Ok(())
            },
        ),
        outcome is Err ==> leaves_alone(*old(env), *final(env)),
        outcome is Ok ==> ({
            let before = old(env).ledger.allowances@;
            let after = final(env).ledger.allowances@;
            let key = (policy_id@, asset);
            &&& after.contains_key(key)
            &&& after[key].policy_id == policy_id@
            &&& after[key].asset == asset
            &&& after[key].limit == limit
            &&& after[key].expires_at == expires_at
            &&& after[key].spent == if before.contains_key(key) {
                before[key].spent
            } else {
                0
            }
            &&& after.remove(key) == before.remove(key)
            &&& keeps_all_but(Part::Allowances, *old(env), *final(env))
            &&& asks_for(
                seq![
                    announcement(
                        Topic::AllowanceSet,
                        policy_id@,
                        SubjectView::Limit { asset, limit },
                    ),
                ],
                *old(env),
                *final(env),
            )
        }),
{
    if outcome is Err {
        lemma_same_view(*old(env), *final(env));
    } else {
        lemma_view(
            *old(env),
            *final(env),
            seq![
                announcement(Topic::AllowanceSet, policy_id@, SubjectView::Limit { asset, limit }),
            ],
        );
    }
}

/// Removing an allowance removes exactly this one and touches nothing else.
pub proof fn law_remove_allowance(
    env: &mut Env,
    caller: Address,
    policy_id: Text,
    asset: Address,
    outcome: Result<(), Error>,
)
    requires
        call_ensures(
            PolicyContract::remove_allowance,
            (env, caller, policy_id, asset),
            outcome,
        ),
    ensures
        outcome == owner_answer(
            *old(env),
            caller,
            policy_id@,
            if old(env).ledger.allowances@.contains_key((policy_id@, asset)) {
                Ok::<(), Error>(())
            } else {
                Err(Error::NotFound)
            },
        ),
        outcome is Err ==> leaves_alone(*old(env), *final(env)),
        outcome is Ok ==> ({
            &&& final(env).ledger.allowances@ == old(env).ledger.allowances@.remove(
                (policy_id@, asset),
            )
            &&& keeps_all_but(Part::Allowances, *old(env), *final(env))
            &&& asks_for(
                seq![
                    announcement(Topic::AllowanceRemoved, policy_id@, SubjectView::Address(asset)),
                ],
                *old(env),
                *final(env),
            )
        }),
{
    if outcome is Err {
        lemma_same_view(*old(env), *final(env));
    } else {
        lemma_view(
            *old(env),
            *final(env),
            seq![announcement(Topic::AllowanceRemoved, policy_id@, SubjectView::Address(asset))],
        );
    }
}

/// A spend that a limited allowance lets pass adds the amount to what was spent and
/// makes both known; it touches no other field, no other allowance and no other
/// entry. Without a limit a spend leaves no trace, and neither does one that is
/// refused.
pub proof fn law_update_allowance(
    env: &mut Env,
    caller: Address,
    policy_id: Text,
    asset: Address,
    amount: i128,
    outcome: Result<(), Error>,
)
    requires
        call_ensures(
            PolicyContract::update_allowance,
            (env, caller, policy_id, asset, amount),
            outcome,
        ),
    ensures
        outcome is Ok ==> is_spend_answer(*old(env), policy_id@, asset, amount, None),
        outcome matches Err(error) ==> exists|reason: Option<Reason>|
            is_spend_answer(*old(env), policy_id@, asset, amount, Some((error, reason))),
        outcome is Err ==> leaves_alone(*old(env), *final(env)),
        outcome is Ok ==> ({
            let before = old(env).ledger.allowances@;
            let after = final(env).ledger.allowances@;
            let key = (policy_id@, asset);
            if before.contains_key(key) && before[key].limit != 0 {
                &&& after.contains_key(key)
                &&& after[key].spent == before[key].spent + amount
                &&& after[key].limit == before[key].limit
                &&& after[key].expires_at == before[key].expires_at
                &&& after[key].policy_id == before[key].policy_id
                &&& after[key].asset == before[key].asset
                &&& after.remove(key) == before.remove(key)
                &&& keeps_all_but(Part::Allowances, *old(env), *final(env))
                &&& asks_for(
                    seq![
                        announcement(
                            Topic::AllowanceUsed,
                            policy_id@,
                            SubjectView::Usage { asset, amount, spent: after[key].spent },
                        ),
                    ],
                    *old(env),
                    *final(env),
                )
            } else {
                leaves_alone(*old(env), *final(env))
            }
        }),
{
    let before = old(env).ledger.allowances@;
    let after = final(env).ledger.allowances@;
    let key = (policy_id@, asset);
    if let Err(error) = outcome {
        let expired = Some(Reason::AllowanceExpired);
        let exceeded = Some(Reason::AllowanceExceeded);
        assert(is_spend_answer(*old(env), policy_id@, asset, amount, Some((error, expired)))
            || is_spend_answer(*old(env), policy_id@, asset, amount, Some((error, exceeded)))
            || is_spend_answer(*old(env), policy_id@, asset, amount, Some((error, None))));
        lemma_same_view(*old(env), *final(env));
    } else if before.contains_key(key) && before[key].limit != 0 {
        lemma_view(
            *old(env),
            *final(env),
            seq![
                announcement(
                    Topic::AllowanceUsed,
                    policy_id@,
                    SubjectView::Usage { asset, amount, spent: after[key].spent },
                ),
            ],
        );
    } else {
        lemma_same_view(*old(env), *final(env));
    }
}

/// An allowance is read as it is stored; where none is, it is read as one of this
/// policy and asset without a limit, a spend or an end.
pub proof fn law_get_allowance(
    env: Env,
    policy_id: Text,
    asset: Address,
    allowance: AssetAllowance,
)
    requires
        call_ensures(PolicyContract::get_allowance, (&env, policy_id, asset), allowance),
    ensures
        ({
            let stored = env.ledger.allowances@.contains_key((policy_id@, asset));
            let kept = env.ledger.allowances@[(policy_id@, asset)];
            &&& stored ==> allowance.policy_id@ == kept.policy_id && allowance.asset == kept.asset
                && allowance.limit == kept.limit && allowance.spent == kept.spent
                && allowance.expires_at == kept.expires_at
            &&& !stored ==> allowance.policy_id@ == policy_id@ && allowance.asset == asset
                && allowance.limit == 0 && allowance.spent == 0 && allowance.expires_at == 0
        }),
{
}

} // verus!
