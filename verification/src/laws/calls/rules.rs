//! Laws of the calls on conditional rules.

use vstd::prelude::*;
use crate::env::Env;
use crate::errors::Error;
use crate::events::{SubjectView, Topic};
use crate::laws::calls::{
    announcement,
    asks_for,
    keeps_all_but,
    leaves_alone,
    lemma_same_view,
    lemma_view,
    owner_answer,
    Part,
};
use crate::laws::calls::transfers::rule_book_agrees;
use crate::policies::{Policy, PolicyContract};
use crate::rule_tree::TransactionPayload;
use crate::rules::{reply_to, rule_book_denies, RuleAnswer, RuleReply, RuleRequest};
use crate::values::{Address, Text};

verus! {

/// What the rule book said to a request: its outcome, if it is the reply to this very
/// request; otherwise a denial. A request to add has a rule, one to remove has an id.
pub open spec fn said(
    reply: Option<RuleReply>,
    policy_id: Seq<u8>,
    added: Option<Seq<u8>>,
    removed: Option<Seq<u8>>,
) -> Result<(), Error> {
    let replied = reply is Some && match reply->0.request {
        RuleRequest::Add { policy_id: id, rule } => id@ == policy_id && added == Some(rule@),
        RuleRequest::Remove { policy_id: id, rule_id } => id@ == policy_id && removed == Some(
            rule_id@,
        ),
    };
    if replied {
        reply->0.outcome
    } else {
        Err(Error::RuleDenied)
    }
}

/// A reply counts if it is to this very request; silence and other replies are
/// denials.
pub proof fn law_reply_to(
    reply: Option<RuleReply>,
    request: RuleRequest,
    outcome: Result<(), Error>,
)
    requires
        call_ensures(reply_to, (&reply, &request), outcome),
    ensures
        outcome == match request {
            RuleRequest::Add { policy_id, rule } => said(reply, policy_id@, Some(rule@), None),
            RuleRequest::Remove { policy_id, rule_id } => said(
                reply,
                policy_id@,
                None,
                Some(rule_id@),
            ),
        },
{
}

/// Only the owner's requests reach the rule book, and they name the policy and the
/// rule as given.
pub proof fn law_rule_requests(
    env: Env,
    caller: Address,
    policy_id: Text,
    rule: Text,
    addition: Result<RuleRequest, Error>,
    removal: Result<RuleRequest, Error>,
)
    requires
        call_ensures(
            PolicyContract::rule_addition,
            (&env, &caller, &policy_id, &rule),
            addition,
        ),
        call_ensures(PolicyContract::rule_removal, (&env, &caller, &policy_id, &rule), removal),
    ensures
        ({
            let gate = owner_answer(env, caller, policy_id@, Ok(()));
            &&& gate is Ok ==> (addition matches Ok(RuleRequest::Add { policy_id: id, rule: given })
                && id@ == policy_id@ && given@ == rule@)
            &&& gate is Ok ==> (removal matches Ok(
                RuleRequest::Remove { policy_id: id, rule_id: given },
            ) && id@ == policy_id@ && given@ == rule@)
            &&& gate matches Err(error) ==> addition == Err::<RuleRequest, Error>(error) && removal
                == Err::<RuleRequest, Error>(error)
        }),
{
}

/// The rule book denies a transfer if it does not answer this very question, and
/// otherwise if and only if its answer is a denial.
pub proof fn law_rule_book_denies(
    answer: Option<RuleAnswer>,
    policy_id: Text,
    payload: TransactionPayload,
    denies: bool,
)
    requires
        call_ensures(rule_book_denies, (&answer, &policy_id, &payload), denies),
    ensures
        denies <==> !rule_book_agrees(answer, policy_id@, payload),
{
}

/// A rule is added for the owner if and only if the rule book says so; the addition is
/// made known, and no entry is touched.
pub proof fn law_add_rule(
    env: &mut Env,
    caller: Address,
    policy_id: Text,
    rule: Text,
    reply: Option<RuleReply>,
    outcome: Result<(), Error>,
)
    requires
        call_ensures(
            PolicyContract::add_rule,
            (env, caller, policy_id, rule, reply),
            outcome,
        ),
    ensures
        outcome == owner_answer(
            *old(env),
            caller,
            policy_id@,
            said(reply, policy_id@, Some(rule@), None),
        ),
        outcome is Err ==> leaves_alone(*old(env), *final(env)),
        outcome is Ok ==> ({
            &&& keeps_all_but(Part::Nothing, *old(env), *final(env))
            &&& asks_for(
                seq![announcement(Topic::RuleAdded, policy_id@, SubjectView::Policy)],
                *old(env),
                *final(env),
            )
        }),
{
    if outcome is Err {
        lemma_same_view(*old(env), *final(env));
    } else {
        lemma_view(
            *old(env),
            *final(env),
            seq![announcement(Topic::RuleAdded, policy_id@, SubjectView::Policy)],
        );
    }
}

/// A rule is removed for the owner if and only if the rule book says so; the removal is
/// made known with the rule's id, and no entry is touched.
pub proof fn law_remove_rule(
    env: &mut Env,
    caller: Address,
    policy_id: Text,
    rule_id: Text,
    reply: Option<RuleReply>,
    outcome: Result<(), Error>,
)
    requires
        call_ensures(
            PolicyContract::remove_rule,
            (env, caller, policy_id, rule_id, reply),
            outcome,
        ),
    ensures
        outcome == owner_answer(
            *old(env),
            caller,
            policy_id@,
            said(reply, policy_id@, None, Some(rule_id@)),
        ),
        outcome is Err ==> leaves_alone(*old(env), *final(env)),
        outcome is Ok ==> ({
            &&& keeps_all_but(Part::Nothing, *old(env), *final(env))
            &&& asks_for(
                seq![announcement(Topic::RuleRemoved, policy_id@, SubjectView::Text(rule_id@))],
                *old(env),
                *final(env),
            )
        }),
{
    if outcome is Err {
        lemma_same_view(*old(env), *final(env));
    } else {
        lemma_view(
            *old(env),
            *final(env),
            seq![announcement(Topic::RuleRemoved, policy_id@, SubjectView::Text(rule_id@))],
        );
    }
}

} // verus!
