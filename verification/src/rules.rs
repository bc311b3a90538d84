//! Conditional rules. The rules themselves are kept and evaluated by a rule
//! book beside this contract; what stands here is who may change them, and what
//! is made of the rule book's answers.

use vstd::prelude::*;
use crate::env::{Env, EnvView, LedgerView};
use crate::errors::Error;
use crate::events::{Event, Subject, Topic};
use crate::policies::{owner_gate, policy_event, text_event, PolicyContract};
use crate::rule_tree::TransactionPayload;
use crate::table::Key;
use crate::values::{Address, Text};

verus! {

/// The question put to the rule book: do the conditional rules of the policy let
/// `asset` flow to `recipient`?
#[derive(Debug, PartialEq, Eq)]
pub struct RuleQuery {
    pub policy_id: Text,
    pub recipient: Address,
    pub asset: Address,
}

/// The view of a [`RuleQuery`].
pub struct RuleQueryView {
    pub policy_id: Seq<u8>,
    pub recipient: Address,
    pub asset: Address,
}

impl View for RuleQuery {
    type V = RuleQueryView;

    open spec fn view(&self) -> RuleQueryView {
        RuleQueryView {
            policy_id: self.policy_id@,
            recipient: self.recipient,
            asset: self.asset,
        }
    }
}

/// The rule book's answer to a question: it lets the transfer pass, it denies it
/// with [`Error::RuleDenied`], or something went wrong.
#[derive(Debug, PartialEq, Eq)]
pub struct RuleAnswer {
    pub query: RuleQuery,
    pub outcome: Result<(), Error>,
}

/// The question that the rule book is asked about a transfer under a policy.
pub open spec fn rule_question(policy_id: Seq<u8>, payload: TransactionPayload) -> RuleQueryView {
    RuleQueryView { policy_id, recipient: payload.recipient, asset: payload.asset }
}

/// What is heard from the rule book about a transfer. Silence, and the answer to
/// another question, are heard as a denial.
pub open spec fn heard(
    answer: Option<RuleAnswer>,
    policy_id: Seq<u8>,
    payload: TransactionPayload,
) -> Result<(), Error> {
    match answer {
        Some(a) => if a.query@ == rule_question(policy_id, payload) {
            a.outcome
        } else {
            Err(Error::RuleDenied)
        },
        None => Err(Error::RuleDenied),
    }
}

/// Whether the rule book denies a transfer. An error that is no denial denies
/// nothing.
pub fn rule_book_denies(
    answer: &Option<RuleAnswer>,
    policy_id: &Text,
    payload: &TransactionPayload,
) -> (denies: bool)
    ensures
        denies == (heard(*answer, policy_id@, *payload) == Err::<(), Error>(Error::RuleDenied)),
{
    match answer {
        Some(a) => {
            let same = a.query.policy_id.same(policy_id) && a.query.recipient == payload.recipient
                && a.query.asset == payload.asset;
            if same {
                match a.outcome {
                    Err(Error::RuleDenied) => true,
                    _ => false,
                }
            } else {
                true
            }
        },
        None => true,
    }
}

/// A change of a policy's conditional rules, as it is put to the rule book.
#[derive(Debug, PartialEq, Eq)]
pub enum RuleRequest {
    /// Append the rule with this encoding.
    Add { policy_id: Text, rule: Text },
    /// Remove the rule with this id.
    Remove { policy_id: Text, rule_id: Text },
}

/// The view of a [`RuleRequest`].
pub enum RuleRequestView {
    Add { policy_id: Seq<u8>, rule: Seq<u8> },
    Remove { policy_id: Seq<u8>, rule_id: Seq<u8> },
}

impl View for RuleRequest {
    type V = RuleRequestView;

    open spec fn view(&self) -> RuleRequestView {
        match *self {
            RuleRequest::Add { policy_id, rule } => RuleRequestView::Add {
                policy_id: policy_id@,
                rule: rule@,
            },
            RuleRequest::Remove { policy_id, rule_id } => RuleRequestView::Remove {
                policy_id: policy_id@,
                rule_id: rule_id@,
            },
        }
    }
}

/// The rule book's reply to a request: it made the change, or why it did not.
#[derive(Debug, PartialEq, Eq)]
pub struct RuleReply {
    pub request: RuleRequest,
    pub outcome: Result<(), Error>,
}

/// What the rule book replied to a request. Silence, and the reply to another
/// request, count as a denial.
pub open spec fn replied(reply: Option<RuleReply>, request: RuleRequestView) -> Result<(), Error> {
    match reply {
        Some(r) => if r.request@ == request {
            r.outcome
        } else {
            Err(Error::RuleDenied)
        },
        None => Err(Error::RuleDenied),
    }
}

/// What the rule book replied to `request`.
pub fn reply_to(reply: &Option<RuleReply>, request: &RuleRequest) -> (outcome: Result<(), Error>)
    ensures
        outcome == replied(*reply, request@),
{
    match reply {
        Some(r) => {
            let same = match (&r.request, request) {
                (
                    RuleRequest::Add { policy_id: id, rule: given },
                    RuleRequest::Add { policy_id, rule },
                ) => id.same(policy_id) && given.same(rule),
                (
                    RuleRequest::Remove { policy_id: id, rule_id: given },
                    RuleRequest::Remove { policy_id, rule_id },
                ) => id.same(policy_id) && given.same(rule_id),
                _ => false,
            };
            if same {
                r.outcome
            } else {
                Err(Error::RuleDenied)
            }
        },
        None => Err(Error::RuleDenied),
    }
}

/// What a change of a policy's conditional rules is answered: only the owner's
/// request reaches the rule book, and the rule book's reply is passed on.
pub open spec fn rule_outcome(
    ledger: LedgerView,
    caller: Address,
    policy_id: Seq<u8>,
    answer: Result<(), Error>,
) -> Result<(), Error> {
    let gate = owner_gate(ledger, caller, policy_id);
    if gate is Ok {
        answer
    } else {
        gate
    }
}

/// The environment after a conditional rule was added.
pub open spec fn rule_added(env: EnvView, policy_id: Seq<u8>) -> EnvView {
    env.publish(policy_event(Topic::RuleAdded, policy_id))
}

/// The environment after a conditional rule was removed.
pub open spec fn rule_removed(env: EnvView, policy_id: Seq<u8>, rule_id: Seq<u8>) -> EnvView {
    env.publish(text_event(Topic::RuleRemoved, policy_id, rule_id))
}

impl PolicyContract {
    /// The request to put to the rule book so that `rule` is appended to a policy
    /// (owner only).
    pub fn rule_addition(
        env: &Env,
        caller: &Address,
        policy_id: &Text,
        rule: &Text,
    ) -> (request: Result<RuleRequest, Error>)
        requires
            env@.authorized.contains(*caller),
        ensures
            match request {
                Ok(r) => owner_gate(env@.ledger, *caller, policy_id@) is Ok && r@ == (
                RuleRequestView::Add { policy_id: policy_id@, rule: rule@ }),
                Err(error) => owner_gate(env@.ledger, *caller, policy_id@) == Err::<(), Error>(
                    error,
                ),
            },
    {
        Self::require_policy_owner(env, caller, policy_id)?;
        Ok(RuleRequest::Add { policy_id: policy_id.clone(), rule: rule.clone() })
    }

    /// The request to put to the rule book so that the rule `rule_id` is removed
    /// from a policy (owner only).
    pub fn rule_removal(
        env: &Env,
        caller: &Address,
        policy_id: &Text,
        rule_id: &Text,
    ) -> (request: Result<RuleRequest, Error>)
        requires
            env@.authorized.contains(*caller),
        ensures
            match request {
                Ok(r) => owner_gate(env@.ledger, *caller, policy_id@) is Ok && r@ == (
                RuleRequestView::Remove { policy_id: policy_id@, rule_id: rule_id@ }),
                Err(error) => owner_gate(env@.ledger, *caller, policy_id@) == Err::<(), Error>(
                    error,
                ),
            },
    {
        Self::require_policy_owner(env, caller, policy_id)?;
        Ok(RuleRequest::Remove { policy_id: policy_id.clone(), rule_id: rule_id.clone() })
    }

    /// Appends a conditional rule, given by its encoding, to a policy (owner only).
    /// `reply` is what the rule book replied to [`PolicyContract::rule_addition`].
    pub fn add_rule(
        env: &mut Env,
        caller: Address,
        policy_id: Text,
        rule: Text,
        reply: Option<RuleReply>,
    ) -> (outcome: Result<(), Error>)
        requires
            old(env)@.authorized.contains(caller),
        ensures
            outcome == rule_outcome(
                old(env)@.ledger,
                caller,
                policy_id@,
                replied(reply, (RuleRequestView::Add { policy_id: policy_id@, rule: rule@ })),
            ),
            outcome is Err ==> final(env)@ == old(env)@,
            outcome is Ok ==> final(env)@ == rule_added(old(env)@, policy_id@),
    {
        let request = Self::rule_addition(env, &caller, &policy_id, &rule)?;
        reply_to(&reply, &request)?;
        env.publish(
            Event::Policy { topic: Topic::RuleAdded, policy_id, subject: Subject::Policy },
        );
        Ok(())
    }

    /// Removes a conditional rule by its id (owner only). `reply` is what the rule
    /// book replied to [`PolicyContract::rule_removal`].
    pub fn remove_rule(
        env: &mut Env,
        caller: Address,
        policy_id: Text,
        rule_id: Text,
        reply: Option<RuleReply>,
    ) -> (outcome: Result<(), Error>)
        requires
            old(env)@.authorized.contains(caller),
        ensures
            outcome == rule_outcome(
                old(env)@.ledger,
                caller,
                policy_id@,
                replied(
                    reply,
                    (RuleRequestView::Remove { policy_id: policy_id@, rule_id: rule_id@ }),
                ),
            ),
            outcome is Err ==> final(env)@ == old(env)@,
            outcome is Ok ==> final(env)@ == rule_removed(old(env)@, policy_id@, rule_id@),
    {
        let request = Self::rule_removal(env, &caller, &policy_id, &rule_id)?;
        reply_to(&reply, &request)?;
        env.publish(
            Event::Policy {
                topic: Topic::RuleRemoved,
                policy_id,
                subject: Subject::Text(rule_id),
            },
        );
        Ok(())
    }
}

} // verus!
