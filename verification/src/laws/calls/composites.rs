//! Laws of the calls on composite rules.

use vstd::prelude::*;
use crate::env::{LedgerView, Env};
use crate::errors::Error;
use crate::events::{SubjectView, Topic};
use crate::laws::calls::{
    announcement,
    asks_for,
    keeps_all_but,
    leaves_alone,
    lemma_same_view,
    lemma_view,
    owner_answer,
    Part,
};
use crate::laws::rule_trees::{law_only_error, law_stored_rule_has_ten_levels, is_chain, is_reading};
use crate::policies::{Policy, PolicyContract};
use crate::rule_tree::{
    first_decisive,
    evaluate_node,
    node_verdict,
    RuleNode,
    RuleTree,
    TransactionPayload,
};
use crate::values::{Address, Text};

verus! {

/// Setting a composite rule stores exactly this tree for the policy and touches
/// nothing else.
pub proof fn law_set_composite_rule(
    env: &mut Env,
    caller: Address,
    policy_id: Text,
    rule_tree: RuleTree,
    outcome: Result<(), Error>,
)
    requires
        call_ensures(
            PolicyContract::set_composite_rule,
            (env, caller, policy_id, rule_tree),
            outcome,
        ),
    ensures
        outcome == owner_answer(
            *old(env),
            caller,
            policy_id@,
            if rule_tree@.len() == 0 {
                Err::<(), Error>(Error::InvalidInput)
            } else {
                Ok(())
            },
        ),
        outcome is Err ==> leaves_alone(*old(env), *final(env)),
        outcome is Ok ==> ({
            &&& final(env).ledger.composite_rules@ == old(env).ledger.composite_rules@.insert(
                policy_id@,
                rule_tree@,
            )
            &&& keeps_all_but(Part::CompositeRules, *old(env), *final(env))
            &&& asks_for(
                seq![announcement(Topic::CompositeSet, policy_id@, SubjectView::Policy)],
                *old(env),
                *final(env),
            )
        }),
{
    if outcome is Err {
        lemma_same_view(*old(env), *final(env));
    } else {
        lemma_view(
            *old(env),
            *final(env),
            seq![announcement(Topic::CompositeSet, policy_id@, SubjectView::Policy)],
        );
    }
}

/// Clearing a composite rule removes the one of this policy and touches nothing else.
pub proof fn law_clear_composite_rule(
    env: &mut Env,
    caller: Address,
    policy_id: Text,
    outcome: Result<(), Error>,
)
    requires
        call_ensures(
            PolicyContract::clear_composite_rule,
            (env, caller, policy_id),
            outcome,
        ),
    ensures
        outcome == owner_answer(
            *old(env),
            caller,
            policy_id@,
            if old(env).ledger.composite_rules@.contains_key(policy_id@) {
                Ok::<(), Error>(())
            } else {
                Err(Error::NotFound)
            },
        ),
        outcome is Err ==> leaves_alone(*old(env), *final(env)),
        outcome is Ok ==> ({
            &&& final(env).ledger.composite_rules@ == old(env).ledger.composite_rules@.remove(
                policy_id@,
            )
            &&& keeps_all_but(Part::CompositeRules, *old(env), *final(env))
            &&& asks_for(
                seq![announcement(Topic::CompositeCleared, policy_id@, SubjectView::Policy)],
                *old(env),
                *final(env),
            )
        }),
{
    if outcome is Err {
        lemma_same_view(*old(env), *final(env));
    } else {
        lemma_view(
            *old(env),
            *final(env),
            seq![announcement(Topic::CompositeCleared, policy_id@, SubjectView::Policy)],
        );
    }
}

/// A composite rule is read back node by node as it is stored.
pub proof fn law_get_composite_rule(env: Env, policy_id: Text, got: Result<RuleTree, Error>)
    requires
        call_ensures(PolicyContract::get_composite_rule, (&env, policy_id), got),
    ensures
        got is Ok <==> env.ledger.composite_rules@.contains_key(policy_id@),
        got matches Ok(tree) ==> tree@ == env.ledger.composite_rules@[policy_id@],
        got matches Err(error) ==> error == Error::NotFound,
{
}

/// A stored rule of up to ten levels gives the truth of its formula: the evaluation
/// says `Ok(true)` where the formula holds, and denies the transfer where it does
/// not.
pub proof fn law_rule_means_its_formula(
    env: Env,
    policy_id: Text,
    payload: TransactionPayload,
    part: Set<int>,
    height: spec_fn(int) -> nat,
    truth: spec_fn(int) -> bool,
    verdict: Result<bool, Error>,
    answer: Result<bool, Error>,
)
    requires
        call_ensures(
            PolicyContract::meets_composite_rule,
            (&env, &policy_id, &payload),
            verdict,
        ),
        call_ensures(
            PolicyContract::evaluate_composite_rule,
            (&env, policy_id, payload),
            answer,
        ),
        env.ledger.composite_rules@.contains_key(policy_id@),
        is_reading(
            env.ledger.composite_rules@[policy_id@],
            payload,
            env.ledger.blacklist@.contains_key(payload.recipient),
            env.ledger.merchant_blacklist@.contains_key(payload.recipient),
            part,
            height,
            truth,
        ),
        part.contains(0),
        height(0) <= 10,
    ensures
        verdict == Ok::<bool, Error>(truth(0)),
        answer == if truth(0) {
            Ok::<bool, Error>(true)
        } else {
            Err(Error::PolicyDenied)
        },
{
    law_stored_rule_has_ten_levels(env@.ledger, policy_id@, payload, part, height, truth);
}

/// A stored rule is what its root says within ten levels, however deep or malformed
/// it is; a chain gives a verdict if and only if it has no more than ten nodes.
/// Without a rule, and with an empty one, every transfer is in order. The evaluation
/// passes a verdict on, but for `false`, which denies the transfer.
pub proof fn law_rule_is_read_from_its_root(
    env: Env,
    policy_id: Text,
    payload: TransactionPayload,
    tree: RuleTree,
    verdict: Result<bool, Error>,
    answer: Result<bool, Error>,
    root: Result<bool, Error>,
)
    requires
        call_ensures(
            PolicyContract::meets_composite_rule,
            (&env, &policy_id, &payload),
            verdict,
        ),
        call_ensures(
            PolicyContract::evaluate_composite_rule,
            (&env, policy_id, payload),
            answer,
        ),
        call_ensures(evaluate_node, (&env, &tree, 0u32, &payload, 10u32), root),
        env.ledger.composite_rules@.contains_key(policy_id@) ==> tree@
            == env.ledger.composite_rules@[policy_id@],
    ensures
        ({
            let ruled = env.ledger.composite_rules@.contains_key(policy_id@) && tree@.len() > 0;
            &&& ruled ==> verdict == root
            &&& ruled && is_chain(tree@) ==> (verdict is Ok <==> tree@.len() <= 10)
            &&& !ruled ==> verdict == Ok::<bool, Error>(true)
        }),
        verdict == Ok::<bool, Error>(false) <==> answer == Err::<bool, Error>(Error::PolicyDenied),
        verdict != Ok::<bool, Error>(false) ==> answer == verdict,
{
    law_stored_rule_has_ten_levels(
        env@.ledger,
        policy_id@,
        payload,
        Set::empty(),
        |i: int| 0nat,
        |i: int| false,
    );
    if env.ledger.composite_rules@.contains_key(policy_id@) {
        law_only_error(env@.ledger, tree@, 0, payload, 10);
    }
}

/// The evaluation of a node is the verdict that the laws of rule trees speak of, on
/// the lists that are stored; it is refused outright without a level to evaluate or
/// a node to look at, and a leaf compares.
pub proof fn law_evaluate_node(
    env: Env,
    tree: RuleTree,
    index: u32,
    payload: TransactionPayload,
    depth: u32,
    verdict: Result<bool, Error>,
)
    requires
        call_ensures(evaluate_node, (&env, &tree, index, &payload, depth), verdict),
    ensures
        verdict == node_verdict(env@.ledger, tree@, index as int, payload, depth as nat),
        env@.ledger.blacklist == env.ledger.blacklist@,
        env@.ledger.merchant_blacklist == env.ledger.merchant_blacklist@,
        depth == 0 || index >= tree@.len() ==> verdict == Err::<bool, Error>(Error::InvalidInput),
        depth > 0 && index < tree@.len() ==> ({
            let node = tree@[index as int];
            &&& node.op is MaxAmount ==> verdict == Ok::<bool, Error>(
                payload.amount <= node.value_i128,
            )
            &&& node.op is AllowedRecipient ==> verdict == Ok::<bool, Error>(
                payload.recipient == node.value_address,
            )
            &&& node.op is AllowedAsset ==> verdict == Ok::<bool, Error>(
                payload.asset == node.value_address,
            )
            &&& node.op is RecipientBlacklisted ==> verdict == Ok::<bool, Error>(
                env.ledger.blacklist@.contains_key(payload.recipient),
            )
            &&& node.op is MerchantBlacklisted ==> verdict == Ok::<bool, Error>(
                env.ledger.merchant_blacklist@.contains_key(payload.recipient),
            )
        }),
{
}

/// What a branch says is decided by what its children say within one level less:
/// `Not` turns its only child around; an `And` holds if and only if all its children
/// do, an `Or` fails if and only if all its children do, and otherwise each says what
/// the first child says that decides.
pub proof fn law_branch_follows_its_children(
    env: Env,
    tree: RuleTree,
    index: u32,
    payload: TransactionPayload,
    depth: u32,
    verdict: Result<bool, Error>,
    children: spec_fn(int) -> Result<bool, Error>,
)
    requires
        depth > 0,
        index < tree@.len(),
        call_ensures(evaluate_node, (&env, &tree, index, &payload, depth), verdict),
        forall|c: u32|
            call_ensures(
                evaluate_node,
                (&env, &tree, c, &payload, (depth - 1) as u32),
                #[trigger] children(c as int),
            ),
    ensures
        ({
            let node = tree@[index as int];
            let from = node.children_start as int;
            let to = node.children_end as int;
            let yes = Ok::<bool, Error>(true);
            let no = Ok::<bool, Error>(false);
            let bad = Err::<bool, Error>(Error::InvalidInput);
            &&& node.op is Not && to != from + 1 ==> verdict == bad
            &&& node.op is Not && to == from + 1 ==> verdict == if children(from) == yes {
                no
            } else if children(from) == no {
                yes
            } else {
                bad
            }
            &&& (node.op is And || node.op is Or) && from == to ==> verdict == bad
            &&& node.op is And && from != to ==> (verdict == yes <==> forall|c: int|
                from <= c < to ==> #[trigger] children(c) == yes)
            &&& node.op is Or && from != to ==> (verdict == no <==> forall|c: int|
                from <= c < to ==> #[trigger] children(c) == no)
            &&& node.op is And && from != to && verdict != yes ==> exists|c: int|
                from <= c < to && #[trigger] children(c) == verdict && forall|e: int|
                    from <= e < c ==> #[trigger] children(e) == yes
            &&& node.op is Or && from != to && verdict != no ==> exists|c: int|
                from <= c < to && #[trigger] children(c) == verdict && forall|e: int|
                    from <= e < c ==> #[trigger] children(e) == no
        }),
{
    let node = tree@[index as int];
    let below = (depth - 1) as nat;
    let ledger = env@.ledger;
    let from = node.children_start as int;
    let to = node.children_end as int;
    assert forall|c: int| 0 <= c <= u32::MAX implies #[trigger] children(c) == node_verdict(
        ledger,
        tree@,
        c,
        payload,
        below,
    ) by {
        let narrow = c as u32;
        assert(call_ensures(
            evaluate_node,
            (&env, &tree, narrow, &payload, (depth - 1) as u32),
            children(narrow as int),
        ));
    }
    if node.op is And && from != to {
        lemma_first_that_decides(ledger, tree@, from, to, payload, below, false, children);
    } else if node.op is Or && from != to {
        lemma_first_that_decides(ledger, tree@, from, to, payload, below, true, children);
    } else if node.op is Not && to == from + 1 {
        law_only_error(ledger, tree@, from, payload, below);
        assert(children(from) == node_verdict(ledger, tree@, from, payload, below));
    }
}

proof fn lemma_first_that_decides(
    ledger: LedgerView,
    tree: Seq<RuleNode>,
    from: int,
    to: int,
    payload: TransactionPayload,
    depth: nat,
    decisive: bool,
    children: spec_fn(int) -> Result<bool, Error>,
)
    requires
        0 <= from,
        to <= u32::MAX,
        forall|c: int|
            0 <= c <= u32::MAX ==> #[trigger] children(c) == node_verdict(
                ledger,
                tree,
                c,
                payload,
                depth,
            ),
    ensures
        ({
            let verdict = first_decisive(ledger, tree, from, to, payload, depth, decisive);
            let other = Ok::<bool, Error>(!decisive);
            &&& verdict == other <==> forall|c: int|
                from <= c < to ==> #[trigger] children(c) == other
            &&& verdict != other ==> exists|c: int|
                from <= c < to && #[trigger] children(c) == verdict && forall|e: int|
                    from <= e < c ==> #[trigger] children(e) == other
        }),
    decreases to - from,
{
    if from < to {
        let verdict = first_decisive(ledger, tree, from, to, payload, depth, decisive);
        let other = Ok::<bool, Error>(!decisive);
        assert(children(from) == node_verdict(ledger, tree, from, payload, depth));
        if children(from) == other {
            lemma_first_that_decides(
                ledger,
                tree,
                from + 1,
                to,
                payload,
                depth,
                decisive,
                children,
            );
            if verdict != other {
                let c = choose|c: int|
                    from + 1 <= c < to && #[trigger] children(c) == verdict && forall|e: int|
                        from + 1 <= e < c ==> #[trigger] children(e) == other;
                assert(children(c) == verdict);
                assert(forall|e: int| from <= e < c ==> #[trigger] children(e) == other);
            }
        } else {
            assert(children(from) == verdict);
            assert(forall|e: int| from <= e < from ==> #[trigger] children(e) == other);
        }
    }
}

} // verus!
