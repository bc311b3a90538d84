//! Laws of composite rules.

use vstd::prelude::*;
use crate::composite::{composite_cleared, composite_set, composite_verdict};
use crate::env::{EnvView, LedgerView};
use crate::errors::Error;
use crate::rule_tree::{first_decisive, node_verdict, RuleNode, RuleOp, TransactionPayload};

verus! {

/// No child before `to` decides if and only if every child says the opposite.
proof fn lemma_first_decisive(
    ledger: LedgerView,
    tree: Seq<RuleNode>,
    from: int,
    to: int,
    payload: TransactionPayload,
    depth: nat,
    decisive: bool,
)
    ensures
        first_decisive(ledger, tree, from, to, payload, depth, decisive) == Ok::<bool, Error>(
            !decisive,
        ) <==> forall|i: int|
            from <= i < to ==> #[trigger] node_verdict(ledger, tree, i, payload, depth) == Ok::<
                bool,
                Error,
            >(!decisive),
    decreases to - from,
{
    let opposite = Ok::<bool, Error>(!decisive);
    if from < to {
        lemma_first_decisive(ledger, tree, from + 1, to, payload, depth, decisive);
        let first = node_verdict(ledger, tree, from, payload, depth);
        if first_decisive(ledger, tree, from, to, payload, depth, decisive) == opposite {
            assert(first == opposite);
            assert forall|i: int| from <= i < to implies #[trigger] node_verdict(
                ledger,
                tree,
                i,
                payload,
                depth,
            ) == opposite by {
                assert(i == from || from + 1 <= i);
            }
        } else if first == opposite {
            let i = choose|i: int|
                from + 1 <= i < to && #[trigger] node_verdict(ledger, tree, i, payload, depth)
                    != opposite;
            assert(from <= i < to && node_verdict(ledger, tree, i, payload, depth) != opposite);
        }
    }
}

/// The first child that decides, if there is one.
proof fn lemma_first_decisive_witness(
    ledger: LedgerView,
    tree: Seq<RuleNode>,
    from: int,
    to: int,
    payload: TransactionPayload,
    depth: nat,
    decisive: bool,
)
    ensures
        first_decisive(ledger, tree, from, to, payload, depth, decisive) != Ok::<bool, Error>(
            !decisive,
        ) <==> exists|i: int|
            from <= i < to && decides(ledger, tree, from, i, payload, depth, decisive)
                && #[trigger] node_verdict(ledger, tree, i, payload, depth) == first_decisive(
                ledger,
                tree,
                from,
                to,
                payload,
                depth,
                decisive,
            ),
    decreases to - from,
{
    let result = first_decisive(ledger, tree, from, to, payload, depth, decisive);
    if from < to {
        lemma_first_decisive_witness(ledger, tree, from + 1, to, payload, depth, decisive);
        let first = node_verdict(ledger, tree, from, payload, depth);
        if first == Ok::<bool, Error>(!decisive) {
            if result != Ok::<bool, Error>(!decisive) {
                let i = choose|i: int|
                    from + 1 <= i < to && decides(
                        ledger,
                        tree,
                        from + 1,
                        i,
                        payload,
                        depth,
                        decisive,
                    ) && #[trigger] node_verdict(ledger, tree, i, payload, depth) == result;
                assert(decides(ledger, tree, from, i, payload, depth, decisive));
            }
        } else {
            assert(decides(ledger, tree, from, from, payload, depth, decisive));
        }
    }
}

/// Whether the node at index `i` is the first one from `from` on that does not
/// say the opposite of `decisive`.
pub open spec fn decides(
    ledger: LedgerView,
    tree: Seq<RuleNode>,
    from: int,
    i: int,
    payload: TransactionPayload,
    depth: nat,
    decisive: bool,
) -> bool {
    &&& node_verdict(ledger, tree, i, payload, depth) != Ok::<bool, Error>(!decisive)
    &&& forall|j: int|
        from <= j < i ==> #[trigger] node_verdict(ledger, tree, j, payload, depth) == Ok::<
            bool,
            Error,
        >(!decisive)
}

/// An `And` holds if and only if every child holds; otherwise the first child that
/// does not hold gives the verdict.
pub proof fn law_and(
    ledger: LedgerView,
    tree: Seq<RuleNode>,
    index: int,
    payload: TransactionPayload,
    depth: nat,
)
    requires
        0 <= index < tree.len(),
        tree[index].op == RuleOp::And,
        tree[index].children_start != tree[index].children_end,
    ensures
        ({
            let from = tree[index].children_start as int;
            let to = tree[index].children_end as int;
            let verdict = node_verdict(ledger, tree, index, payload, depth + 1);
            &&& verdict == Ok::<bool, Error>(true) <==> forall|i: int|
                from <= i < to ==> #[trigger] node_verdict(ledger, tree, i, payload, depth)
                    == Ok::<bool, Error>(true)
            &&& verdict != Ok::<bool, Error>(true) <==> exists|i: int|
                from <= i < to && decides(ledger, tree, from, i, payload, depth, false)
                    && #[trigger] node_verdict(ledger, tree, i, payload, depth) == verdict
        }),
{
    let from = tree[index].children_start as int;
    let to = tree[index].children_end as int;
    lemma_first_decisive(ledger, tree, from, to, payload, depth, false);
    lemma_first_decisive_witness(ledger, tree, from, to, payload, depth, false);
}

/// An `Or` fails to hold if and only if every child does; otherwise the first
/// child that does not fail gives the verdict.
pub proof fn law_or(
    ledger: LedgerView,
    tree: Seq<RuleNode>,
    index: int,
    payload: TransactionPayload,
    depth: nat,
)
    requires
        0 <= index < tree.len(),
        tree[index].op == RuleOp::Or,
        tree[index].children_start != tree[index].children_end,
    ensures
        ({
            let from = tree[index].children_start as int;
            let to = tree[index].children_end as int;
            let verdict = node_verdict(ledger, tree, index, payload, depth + 1);
            &&& verdict == Ok::<bool, Error>(false) <==> forall|i: int|
                from <= i < to ==> #[trigger] node_verdict(ledger, tree, i, payload, depth)
                    == Ok::<bool, Error>(false)
            &&& verdict != Ok::<bool, Error>(false) <==> exists|i: int|
                from <= i < to && decides(ledger, tree, from, i, payload, depth, true)
                    && #[trigger] node_verdict(ledger, tree, i, payload, depth) == verdict
        }),
{
    let from = tree[index].children_start as int;
    let to = tree[index].children_end as int;
    lemma_first_decisive(ledger, tree, from, to, payload, depth, true);
    lemma_first_decisive_witness(ledger, tree, from, to, payload, depth, true);
}

/// A `Not` with its one child says the opposite of the child, and is malformed if
/// the child is.
pub proof fn law_not(
    ledger: LedgerView,
    tree: Seq<RuleNode>,
    index: int,
    payload: TransactionPayload,
    depth: nat,
)
    requires
        0 <= index < tree.len(),
        tree[index].op == RuleOp::Not,
        tree[index].children_start + 1 == tree[index].children_end,
    ensures
        ({
            let child = node_verdict(
                ledger,
                tree,
                tree[index].children_start as int,
                payload,
                depth,
            );
            let verdict = node_verdict(ledger, tree, index, payload, depth + 1);
            &&& child == Ok::<bool, Error>(true) <==> verdict == Ok::<bool, Error>(false)
            &&& child == Ok::<bool, Error>(false) <==> verdict == Ok::<bool, Error>(true)
            &&& child is Err ==> verdict == child
        }),
{
}

/// A branch without children is malformed, whatever the transfer, and so is a `Not`
/// that has not exactly one child.
pub proof fn law_empty_branch(
    ledger: LedgerView,
    tree: Seq<RuleNode>,
    index: int,
    payload: TransactionPayload,
    depth: nat,
)
    requires
        0 <= index < tree.len(),
        tree[index].op == RuleOp::And || tree[index].op == RuleOp::Or || tree[index].op
            == RuleOp::Not,
        tree[index].children_start == tree[index].children_end || (tree[index].op == RuleOp::Not
            && tree[index].children_start + 1 != tree[index].children_end),
    ensures
        node_verdict(ledger, tree, index, payload, depth) == Err::<bool, Error>(
            Error::InvalidInput,
        ),
{
}

/// The only error that a rule tree can give is that it is malformed or too deep.
pub proof fn law_only_error(
    ledger: LedgerView,
    tree: Seq<RuleNode>,
    index: int,
    payload: TransactionPayload,
    depth: nat,
)
    ensures
        node_verdict(ledger, tree, index, payload, depth) matches Err(error) ==> error
            == Error::InvalidInput,
    decreases depth, 0nat,
{
    if depth > 0 && 0 <= index < tree.len() {
        let node = tree[index];
        let below = (depth - 1) as nat;
        match node.op {
            RuleOp::And => {
                lemma_only_error_of_children(
                    ledger,
                    tree,
                    node.children_start as int,
                    node.children_end as int,
                    payload,
                    below,
                    false,
                );
            },
            RuleOp::Or => {
                lemma_only_error_of_children(
                    ledger,
                    tree,
                    node.children_start as int,
                    node.children_end as int,
                    payload,
                    below,
                    true,
                );
            },
            RuleOp::Not => {
                law_only_error(ledger, tree, node.children_start as int, payload, below);
            },
            _ => {},
        }
    }
}

proof fn lemma_only_error_of_children(
    ledger: LedgerView,
    tree: Seq<RuleNode>,
    from: int,
    to: int,
    payload: TransactionPayload,
    depth: nat,
    decisive: bool,
)
    ensures
        first_decisive(ledger, tree, from, to, payload, depth, decisive) matches Err(error)
            ==> error == Error::InvalidInput,
    decreases depth, (if from < to { to - from } else { 0 }) as nat + 1,
{
    if from < to {
        law_only_error(ledger, tree, from, payload, depth);
        lemma_only_error_of_children(ledger, tree, from + 1, to, payload, depth, decisive);
    }
}

/// The bound on the depth changes no answer: what a tree says within some
/// depth it says within every greater depth.
pub proof fn law_deeper_is_same(
    ledger: LedgerView,
    tree: Seq<RuleNode>,
    index: int,
    payload: TransactionPayload,
    depth: nat,
    deeper: nat,
)
    requires
        node_verdict(ledger, tree, index, payload, depth) is Ok,
        depth <= deeper,
    ensures
        node_verdict(ledger, tree, index, payload, deeper) == node_verdict(
            ledger,
            tree,
            index,
            payload,
            depth,
        ),
    decreases depth, 0nat,
{
    let node = tree[index];
    let below = (depth - 1) as nat;
    let deeper_below = (deeper - 1) as nat;
    match node.op {
        RuleOp::And => {
            lemma_deeper_children(
                ledger,
                tree,
                node.children_start as int,
                node.children_end as int,
                payload,
                below,
                deeper_below,
                false,
            );
        },
        RuleOp::Or => {
            lemma_deeper_children(
                ledger,
                tree,
                node.children_start as int,
                node.children_end as int,
                payload,
                below,
                deeper_below,
                true,
            );
        },
        RuleOp::Not => {
            law_deeper_is_same(
                ledger,
                tree,
                node.children_start as int,
                payload,
                below,
                deeper_below,
            );
        },
        _ => {},
    }
}

proof fn lemma_deeper_children(
    ledger: LedgerView,
    tree: Seq<RuleNode>,
    from: int,
    to: int,
    payload: TransactionPayload,
    depth: nat,
    deeper: nat,
    decisive: bool,
)
    requires
        first_decisive(ledger, tree, from, to, payload, depth, decisive) is Ok,
        depth <= deeper,
    ensures
        first_decisive(ledger, tree, from, to, payload, deeper, decisive) == first_decisive(
            ledger,
            tree,
            from,
            to,
            payload,
            depth,
            decisive,
        ),
    decreases depth, (if from < to { to - from } else { 0 }) as nat + 1,
{
    if from < to {
        law_deeper_is_same(ledger, tree, from, payload, depth, deeper);
        if node_verdict(ledger, tree, from, payload, depth) == Ok::<bool, Error>(!decisive) {
            lemma_deeper_children(ledger, tree, from + 1, to, payload, depth, deeper, decisive);
        }
    }
}

/// The node that going from a branch to its first child leads to, `steps` times
/// from `index` on, if every node on the way is a branch with children.
pub open spec fn first_below(tree: Seq<RuleNode>, index: int, steps: nat) -> Option<int>
    decreases steps,
{
    if steps == 0 {
        Some(index)
    } else if 0 <= index < tree.len() && (tree[index].op == RuleOp::And || tree[index].op
        == RuleOp::Or || tree[index].op == RuleOp::Not) && tree[index].children_start
        < tree[index].children_end {
        first_below(tree, tree[index].children_start as int, (steps - 1) as nat)
    } else {
        None
    }
}

/// A tree whose first children go down as many levels as may be evaluated, and
/// further, is refused.
pub proof fn law_too_deep_is_refused(
    ledger: LedgerView,
    tree: Seq<RuleNode>,
    index: int,
    payload: TransactionPayload,
    depth: nat,
)
    requires
        first_below(tree, index, depth) is Some,
    ensures
        node_verdict(ledger, tree, index, payload, depth) == Err::<bool, Error>(
            Error::InvalidInput,
        ),
    decreases depth,
{
    if depth > 0 {
        let below = (depth - 1) as nat;
        let from = tree[index].children_start as int;
        let to = tree[index].children_end as int;
        law_too_deep_is_refused(ledger, tree, from, payload, below);
        assert(first_decisive(ledger, tree, from, to, payload, below, false) == Err::<bool, Error>(
            Error::InvalidInput,
        ));
        assert(first_decisive(ledger, tree, from, to, payload, below, true) == Err::<bool, Error>(
            Error::InvalidInput,
        ));
    }
}

/// A branch whose first children lead back to it, over however many steps, is
/// refused within every depth: evaluation always comes to an end.
pub proof fn law_cycle_is_refused(
    ledger: LedgerView,
    tree: Seq<RuleNode>,
    index: int,
    steps: nat,
    payload: TransactionPayload,
    depth: nat,
)
    requires
        steps > 0,
        first_below(tree, index, steps) == Some(index),
    ensures
        node_verdict(ledger, tree, index, payload, depth) == Err::<bool, Error>(
            Error::InvalidInput,
        ),
{
    lemma_cycle_goes_on(tree, index, steps, depth);
    law_too_deep_is_refused(ledger, tree, index, payload, depth);
}

proof fn lemma_cycle_goes_on(tree: Seq<RuleNode>, index: int, steps: nat, depth: nat)
    requires
        steps > 0,
        first_below(tree, index, steps) == Some(index),
    ensures
        first_below(tree, index, depth) is Some,
    decreases depth,
{
    if depth <= steps {
        lemma_steps_add_up(tree, index, depth, (steps - depth) as nat);
    } else {
        let rest = (depth - steps) as nat;
        lemma_cycle_goes_on(tree, index, steps, rest);
        lemma_steps_add_up(tree, index, steps, rest);
    }
}

proof fn lemma_steps_add_up(tree: Seq<RuleNode>, index: int, first: nat, second: nat)
    ensures
        first_below(tree, index, first + second) == match first_below(tree, index, first) {
            Some(middle) => first_below(tree, middle, second),
            None => None,
        },
    decreases first,
{
    if first > 0 && 0 <= index < tree.len() {
        lemma_steps_add_up(
            tree,
            tree[index].children_start as int,
            (first - 1) as nat,
            second,
        );
        assert((first + second - 1) as nat == (first - 1) as nat + second);
    }
}

/// A rule asks of the ledger only whether the recipient is on the recipient list
/// and whether it is on the merchant list: where these agree, its verdict is the
/// same.
pub proof fn law_rule_reads_recipient_lists(
    ledger: LedgerView,
    other: LedgerView,
    tree: Seq<RuleNode>,
    index: int,
    payload: TransactionPayload,
    depth: nat,
)
    requires
        ledger.blacklist.contains_key(payload.recipient) == other.blacklist.contains_key(
            payload.recipient,
        ),
        ledger.merchant_blacklist.contains_key(payload.recipient)
            == other.merchant_blacklist.contains_key(payload.recipient),
    ensures
        node_verdict(ledger, tree, index, payload, depth) == node_verdict(
            other,
            tree,
            index,
            payload,
            depth,
        ),
    decreases depth, 0nat,
{
    if depth > 0 && 0 <= index < tree.len() {
        let node = tree[index];
        let below = (depth - 1) as nat;
        let from = node.children_start as int;
        let to = node.children_end as int;
        match node.op {
            RuleOp::And => {
                lemma_children_read_recipient_lists(
                    ledger,
                    other,
                    tree,
                    from,
                    to,
                    payload,
                    below,
                    false,
                );
            },
            RuleOp::Or => {
                lemma_children_read_recipient_lists(
                    ledger,
                    other,
                    tree,
                    from,
                    to,
                    payload,
                    below,
                    true,
                );
            },
            RuleOp::Not => {
                law_rule_reads_recipient_lists(ledger, other, tree, from, payload, below);
            },
            _ => {},
        }
    }
}

proof fn lemma_children_read_recipient_lists(
    ledger: LedgerView,
    other: LedgerView,
    tree: Seq<RuleNode>,
    from: int,
    to: int,
    payload: TransactionPayload,
    depth: nat,
    decisive: bool,
)
    requires
        ledger.blacklist.contains_key(payload.recipient) == other.blacklist.contains_key(
            payload.recipient,
        ),
        ledger.merchant_blacklist.contains_key(payload.recipient)
            == other.merchant_blacklist.contains_key(payload.recipient),
    ensures
        first_decisive(ledger, tree, from, to, payload, depth, decisive) == first_decisive(
            other,
            tree,
            from,
            to,
            payload,
            depth,
            decisive,
        ),
    decreases depth, (if from < to { to - from } else { 0 }) as nat + 1,
{
    if from < to {
        law_rule_reads_recipient_lists(ledger, other, tree, from, payload, depth);
        lemma_children_read_recipient_lists(
            ledger,
            other,
            tree,
            from + 1,
            to,
            payload,
            depth,
            decisive,
        );
    }
}

/// Whether `tree` is a chain: every node is a `Not` of the next one, and the last
/// node compares the amount.
pub open spec fn is_chain(tree: Seq<RuleNode>) -> bool {
    &&& tree.len() > 0
    &&& tree.last().op == RuleOp::MaxAmount
    &&& forall|i: int|
        0 <= i < tree.len() - 1 ==> (#[trigger] tree[i]).op == RuleOp::Not
            && tree[i].children_start == i + 1 && tree[i].children_end == i + 2
}

/// The depth counts the levels from the node down to the last leaf: a chain is
/// evaluated if and only if it has no more levels than the depth allows.
pub proof fn law_depth_counts_levels(
    ledger: LedgerView,
    tree: Seq<RuleNode>,
    index: int,
    payload: TransactionPayload,
    depth: nat,
)
    requires
        is_chain(tree),
        0 <= index < tree.len(),
    ensures
        node_verdict(ledger, tree, index, payload, depth) is Ok <==> tree.len() - index <= depth,
    decreases depth,
{
    if depth > 0 && index < tree.len() - 1 {
        assert(tree[index].op == RuleOp::Not);
        law_depth_counts_levels(ledger, tree, index + 1, payload, (depth - 1) as nat);
    }
}

/// Whether `truth` reads the nodes in `part` as a boolean formula, and `height`
/// counts their levels: a leaf compares, an `And` says that all its children hold,
/// an `Or` that one of them does, a `Not` that its only child does not; the children
/// of a branch are in `part` and on a lower level. `restricted` and `blocked` say
/// whether the recipient is on the recipient list and on the merchant list.
pub open spec fn is_reading(
    tree: Seq<RuleNode>,
    payload: TransactionPayload,
    restricted: bool,
    blocked: bool,
    part: Set<int>,
    height: spec_fn(int) -> nat,
    truth: spec_fn(int) -> bool,
) -> bool {
    forall|i: int| #[trigger]
        part.contains(i) ==> {
            let node = tree[i];
            let from = node.children_start as int;
            let to = node.children_end as int;
            let is_leaf = !(node.op is And) && !(node.op is Or) && !(node.op is Not);
            &&& 0 <= i < tree.len()
            &&& height(i) > 0
            &&& is_leaf || from < to
            &&& node.op is Not ==> to == from + 1
            &&& !is_leaf ==> forall|c: int|
                from <= c < to ==> #[trigger] part.contains(c) && height(c) < height(i)
            &&& node.op is MaxAmount ==> truth(i) == (payload.amount <= node.value_i128)
            &&& node.op is AllowedRecipient ==> truth(i) == (payload.recipient
                == node.value_address)
            &&& node.op is AllowedAsset ==> truth(i) == (payload.asset == node.value_address)
            &&& node.op is RecipientBlacklisted ==> truth(i) == restricted
            &&& node.op is MerchantBlacklisted ==> truth(i) == blocked
            &&& node.op is And ==> (truth(i) <==> forall|c: int|
                from <= c < to ==> #[trigger] truth(c))
            &&& node.op is Or ==> (truth(i) <==> exists|c: int|
                from <= c < to && #[trigger] truth(c))
            &&& node.op is Not ==> truth(i) == !truth(from)
        }
}

/// A well-formed tree says what it says as a boolean formula: if its levels are no
/// more than may be evaluated, the verdict is the truth of the formula, and no
/// error.
pub proof fn law_formula_gives_the_verdict(
    ledger: LedgerView,
    tree: Seq<RuleNode>,
    index: int,
    payload: TransactionPayload,
    depth: nat,
    part: Set<int>,
    height: spec_fn(int) -> nat,
    truth: spec_fn(int) -> bool,
)
    requires
        is_reading(
            tree,
            payload,
            ledger.blacklist.contains_key(payload.recipient),
            ledger.merchant_blacklist.contains_key(payload.recipient),
            part,
            height,
            truth,
        ),
        part.contains(index),
        height(index) <= depth,
    ensures
        node_verdict(ledger, tree, index, payload, depth) == Ok::<bool, Error>(truth(index)),
    decreases depth,
{
    let node = tree[index];
    let from = node.children_start as int;
    let to = node.children_end as int;
    let below = (depth - 1) as nat;
    if node.op is And || node.op is Or || node.op is Not {
        assert forall|c: int| from <= c < to implies #[trigger] node_verdict(
            ledger,
            tree,
            c,
            payload,
            below,
        ) == Ok::<bool, Error>(truth(c)) by {
            assert(part.contains(c));
            law_formula_gives_the_verdict(
                ledger,
                tree,
                c,
                payload,
                below,
                part,
                height,
                truth,
            );
        }
    }
    match node.op {
        RuleOp::And => {
            law_and(ledger, tree, index, payload, below);
            if truth(index) {
                assert forall|c: int| from <= c < to implies #[trigger] node_verdict(
                    ledger,
                    tree,
                    c,
                    payload,
                    below,
                ) == Ok::<bool, Error>(true) by {
                    assert(truth(c));
                }
            } else {
                let c = choose|c: int| from <= c < to && !#[trigger] truth(c);
                assert(node_verdict(ledger, tree, c, payload, below) == Ok::<bool, Error>(false));
            }
        },
        RuleOp::Or => {
            law_or(ledger, tree, index, payload, below);
            if truth(index) {
                let c = choose|c: int| from <= c < to && #[trigger] truth(c);
                assert(node_verdict(ledger, tree, c, payload, below) == Ok::<bool, Error>(true));
            } else {
                assert forall|c: int| from <= c < to implies #[trigger] node_verdict(
                    ledger,
                    tree,
                    c,
                    payload,
                    below,
                ) == Ok::<bool, Error>(false) by {
                    assert(!truth(c));
                }
            }
        },
        RuleOp::Not => {
            assert(node_verdict(ledger, tree, from, payload, below) == Ok::<bool, Error>(
                truth(from),
            ));
        },
        _ => {},
    }
}

/// A leaf compares the transfer, or looks the recipient up, within every depth but
/// none.
pub proof fn law_leaves(
    ledger: LedgerView,
    tree: Seq<RuleNode>,
    index: int,
    payload: TransactionPayload,
    depth: nat,
)
    requires
        0 <= index < tree.len(),
        depth > 0,
    ensures
        ({
            let node = tree[index];
            let verdict = node_verdict(ledger, tree, index, payload, depth);
            &&& node.op is MaxAmount ==> verdict == Ok::<bool, Error>(
                payload.amount <= node.value_i128,
            )
            &&& node.op is AllowedRecipient ==> verdict == Ok::<bool, Error>(
                payload.recipient == node.value_address,
            )
            &&& node.op is AllowedAsset ==> verdict == Ok::<bool, Error>(
                payload.asset == node.value_address,
            )
            &&& node.op is RecipientBlacklisted ==> verdict == Ok::<bool, Error>(
                ledger.blacklist.contains_key(payload.recipient),
            )
            &&& node.op is MerchantBlacklisted ==> verdict == Ok::<bool, Error>(
                ledger.merchant_blacklist.contains_key(payload.recipient),
            )
        }),
{
}

/// A node that is not in the tree is refused, and so is every node once no level is
/// left to evaluate.
pub proof fn law_nowhere_and_no_level(
    ledger: LedgerView,
    tree: Seq<RuleNode>,
    index: int,
    payload: TransactionPayload,
    depth: nat,
)
    requires
        depth == 0 || index < 0 || index >= tree.len(),
    ensures
        node_verdict(ledger, tree, index, payload, depth) == Err::<bool, Error>(
            Error::InvalidInput,
        ),
{
}

/// A stored rule is evaluated from its root, and ten levels of it: a rule of up to
/// ten levels gives the truth of its formula, a chain gives a verdict if and only if
/// it has no more than ten nodes, and a rule whose first children go down further is
/// refused. Without a rule, and with an empty one, every transfer is in order.
pub proof fn law_stored_rule_has_ten_levels(
    ledger: LedgerView,
    policy_id: Seq<u8>,
    payload: TransactionPayload,
    part: Set<int>,
    height: spec_fn(int) -> nat,
    truth: spec_fn(int) -> bool,
)
    ensures
        ({
            let stored = ledger.composite_rules.contains_key(policy_id);
            let tree = ledger.composite_rules[policy_id];
            let verdict = composite_verdict(ledger, policy_id, payload);
            &&& !stored || tree.len() == 0 ==> verdict == Ok::<bool, Error>(true)
            &&& stored && part.contains(0) && height(0) <= 10 && is_reading(
                tree,
                payload,
                ledger.blacklist.contains_key(payload.recipient),
                ledger.merchant_blacklist.contains_key(payload.recipient),
                part,
                height,
                truth,
            ) ==> verdict == Ok::<bool, Error>(truth(0))
            &&& stored && is_chain(tree) ==> (verdict is Ok <==> tree.len() <= 10)
            &&& stored && tree.len() > 0 && first_below(tree, 0, 10) is Some ==> verdict == Err::<
                bool,
                Error,
            >(Error::InvalidInput)
        }),
{
    let tree = ledger.composite_rules[policy_id];
    if ledger.composite_rules.contains_key(policy_id) {
        if part.contains(0) && height(0) <= 10 && is_reading(
            tree,
            payload,
            ledger.blacklist.contains_key(payload.recipient),
            ledger.merchant_blacklist.contains_key(payload.recipient),
            part,
            height,
            truth,
        ) {
            law_formula_gives_the_verdict(ledger, tree, 0, payload, 10, part, height, truth);
        }
        if is_chain(tree) {
            law_depth_counts_levels(ledger, tree, 0, payload, 10);
        }
        if first_below(tree, 0, 10) is Some {
            law_too_deep_is_refused(ledger, tree, 0, payload, 10);
        }
    }
}

/// A composite rule that was set is the one that is stored and evaluated; clearing
/// it permits every transfer and leaves the ledger as it was if there was no rule
/// before. No other policy's rule is touched.
pub proof fn law_composite_set_clear(
    env: EnvView,
    policy_id: Seq<u8>,
    rule_tree: Seq<RuleNode>,
    payload: TransactionPayload,
    other: Seq<u8>,
)
    ensures
        ({
            let set = composite_set(env, policy_id, rule_tree);
            let cleared = composite_cleared(set, policy_id);
            &&& set.ledger.composite_rules.contains_key(policy_id)
            &&& set.ledger.composite_rules[policy_id] == rule_tree
            &&& composite_verdict(cleared.ledger, policy_id, payload) == Ok::<bool, Error>(true)
            &&& !env.ledger.composite_rules.contains_key(policy_id) ==> cleared.ledger
                == env.ledger
            &&& other != policy_id ==> set.ledger.composite_rules.contains_key(other)
                == env.ledger.composite_rules.contains_key(other)
            &&& other != policy_id && env.ledger.composite_rules.contains_key(other)
                ==> set.ledger.composite_rules[other] == env.ledger.composite_rules[other]
        }),
{
    let cleared = composite_cleared(composite_set(env, policy_id, rule_tree), policy_id);
    if !env.ledger.composite_rules.contains_key(policy_id) {
        assert(cleared.ledger.composite_rules =~= env.ledger.composite_rules);
    }
}

} // verus!
