//! Composite rules: trees of conditions on a transfer, flattened to a list.

use vstd::prelude::*;
use crate::env::{Env, LedgerView};
use crate::errors::Error;
use crate::values::Address;

verus! {

/// What a node of a rule tree does.
#[derive(Clone, Copy, Debug, PartialEq, Eq, Structural)]
pub enum RuleOp {
    /// Leaf: the amount must be at most `value_i128`.
    MaxAmount,
    /// Leaf: the recipient must be `value_address`.
    AllowedRecipient,
    /// Leaf: the asset must be `value_address`.
    AllowedAsset,
    /// Leaf: the recipient must be on the blacklist.
    RecipientBlacklisted,
    /// Leaf: the recipient must be on the merchant blacklist.
    MerchantBlacklisted,
    /// Branch: every child must hold.
    And,
    /// Branch: at least one child must hold.
    Or,
    /// Branch: the only child must not hold.
    Not,
}

/// A node of a rule tree. The children of a branch are the nodes at the indices
/// from `children_start` up to, but without, `children_end`.
#[derive(Clone, Copy, Debug, PartialEq, Eq, Structural)]
pub struct RuleNode {
    /// What the node does.
    pub op: RuleOp,
    /// The amount that a leaf compares with.
    pub value_i128: i128,
    /// The address that a leaf compares with.
    pub value_address: Address,
    /// The index of the first child.
    pub children_start: u32,
    /// The index behind the last child.
    pub children_end: u32,
}

/// A flattened rule tree; its root is the node at index 0.
pub type RuleTree = Vec<RuleNode>;

/// A transfer submitted for evaluation.
#[derive(Clone, Copy, Debug, PartialEq, Eq, Structural)]
pub struct TransactionPayload {
    /// The asset being transferred.
    pub asset: Address,
    /// The intended recipient.
    pub recipient: Address,
    /// The amount, in base units.
    pub amount: i128,
}

/// How deep the evaluation of a rule tree may go, the root counted.
pub const MAX_RULE_DEPTH: u32 = 10;

/// What the node at `index` says of a transfer, if at most `depth` levels are
/// evaluated: whether the transfer meets the node's condition, or that the tree
/// is malformed or too deep.
pub open spec fn node_verdict(
    ledger: LedgerView,
    tree: Seq<RuleNode>,
    index: int,
    payload: TransactionPayload,
    depth: nat,
) -> Result<bool, Error>
    decreases depth, 0nat,
{
    if depth == 0 || !(0 <= index < tree.len()) {
        Err(Error::InvalidInput)
    } else {
        let node = tree[index];
        let below = (depth - 1) as nat;
        match node.op {
            RuleOp::MaxAmount => Ok(payload.amount <= node.value_i128),
            RuleOp::AllowedRecipient => Ok(payload.recipient == node.value_address),
            RuleOp::AllowedAsset => Ok(payload.asset == node.value_address),
            RuleOp::RecipientBlacklisted => Ok(ledger.blacklist.contains_key(payload.recipient)),
            RuleOp::MerchantBlacklisted => Ok(
                ledger.merchant_blacklist.contains_key(payload.recipient),
            ),
            RuleOp::And => if node.children_start == node.children_end {
                Err(Error::InvalidInput)
            } else {
                first_decisive(
                    ledger,
                    tree,
                    node.children_start as int,
                    node.children_end as int,
                    payload,
                    below,
                    false,
                )
            },
            RuleOp::Or => if node.children_start == node.children_end {
                Err(Error::InvalidInput)
            } else {
                first_decisive(
                    ledger,
                    tree,
                    node.children_start as int,
                    node.children_end as int,
                    payload,
                    below,
                    true,
                )
            },
            RuleOp::Not => if node.children_start + 1 != node.children_end {
                Err(Error::InvalidInput)
            } else {
                match node_verdict(ledger, tree, node.children_start as int, payload, below) {
                    Ok(holds) => Ok(!holds),
                    Err(error) => Err(error),
                }
            },
        }
    }
}

/// The verdict of the first node from index `from` up to `to` whose verdict is
/// `decisive` or an error; the opposite of `decisive` if there is none.
pub open spec fn first_decisive(
    ledger: LedgerView,
    tree: Seq<RuleNode>,
    from: int,
    to: int,
    payload: TransactionPayload,
    depth: nat,
    decisive: bool,
) -> Result<bool, Error>
    decreases depth, (if from < to { to - from } else { 0 }) as nat + 1,
{
    if from >= to {
        Ok(!decisive)
    } else {
        match node_verdict(ledger, tree, from, payload, depth) {
            Ok(holds) => if holds == decisive {
                Ok(decisive)
            } else {
                first_decisive(ledger, tree, from + 1, to, payload, depth, decisive)
            },
            Err(error) => Err(error),
        }
    }
}

/// Evaluates the node at `node_idx` of `tree` against `payload`. `depth` says
/// how many levels may still be evaluated; a tree that needs more is refused.
pub fn evaluate_node(
    env: &Env,
    tree: &RuleTree,
    node_idx: u32,
    payload: &TransactionPayload,
    depth: u32,
) -> (verdict: Result<bool, Error>)
    ensures
        verdict == node_verdict(env@.ledger, tree@, node_idx as int, *payload, depth as nat),
    decreases depth,
{
    if depth == 0 {
        return Err(Error::InvalidInput);
    }
    let remaining: u32 = depth - 1;
    if node_idx as usize >= tree.len() {
        return Err(Error::InvalidInput);
    }
    let node = tree[node_idx as usize];
    match node.op {
        RuleOp::MaxAmount => Ok(payload.amount <= node.value_i128),
        RuleOp::AllowedRecipient => Ok(payload.recipient == node.value_address),
        RuleOp::AllowedAsset => Ok(payload.asset == node.value_address),
        RuleOp::RecipientBlacklisted => Ok(env.ledger.blacklist.has(&payload.recipient)),
        RuleOp::MerchantBlacklisted => Ok(env.ledger.merchant_blacklist.has(&payload.recipient)),
        RuleOp::And => {
            if node.children_start == node.children_end {
                return Err(Error::InvalidInput);
            }
            let mut i: u32 = node.children_start;
            while i < node.children_end
                invariant
                    remaining < depth,
                    node_verdict(env@.ledger, tree@, node_idx as int, *payload, depth as nat)
                        == first_decisive(
                        env@.ledger,
                        tree@,
                        i as int,
                        node.children_end as int,
                        *payload,
                        remaining as nat,
                        false,
                    ),
                decreases node.children_end - i,
            {
                match evaluate_node(env, tree, i, payload, remaining) {
                    Ok(true) => {},
                    other => {
                        return other;
                    },
                }
                i = i + 1;
            }
            Ok(true)
        },
        RuleOp::Or => {
            if node.children_start == node.children_end {
                return Err(Error::InvalidInput);
            }
            let mut i: u32 = node.children_start;
            while i < node.children_end
                invariant
                    remaining < depth,
                    node_verdict(env@.ledger, tree@, node_idx as int, *payload, depth as nat)
                        == first_decisive(
                        env@.ledger,
                        tree@,
                        i as int,
                        node.children_end as int,
                        *payload,
                        remaining as nat,
                        true,
                    ),
                decreases node.children_end - i,
            {
                match evaluate_node(env, tree, i, payload, remaining) {
                    Ok(false) => {},
                    other => {
                        return other;
                    },
                }
                i = i + 1;
            }
            Ok(false)
        },
        RuleOp::Not => {
            if node.children_start == u32::MAX || node.children_start + 1 != node.children_end {
                return Err(Error::InvalidInput);
            }
            match evaluate_node(env, tree, node.children_start, payload, remaining) {
                Ok(holds) => Ok(!holds),
                Err(error) => Err(error),
            }
        },
    }
}

} // verus!
