use astroid_policy::env::Env;
use astroid_policy::errors::Error;
use astroid_policy::events::{Action, Event, Subject, Topic};
use astroid_policy::policies::PolicyContract;
use astroid_policy::rule_tree::{
    evaluate_node, RuleNode, RuleOp, TransactionPayload, MAX_RULE_DEPTH,
};
use astroid_policy::values::{Address, AddressKind, Digest, Text};

fn account(n: u128) -> Address {
    Address { kind: AddressKind::Account, high: 0, low: n }
}

fn text(s: &str) -> Text {
    Text::new(s.as_bytes().to_vec())
}

fn node(op: RuleOp, amount: i128, address: Address, from: u32, to: u32) -> RuleNode {
    RuleNode {
        op,
        value_i128: amount,
        value_address: address,
        children_start: from,
        children_end: to,
    }
}

fn max(amount: i128) -> RuleNode {
    node(RuleOp::MaxAmount, amount, account(0), 0, 0)
}

fn branch(op: RuleOp, from: u32, to: u32) -> RuleNode {
    node(op, 0, account(0), from, to)
}

fn payload(amount: i128) -> TransactionPayload {
    TransactionPayload { asset: account(20), recipient: account(30), amount }
}

fn verdict(tree: Vec<RuleNode>, amount: i128) -> Result<bool, Error> {
    evaluate_node(&Env::new(0), &tree, 0, &payload(amount), MAX_RULE_DEPTH)
}

fn chain(nodes: u32) -> Vec<RuleNode> {
    let mut tree = Vec::new();
    for i in 0..nodes - 1 {
        tree.push(branch(RuleOp::Not, i + 1, i + 2));
    }
    tree.push(max(100));
    tree
}

#[test]
fn leaves() {
    assert_eq!(verdict(vec![max(10)], 10), Ok(true));
    assert_eq!(verdict(vec![max(10)], 11), Ok(false));
    let to = |n| vec![node(RuleOp::AllowedRecipient, 0, account(n), 0, 0)];
    assert_eq!(verdict(to(30), 1), Ok(true));
    assert_eq!(verdict(to(20), 1), Ok(false));
    let of = |n| vec![node(RuleOp::AllowedAsset, 0, account(n), 0, 0)];
    assert_eq!(verdict(of(20), 1), Ok(true));
    assert_eq!(verdict(of(30), 1), Ok(false));
}

#[test]
fn leaves_on_recipient_lists() {
    let mut env = Env::new(0);
    let listed = vec![branch(RuleOp::RecipientBlacklisted, 0, 0)];
    let blocked = vec![branch(RuleOp::MerchantBlacklisted, 0, 0)];
    assert_eq!(evaluate_node(&env, &listed, 0, &payload(1), 1), Ok(false));
    assert_eq!(evaluate_node(&env, &blocked, 0, &payload(1), 1), Ok(false));
    env.ledger.blacklist.set(account(30), text("ops"));
    assert_eq!(evaluate_node(&env, &listed, 0, &payload(1), 1), Ok(true));
    assert_eq!(evaluate_node(&env, &blocked, 0, &payload(1), 1), Ok(false));
    env.ledger.merchant_blacklist.set(account(30), text("ops"));
    assert_eq!(evaluate_node(&env, &blocked, 0, &payload(1), 1), Ok(true));
}

#[test]
fn branches() {
    let and = vec![branch(RuleOp::And, 1, 3), max(10), max(20)];
    assert_eq!(verdict(and.clone(), 10), Ok(true));
    assert_eq!(verdict(and.clone(), 15), Ok(false));
    assert_eq!(verdict(and, 25), Ok(false));
    let or = vec![branch(RuleOp::Or, 1, 3), max(10), max(20)];
    assert_eq!(verdict(or.clone(), 10), Ok(true));
    assert_eq!(verdict(or.clone(), 15), Ok(true));
    assert_eq!(verdict(or, 25), Ok(false));
    let not = vec![branch(RuleOp::Not, 1, 2), max(10)];
    assert_eq!(verdict(not.clone(), 10), Ok(false));
    assert_eq!(verdict(not, 11), Ok(true));
}

#[test]
fn evaluation_stops_at_the_first_decisive_child() {
    let and = vec![branch(RuleOp::And, 1, 3), max(10)];
    assert_eq!(verdict(and.clone(), 11), Ok(false));
    assert_eq!(verdict(and, 10), Err(Error::InvalidInput));
    let or = vec![branch(RuleOp::Or, 1, 3), max(10)];
    assert_eq!(verdict(or.clone(), 10), Ok(true));
    assert_eq!(verdict(or, 11), Err(Error::InvalidInput));
}

#[test]
fn malformed_trees_are_refused() {
    assert_eq!(verdict(vec![], 1), Err(Error::InvalidInput));
    assert_eq!(verdict(vec![branch(RuleOp::And, 1, 1), max(1)], 1), Err(Error::InvalidInput));
    assert_eq!(verdict(vec![branch(RuleOp::Or, 0, 0), max(1)], 1), Err(Error::InvalidInput));
    assert_eq!(verdict(vec![branch(RuleOp::Not, 1, 1), max(1)], 1), Err(Error::InvalidInput));
    assert_eq!(
        verdict(vec![branch(RuleOp::Not, 1, 3), max(1), max(1)], 1),
        Err(Error::InvalidInput)
    );
    assert_eq!(verdict(vec![branch(RuleOp::Not, 5, 6)], 1), Err(Error::InvalidInput));
    assert_eq!(
        verdict(vec![branch(RuleOp::Not, u32::MAX, 0)], 1),
        Err(Error::InvalidInput)
    );
}

#[test]
fn reversed_child_range_is_empty() {
    assert_eq!(verdict(vec![branch(RuleOp::And, 2, 1), max(1)], 1), Ok(true));
    assert_eq!(verdict(vec![branch(RuleOp::Or, 2, 1), max(1)], 1), Ok(false));
    assert_eq!(verdict(vec![branch(RuleOp::Not, 2, 1), max(1)], 1), Err(Error::InvalidInput));
}

#[test]
fn depth_is_bounded() {
    assert_eq!(MAX_RULE_DEPTH, 10);
    assert_eq!(verdict(chain(9), 100), Ok(true));
    assert_eq!(verdict(chain(10), 100), Ok(false));
    assert_eq!(verdict(chain(11), 100), Err(Error::InvalidInput));
    let env = Env::new(0);
    assert_eq!(evaluate_node(&env, &chain(11), 0, &payload(100), 11), Ok(true));
    assert_eq!(evaluate_node(&env, &chain(11), 0, &payload(100), 40), Ok(true));
    assert_eq!(evaluate_node(&env, &chain(1), 0, &payload(100), 0), Err(Error::InvalidInput));
}

#[test]
fn cycles_are_refused() {
    assert_eq!(verdict(vec![branch(RuleOp::Not, 0, 1)], 1), Err(Error::InvalidInput));
    assert_eq!(verdict(vec![branch(RuleOp::And, 0, 2), max(1)], 1), Err(Error::InvalidInput));
    assert_eq!(verdict(vec![branch(RuleOp::Or, 0, 2), max(1)], 1), Err(Error::InvalidInput));
}

#[test]
fn composite_rule_set_get_clear() {
    let (owner, stranger) = (account(1), account(2));
    let mut env = Env::new(1_000);
    env.authorize(owner);
    env.authorize(stranger);
    let hash = Digest { high: 0, low: 7 };
    PolicyContract::register_policy(&mut env, owner, text("ops"), hash, 0, None, None, 0).unwrap();
    env.actions.clear();
    assert_eq!(PolicyContract::get_composite_rule(&env, text("ops")), Err(Error::NotFound));
    assert_eq!(
        PolicyContract::evaluate_composite_rule(&env, text("ops"), payload(1)),
        Ok(true)
    );
    assert_eq!(
        PolicyContract::set_composite_rule(&mut env, stranger, text("ops"), vec![max(10)]),
        Err(Error::Unauthorized)
    );
    assert_eq!(
        PolicyContract::set_composite_rule(&mut env, owner, text("none"), vec![max(10)]),
        Err(Error::NotFound)
    );
    assert_eq!(
        PolicyContract::set_composite_rule(&mut env, owner, text("ops"), vec![]),
        Err(Error::InvalidInput)
    );
    assert_eq!(
        PolicyContract::clear_composite_rule(&mut env, owner, text("ops")),
        Err(Error::NotFound)
    );
    assert_eq!(
        PolicyContract::set_composite_rule(&mut env, owner, text("ops"), vec![max(10)]),
        Ok(())
    );
    assert_eq!(PolicyContract::get_composite_rule(&env, text("ops")), Ok(vec![max(10)]));
    assert_eq!(
        PolicyContract::evaluate_composite_rule(&env, text("ops"), payload(10)),
        Ok(true)
    );
    assert_eq!(
        PolicyContract::evaluate_composite_rule(&env, text("ops"), payload(11)),
        Err(Error::PolicyDenied)
    );
    assert_eq!(
        PolicyContract::meets_composite_rule(&env, &text("ops"), &payload(11)),
        Ok(false)
    );
    assert_eq!(
        PolicyContract::clear_composite_rule(&mut env, stranger, text("ops")),
        Err(Error::Unauthorized)
    );
    assert_eq!(PolicyContract::clear_composite_rule(&mut env, owner, text("ops")), Ok(()));
    assert_eq!(PolicyContract::get_composite_rule(&env, text("ops")), Err(Error::NotFound));
    let about = |topic| {
        Action::Publish(Event::Policy {
            topic,
            policy_id: text("ops"),
            subject: Subject::Policy,
        })
    };
    assert_eq!(
        env.actions,
        vec![about(Topic::CompositeSet), about(Topic::CompositeCleared)]
    );
}

#[test]
fn malformed_composite_rule_is_an_error() {
    let owner = account(1);
    let mut env = Env::new(1_000);
    env.authorize(owner);
    let hash = Digest { high: 0, low: 7 };
    PolicyContract::register_policy(&mut env, owner, text("ops"), hash, 0, None, None, 0).unwrap();
    PolicyContract::set_composite_rule(&mut env, owner, text("ops"), chain(11)).unwrap();
    assert_eq!(
        PolicyContract::evaluate_composite_rule(&env, text("ops"), payload(1)),
        Err(Error::InvalidInput)
    );
}

#[test]
fn longer_cycles_are_refused() {
    let env = Env::new(0);
    let tree = vec![
        branch(RuleOp::And, 1, 2),
        branch(RuleOp::Not, 2, 3),
        branch(RuleOp::Or, 0, 2),
    ];
    for depth in [0, 1, 2, 3, 4, 10, 1_000] {
        for start in [0, 1, 2] {
            assert_eq!(
                evaluate_node(&env, &tree, start, &payload(1), depth),
                Err(Error::InvalidInput)
            );
        }
    }
}
