use astroid_policy::env::Env;
use astroid_policy::errors::Error;
use astroid_policy::events::{Action, Event, Reason};
use astroid_policy::policies::PolicyContract;
use astroid_policy::rule_tree::{RuleNode, RuleOp, TransactionPayload};
use astroid_policy::rules::{rule_book_denies, RuleAnswer, RuleQuery};
use astroid_policy::transfer::{
    gate_refusal, rule_query, rules_wanted, scalar_refusal, PolicyInterface,
};
use astroid_policy::values::{Address, AddressKind, Digest, Text};

fn account(n: u128) -> Address {
    Address { kind: AddressKind::Account, high: 0, low: n }
}

fn text(s: &str) -> Text {
    Text::new(s.as_bytes().to_vec())
}

const HASH: Digest = Digest { high: 1, low: 2 };

fn owner() -> Address {
    account(1)
}

fn token() -> Address {
    Address { kind: AddressKind::Contract, high: 0, low: 20 }
}

fn payee() -> Address {
    account(30)
}

fn open_policy() -> Env {
    let mut env = Env::new(1_000);
    env.authorize(owner());
    PolicyContract::register_policy(&mut env, owner(), text("ops"), HASH, 0, None, None, 0)
        .unwrap();
    env.actions.clear();
    env
}

fn answer(
    policy_id: &str,
    asset: Address,
    recipient: Address,
    outcome: Result<(), Error>,
) -> Option<RuleAnswer> {
    let query = RuleQuery { policy_id: text(policy_id), recipient, asset };
    Some(RuleAnswer { query, outcome })
}

fn ruled(env: &mut Env, amount: i128, rules: Option<RuleAnswer>) -> Result<(), Error> {
    PolicyContract::check_transfer(env, text("ops"), token(), payee(), amount, rules)
}

fn transfer(env: &mut Env, amount: i128) -> Result<(), Error> {
    ruled(env, amount, answer("ops", token(), payee(), Ok(())))
}

fn payload(amount: i128) -> TransactionPayload {
    TransactionPayload { asset: token(), recipient: payee(), amount }
}

fn refused(env: &mut Env, amount: i128, error: Error, reason: Reason) {
    let ledger_before = format!("{:?}", env.ledger);
    env.actions.clear();
    assert_eq!(transfer(env, amount), Err(error));
    assert_eq!(
        env.actions,
        vec![
            Action::Publish(Event::Violation { policy_id: text("ops"), reason }),
            Action::Publish(Event::PolicyViolation { policy_id: text("ops"), reason }),
        ]
    );
    assert_eq!(format!("{:?}", env.ledger), ledger_before);
}

#[test]
fn open_policy_permits() {
    let mut env = open_policy();
    assert_eq!(transfer(&mut env, 0), Ok(()));
    assert_eq!(transfer(&mut env, i128::MAX), Ok(()));
    assert_eq!(env.actions.len(), 0);
    assert_eq!(transfer(&mut env, -1), Err(Error::InvalidAmount));
    assert_eq!(env.actions.len(), 0);
}

#[test]
fn unknown_policy_has_no_transfers() {
    let mut env = Env::new(0);
    assert_eq!(transfer(&mut env, 1), Err(Error::NotFound));
    assert_eq!(env.actions.len(), 0);
}

#[test]
fn disabled_policy_denies() {
    let mut env = open_policy();
    PolicyContract::set_enabled(&mut env, owner(), text("ops"), false).unwrap();
    refused(&mut env, 1, Error::PolicyDenied, Reason::Disabled);
    PolicyContract::set_enabled(&mut env, owner(), text("ops"), true).unwrap();
    assert_eq!(transfer(&mut env, 1), Ok(()));
}

#[test]
fn restricted_recipient_comes_first() {
    let mut env = open_policy();
    PolicyContract::set_enabled(&mut env, owner(), text("ops"), false).unwrap();
    PolicyContract::add_merchant_blacklist(&mut env, owner(), text("ops"), payee()).unwrap();
    refused(&mut env, -5, Error::PolicyDenied, Reason::MerchantBlocked);
    PolicyContract::add_to_blocklist(&mut env, owner(), text("ops"), payee()).unwrap();
    refused(&mut env, -5, Error::PolicyRecipientRestricted, Reason::Blacklisted);
    PolicyContract::remove_from_blocklist(&mut env, owner(), text("ops"), payee()).unwrap();
    PolicyContract::remove_merchant_blacklist(&mut env, owner(), text("ops"), payee()).unwrap();
    refused(&mut env, -5, Error::PolicyDenied, Reason::Disabled);
}

#[test]
fn expired_policy_denies() {
    let mut env = Env::new(1_000);
    env.authorize(owner());
    PolicyContract::register_policy(&mut env, owner(), text("ops"), HASH, 0, None, None, 1_001)
        .unwrap();
    assert_eq!(transfer(&mut env, 1), Ok(()));
    env.timestamp = 1_001;
    refused(&mut env, 1, Error::PolicyDenied, Reason::Expired);
    env.timestamp = 5_000;
    refused(&mut env, 1, Error::PolicyDenied, Reason::Expired);
}

#[test]
fn maximum_is_kept() {
    let mut env = open_policy();
    PolicyContract::rotate_policy(&mut env, owner(), text("ops"), HASH, 100).unwrap();
    env.actions.clear();
    assert_eq!(transfer(&mut env, 100), Ok(()));
    refused(&mut env, 101, Error::PolicyDenied, Reason::AboveMax);
}

#[test]
fn only_the_allowed_recipient_and_asset() {
    let mut env = Env::new(1_000);
    env.authorize(owner());
    PolicyContract::register_policy(
        &mut env,
        owner(),
        text("ops"),
        HASH,
        0,
        Some(account(31)),
        None,
        0,
    )
    .unwrap();
    refused(&mut env, 1, Error::PolicyDenied, Reason::BadRecipient);
    assert_eq!(
        PolicyContract::check_transfer(
            &mut env,
            text("ops"),
            token(),
            account(31),
            1,
            answer("ops", token(), account(31), Ok(()))
        ),
        Ok(())
    );
    let mut env = Env::new(1_000);
    env.authorize(owner());
    let coin = Address { kind: AddressKind::Account, ..token() };
    PolicyContract::register_policy(
        &mut env,
        owner(),
        text("ops"),
        HASH,
        0,
        None,
        Some(coin),
        0,
    )
    .unwrap();
    refused(&mut env, 1, Error::PolicyDenied, Reason::BadAsset);
    assert_eq!(
        PolicyContract::check_transfer(
            &mut env,
            text("ops"),
            coin,
            payee(),
            1,
            answer("ops", coin, payee(), Ok(()))
        ),
        Ok(())
    );
}

#[test]
fn denied_asset_wins_over_the_whitelist() {
    let mut env = open_policy();
    PolicyContract::set_asset_whitelist_enabled(&mut env, owner(), text("ops"), true).unwrap();
    refused(&mut env, 1, Error::AssetNotWhitelisted, Reason::AssetNotWhitelisted);
    PolicyContract::add_asset_to_whitelist(&mut env, owner(), text("ops"), token()).unwrap();
    env.actions.clear();
    assert_eq!(transfer(&mut env, 1), Ok(()));
    PolicyContract::add_asset_blacklist(&mut env, owner(), text("ops"), token()).unwrap();
    refused(&mut env, 1, Error::PolicyDenied, Reason::AssetBlacklisted);
    PolicyContract::remove_asset_blacklist(&mut env, owner(), text("ops"), token()).unwrap();
    assert_eq!(transfer(&mut env, 1), Ok(()));
}

#[test]
fn asset_denied_under_another_policy_moves() {
    let mut env = open_policy();
    PolicyContract::register_policy(&mut env, owner(), text("dev"), HASH, 0, None, None, 0)
        .unwrap();
    PolicyContract::add_asset_blacklist(&mut env, owner(), text("dev"), token()).unwrap();
    assert_eq!(transfer(&mut env, 1), Ok(()));
}

#[test]
fn allowance_is_a_gate() {
    let mut env = open_policy();
    PolicyContract::set_allowance(&mut env, owner(), text("ops"), token(), 100, 1_500).unwrap();
    env.actions.clear();
    assert_eq!(transfer(&mut env, 100), Ok(()));
    refused(&mut env, 101, Error::PolicyAllowanceExceeded, Reason::AllowanceExceeded);
    PolicyContract::update_allowance(&mut env, owner(), text("ops"), token(), 60).unwrap();
    env.actions.clear();
    assert_eq!(transfer(&mut env, 40), Ok(()));
    refused(&mut env, 41, Error::PolicyAllowanceExceeded, Reason::AllowanceExceeded);
    env.timestamp = 1_500;
    refused(&mut env, 1, Error::PolicyDenied, Reason::AllowanceExpired);
}

#[test]
fn conditional_rules_deny() {
    let mut env = open_policy();
    let denied =
        ruled(&mut env, 1, answer("ops", token(), payee(), Err(Error::RuleDenied)));
    assert_eq!(denied, Err(Error::RuleDenied));
    assert_eq!(env.actions.len(), 2);
    assert_eq!(
        env.actions[0],
        Action::Publish(Event::Violation {
            policy_id: text("ops"),
            reason: Reason::RuleDenied
        })
    );
    for ignored in [Error::NotFound, Error::PolicyDenied, Error::Other(47)] {
        assert_eq!(ruled(&mut env, 1, answer("ops", token(), payee(), Err(ignored))), Ok(()));
    }
}

#[test]
fn rule_book_is_asked_behind_the_gates() {
    let mut env = open_policy();
    let id = text("ops");
    let query = RuleQuery { policy_id: text("ops"), recipient: payee(), asset: token() };
    assert!(rules_wanted(&env, &id, &payload(5)));
    assert_eq!(rule_query(&env, &id, &payload(5)), Some(query));
    assert!(!rules_wanted(&env, &text("none"), &payload(5)));
    assert_eq!(rule_query(&env, &text("none"), &payload(5)), None);
    assert!(!rules_wanted(&env, &id, &payload(-1)));
    PolicyContract::set_allowance(&mut env, owner(), text("ops"), token(), 10, 0).unwrap();
    assert!(rules_wanted(&env, &id, &payload(10)));
    assert!(!rules_wanted(&env, &id, &payload(11)));
    PolicyContract::rotate_policy(&mut env, owner(), text("ops"), HASH, 8).unwrap();
    assert!(rules_wanted(&env, &id, &payload(8)));
    assert!(!rules_wanted(&env, &id, &payload(9)));
    PolicyContract::set_asset_whitelist_enabled(&mut env, owner(), text("ops"), true).unwrap();
    assert!(!rules_wanted(&env, &id, &payload(8)));
    PolicyContract::add_asset_to_whitelist(&mut env, owner(), text("ops"), token()).unwrap();
    assert!(rules_wanted(&env, &id, &payload(8)));
    PolicyContract::add_asset_blacklist(&mut env, owner(), text("ops"), token()).unwrap();
    assert!(!rules_wanted(&env, &id, &payload(8)));
    PolicyContract::remove_asset_blacklist(&mut env, owner(), text("ops"), token()).unwrap();
    PolicyContract::set_enabled(&mut env, owner(), text("ops"), false).unwrap();
    assert!(!rules_wanted(&env, &id, &payload(8)));
    PolicyContract::set_enabled(&mut env, owner(), text("ops"), true).unwrap();
    PolicyContract::add_blacklist(&mut env, owner(), text("ops"), payee()).unwrap();
    assert_eq!(rule_query(&env, &id, &payload(8)), None);
}

#[test]
fn composite_rule_stands_behind_the_rule_book() {
    let mut env = open_policy();
    let never = RuleNode {
        op: RuleOp::MaxAmount,
        value_i128: -1,
        value_address: owner(),
        children_start: 0,
        children_end: 0,
    };
    PolicyContract::set_composite_rule(&mut env, owner(), text("ops"), vec![never]).unwrap();
    assert!(rules_wanted(&env, &text("ops"), &payload(1)));
    let denied = answer("ops", token(), payee(), Err(Error::RuleDenied));
    assert_eq!(ruled(&mut env, 1, denied), Err(Error::RuleDenied));
    assert_eq!(transfer(&mut env, 1), Err(Error::PolicyDenied));
}

#[test]
fn rule_book_that_was_not_asked_decides_nothing() {
    let mut env = open_policy();
    PolicyContract::rotate_policy(&mut env, owner(), text("ops"), HASH, 8).unwrap();
    for rules in [
        None,
        answer("ops", token(), payee(), Ok(())),
        answer("ops", token(), payee(), Err(Error::RuleDenied)),
        answer("dev", token(), payee(), Ok(())),
    ] {
        env.actions.clear();
        assert_eq!(ruled(&mut env, 9, rules), Err(Error::PolicyDenied));
        assert_eq!(
            env.actions[0],
            Action::Publish(Event::Violation {
                policy_id: text("ops"),
                reason: Reason::AboveMax
            })
        );
    }
}

#[test]
fn silence_and_answers_to_other_questions_deny() {
    let mut env = open_policy();
    for rules in [
        None,
        answer("dev", token(), payee(), Ok(())),
        answer("ops", payee(), payee(), Ok(())),
        answer("ops", token(), token(), Ok(())),
        answer("dev", token(), payee(), Err(Error::NotFound)),
    ] {
        assert!(rule_book_denies(&rules, &text("ops"), &payload(1)));
        assert_eq!(ruled(&mut env, 1, rules), Err(Error::RuleDenied));
    }
    let heard = answer("ops", token(), payee(), Ok(()));
    assert!(!rule_book_denies(&heard, &text("ops"), &payload(1)));
}

#[test]
fn gates_are_asked_without_publishing() {
    let mut env = open_policy();
    assert_eq!(gate_refusal(&env, &text("ops"), &payload(1)), None);
    let missing = gate_refusal(&env, &text("none"), &payload(1)).unwrap();
    assert_eq!((missing.error, missing.reason), (Error::NotFound, None));
    PolicyContract::rotate_policy(&mut env, owner(), text("ops"), HASH, 8).unwrap();
    env.actions.clear();
    let above = gate_refusal(&env, &text("ops"), &payload(9)).unwrap();
    assert_eq!((above.error, above.reason), (Error::PolicyDenied, Some(Reason::AboveMax)));
    let policy = PolicyContract::get(&env, text("ops")).unwrap();
    assert_eq!(scalar_refusal(&policy, 0, &payload(9)), Some(above));
    assert_eq!(scalar_refusal(&policy, 0, &payload(8)), None);
    assert_eq!(env.actions.len(), 0);
}

#[test]
fn entries_of_other_transfers_are_not_read() {
    let mut env = open_policy();
    PolicyContract::register_policy(&mut env, owner(), text("dev"), HASH, 5, None, None, 0)
        .unwrap();
    PolicyContract::add_blacklist(&mut env, owner(), text("ops"), account(77)).unwrap();
    PolicyContract::add_asset_blacklist(&mut env, owner(), text("ops"), account(78)).unwrap();
    PolicyContract::set_allowance(&mut env, owner(), text("ops"), account(78), 1, 0).unwrap();
    let mut sparse = Env::new(1_000);
    let policy = PolicyContract::get(&env, text("ops")).unwrap();
    sparse.ledger.policies.set(text("ops"), policy);
    for amount in [-1, 0, 5, i128::MAX] {
        assert_eq!(transfer(&mut env, amount), transfer(&mut sparse, amount));
        assert_eq!(
            rules_wanted(&env, &text("ops"), &payload(amount)),
            rules_wanted(&sparse, &text("ops"), &payload(amount))
        );
    }
}

#[test]
fn composite_rule_denies() {
    let mut env = open_policy();
    let leaf = RuleNode {
        op: RuleOp::MaxAmount,
        value_i128: 10,
        value_address: owner(),
        children_start: 0,
        children_end: 0,
    };
    PolicyContract::set_composite_rule(&mut env, owner(), text("ops"), vec![leaf]).unwrap();
    env.actions.clear();
    assert_eq!(transfer(&mut env, 10), Ok(()));
    refused(&mut env, 11, Error::PolicyDenied, Reason::RuleDenied);
    let cycle = RuleNode { op: RuleOp::Not, children_start: 0, children_end: 1, ..leaf };
    PolicyContract::set_composite_rule(&mut env, owner(), text("ops"), vec![cycle]).unwrap();
    env.actions.clear();
    assert_eq!(transfer(&mut env, 1), Err(Error::InvalidInput));
    assert_eq!(env.actions.len(), 0);
}

#[test]
fn smaller_transfers_pass_where_larger_ones_do() {
    let mut env = open_policy();
    PolicyContract::rotate_policy(&mut env, owner(), text("ops"), HASH, 90).unwrap();
    PolicyContract::set_allowance(&mut env, owner(), text("ops"), token(), 80, 0).unwrap();
    assert_eq!(transfer(&mut env, 80), Ok(()));
    assert_eq!(transfer(&mut env, 79), Ok(()));
    assert_eq!(transfer(&mut env, 0), Ok(()));
    assert_eq!(transfer(&mut env, 81), Err(Error::PolicyAllowanceExceeded));
    assert_eq!(transfer(&mut env, 91), Err(Error::PolicyDenied));
}

#[test]
fn permitted_transfers_can_be_spent() {
    let mut env = open_policy();
    PolicyContract::set_allowance(&mut env, owner(), text("ops"), token(), 80, 0).unwrap();
    let mut spent = 0;
    for amount in [50, 40, 30] {
        if transfer(&mut env, amount).is_ok() {
            let outcome = PolicyContract::update_allowance(
                &mut env,
                owner(),
                text("ops"),
                token(),
                amount,
            );
            assert_eq!(outcome, Ok(()));
            spent += amount;
        }
    }
    assert_eq!(spent, 80);
    assert_eq!(PolicyContract::get_allowance(&env, text("ops"), token()).spent, 80);
}

#[test]
fn restricting_others_changes_nothing_here() {
    let mut env = open_policy();
    PolicyContract::add_blacklist(&mut env, owner(), text("ops"), account(99)).unwrap();
    PolicyContract::add_merchant_blacklist(&mut env, owner(), text("ops"), account(98)).unwrap();
    PolicyContract::add_asset_blacklist(&mut env, owner(), text("ops"), account(97)).unwrap();
    assert_eq!(transfer(&mut env, 1), Ok(()));
    assert_eq!(transfer(&mut env, -1), Err(Error::InvalidAmount));
}

#[test]
fn each_policy_answers_for_itself() {
    let mut env = open_policy();
    let dev = || text("dev");
    PolicyContract::register_policy(&mut env, owner(), dev(), HASH, 5, None, None, 0).unwrap();
    PolicyContract::set_asset_whitelist_enabled(&mut env, owner(), dev(), true).unwrap();
    PolicyContract::set_allowance(&mut env, owner(), dev(), token(), 3, 0).unwrap();
    let never = RuleNode {
        op: RuleOp::MaxAmount,
        value_i128: -1,
        value_address: owner(),
        children_start: 0,
        children_end: 0,
    };
    PolicyContract::set_composite_rule(&mut env, owner(), dev(), vec![never]).unwrap();
    PolicyContract::set_enabled(&mut env, owner(), dev(), false).unwrap();
    assert_eq!(transfer(&mut env, 100), Ok(()));
    let rules = answer("dev", token(), payee(), Ok(()));
    let there = PolicyContract::check_transfer(&mut env, dev(), token(), payee(), 100, rules);
    assert_eq!(there, Err(Error::PolicyDenied));
}

#[test]
fn rotation_takes_effect_at_once() {
    let mut env = open_policy();
    assert_eq!(transfer(&mut env, 70), Ok(()));
    PolicyContract::rotate_policy(&mut env, owner(), text("ops"), HASH, 60).unwrap();
    assert_eq!(transfer(&mut env, 70), Err(Error::PolicyDenied));
    assert_eq!(transfer(&mut env, 60), Ok(()));
    PolicyContract::rotate_policy(&mut env, owner(), text("ops"), HASH, 0).unwrap();
    assert_eq!(transfer(&mut env, 70), Ok(()));
}

#[test]
fn composite_rule_may_ask_for_a_listed_merchant_never_met() {
    let mut env = open_policy();
    let listed = RuleNode {
        op: RuleOp::MerchantBlacklisted,
        value_i128: 0,
        value_address: owner(),
        children_start: 0,
        children_end: 0,
    };
    PolicyContract::set_composite_rule(&mut env, owner(), text("ops"), vec![listed]).unwrap();
    refused(&mut env, 1, Error::PolicyDenied, Reason::RuleDenied);
    PolicyContract::add_merchant_blacklist(&mut env, owner(), text("ops"), payee()).unwrap();
    refused(&mut env, 1, Error::PolicyDenied, Reason::MerchantBlocked);
}

#[test]
fn restricting_meets_no_rule_that_asks_for_it() {
    let mut env = open_policy();
    let listed = RuleNode {
        op: RuleOp::RecipientBlacklisted,
        value_i128: 0,
        value_address: owner(),
        children_start: 0,
        children_end: 0,
    };
    PolicyContract::set_composite_rule(&mut env, owner(), text("ops"), vec![listed]).unwrap();
    refused(&mut env, 1, Error::PolicyDenied, Reason::RuleDenied);
    PolicyContract::add_blacklist(&mut env, owner(), text("ops"), account(77)).unwrap();
    refused(&mut env, 1, Error::PolicyDenied, Reason::RuleDenied);
    PolicyContract::add_blacklist(&mut env, owner(), text("ops"), payee()).unwrap();
    refused(&mut env, 1, Error::PolicyRecipientRestricted, Reason::Blacklisted);
}
