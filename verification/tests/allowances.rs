use astroid_policy::allowances::AssetAllowance;
use astroid_policy::checks::{
    checked_add, checked_sub, require_non_empty, require_non_negative_amount,
};
use astroid_policy::env::Env;
use astroid_policy::errors::Error;
use astroid_policy::events::{Action, Event, Reason, Subject, Topic};
use astroid_policy::policies::PolicyContract;
use astroid_policy::values::{Address, AddressKind, Digest, Text};

fn account(n: u128) -> Address {
    Address { kind: AddressKind::Account, high: 0, low: n }
}

fn text(s: &str) -> Text {
    Text::new(s.as_bytes().to_vec())
}

fn with_policy(owner: Address, stranger: Address) -> Env {
    let mut env = Env::new(1_000);
    env.authorize(owner);
    env.authorize(stranger);
    let hash = Digest { high: 0, low: 7 };
    PolicyContract::register_policy(&mut env, owner, text("ops"), hash, 0, None, None, 0).unwrap();
    env.actions.clear();
    env
}

fn violation(reason: Reason) -> Vec<Action> {
    vec![
        Action::Publish(Event::Violation { policy_id: text("ops"), reason }),
        Action::Publish(Event::PolicyViolation { policy_id: text("ops"), reason }),
    ]
}

#[test]
fn argument_checks() {
    assert_eq!(require_non_empty(&text("")), Err(Error::InvalidInput));
    assert_eq!(require_non_empty(&text("a")), Ok(()));
    assert_eq!(require_non_negative_amount(-1), Err(Error::InvalidAmount));
    assert_eq!(require_non_negative_amount(0), Ok(()));
}

#[test]
fn checked_arithmetic() {
    assert_eq!(checked_add(2, 3), Ok(5));
    assert_eq!(checked_add(i128::MAX, 0), Ok(i128::MAX));
    assert_eq!(checked_add(i128::MAX, 1), Err(Error::Overflow));
    assert_eq!(checked_add(i128::MIN, -1), Err(Error::Overflow));
    assert_eq!(checked_sub(2, 3), Ok(-1));
    assert_eq!(checked_sub(i128::MIN, 1), Err(Error::Overflow));
    assert_eq!(checked_sub(0, i128::MIN), Err(Error::Overflow));
}

#[test]
fn unset_allowance_is_unrestricted() {
    let (owner, token) = (account(1), account(9));
    let mut env = with_policy(owner, account(2));
    assert_eq!(
        PolicyContract::get_allowance(&env, text("ops"), token),
        AssetAllowance {
            policy_id: text("ops"),
            asset: token,
            limit: 0,
            spent: 0,
            expires_at: 0,
        }
    );
    assert_eq!(
        PolicyContract::check_allowance(&mut env, text("ops"), token, i128::MAX),
        Ok(i128::MAX)
    );
    assert_eq!(PolicyContract::update_allowance(&mut env, owner, text("ops"), token, 5), Ok(()));
    assert_eq!(PolicyContract::get_allowance(&env, text("ops"), token).spent, 0);
    assert!(!env.ledger.allowances.has(&(text("ops"), token)));
    assert_eq!(env.actions.len(), 0);
}

#[test]
fn set_allowance_is_for_the_owner_and_not_negative() {
    let (owner, stranger, token) = (account(1), account(2), account(9));
    let mut env = with_policy(owner, stranger);
    assert_eq!(
        PolicyContract::set_allowance(&mut env, stranger, text("ops"), token, 10, 0),
        Err(Error::Unauthorized)
    );
    assert_eq!(
        PolicyContract::set_allowance(&mut env, owner, text("none"), token, 10, 0),
        Err(Error::NotFound)
    );
    assert_eq!(
        PolicyContract::set_allowance(&mut env, owner, text("ops"), token, -1, 0),
        Err(Error::InvalidAmount)
    );
    assert_eq!(
        PolicyContract::set_allowance(&mut env, stranger, text("ops"), token, -1, 0),
        Err(Error::Unauthorized)
    );
    assert_eq!(env.actions.len(), 0);
    assert_eq!(
        PolicyContract::set_allowance(&mut env, owner, text("ops"), token, 10, 77),
        Ok(())
    );
    assert_eq!(
        PolicyContract::get_allowance(&env, text("ops"), token),
        AssetAllowance {
            policy_id: text("ops"),
            asset: token,
            limit: 10,
            spent: 0,
            expires_at: 77,
        }
    );
    assert_eq!(
        env.actions,
        vec![Action::Publish(Event::Policy {
            topic: Topic::AllowanceSet,
            policy_id: text("ops"),
            subject: Subject::Limit { asset: token, limit: 10 },
        })]
    );
}

#[test]
fn spends_are_counted_up_to_the_limit() {
    let (owner, anyone, token) = (account(1), account(2), account(9));
    let mut env = with_policy(owner, anyone);
    PolicyContract::set_allowance(&mut env, owner, text("ops"), token, 100, 0).unwrap();
    env.actions.clear();
    assert_eq!(PolicyContract::check_allowance(&mut env, text("ops"), token, 30), Ok(70));
    assert_eq!(PolicyContract::update_allowance(&mut env, anyone, text("ops"), token, 30), Ok(()));
    assert_eq!(
        env.actions,
        vec![Action::Publish(Event::Policy {
            topic: Topic::AllowanceUsed,
            policy_id: text("ops"),
            subject: Subject::Usage { asset: token, amount: 30, spent: 30 },
        })]
    );
    env.actions.clear();
    assert_eq!(PolicyContract::check_allowance(&mut env, text("ops"), token, 0), Ok(70));
    assert_eq!(PolicyContract::check_allowance(&mut env, text("ops"), token, 70), Ok(0));
    assert_eq!(
        PolicyContract::update_allowance(&mut env, owner, text("ops"), token, 71),
        Err(Error::PolicyAllowanceExceeded)
    );
    assert_eq!(env.actions.len(), 0);
    assert_eq!(
        PolicyContract::check_allowance(&mut env, text("ops"), token, 71),
        Err(Error::PolicyAllowanceExceeded)
    );
    assert_eq!(env.actions, violation(Reason::AllowanceExceeded));
    assert_eq!(PolicyContract::update_allowance(&mut env, owner, text("ops"), token, 70), Ok(()));
    assert_eq!(PolicyContract::get_allowance(&env, text("ops"), token).spent, 100);
    assert_eq!(PolicyContract::check_allowance(&mut env, text("ops"), token, 0), Ok(0));
}

#[test]
fn negative_amounts_are_refused() {
    let (owner, token) = (account(1), account(9));
    let mut env = with_policy(owner, account(2));
    assert_eq!(
        PolicyContract::check_allowance(&mut env, text("ops"), token, -1),
        Err(Error::InvalidAmount)
    );
    assert_eq!(
        PolicyContract::update_allowance(&mut env, owner, text("ops"), token, -1),
        Err(Error::InvalidAmount)
    );
}

#[test]
fn allowance_expires() {
    let (owner, token) = (account(1), account(9));
    let mut env = with_policy(owner, account(2));
    PolicyContract::set_allowance(&mut env, owner, text("ops"), token, 100, 1_001).unwrap();
    env.actions.clear();
    assert_eq!(PolicyContract::check_allowance(&mut env, text("ops"), token, 1), Ok(99));
    env.timestamp = 1_001;
    assert_eq!(
        PolicyContract::update_allowance(&mut env, owner, text("ops"), token, 1),
        Err(Error::PolicyDenied)
    );
    assert_eq!(env.actions.len(), 0);
    assert_eq!(
        PolicyContract::check_allowance(&mut env, text("ops"), token, 1),
        Err(Error::PolicyDenied)
    );
    assert_eq!(env.actions, violation(Reason::AllowanceExpired));
}

#[test]
fn changing_an_allowance_keeps_the_spend() {
    let (owner, token) = (account(1), account(9));
    let mut env = with_policy(owner, account(2));
    PolicyContract::set_allowance(&mut env, owner, text("ops"), token, 100, 0).unwrap();
    PolicyContract::update_allowance(&mut env, owner, text("ops"), token, 60).unwrap();
    PolicyContract::set_allowance(&mut env, owner, text("ops"), token, 50, 0).unwrap();
    assert_eq!(PolicyContract::get_allowance(&env, text("ops"), token).spent, 60);
    assert_eq!(
        PolicyContract::check_allowance(&mut env, text("ops"), token, 0),
        Err(Error::PolicyAllowanceExceeded)
    );
    PolicyContract::set_allowance(&mut env, owner, text("ops"), token, 80, 0).unwrap();
    assert_eq!(PolicyContract::check_allowance(&mut env, text("ops"), token, 5), Ok(15));
}

#[test]
fn removing_an_allowance_lifts_it() {
    let (owner, stranger, token) = (account(1), account(2), account(9));
    let mut env = with_policy(owner, stranger);
    assert_eq!(
        PolicyContract::remove_allowance(&mut env, owner, text("ops"), token),
        Err(Error::NotFound)
    );
    PolicyContract::set_allowance(&mut env, owner, text("ops"), token, 100, 0).unwrap();
    PolicyContract::update_allowance(&mut env, owner, text("ops"), token, 100).unwrap();
    assert_eq!(
        PolicyContract::remove_allowance(&mut env, stranger, text("ops"), token),
        Err(Error::Unauthorized)
    );
    env.actions.clear();
    assert_eq!(PolicyContract::remove_allowance(&mut env, owner, text("ops"), token), Ok(()));
    assert_eq!(
        env.actions,
        vec![Action::Publish(Event::Policy {
            topic: Topic::AllowanceRemoved,
            policy_id: text("ops"),
            subject: Subject::Address(token),
        })]
    );
    assert_eq!(
        PolicyContract::check_allowance(&mut env, text("ops"), token, 1),
        Ok(i128::MAX)
    );
}

#[test]
fn assets_are_tracked_independently() {
    let (owner, token, coin) = (account(1), account(9), account(8));
    let mut env = with_policy(owner, account(2));
    let hash = Digest { high: 0, low: 7 };
    PolicyContract::register_policy(&mut env, owner, text("dev"), hash, 0, None, None, 0).unwrap();
    PolicyContract::set_allowance(&mut env, owner, text("ops"), token, 100, 0).unwrap();
    PolicyContract::set_allowance(&mut env, owner, text("ops"), coin, 7, 0).unwrap();
    PolicyContract::set_allowance(&mut env, owner, text("dev"), token, 50, 0).unwrap();
    PolicyContract::update_allowance(&mut env, owner, text("ops"), token, 40).unwrap();
    PolicyContract::update_allowance(&mut env, owner, text("ops"), coin, 7).unwrap();
    assert_eq!(PolicyContract::check_allowance(&mut env, text("ops"), token, 0), Ok(60));
    assert_eq!(PolicyContract::check_allowance(&mut env, text("ops"), coin, 0), Ok(0));
    assert_eq!(PolicyContract::check_allowance(&mut env, text("dev"), token, 0), Ok(50));
}

#[test]
fn inconsistent_allowance_overflows() {
    let (owner, token) = (account(1), account(9));
    let mut env = with_policy(owner, account(2));
    let stored = AssetAllowance {
        policy_id: text("ops"),
        asset: token,
        limit: i128::MAX,
        spent: -1,
        expires_at: 0,
    };
    env.ledger.allowances.set((text("ops"), token), stored);
    assert_eq!(
        PolicyContract::check_allowance(&mut env, text("ops"), token, 1),
        Err(Error::Overflow)
    );
    assert_eq!(
        PolicyContract::update_allowance(&mut env, owner, text("ops"), token, 1),
        Err(Error::Overflow)
    );
    assert_eq!(env.actions.len(), 0);
}

#[test]
fn two_spends_are_one_spend_of_their_sum() {
    let (owner, token) = (account(1), account(9));
    let mut twice = with_policy(owner, account(2));
    let mut once = with_policy(owner, account(2));
    for env in [&mut twice, &mut once] {
        PolicyContract::set_allowance(env, owner, text("ops"), token, 100, 0).unwrap();
    }
    PolicyContract::update_allowance(&mut twice, owner, text("ops"), token, 30).unwrap();
    PolicyContract::update_allowance(&mut twice, owner, text("ops"), token, 45).unwrap();
    PolicyContract::update_allowance(&mut once, owner, text("ops"), token, 75).unwrap();
    assert_eq!(twice.ledger, once.ledger);
    assert_eq!(PolicyContract::get_allowance(&twice, text("ops"), token).spent, 75);
}

#[test]
fn two_spends_pass_where_their_sum_does() {
    let (owner, token) = (account(1), account(9));
    for (limit, first, second) in [(100, 60, 40), (100, 60, 41), (0, 60, 41), (100, 101, 0)] {
        let mut twice = with_policy(owner, account(2));
        let mut once = with_policy(owner, account(2));
        for env in [&mut twice, &mut once] {
            PolicyContract::set_allowance(env, owner, text("ops"), token, limit, 0).unwrap();
        }
        let spend = |env: &mut Env, amount: i128| {
            PolicyContract::update_allowance(env, owner, text("ops"), token, amount).is_ok()
        };
        let both = spend(&mut twice, first) && spend(&mut twice, second);
        assert_eq!(both, spend(&mut once, first + second));
        assert_eq!(both, limit == 0 || first + second <= limit);
        if both {
            assert_eq!(twice.ledger, once.ledger);
        }
    }
}

#[test]
fn refusals_are_found_without_publishing() {
    let (owner, token) = (account(1), account(9));
    let mut env = with_policy(owner, account(2));
    PolicyContract::set_allowance(&mut env, owner, text("ops"), token, 10, 0).unwrap();
    env.actions.clear();
    assert_eq!(PolicyContract::allowance_refusal(&env, &text("ops"), token, 10), None);
    let above = PolicyContract::allowance_refusal(&env, &text("ops"), token, 11).unwrap();
    assert_eq!(above.error, Error::PolicyAllowanceExceeded);
    assert_eq!(above.reason, Some(Reason::AllowanceExceeded));
    let negative = PolicyContract::allowance_refusal(&env, &text("ops"), token, -1).unwrap();
    assert_eq!((negative.error, negative.reason), (Error::InvalidAmount, None));
    assert_eq!(env.actions.len(), 0);
}

#[test]
fn every_spend_counts_between_other_calls() {
    let (owner, token, coin) = (account(1), account(9), account(8));
    let mut env = with_policy(owner, account(2));
    let ops = || text("ops");
    PolicyContract::set_allowance(&mut env, owner, ops(), token, 100, 0).unwrap();
    let mut spent = 0;
    for (amount, limit, expires_at) in
        [(40, 90, 0), (60, 95, 2_000), (50, 120, 0), (10, 91, 0), (30, 120, 500), (30, 120, 0)]
    {
        let outcome = PolicyContract::update_allowance(&mut env, owner, ops(), token, amount);
        if outcome.is_ok() {
            spent += amount;
        }
        assert_eq!(PolicyContract::get_allowance(&env, ops(), token).spent, spent);
        assert!(spent <= 120);
        PolicyContract::set_allowance(&mut env, owner, ops(), token, limit, expires_at).unwrap();
        PolicyContract::set_allowance(&mut env, owner, ops(), coin, 7, 0).unwrap();
        PolicyContract::update_allowance(&mut env, owner, ops(), coin, 1).unwrap();
        PolicyContract::rotate_policy(&mut env, owner, ops(), Digest { high: 0, low: 1 }, 5)
            .unwrap();
        env.timestamp += 1;
    }
    assert_eq!(spent, 100);
    assert_eq!(PolicyContract::get_allowance(&env, ops(), coin).spent, 6);
}
