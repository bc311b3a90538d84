use astroid_policy::env::Env;
use astroid_policy::errors::Error;
use astroid_policy::events::{Action, Event, Reason, Subject, Topic};
use astroid_policy::policies::PolicyContract;
use astroid_policy::values::{Address, AddressKind, Digest, Text};

fn account(n: u128) -> Address {
    Address { kind: AddressKind::Account, high: 0, low: n }
}

fn text(s: &str) -> Text {
    Text::new(s.as_bytes().to_vec())
}

fn with_policy(owner: Address, stranger: Address) -> Env {
    let mut env = Env::new(1_000);
    env.authorize(owner);
    env.authorize(stranger);
    let hash = Digest { high: 0, low: 7 };
    PolicyContract::register_policy(&mut env, owner, text("ops"), hash, 0, None, None, 0).unwrap();
    env.actions.clear();
    env
}

fn listed(topic: Topic, address: Address) -> Action {
    Action::Publish(Event::Policy {
        topic,
        policy_id: text("ops"),
        subject: Subject::Address(address),
    })
}

fn violation(reason: Reason) -> Vec<Action> {
    vec![
        Action::Publish(Event::Violation { policy_id: text("ops"), reason }),
        Action::Publish(Event::PolicyViolation { policy_id: text("ops"), reason }),
    ]
}

#[test]
fn blacklist_add_and_remove() {
    let (owner, stranger, bad) = (account(1), account(2), account(9));
    let mut env = with_policy(owner, stranger);
    assert_eq!(
        PolicyContract::add_blacklist(&mut env, stranger, text("ops"), bad),
        Err(Error::Unauthorized)
    );
    assert_eq!(
        PolicyContract::add_blacklist(&mut env, owner, text("none"), bad),
        Err(Error::NotFound)
    );
    assert_eq!(
        PolicyContract::remove_blacklist(&mut env, owner, text("ops"), bad),
        Err(Error::NotFound)
    );
    assert_eq!(PolicyContract::add_blacklist(&mut env, owner, text("ops"), bad), Ok(()));
    assert!(env.ledger.blacklist.has(&bad));
    assert_eq!(env.ledger.blacklist.get(&bad), Some(&text("ops")));
    assert_eq!(
        PolicyContract::add_blacklist(&mut env, owner, text("ops"), bad),
        Err(Error::AlreadyExists)
    );
    assert_eq!(
        PolicyContract::remove_blacklist(&mut env, stranger, text("ops"), bad),
        Err(Error::Unauthorized)
    );
    assert_eq!(PolicyContract::remove_blacklist(&mut env, owner, text("ops"), bad), Ok(()));
    assert!(!env.ledger.blacklist.has(&bad));
    assert_eq!(
        env.actions,
        vec![listed(Topic::Blacklisted, bad), listed(Topic::Unblacklisted, bad)]
    );
}

#[test]
fn blocklist_and_blacklist_are_one_list() {
    let (owner, stranger, bad) = (account(1), account(2), account(9));
    let mut env = with_policy(owner, stranger);
    assert_eq!(
        PolicyContract::add_to_blocklist(&mut env, stranger, text("ops"), bad),
        Err(Error::Unauthorized)
    );
    assert_eq!(PolicyContract::add_to_blocklist(&mut env, owner, text("ops"), bad), Ok(()));
    assert_eq!(
        PolicyContract::add_blacklist(&mut env, owner, text("ops"), bad),
        Err(Error::AlreadyExists)
    );
    assert_eq!(PolicyContract::remove_blacklist(&mut env, owner, text("ops"), bad), Ok(()));
    assert_eq!(
        PolicyContract::remove_from_blocklist(&mut env, owner, text("ops"), bad),
        Err(Error::NotFound)
    );
    assert_eq!(PolicyContract::add_blacklist(&mut env, owner, text("ops"), bad), Ok(()));
    assert_eq!(PolicyContract::remove_from_blocklist(&mut env, owner, text("ops"), bad), Ok(()));
    assert!(!env.ledger.blacklist.has(&bad));
}

#[test]
fn merchant_blacklist_add_and_remove() {
    let (owner, stranger, shop) = (account(1), account(2), account(9));
    let mut env = with_policy(owner, stranger);
    assert_eq!(
        PolicyContract::add_merchant_blacklist(&mut env, stranger, text("ops"), shop),
        Err(Error::Unauthorized)
    );
    assert_eq!(
        PolicyContract::remove_merchant_blacklist(&mut env, owner, text("ops"), shop),
        Err(Error::NotFound)
    );
    assert_eq!(PolicyContract::add_merchant_blacklist(&mut env, owner, text("ops"), shop), Ok(()));
    assert_eq!(
        PolicyContract::add_merchant_blacklist(&mut env, owner, text("ops"), shop),
        Err(Error::AlreadyExists)
    );
    assert!(env.ledger.merchant_blacklist.has(&shop));
    assert!(!env.ledger.blacklist.has(&shop));
    assert_eq!(
        PolicyContract::remove_merchant_blacklist(&mut env, owner, text("ops"), shop),
        Ok(())
    );
    assert!(!env.ledger.merchant_blacklist.has(&shop));
    assert_eq!(
        env.actions,
        vec![
            listed(Topic::MerchantBlacklisted, shop),
            listed(Topic::MerchantUnblacklisted, shop)
        ]
    );
}

#[test]
fn category_blacklist_add_and_remove() {
    let (owner, stranger) = (account(1), account(2));
    let mut env = with_policy(owner, stranger);
    assert_eq!(
        PolicyContract::add_category_blacklist(&mut env, owner, text("ops"), text("")),
        Err(Error::InvalidInput)
    );
    assert_eq!(
        PolicyContract::add_category_blacklist(&mut env, stranger, text("ops"), text("")),
        Err(Error::Unauthorized)
    );
    assert_eq!(
        PolicyContract::remove_category_blacklist(&mut env, owner, text("ops"), text("")),
        Err(Error::NotFound)
    );
    assert_eq!(
        PolicyContract::add_category_blacklist(&mut env, owner, text("ops"), text("games")),
        Ok(())
    );
    assert_eq!(
        PolicyContract::add_category_blacklist(&mut env, owner, text("ops"), text("games")),
        Err(Error::AlreadyExists)
    );
    env.actions.clear();
    assert_eq!(
        PolicyContract::check_category(&mut env, text("ops"), text("games")),
        Err(Error::PolicyDenied)
    );
    assert_eq!(env.actions, violation(Reason::CategoryRestricted));
    assert_eq!(PolicyContract::check_category(&mut env, text("ops"), text("food")), Ok(()));
    assert_eq!(PolicyContract::check_category(&mut env, text("ops"), text("")), Ok(()));
    assert_eq!(
        PolicyContract::remove_category_blacklist(&mut env, owner, text("ops"), text("games")),
        Ok(())
    );
    assert_eq!(PolicyContract::check_category(&mut env, text("ops"), text("games")), Ok(()));
    assert_eq!(
        env.actions.last(),
        Some(&Action::Publish(Event::Policy {
            topic: Topic::CategoryUnblacklisted,
            policy_id: text("ops"),
            subject: Subject::Text(text("games")),
        }))
    );
}

#[test]
fn asset_blacklist_is_per_policy() {
    let (owner, stranger, token) = (account(1), account(2), account(9));
    let mut env = with_policy(owner, stranger);
    assert!(!PolicyContract::is_asset_blacklisted(&env, text("ops"), token));
    assert_eq!(
        PolicyContract::add_asset_blacklist(&mut env, stranger, text("ops"), token),
        Err(Error::Unauthorized)
    );
    assert_eq!(
        PolicyContract::remove_asset_blacklist(&mut env, owner, text("ops"), token),
        Err(Error::NotFound)
    );
    assert_eq!(PolicyContract::add_asset_blacklist(&mut env, owner, text("ops"), token), Ok(()));
    assert_eq!(
        PolicyContract::add_asset_blacklist(&mut env, owner, text("ops"), token),
        Err(Error::AlreadyExists)
    );
    assert!(PolicyContract::is_asset_blacklisted(&env, text("ops"), token));
    assert!(!PolicyContract::is_asset_blacklisted(&env, text("op"), token));
    assert!(!PolicyContract::is_asset_blacklisted(&env, text("ops"), account(8)));
    assert_eq!(PolicyContract::remove_asset_blacklist(&mut env, owner, text("ops"), token), Ok(()));
    assert!(!PolicyContract::is_asset_blacklisted(&env, text("ops"), token));
    assert_eq!(
        env.actions,
        vec![
            listed(Topic::AssetBlacklisted, token),
            listed(Topic::AssetUnblacklisted, token)
        ]
    );
}

#[test]
fn asset_whitelist_counts_only_while_on() {
    let (owner, stranger, token, coin) = (account(1), account(2), account(9), account(8));
    let mut env = with_policy(owner, stranger);
    assert_eq!(PolicyContract::validate_asset(&mut env, text("ops"), token), Ok(()));
    assert_eq!(
        PolicyContract::set_asset_whitelist_enabled(&mut env, stranger, text("ops"), true),
        Err(Error::Unauthorized)
    );
    assert_eq!(
        PolicyContract::set_asset_whitelist_enabled(&mut env, owner, text("ops"), true),
        Ok(())
    );
    assert_eq!(env.actions.len(), 0);
    assert_eq!(
        PolicyContract::validate_asset(&mut env, text("ops"), token),
        Err(Error::AssetNotWhitelisted)
    );
    assert_eq!(env.actions, violation(Reason::AssetNotWhitelisted));
    env.actions.clear();
    assert_eq!(
        PolicyContract::add_asset_to_whitelist(&mut env, stranger, text("ops"), token),
        Err(Error::Unauthorized)
    );
    assert_eq!(PolicyContract::add_asset_to_whitelist(&mut env, owner, text("ops"), token), Ok(()));
    assert_eq!(
        PolicyContract::add_asset_to_whitelist(&mut env, owner, text("ops"), token),
        Err(Error::AlreadyExists)
    );
    assert_eq!(env.actions, vec![listed(Topic::AssetWhitelisted, token)]);
    assert_eq!(PolicyContract::validate_asset(&mut env, text("ops"), token), Ok(()));
    assert_eq!(
        PolicyContract::validate_asset(&mut env, text("ops"), coin),
        Err(Error::AssetNotWhitelisted)
    );
    assert_eq!(
        PolicyContract::remove_asset_from_whitelist(&mut env, owner, text("ops"), token),
        Ok(())
    );
    assert_eq!(env.actions.last(), Some(&listed(Topic::AssetUnwhitelisted, token)));
    assert_eq!(
        PolicyContract::remove_asset_from_whitelist(&mut env, owner, text("ops"), token),
        Err(Error::NotFound)
    );
    assert_eq!(
        PolicyContract::validate_asset(&mut env, text("ops"), token),
        Err(Error::AssetNotWhitelisted)
    );
    assert_eq!(
        PolicyContract::set_asset_whitelist_enabled(&mut env, owner, text("ops"), false),
        Ok(())
    );
    assert_eq!(PolicyContract::validate_asset(&mut env, text("ops"), token), Ok(()));
}

#[test]
fn denied_asset_and_whitelist_switch_outlast_other_calls() {
    let (owner, stranger, token, bad) = (account(1), account(2), account(9), account(8));
    let mut env = Env::new(0);
    env.authorize(owner);
    env.authorize(stranger);
    let hash = Digest { high: 0, low: 7 };
    PolicyContract::register_policy(&mut env, owner, text("ops"), hash, 0, None, None, 0).unwrap();
    PolicyContract::register_policy(&mut env, stranger, text("dev"), hash, 0, None, None, 0)
        .unwrap();
    PolicyContract::add_asset_blacklist(&mut env, owner, text("ops"), token).unwrap();
    PolicyContract::set_asset_whitelist_enabled(&mut env, owner, text("ops"), true).unwrap();
    PolicyContract::add_blacklist(&mut env, owner, text("ops"), bad).unwrap();
    let refused = Err(Error::Unauthorized);
    assert_eq!(
        PolicyContract::remove_asset_blacklist(&mut env, stranger, text("ops"), token),
        refused
    );
    assert_eq!(
        PolicyContract::set_asset_whitelist_enabled(&mut env, stranger, text("ops"), false),
        refused
    );
    PolicyContract::add_asset_blacklist(&mut env, stranger, text("dev"), token).unwrap();
    PolicyContract::remove_asset_blacklist(&mut env, stranger, text("dev"), token).unwrap();
    PolicyContract::set_asset_whitelist_enabled(&mut env, stranger, text("dev"), false).unwrap();
    PolicyContract::rotate_policy(&mut env, owner, text("ops"), hash, 3).unwrap();
    PolicyContract::add_asset_to_whitelist(&mut env, owner, text("ops"), token).unwrap();
    PolicyContract::set_enabled(&mut env, owner, text("ops"), false).unwrap();
    assert_eq!(env.ledger.asset_blacklist.has(&(text("ops"), token)), true);
    assert!(PolicyContract::whitelist_passes(&env, &text("ops"), token));
    assert!(!PolicyContract::whitelist_passes(&env, &text("ops"), bad));
    assert!(PolicyContract::whitelist_passes(&env, &text("dev"), bad));
    assert!(env.ledger.blacklist.has(&bad));
    let policy = PolicyContract::get(&env, text("ops")).unwrap();
    assert_eq!((policy.owner, policy.expires_at), (owner, 0));
}

#[test]
fn whitelist_is_off_until_it_is_switched() {
    let (owner, stranger, token, coin) = (account(1), account(2), account(9), account(8));
    let mut env = with_policy(owner, stranger);
    let ops = text("ops");
    assert!(PolicyContract::whitelist_passes(&env, &text("none"), token));
    assert!(PolicyContract::whitelist_passes(&env, &ops, token));
    PolicyContract::add_asset_to_whitelist(&mut env, owner, text("ops"), coin).unwrap();
    assert_eq!(
        PolicyContract::set_asset_whitelist_enabled(&mut env, stranger, text("ops"), true),
        Err(Error::Unauthorized)
    );
    assert!(PolicyContract::whitelist_passes(&env, &ops, token));
    PolicyContract::set_asset_whitelist_enabled(&mut env, owner, text("ops"), true).unwrap();
    assert!(!PolicyContract::whitelist_passes(&env, &ops, token));
    assert!(PolicyContract::whitelist_passes(&env, &ops, coin));
}
