use astroid_policy::env::Env;
use astroid_policy::errors::Error;
use astroid_policy::events::{Action, Event, Subject, Topic};
use astroid_policy::policies::{Policy, PolicyContract};
use astroid_policy::rules::{reply_to, RuleReply, RuleRequest};
use astroid_policy::values::{Address, AddressKind, Digest, Text};

fn account(n: u128) -> Address {
    Address { kind: AddressKind::Account, high: 0, low: n }
}

fn text(s: &str) -> Text {
    Text::new(s.as_bytes().to_vec())
}

fn digest(n: u128) -> Digest {
    Digest { high: n, low: n }
}

fn host(signers: &[Address]) -> Env {
    let mut env = Env::new(1_000);
    for signer in signers {
        env.authorize(*signer);
    }
    env
}

fn register(env: &mut Env, owner: Address, id: &str) -> Result<(), Error> {
    PolicyContract::register_policy(env, owner, text(id), digest(7), 500, None, None, 0)
}

#[test]
fn initialize_works_once() {
    let mut env = host(&[]);
    assert_eq!(PolicyContract::initialize(&mut env), Ok(()));
    assert_eq!(env.ledger.count, Some(0));
    assert_eq!(PolicyContract::initialize(&mut env), Err(Error::AlreadyInitialized));
    assert_eq!(env.ledger.count, Some(0));
    assert_eq!(env.actions.len(), 0);
}

#[test]
fn authorization_is_recorded() {
    let mut env = host(&[account(1)]);
    assert!(env.is_authorized(&account(1)));
    assert!(!env.is_authorized(&account(2)));
    env.authorize(account(2));
    assert!(env.is_authorized(&account(2)));
    assert!(!env.is_authorized(&Address { kind: AddressKind::Contract, high: 0, low: 1 }));
}

#[test]
fn registered_policy_reads_back() {
    let owner = account(1);
    let mut env = host(&[owner]);
    let outcome = PolicyContract::register_policy(
        &mut env,
        owner,
        text("ops"),
        digest(9),
        250,
        Some(account(5)),
        Some(account(6)),
        7_000,
    );
    assert_eq!(outcome, Ok(()));
    assert_eq!(
        PolicyContract::get(&env, text("ops")),
        Ok(Policy {
            owner,
            config_hash: digest(9),
            max_amount: 250,
            allowed_recipient: Some(account(5)),
            allowed_asset: Some(account(6)),
            expires_at: 7_000,
            enabled: true,
        })
    );
    assert_eq!(
        env.actions,
        vec![Action::Publish(Event::Policy {
            topic: Topic::Registered,
            policy_id: text("ops"),
            subject: Subject::Policy,
        })]
    );
}

#[test]
fn registration_refuses_empty_and_taken_ids() {
    let owner = account(1);
    let mut env = host(&[owner, account(2)]);
    assert_eq!(register(&mut env, owner, ""), Err(Error::InvalidInput));
    assert_eq!(register(&mut env, owner, "ops"), Ok(()));
    assert_eq!(register(&mut env, account(2), "ops"), Err(Error::AlreadyExists));
    assert_eq!(register(&mut env, account(2), "ops2"), Ok(()));
    assert_eq!(PolicyContract::get(&env, text("ops")).map(|p| p.owner), Ok(owner));
    assert_eq!(PolicyContract::get(&env, text("ops2")).map(|p| p.owner), Ok(account(2)));
    assert_eq!(env.actions.len(), 2);
}

#[test]
fn unknown_policy_is_not_found() {
    let owner = account(1);
    let mut env = host(&[owner]);
    assert_eq!(PolicyContract::get(&env, text("ops")), Err(Error::NotFound));
    assert_eq!(PolicyContract::load(&env, &text("ops")), Err(Error::NotFound));
    assert_eq!(
        PolicyContract::rotate_policy(&mut env, owner, text("ops"), digest(1), 1),
        Err(Error::NotFound)
    );
    assert_eq!(
        PolicyContract::set_enabled(&mut env, owner, text("ops"), false),
        Err(Error::NotFound)
    );
    assert_eq!(
        PolicyContract::require_policy_owner(&env, &owner, &text("ops")),
        Err(Error::NotFound)
    );
}

#[test]
fn rotation_changes_digest_and_maximum_only() {
    let owner = account(1);
    let mut env = host(&[owner]);
    register(&mut env, owner, "ops").unwrap();
    register(&mut env, owner, "other").unwrap();
    let before = PolicyContract::get(&env, text("ops")).unwrap();
    assert_eq!(
        PolicyContract::rotate_policy(&mut env, owner, text("ops"), digest(8), 900),
        Ok(())
    );
    assert_eq!(
        PolicyContract::get(&env, text("ops")),
        Ok(Policy { config_hash: digest(8), max_amount: 900, ..before })
    );
    assert_eq!(PolicyContract::get(&env, text("other")), Ok(before));
    assert_eq!(
        env.actions.last(),
        Some(&Action::Publish(Event::Policy {
            topic: Topic::Rotated,
            policy_id: text("ops"),
            subject: Subject::Policy,
        }))
    );
}

#[test]
fn only_the_owner_changes_a_policy() {
    let owner = account(1);
    let stranger = account(2);
    let mut env = host(&[owner, stranger]);
    register(&mut env, owner, "ops").unwrap();
    let before = PolicyContract::get(&env, text("ops")).unwrap();
    assert_eq!(
        PolicyContract::rotate_policy(&mut env, stranger, text("ops"), digest(8), 900),
        Err(Error::Unauthorized)
    );
    assert_eq!(
        PolicyContract::set_enabled(&mut env, stranger, text("ops"), false),
        Err(Error::Unauthorized)
    );
    assert_eq!(
        PolicyContract::require_policy_owner(&env, &stranger, &text("ops")),
        Err(Error::Unauthorized)
    );
    assert_eq!(PolicyContract::require_policy_owner(&env, &owner, &text("ops")), Ok(()));
    assert_eq!(PolicyContract::get(&env, text("ops")), Ok(before));
    assert_eq!(env.actions.len(), 1);
}

#[test]
fn switching_off_and_on_restores_the_policy() {
    let owner = account(1);
    let mut env = host(&[owner]);
    register(&mut env, owner, "ops").unwrap();
    let before = PolicyContract::get(&env, text("ops")).unwrap();
    assert_eq!(PolicyContract::set_enabled(&mut env, owner, text("ops"), false), Ok(()));
    assert_eq!(PolicyContract::get(&env, text("ops")), Ok(Policy { enabled: false, ..before }));
    assert_eq!(PolicyContract::set_enabled(&mut env, owner, text("ops"), true), Ok(()));
    assert_eq!(PolicyContract::get(&env, text("ops")), Ok(before));
    assert_eq!(env.actions.len(), 1);
}

fn addition(rule: &str) -> RuleRequest {
    RuleRequest::Add { policy_id: text("ops"), rule: text(rule) }
}

fn removal(rule_id: &str) -> RuleRequest {
    RuleRequest::Remove { policy_id: text("ops"), rule_id: text(rule_id) }
}

fn add(
    env: &mut Env,
    caller: Address,
    policy_id: &str,
    reply: Option<RuleReply>,
) -> Result<(), Error> {
    PolicyContract::add_rule(env, caller, text(policy_id), text("weekdays"), reply)
}

fn remove(env: &mut Env, caller: Address, reply: Option<RuleReply>) -> Result<(), Error> {
    PolicyContract::remove_rule(env, caller, text("ops"), text("r1"), reply)
}

fn reply(request: RuleRequest, outcome: Result<(), Error>) -> Option<RuleReply> {
    Some(RuleReply { request, outcome })
}

#[test]
fn rule_changes_follow_the_rule_book() {
    let owner = account(1);
    let stranger = account(2);
    let mut env = host(&[owner, stranger]);
    register(&mut env, owner, "ops").unwrap();
    env.actions.clear();
    let yes = || reply(addition("weekdays"), Ok(()));
    assert_eq!(add(&mut env, stranger, "ops", yes()), Err(Error::Unauthorized));
    assert_eq!(add(&mut env, owner, "none", yes()), Err(Error::NotFound));
    let done = || reply(removal("r1"), Ok(()));
    assert_eq!(remove(&mut env, stranger, done()), Err(Error::Unauthorized));
    for error in [
        Error::AlreadyExists,
        Error::NotFound,
        Error::Other(0),
        Error::Other(14),
        Error::Other(50),
        Error::Other(u32::MAX),
    ] {
        let said = Err(error);
        assert_eq!(add(&mut env, owner, "ops", reply(addition("weekdays"), said)), said);
        assert_eq!(remove(&mut env, owner, reply(removal("r1"), said)), said);
    }
    assert_eq!(env.actions.len(), 0);
    assert_eq!(add(&mut env, owner, "ops", yes()), Ok(()));
    assert_eq!(remove(&mut env, owner, done()), Ok(()));
    assert_eq!(
        env.actions,
        vec![
            Action::Publish(Event::Policy {
                topic: Topic::RuleAdded,
                policy_id: text("ops"),
                subject: Subject::Policy,
            }),
            Action::Publish(Event::Policy {
                topic: Topic::RuleRemoved,
                policy_id: text("ops"),
                subject: Subject::Text(text("r1")),
            }),
        ]
    );
}

#[test]
fn rule_book_is_asked_for_the_owner_only() {
    let owner = account(1);
    let stranger = account(2);
    let mut env = host(&[owner, stranger]);
    register(&mut env, owner, "ops").unwrap();
    let (ops, none, rule) = (text("ops"), text("none"), text("weekdays"));
    assert_eq!(
        PolicyContract::rule_addition(&env, &owner, &ops, &rule),
        Ok(addition("weekdays"))
    );
    assert_eq!(
        PolicyContract::rule_addition(&env, &stranger, &ops, &rule),
        Err(Error::Unauthorized)
    );
    assert_eq!(
        PolicyContract::rule_addition(&env, &owner, &none, &rule),
        Err(Error::NotFound)
    );
    assert_eq!(
        PolicyContract::rule_removal(&env, &owner, &ops, &text("r1")),
        Ok(removal("r1"))
    );
    assert_eq!(
        PolicyContract::rule_removal(&env, &stranger, &ops, &text("r1")),
        Err(Error::Unauthorized)
    );
}

#[test]
fn unheard_replies_change_no_rule() {
    let owner = account(1);
    let mut env = host(&[owner]);
    register(&mut env, owner, "ops").unwrap();
    env.actions.clear();
    let elsewhere = RuleRequest::Add { policy_id: text("dev"), rule: text("weekdays") };
    let same_words = RuleRequest::Add { policy_id: text("ops"), rule: text("r1") };
    for unheard in [
        None,
        reply(addition("weekends"), Ok(())),
        reply(elsewhere, Ok(())),
        reply(removal("weekdays"), Ok(())),
    ] {
        assert_eq!(reply_to(&unheard, &addition("weekdays")), Err(Error::RuleDenied));
        assert_eq!(add(&mut env, owner, "ops", unheard), Err(Error::RuleDenied));
    }
    for unheard in [None, reply(removal("r2"), Ok(())), reply(same_words, Ok(()))] {
        assert_eq!(remove(&mut env, owner, unheard), Err(Error::RuleDenied));
    }
    assert_eq!(env.actions.len(), 0);
}
