use astroid_policy::env::Env;
use astroid_policy::errors::Error;
use astroid_policy::events::{Action, Event};
use astroid_policy::policies::PolicyContract;
use astroid_policy::upgrade::{
    check, get_authority, perform, registry_query, set_authority, Approval, ModuleKind,
    RegistryAnswer, RegistryQuery, UpgradeAuthority,
};
use astroid_policy::values::{Address, AddressKind, Digest};

fn account(n: u128) -> Address {
    Address { kind: AddressKind::Account, high: 0, low: n }
}

const CODE: Digest = Digest { high: 3, low: 4 };

fn signed_by_all() -> Env {
    let mut env = Env::new(1_000);
    for n in 1..5 {
        env.authorize(account(n));
    }
    env
}

fn approved(registry: Address, kind: ModuleKind, wasm_hash: Digest) -> RegistryAnswer {
    RegistryAnswer {
        query: RegistryQuery { registry, kind, wasm_hash },
        approval: Approval::Approved,
    }
}

#[test]
fn authority_is_bootstrapped_then_rotated_by_the_admin() {
    let mut env = signed_by_all();
    assert_eq!(PolicyContract::get_upgrade_authority(&env), Err(Error::NotInitialized));
    assert_eq!(get_authority(&env), Err(Error::NotInitialized));
    assert_eq!(
        PolicyContract::set_upgrade_authority(&mut env, account(1), account(2), account(40)),
        Ok(())
    );
    assert_eq!(
        get_authority(&env),
        Ok(UpgradeAuthority { admin: account(2), registry: account(40) })
    );
    assert_eq!(
        env.actions,
        vec![
            Action::ExtendInstance,
            Action::Publish(Event::AuthorityRecorded {
                admin: account(2),
                registry: account(40)
            }),
        ]
    );
    assert_eq!(
        set_authority(&mut env, &account(1), &account(1), &account(41)),
        Err(Error::Unauthorized)
    );
    assert_eq!(env.actions.len(), 2);
    assert_eq!(set_authority(&mut env, &account(2), &account(3), &account(41)), Ok(()));
    assert_eq!(
        PolicyContract::get_upgrade_authority(&env),
        Ok(UpgradeAuthority { admin: account(3), registry: account(41) })
    );
    assert_eq!(
        set_authority(&mut env, &account(2), &account(2), &account(40)),
        Err(Error::Unauthorized)
    );
}

#[test]
fn upgrade_needs_both_gates() {
    let mut env = signed_by_all();
    let yes = approved(account(40), ModuleKind::Policy, CODE);
    assert_eq!(
        PolicyContract::upgrade(&mut env, account(2), CODE, yes),
        Err(Error::Unauthorized)
    );
    set_authority(&mut env, &account(1), &account(2), &account(40)).unwrap();
    env.actions.clear();
    assert_eq!(
        PolicyContract::upgrade(&mut env, account(1), CODE, yes),
        Err(Error::Unauthorized)
    );
    let no = RegistryAnswer { approval: Approval::Rejected, ..yes };
    assert_eq!(PolicyContract::upgrade(&mut env, account(2), CODE, no), Err(Error::Unauthorized));
    let silent = RegistryAnswer { approval: Approval::Unavailable, ..yes };
    assert_eq!(
        PolicyContract::upgrade(&mut env, account(2), CODE, silent),
        Err(Error::Unauthorized)
    );
    assert_eq!(env.actions.len(), 0);
    assert_eq!(PolicyContract::upgrade(&mut env, account(2), CODE, yes), Ok(()));
    assert_eq!(
        env.actions,
        vec![
            Action::ReplaceCode(CODE),
            Action::Publish(Event::UpgradeApplied {
                kind: ModuleKind::Policy,
                wasm_hash: CODE
            }),
        ]
    );
}

#[test]
fn approval_is_for_one_code_of_one_registry() {
    let mut env = signed_by_all();
    set_authority(&mut env, &account(1), &account(2), &account(40)).unwrap();
    let other = Digest { high: 3, low: 5 };
    let admin = account(2);
    let policy = ModuleKind::Policy;
    let answer = approved(account(40), policy, CODE);
    assert_eq!(check(&env, &admin, policy, &CODE, &answer), Ok(()));
    assert_eq!(check(&env, &admin, policy, &other, &answer), Err(Error::Unauthorized));
    assert_eq!(
        check(&env, &admin, ModuleKind::Budget, &CODE, &answer),
        Err(Error::Unauthorized)
    );
    let elsewhere = approved(account(41), policy, CODE);
    assert_eq!(check(&env, &admin, policy, &CODE, &elsewhere), Err(Error::Unauthorized));
    assert_eq!(perform(&mut env, &admin, policy, other, &answer), Err(Error::Unauthorized));
}

#[test]
fn only_the_admin_asks_the_registry() {
    let mut env = signed_by_all();
    let kind = ModuleKind::Treasury;
    assert_eq!(registry_query(&env, &account(2), kind, &CODE), Err(Error::Unauthorized));
    set_authority(&mut env, &account(1), &account(2), &account(40)).unwrap();
    assert_eq!(registry_query(&env, &account(1), kind, &CODE), Err(Error::Unauthorized));
    assert_eq!(
        registry_query(&env, &account(2), kind, &CODE),
        Ok(RegistryQuery { registry: account(40), kind, wasm_hash: CODE })
    );
}
