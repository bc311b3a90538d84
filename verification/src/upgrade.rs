//! Upgrades of the contract's code, gated by a registry.
//!
//! Two gates must pass: the caller must be the recorded upgrade admin, and the
//! registry must approve the new code for this kind of contract. Anything else is
//! refused as unauthorized, and the contract keeps running its current code.

use vstd::prelude::*;
use crate::env::{Env, EnvView, LedgerView};
use crate::errors::Error;
use crate::events::{Action, ActionView, Event, EventView};
use crate::policies::PolicyContract;
use crate::values::{Address, Digest};

verus! {

/// The kinds of contract that the registry approves code for.
#[derive(Clone, Copy, Debug, PartialEq, Eq, Structural)]
pub enum ModuleKind {
    Registry,
    Treasury,
    Policy,
    Budget,
}

/// Who may upgrade a contract, and which registry authorizes the new code.
#[derive(Clone, Copy, Debug, PartialEq, Eq, Structural)]
pub struct UpgradeAuthority {
    /// The only address allowed to request an upgrade.
    pub admin: Address,
    /// The registry consulted for the approved implementations.
    pub registry: Address,
}

/// The question put to a registry: is the code `wasm_hash` approved for contracts
/// of this kind?
#[derive(Clone, Copy, Debug, PartialEq, Eq, Structural)]
pub struct RegistryQuery {
    /// The registry that is asked.
    pub registry: Address,
    pub kind: ModuleKind,
    pub wasm_hash: Digest,
}

/// What came of asking a registry.
#[derive(Clone, Copy, Debug, PartialEq, Eq, Structural)]
pub enum Approval {
    /// The registry approves the code.
    Approved,
    /// The registry does not approve the code.
    Rejected,
    /// The registry gave no answer, or none that can be read.
    Unavailable,
}

/// A registry's answer to a question.
#[derive(Clone, Copy, Debug, PartialEq, Eq, Structural)]
pub struct RegistryAnswer {
    pub query: RegistryQuery,
    pub approval: Approval,
}

/// What recording an upgrade authority is answered: the first one can be recorded
/// by anyone, the next ones by the current admin.
pub open spec fn set_authority_outcome(ledger: LedgerView, caller: Address) -> Result<(), Error> {
    match ledger.authority {
        Some(current) => if current.admin == caller {
            Ok(())
        } else {
            Err(Error::Unauthorized)
        },
        None => Ok(()),
    }
}

/// The environment after an upgrade authority was recorded.
pub open spec fn authority_recorded(env: EnvView, authority: UpgradeAuthority) -> EnvView {
    env.with_ledger(LedgerView { authority: Some(authority), ..env.ledger }).act(
        ActionView::ExtendInstance,
    ).publish(
        EventView::AuthorityRecorded { admin: authority.admin, registry: authority.registry },
    )
}

/// The question that decides whether `caller` may upgrade to `wasm_hash`: only the
/// recorded admin may ask, and the recorded registry is asked.
pub open spec fn upgrade_query(
    ledger: LedgerView,
    caller: Address,
    kind: ModuleKind,
    wasm_hash: Digest,
) -> Result<RegistryQuery, Error> {
    match ledger.authority {
        Some(authority) => if authority.admin == caller {
            Ok(RegistryQuery { registry: authority.registry, kind, wasm_hash })
        } else {
            Err(Error::Unauthorized)
        },
        None => Err(Error::Unauthorized),
    }
}

/// Whether an upgrade is authorized: `caller` is the recorded admin, and the
/// recorded registry has approved this very code for this very kind.
pub open spec fn upgrade_authorized(
    ledger: LedgerView,
    caller: Address,
    kind: ModuleKind,
    wasm_hash: Digest,
    answer: RegistryAnswer,
) -> bool {
    &&& upgrade_query(ledger, caller, kind, wasm_hash) == Ok::<RegistryQuery, Error>(answer.query)
    &&& answer.approval == Approval::Approved
}

/// The environment after the contract's code was replaced.
pub open spec fn code_replaced(env: EnvView, kind: ModuleKind, wasm_hash: Digest) -> EnvView {
    env.act(ActionView::ReplaceCode(wasm_hash)).publish(
        EventView::UpgradeApplied { kind, wasm_hash },
    )
}

/// Records who may upgrade the contract and which registry authorizes the new
/// code. The first call bootstraps the record; afterwards only the current admin
/// may rotate it.
pub fn set_authority(
    env: &mut Env,
    caller: &Address,
    admin: &Address,
    registry: &Address,
) -> (outcome: Result<(), Error>)
    requires
        old(env)@.authorized.contains(*caller),
    ensures
        outcome == set_authority_outcome(old(env)@.ledger, *caller),
        outcome is Err ==> final(env)@ == old(env)@,
        outcome is Ok ==> final(env)@ == authority_recorded(
            old(env)@,
            UpgradeAuthority { admin: *admin, registry: *registry },
        ),
        old(env)@.ledger.consistent() ==> final(env)@.ledger.consistent(),
{
    if let Some(current) = stored(env) {
        if current.admin != *caller {
            return Err(Error::Unauthorized);
        }
    }
    env.ledger.authority = Some(UpgradeAuthority { admin: *admin, registry: *registry });
    env.act(Action::ExtendInstance);
    env.publish(Event::AuthorityRecorded { admin: *admin, registry: *registry });
    Ok(())
}

/// The recorded upgrade authority.
pub fn get_authority(env: &Env) -> (authority: Result<UpgradeAuthority, Error>)
    ensures
        authority == match env@.ledger.authority {
            Some(recorded) => Ok::<UpgradeAuthority, Error>(recorded),
            None => Err(Error::NotInitialized),
        },
{
    match stored(env) {
        Some(authority) => Ok(authority),
        None => Err(Error::NotInitialized),
    }
}

/// The question to put to the registry before `caller` may upgrade to
/// `wasm_hash`. It is put only for the recorded admin.
pub fn registry_query(
    env: &Env,
    caller: &Address,
    kind: ModuleKind,
    wasm_hash: &Digest,
) -> (query: Result<RegistryQuery, Error>)
    requires
        env@.authorized.contains(*caller),
    ensures
        query == upgrade_query(env@.ledger, *caller, kind, *wasm_hash),
{
    match stored(env) {
        Some(authority) => if authority.admin == *caller {
            Ok(RegistryQuery { registry: authority.registry, kind, wasm_hash: *wasm_hash })
        } else {
            Err(Error::Unauthorized)
        },
        None => Err(Error::Unauthorized),
    }
}

/// Authorizes an upgrade without performing it. A registry that cannot be heard
/// authorizes nothing, nor does the answer to another question.
pub fn check(
    env: &Env,
    caller: &Address,
    kind: ModuleKind,
    wasm_hash: &Digest,
    answer: &RegistryAnswer,
) -> (outcome: Result<(), Error>)
    requires
        env@.authorized.contains(*caller),
    ensures
        outcome == if upgrade_authorized(env@.ledger, *caller, kind, *wasm_hash, *answer) {
            Ok::<(), Error>(())
        } else {
            Err(Error::Unauthorized)
        },
{
    let query = registry_query(env, caller, kind, wasm_hash)?;
    if query != answer.query {
        return Err(Error::Unauthorized);
    }
    match answer.approval {
        Approval::Approved => Ok(()),
        Approval::Rejected => Err(Error::Unauthorized),
        Approval::Unavailable => Err(Error::Unauthorized),
    }
}

/// Authorizes an upgrade and then has the host perform it. The new code runs from
/// the next call on.
pub fn perform(
    env: &mut Env,
    caller: &Address,
    kind: ModuleKind,
    wasm_hash: Digest,
    answer: &RegistryAnswer,
) -> (outcome: Result<(), Error>)
    requires
        old(env)@.authorized.contains(*caller),
    ensures
        outcome == if upgrade_authorized(old(env)@.ledger, *caller, kind, wasm_hash, *answer) {
            Ok::<(), Error>(())
        } else {
            Err(Error::Unauthorized)
        },
        outcome is Err ==> final(env)@ == old(env)@,
        outcome is Ok ==> final(env)@ == code_replaced(old(env)@, kind, wasm_hash),
{
    check(env, caller, kind, &wasm_hash, answer)?;
    env.act(Action::ReplaceCode(wasm_hash));
    env.publish(Event::UpgradeApplied { kind, wasm_hash });
    Ok(())
}

fn stored(env: &Env) -> (authority: Option<UpgradeAuthority>)
    ensures
        authority == env@.ledger.authority,
{
    env.ledger.authority
}

impl PolicyContract {
    /// Records who may upgrade the contract and which registry authorizes the new
    /// code.
    pub fn set_upgrade_authority(
        env: &mut Env,
        caller: Address,
        admin: Address,
        registry: Address,
    ) -> (outcome: Result<(), Error>)
        requires
            old(env)@.authorized.contains(caller),
        ensures
            outcome == set_authority_outcome(old(env)@.ledger, caller),
            outcome is Err ==> final(env)@ == old(env)@,
            outcome is Ok ==> final(env)@ == authority_recorded(
                old(env)@,
                UpgradeAuthority { admin, registry },
            ),
            old(env)@.ledger.consistent() ==> final(env)@.ledger.consistent(),
    {
        set_authority(env, &caller, &admin, &registry)
    }

    /// The recorded upgrade authority.
    pub fn get_upgrade_authority(env: &Env) -> (authority: Result<UpgradeAuthority, Error>)
        ensures
            authority == match env@.ledger.authority {
                Some(recorded) => Ok::<UpgradeAuthority, Error>(recorded),
                None => Err(Error::NotInitialized),
            },
    {
        get_authority(env)
    }

    /// Replaces the contract's code by `wasm_hash`, if `caller` is the recorded
    /// admin and the registry approves the code for policy contracts.
    pub fn upgrade(
        env: &mut Env,
        caller: Address,
        wasm_hash: Digest,
        answer: RegistryAnswer,
    ) -> (outcome: Result<(), Error>)
        requires
            old(env)@.authorized.contains(caller),
        ensures
            outcome == if upgrade_authorized(
                old(env)@.ledger,
                caller,
                ModuleKind::Policy,
                wasm_hash,
                answer,
            ) {
                Ok::<(), Error>(())
            } else {
                Err(Error::Unauthorized)
            },
            outcome is Err ==> final(env)@ == old(env)@,
            outcome is Ok ==> final(env)@ == code_replaced(
                old(env)@,
                ModuleKind::Policy,
                wasm_hash,
            ),
    {
        perform(env, &caller, ModuleKind::Policy, wasm_hash, &answer)
    }
}

} // verus!
