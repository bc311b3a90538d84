//! Laws of the calls on upgrades.

use vstd::prelude::*;
use crate::env::Env;
use crate::errors::Error;
use crate::events::{Action, ActionView, EventView};
use crate::laws::calls::{
    asks_for,
    keeps_all_but,
    leaves_alone,
    lemma_same_view,
    lemma_view,
    Part,
};
use crate::policies::{Policy, PolicyContract};
use crate::upgrade::{
    check,
    get_authority,
    perform,
    registry_query,
    set_authority,
    ModuleKind,
    RegistryAnswer,
    RegistryQuery,
    UpgradeAuthority,
};
use crate::values::{Address, Digest};

verus! {

/// The first authority is recorded for anyone, a later one for the current admin only;
/// exactly the admin and the registry that were asked for are recorded.
pub proof fn law_set_upgrade_authority(
    env: &mut Env,
    caller: Address,
    admin: Address,
    registry: Address,
    outcome: Result<(), Error>,
)
    requires
        call_ensures(
            PolicyContract::set_upgrade_authority,
            (env, caller, admin, registry),
            outcome,
        ),
    ensures
        outcome == if old(env).ledger.authority is Some
            && old(env).ledger.authority->0.admin != caller {
            Err::<(), Error>(Error::Unauthorized)
        } else {
            Ok(())
        },
        outcome is Err ==> leaves_alone(*old(env), *final(env)),
        outcome is Ok ==> ({
            &&& final(env).ledger.authority == Some(UpgradeAuthority { admin, registry })
            &&& keeps_all_but(Part::Authority, *old(env), *final(env))
            &&& asks_for(
                seq![
                    ActionView::ExtendInstance,
                    ActionView::Publish(EventView::AuthorityRecorded { admin, registry }),
                ],
                *old(env),
                *final(env),
            )
        }),
{
    if outcome is Err {
        lemma_same_view(*old(env), *final(env));
    } else {
        lemma_view(
            *old(env),
            *final(env),
            seq![
                ActionView::ExtendInstance,
                ActionView::Publish(EventView::AuthorityRecorded { admin, registry }),
            ],
        );
    }
}

/// `set_authority` records an authority as `set_upgrade_authority` does.
pub proof fn law_set_authority(
    env: &mut Env,
    caller: Address,
    admin: Address,
    registry: Address,
    outcome: Result<(), Error>,
)
    requires
        call_ensures(
            set_authority,
            (env, &caller, &admin, &registry),
            outcome,
        ),
    ensures
        outcome == if old(env).ledger.authority is Some
            && old(env).ledger.authority->0.admin != caller {
            Err::<(), Error>(Error::Unauthorized)
        } else {
            Ok(())
        },
        outcome is Err ==> leaves_alone(*old(env), *final(env)),
        outcome is Ok ==> ({
            &&& final(env).ledger.authority == Some(UpgradeAuthority { admin, registry })
            &&& keeps_all_but(Part::Authority, *old(env), *final(env))
            &&& asks_for(
                seq![
                    ActionView::ExtendInstance,
                    ActionView::Publish(EventView::AuthorityRecorded { admin, registry }),
                ],
                *old(env),
                *final(env),
            )
        }),
{
    if outcome is Err {
        lemma_same_view(*old(env), *final(env));
    } else {
        lemma_view(
            *old(env),
            *final(env),
            seq![
                ActionView::ExtendInstance,
                ActionView::Publish(EventView::AuthorityRecorded { admin, registry }),
            ],
        );
    }
}

/// The authority is read as it is recorded.
pub proof fn law_get_authority(
    env: Env,
    free: Result<UpgradeAuthority, Error>,
    entry: Result<UpgradeAuthority, Error>,
)
    requires
        call_ensures(get_authority, (&env,), free),
        call_ensures(PolicyContract::get_upgrade_authority, (&env,), entry),
    ensures
        free == entry,
        env.ledger.authority matches Some(recorded) ==> free == Ok::<UpgradeAuthority, Error>(
            recorded,
        ),
        env.ledger.authority is None ==> free == Err::<UpgradeAuthority, Error>(
            Error::NotInitialized,
        ),
{
}

/// Whether the recorded admin asks, and the recorded registry has approved this code
/// for this kind of contract.
pub open spec fn is_approved(
    authority: Option<UpgradeAuthority>,
    caller: Address,
    kind: ModuleKind,
    wasm_hash: Digest,
    answer: RegistryAnswer,
) -> bool {
    &&& authority is Some
    &&& caller == authority->0.admin
    &&& answer.approval is Approved
    &&& answer.query.registry == authority->0.registry
    &&& answer.query.kind == kind
    &&& answer.query.wasm_hash == wasm_hash
}

/// The registry is asked for the recorded admin only, and it is the recorded one that
/// is asked about exactly this kind and this code; an upgrade is authorized if and
/// only if it approves.
pub proof fn law_check(
    env: Env,
    caller: Address,
    kind: ModuleKind,
    wasm_hash: Digest,
    answer: RegistryAnswer,
    query: Result<RegistryQuery, Error>,
    outcome: Result<(), Error>,
)
    requires
        call_ensures(registry_query, (&env, &caller, kind, &wasm_hash), query),
        call_ensures(check, (&env, &caller, kind, &wasm_hash, &answer), outcome),
    ensures
        query is Ok <==> env.ledger.authority is Some && env.ledger.authority->0.admin == caller,
        query matches Ok(q) ==> q.registry == env.ledger.authority->0.registry && q.kind == kind
            && q.wasm_hash == wasm_hash,
        query matches Err(error) ==> error == Error::Unauthorized,
        outcome is Ok <==> is_approved(env.ledger.authority, caller, kind, wasm_hash, answer),
        outcome matches Err(error) ==> error == Error::Unauthorized,
        outcome is Ok ==> query == Ok::<RegistryQuery, Error>(answer.query),
{
}

/// The host is asked to run exactly the code that the registry approved, once, and for
/// nothing else but to make the upgrade known; without approval it is asked for
/// nothing.
pub proof fn law_perform(
    env: &mut Env,
    caller: Address,
    kind: ModuleKind,
    wasm_hash: Digest,
    answer: RegistryAnswer,
    outcome: Result<(), Error>,
)
    requires
        call_ensures(perform, (env, &caller, kind, wasm_hash, &answer), outcome),
    ensures
        outcome is Ok <==> is_approved(
            old(env).ledger.authority,
            caller,
            kind,
            wasm_hash,
            answer,
        ),
        outcome matches Err(error) ==> error == Error::Unauthorized,
        outcome is Err ==> leaves_alone(*old(env), *final(env)),
        outcome is Ok ==> ({
            let n = old(env).actions@.len() as int;
            &&& keeps_all_but(Part::Nothing, *old(env), *final(env))
            &&& asks_for(
                seq![
                    ActionView::ReplaceCode(wasm_hash),
                    ActionView::Publish(EventView::UpgradeApplied { kind: kind, wasm_hash }),
                ],
                *old(env),
                *final(env),
            )
            &&& final(env).actions@[n] == Action::ReplaceCode(wasm_hash)
        }),
        forall|i: int|
            old(env).actions@.len() <= i < final(env).actions@.len() ==> (
            #[trigger] final(env).actions@[i] matches Action::ReplaceCode(h) ==> i
                == old(env).actions@.len() && answer.approval is Approved && answer.query.wasm_hash
                == h),
{
    if outcome is Err {
        lemma_same_view(*old(env), *final(env));
    } else {
        let more = seq![
            ActionView::ReplaceCode(wasm_hash),
            ActionView::Publish(EventView::UpgradeApplied { kind: kind, wasm_hash }),
        ];
        lemma_view(*old(env), *final(env), more);
        let n = old(env).actions@.len() as int;
        assert(final(env).actions@[n + 0]@ == more[0]);
        assert(final(env).actions@[n + 1]@ == more[1]);
    }
}

/// An upgrade of this contract asks the host to run exactly the code that the registry
/// approved for policy contracts.
pub proof fn law_upgrade(
    env: &mut Env,
    caller: Address,
    wasm_hash: Digest,
    answer: RegistryAnswer,
    outcome: Result<(), Error>,
)
    requires
        call_ensures(PolicyContract::upgrade, (env, caller, wasm_hash, answer), outcome),
    ensures
        outcome is Ok <==> is_approved(
            old(env).ledger.authority,
            caller,
            ModuleKind::Policy,
            wasm_hash,
            answer,
        ),
        outcome matches Err(error) ==> error == Error::Unauthorized,
        outcome is Err ==> leaves_alone(*old(env), *final(env)),
        outcome is Ok ==> ({
            let n = old(env).actions@.len() as int;
            &&& keeps_all_but(Part::Nothing, *old(env), *final(env))
            &&& asks_for(
                seq![
                    ActionView::ReplaceCode(wasm_hash),
                    ActionView::Publish(
                        EventView::UpgradeApplied { kind: ModuleKind::Policy, wasm_hash },
                    ),
                ],
                *old(env),
                *final(env),
            )
            &&& final(env).actions@[n] == Action::ReplaceCode(wasm_hash)
        }),
        forall|i: int|
            old(env).actions@.len() <= i < final(env).actions@.len() ==> (
            #[trigger] final(env).actions@[i] matches Action::ReplaceCode(h) ==> i
                == old(env).actions@.len() && answer.approval is Approved && answer.query.wasm_hash
                == h),
{
    if outcome is Err {
        lemma_same_view(*old(env), *final(env));
    } else {
        let more = seq![
            ActionView::ReplaceCode(wasm_hash),
            ActionView::Publish(EventView::UpgradeApplied { kind: ModuleKind::Policy, wasm_hash }),
        ];
        lemma_view(*old(env), *final(env), more);
        let n = old(env).actions@.len() as int;
        assert(final(env).actions@[n + 0]@ == more[0]);
        assert(final(env).actions@[n + 1]@ == more[1]);
    }
}

} // verus!
