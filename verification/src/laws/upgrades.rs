//! Laws of upgrades.

use vstd::prelude::*;
use crate::env::{EnvView, LedgerView};
use crate::errors::Error;
use crate::upgrade::{
    authority_recorded,
    set_authority_outcome,
    upgrade_authorized,
    upgrade_query,
    Approval,
    ModuleKind,
    RegistryAnswer,
    RegistryQuery,
    UpgradeAuthority,
};
use crate::values::{Address, Digest};

verus! {

/// Once an authority is recorded, its admin and nobody else may record the next
/// one or ask the registry, and it is the recorded registry that is asked.
pub proof fn law_recorded_authority_rules(
    env: EnvView,
    authority: UpgradeAuthority,
    caller: Address,
    kind: ModuleKind,
    wasm_hash: Digest,
)
    ensures
        ({
            let ledger = authority_recorded(env, authority).ledger;
            &&& ledger.authority == Some(authority)
            &&& set_authority_outcome(ledger, caller) == if caller == authority.admin {
                Ok::<(), Error>(())
            } else {
                Err(Error::Unauthorized)
            }
            &&& upgrade_query(ledger, caller, kind, wasm_hash) == if caller == authority.admin {
                Ok::<RegistryQuery, Error>(
                    RegistryQuery { registry: authority.registry, kind, wasm_hash },
                )
            } else {
                Err(Error::Unauthorized)
            }
        }),
{
}

/// Both gates must pass: no upgrade is authorized without a recorded admin who
/// asks for it, nor without the approval of the recorded registry.
pub proof fn law_both_gates(
    ledger: LedgerView,
    caller: Address,
    kind: ModuleKind,
    wasm_hash: Digest,
    answer: RegistryAnswer,
)
    ensures
        upgrade_authorized(ledger, caller, kind, wasm_hash, answer) <==> {
            &&& ledger.authority matches Some(authority)
            &&& authority.admin == caller
            &&& answer.approval == Approval::Approved
            &&& answer.query.registry == authority.registry
            &&& answer.query.kind == kind
            &&& answer.query.wasm_hash == wasm_hash
        },
{
}

/// An approval is good for one code and one kind of contract only.
pub proof fn law_approval_is_specific(
    ledger: LedgerView,
    caller: Address,
    kind: ModuleKind,
    wasm_hash: Digest,
    other_kind: ModuleKind,
    other_hash: Digest,
    answer: RegistryAnswer,
)
    requires
        upgrade_authorized(ledger, caller, kind, wasm_hash, answer),
        other_kind != kind || other_hash != wasm_hash,
    ensures
        !upgrade_authorized(ledger, caller, other_kind, other_hash, answer),
{
}

} // verus!
