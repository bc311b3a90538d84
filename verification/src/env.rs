//! The environment of a call: the contract's ledger entries, the time, the
//! signers, and the actions that the call asks for.

use vstd::prelude::*;
use crate::allowances::{AllowanceView, AssetAllowance};
use crate::events::{Action, ActionView, Denial, Event, EventView, Reason};
use crate::policies::Policy;
use crate::rule_tree::{RuleNode, RuleTree};
use crate::table::Table;
use crate::upgrade::UpgradeAuthority;
use crate::values::{Address, Text};

verus! {

/// The ledger entries of the contract.
#[derive(Debug, PartialEq, Eq)]
pub struct Ledger {
    /// The counter that initialization sets up.
    pub count: Option<u32>,
    /// Who may upgrade the contract.
    pub authority: Option<UpgradeAuthority>,
    /// The policies, by id.
    pub policies: Table<Text, Policy>,
    /// The restricted recipients, each with the policy that listed it.
    pub blacklist: Table<Address, Text>,
    /// The restricted merchants, each with the policy that listed it.
    pub merchant_blacklist: Table<Address, Text>,
    /// The restricted spending categories, each with the policy that listed it.
    pub category_blacklist: Table<Text, Text>,
    /// The assets that each policy allows when its whitelist is on.
    pub asset_whitelist: Table<(Text, Address), bool>,
    /// The assets that each policy denies.
    pub asset_blacklist: Table<(Text, Address), ()>,
    /// Whether each policy's asset whitelist is on.
    pub asset_whitelist_enabled: Table<Text, bool>,
    /// The spending allowances, by policy and asset.
    pub allowances: Table<(Text, Address), AssetAllowance>,
    /// The composite rule of each policy.
    pub composite_rules: Table<Text, RuleTree>,
}

/// The view of a [`Ledger`].
#[verifier::ext_equal]
pub struct LedgerView {
    pub count: Option<u32>,
    pub authority: Option<UpgradeAuthority>,
    pub policies: Map<Seq<u8>, Policy>,
    pub blacklist: Map<Address, Seq<u8>>,
    pub merchant_blacklist: Map<Address, Seq<u8>>,
    pub category_blacklist: Map<Seq<u8>, Seq<u8>>,
    pub asset_whitelist: Map<(Seq<u8>, Address), bool>,
    pub asset_blacklist: Map<(Seq<u8>, Address), ()>,
    pub asset_whitelist_enabled: Map<Seq<u8>, bool>,
    pub allowances: Map<(Seq<u8>, Address), AllowanceView>,
    pub composite_rules: Map<Seq<u8>, Seq<RuleNode>>,
}

impl View for Ledger {
    type V = LedgerView;

    open spec fn view(&self) -> LedgerView {
        LedgerView {
            count: self.count,
            authority: self.authority,
            policies: self.policies@,
            blacklist: self.blacklist@,
            merchant_blacklist: self.merchant_blacklist@,
            category_blacklist: self.category_blacklist@,
            asset_whitelist: self.asset_whitelist@,
            asset_blacklist: self.asset_blacklist@,
            asset_whitelist_enabled: self.asset_whitelist_enabled@,
            allowances: self.allowances@,
            composite_rules: self.composite_rules@,
        }
    }
}

impl LedgerView {
    /// The ledger of a contract that has stored nothing yet.
    pub open spec fn empty() -> LedgerView {
        LedgerView {
            count: None,
            authority: None,
            policies: Map::empty(),
            blacklist: Map::empty(),
            merchant_blacklist: Map::empty(),
            category_blacklist: Map::empty(),
            asset_whitelist: Map::empty(),
            asset_blacklist: Map::empty(),
            asset_whitelist_enabled: Map::empty(),
            allowances: Map::empty(),
            composite_rules: Map::empty(),
        }
    }

    /// What holds of the entries in every state that the contract reaches:
    /// whatever is listed, allowed or ruled belongs to a registered policy,
    /// policies and categories have names, each allowance is stored under its own
    /// policy and asset with a limit and a spend that are not negative, and no
    /// composite rule is empty.
    pub open spec fn consistent(self) -> bool {
        &&& forall|id: Seq<u8>| #[trigger]
            self.policies.contains_key(id) ==> id.len() > 0
        &&& forall|a: Address| #[trigger]
            self.blacklist.contains_key(a) ==> self.policies.contains_key(self.blacklist[a])
        &&& forall|a: Address| #[trigger]
            self.merchant_blacklist.contains_key(a) ==> self.policies.contains_key(
                self.merchant_blacklist[a],
            )
        &&& forall|c: Seq<u8>| #[trigger]
            self.category_blacklist.contains_key(c) ==> c.len() > 0 && self.policies.contains_key(
                self.category_blacklist[c],
            )
        &&& forall|k: (Seq<u8>, Address)| #[trigger]
            self.asset_whitelist.contains_key(k) ==> self.policies.contains_key(k.0)
                && self.asset_whitelist[k]
        &&& forall|k: (Seq<u8>, Address)| #[trigger]
            self.asset_blacklist.contains_key(k) ==> self.policies.contains_key(k.0)
        &&& forall|id: Seq<u8>| #[trigger]
            self.asset_whitelist_enabled.contains_key(id) ==> self.policies.contains_key(id)
        &&& forall|k: (Seq<u8>, Address)| #[trigger]
            self.allowances.contains_key(k) ==> self.policies.contains_key(k.0)
                && self.allowances[k].policy_id == k.0 && self.allowances[k].asset == k.1
                && self.allowances[k].limit >= 0 && self.allowances[k].spent >= 0
        &&& forall|id: Seq<u8>| #[trigger]
            self.composite_rules.contains_key(id) ==> self.policies.contains_key(id)
                && self.composite_rules[id].len() > 0
    }
}

impl Ledger {
    /// The ledger of a contract that has stored nothing yet.
    pub fn new() -> (ledger: Ledger)
        ensures
            ledger@ == LedgerView::empty(),
    {
        Ledger {
            count: None,
            authority: None,
            policies: Table::new(),
            blacklist: Table::new(),
            merchant_blacklist: Table::new(),
            category_blacklist: Table::new(),
            asset_whitelist: Table::new(),
            asset_blacklist: Table::new(),
            asset_whitelist_enabled: Table::new(),
            allowances: Table::new(),
            composite_rules: Table::new(),
        }
    }
}

/// The environment of a call.
#[derive(Debug, PartialEq, Eq)]
pub struct Env {
    /// The entries that the contract has stored.
    pub ledger: Ledger,
    /// The time at which the current ledger was closed.
    pub timestamp: u64,
    /// The addresses that have authorized the running call.
    pub authorized: Vec<Address>,
    /// What the host has to do, in this order.
    pub actions: Vec<Action>,
}

/// The view of an [`Env`].
#[verifier::ext_equal]
pub struct EnvView {
    pub ledger: LedgerView,
    pub timestamp: u64,
    pub authorized: Set<Address>,
    pub actions: Seq<ActionView>,
}

impl View for Env {
    type V = EnvView;

    open spec fn view(&self) -> EnvView {
        EnvView {
            ledger: self.ledger@,
            timestamp: self.timestamp,
            authorized: self.authorized@.to_set(),
            actions: self.actions@.map_values(|action: Action| action@),
        }
    }
}

impl EnvView {
    /// The environment with `ledger` in place of its ledger.
    pub open spec fn with_ledger(self, ledger: LedgerView) -> EnvView {
        EnvView { ledger, ..self }
    }

    /// The environment with one more action to carry out.
    pub open spec fn act(self, action: ActionView) -> EnvView {
        EnvView { actions: self.actions.push(action), ..self }
    }

    /// The environment with one more event to publish.
    pub open spec fn publish(self, event: EventView) -> EnvView {
        self.act(ActionView::Publish(event))
    }

    /// The environment with a policy violation to publish, in both of its forms.
    pub open spec fn violation(self, policy_id: Seq<u8>, reason: Reason) -> EnvView {
        self.publish(EventView::Violation { policy_id, reason }).publish(
            EventView::PolicyViolation { policy_id, reason },
        )
    }

    /// The environment with what is published when a request under `policy_id`
    /// meets the given denial, if any.
    pub open spec fn after(self, policy_id: Seq<u8>, denial: Option<Denial>) -> EnvView {
        match denial {
            Some(Denial { reason: Some(reason), .. }) => self.violation(policy_id, reason),
            _ => self,
        }
    }
}

impl Env {
    /// The environment of a first call at the time `timestamp`, which nobody has
    /// authorized yet.
    pub fn new(timestamp: u64) -> (env: Env)
        ensures
            env@ == (EnvView {
                ledger: LedgerView::empty(),
                timestamp,
                authorized: Set::empty(),
                actions: Seq::empty(),
            }),
    {
        let env = Env {
            ledger: Ledger::new(),
            timestamp,
            authorized: Vec::new(),
            actions: Vec::new(),
        };
        assert(env@.authorized =~= Set::<Address>::empty());
        assert(env@.actions =~= Seq::<ActionView>::empty());
        env
    }

    /// Records that `address` has authorized the running call.
    pub fn authorize(&mut self, address: Address)
        ensures
            final(self)@ == (EnvView {
                authorized: old(self)@.authorized.insert(address),
                ..old(self)@
            }),
    {
        let ghost before = self.authorized@;
        self.authorized.push(address);
        proof {
            assert forall|a: Address|
                self.authorized@.to_set().contains(a) == before.to_set().insert(address).contains(
                    a,
                ) by {
                if a == address {
                    assert(self.authorized@[before.len() as int] == a);
                } else if before.contains(a) {
                    let i = choose|i: int| 0 <= i < before.len() && before[i] == a;
                    assert(self.authorized@[i] == a);
                }
            }
            assert(self.authorized@.to_set() =~= before.to_set().insert(address));
        }
    }

    /// Whether `address` has authorized the running call.
    pub fn is_authorized(&self, address: &Address) -> (authorized: bool)
        ensures
            authorized == self@.authorized.contains(*address),
    {
        let mut i: usize = 0;
        while i < self.authorized.len()
            invariant
                i <= self.authorized.len(),
                forall|j: int| 0 <= j < i ==> self.authorized@[j] != *address,
            decreases self.authorized.len() - i,
        {
            if self.authorized[i] == *address {
                assert(self.authorized@[i as int] == *address);
                return true;
            }
            i = i + 1;
        }
        false
    }

    /// Asks the host for one more action.
    pub fn act(&mut self, action: Action)
        ensures
            final(self)@ == old(self)@.act(action@),
    {
        let ghost before = self.actions@;
        self.actions.push(action);
        assert(self.actions@.map_values(|action: Action| action@) =~= before.map_values(
            |action: Action| action@,
        ).push(action@));
    }

    /// Asks the host to publish an event.
    pub fn publish(&mut self, event: Event)
        ensures
            final(self)@ == old(self)@.publish(event@),
    {
        self.act(Action::Publish(event));
    }
}

/// Publishes a policy violation with a stable reason, both as a tuple of topics
/// and in the schema shared by all contracts.
pub fn events_policy_violation(env: &mut Env, policy_id: &Text, reason: Reason)
    ensures
        final(env)@ == old(env)@.violation(policy_id@, reason),
{
    env.publish(Event::Violation { policy_id: policy_id.clone(), reason });
    env.publish(Event::PolicyViolation { policy_id: policy_id.clone(), reason });
}

/// Publishes the violation that goes with a denial, if one does.
pub fn publish_denial(env: &mut Env, policy_id: &Text, denial: Denial)
    ensures
        final(env)@ == old(env)@.after(policy_id@, Some(denial)),
{
    if let Some(reason) = denial.reason {
        events_policy_violation(env, policy_id, reason);
    }
}

} // verus!
