//! What a call makes known to the outside: events, and the other actions that
//! the host carries out once the call has returned.

use vstd::prelude::*;
use crate::errors::Error;
use crate::upgrade::ModuleKind;
use crate::values::{Address, Digest, Text};

verus! {

/// Whether `name` can be the name of an event topic or of a violation: at most
/// `limit` letters, digits and underscores.
pub open spec fn is_symbol(name: Seq<char>, limit: int) -> bool {
    &&& 0 < name.len() <= limit
    &&& forall|i: int| 0 <= i < name.len() ==> is_symbol_char(#[trigger] name[i])
}

/// Whether `c` is a letter, a digit or an underscore.
pub open spec fn is_symbol_char(c: char) -> bool {
    ('a' <= c && c <= 'z') || ('A' <= c && c <= 'Z') || ('0' <= c && c <= '9') || c == '_'
}

/// Why a request violates a policy.
#[derive(Clone, Copy, Debug, PartialEq, Eq, Structural)]
pub enum Reason {
    Disabled,
    Blacklisted,
    MerchantBlocked,
    Expired,
    AboveMax,
    BadRecipient,
    BadAsset,
    AssetBlacklisted,
    AssetNotWhitelisted,
    AllowanceExpired,
    AllowanceExceeded,
    CategoryRestricted,
    RuleDenied,
}

impl Reason {
    /// The stable name under which the reason is published.
    pub open spec fn spec_name(self) -> Seq<char> {
        match self {
            Reason::Disabled => "disabled"@,
            Reason::Blacklisted => "blacklisted"@,
            Reason::MerchantBlocked => "merchant_blocked"@,
            Reason::Expired => "expired"@,
            Reason::AboveMax => "above_max"@,
            Reason::BadRecipient => "bad_recipient"@,
            Reason::BadAsset => "bad_asset"@,
            Reason::AssetBlacklisted => "asset_blacklisted"@,
            Reason::AssetNotWhitelisted => "asset_not_whitelisted"@,
            Reason::AllowanceExpired => "allowance_expired"@,
            Reason::AllowanceExceeded => "allowance_exceeded"@,
            Reason::CategoryRestricted => "category_restricted"@,
            Reason::RuleDenied => "rule_denied"@,
        }
    }

    /// The stable name under which the reason is published. It is always a
    /// well-formed symbol.
    pub fn name(&self) -> (name: &'static str)
        ensures
            name@ == self.spec_name(),
            is_symbol(name@, 32),
    {
        proof {
            reveal_strlit("disabled");
            reveal_strlit("blacklisted");
            reveal_strlit("merchant_blocked");
            reveal_strlit("expired");
            reveal_strlit("above_max");
            reveal_strlit("bad_recipient");
            reveal_strlit("bad_asset");
            reveal_strlit("asset_blacklisted");
            reveal_strlit("asset_not_whitelisted");
            reveal_strlit("allowance_expired");
            reveal_strlit("allowance_exceeded");
            reveal_strlit("category_restricted");
            reveal_strlit("rule_denied");
        }
        match self {
            Reason::Disabled => "disabled",
            Reason::Blacklisted => "blacklisted",
            Reason::MerchantBlocked => "merchant_blocked",
            Reason::Expired => "expired",
            Reason::AboveMax => "above_max",
            Reason::BadRecipient => "bad_recipient",
            Reason::BadAsset => "bad_asset",
            Reason::AssetBlacklisted => "asset_blacklisted",
            Reason::AssetNotWhitelisted => "asset_not_whitelisted",
            Reason::AllowanceExpired => "allowance_expired",
            Reason::AllowanceExceeded => "allowance_exceeded",
            Reason::CategoryRestricted => "category_restricted",
            Reason::RuleDenied => "rule_denied",
        }
    }
}

/// A refusal: what the caller is answered, and the violation that is published,
/// if one is.
#[derive(Clone, Copy, Debug, PartialEq, Eq)]
pub struct Denial {
    pub error: Error,
    pub reason: Option<Reason>,
}

/// What a caller is answered whose request meets the given denial, if any.
pub open spec fn denied(denial: Option<Denial>) -> Result<(), Error> {
    match denial {
        Some(d) => Err(d.error),
        None => Ok(()),
    }
}

/// What happened to a policy.
#[derive(Clone, Copy, Debug, PartialEq, Eq, Structural)]
pub enum Topic {
    Registered,
    Rotated,
    AssetWhitelisted,
    AssetUnwhitelisted,
    AssetBlacklisted,
    AssetUnblacklisted,
    Blacklisted,
    Unblacklisted,
    MerchantBlacklisted,
    MerchantUnblacklisted,
    CategoryBlacklisted,
    CategoryUnblacklisted,
    AllowanceSet,
    AllowanceRemoved,
    AllowanceUsed,
    CompositeSet,
    CompositeCleared,
    RuleAdded,
    RuleRemoved,
}

impl Topic {
    /// The topic symbol that stands behind `policy` in the published event.
    pub open spec fn spec_name(self) -> Seq<char> {
        match self {
            Topic::Registered => "registd"@,
            Topic::Rotated => "rotated"@,
            Topic::AssetWhitelisted => "asset_add"@,
            Topic::AssetUnwhitelisted => "asset_rem"@,
            Topic::AssetBlacklisted => "ablk_add"@,
            Topic::AssetUnblacklisted => "ablk_rem"@,
            Topic::Blacklisted => "blk_add"@,
            Topic::Unblacklisted => "blk_rem"@,
            Topic::MerchantBlacklisted => "merch_add"@,
            Topic::MerchantUnblacklisted => "merch_rem"@,
            Topic::CategoryBlacklisted => "cat_add"@,
            Topic::CategoryUnblacklisted => "cat_rem"@,
            Topic::AllowanceSet => "allow_set"@,
            Topic::AllowanceRemoved => "allow_rem"@,
            Topic::AllowanceUsed => "allow_use"@,
            Topic::CompositeSet => "rule_set"@,
            Topic::CompositeCleared => "rule_clr"@,
            Topic::RuleAdded => "rule_add"@,
            Topic::RuleRemoved => "rule_rm"@,
        }
    }

    /// The topic symbol that stands behind `policy` in the published event. It
    /// is always a well-formed short symbol.
    pub fn name(&self) -> (name: &'static str)
        ensures
            name@ == self.spec_name(),
            is_symbol(name@, 9),
    {
        proof {
            reveal_strlit("registd");
            reveal_strlit("rotated");
            reveal_strlit("asset_add");
            reveal_strlit("asset_rem");
            reveal_strlit("ablk_add");
            reveal_strlit("ablk_rem");
            reveal_strlit("blk_add");
            reveal_strlit("blk_rem");
            reveal_strlit("merch_add");
            reveal_strlit("merch_rem");
            reveal_strlit("cat_add");
            reveal_strlit("cat_rem");
            reveal_strlit("allow_set");
            reveal_strlit("allow_rem");
            reveal_strlit("allow_use");
            reveal_strlit("rule_set");
            reveal_strlit("rule_clr");
            reveal_strlit("rule_add");
            reveal_strlit("rule_rm");
        }
        match self {
            Topic::Registered => "registd",
            Topic::Rotated => "rotated",
            Topic::AssetWhitelisted => "asset_add",
            Topic::AssetUnwhitelisted => "asset_rem",
            Topic::AssetBlacklisted => "ablk_add",
            Topic::AssetUnblacklisted => "ablk_rem",
            Topic::Blacklisted => "blk_add",
            Topic::Unblacklisted => "blk_rem",
            Topic::MerchantBlacklisted => "merch_add",
            Topic::MerchantUnblacklisted => "merch_rem",
            Topic::CategoryBlacklisted => "cat_add",
            Topic::CategoryUnblacklisted => "cat_rem",
            Topic::AllowanceSet => "allow_set",
            Topic::AllowanceRemoved => "allow_rem",
            Topic::AllowanceUsed => "allow_use",
            Topic::CompositeSet => "rule_set",
            Topic::CompositeCleared => "rule_clr",
            Topic::RuleAdded => "rule_add",
            Topic::RuleRemoved => "rule_rm",
        }
    }
}

/// What an event says beside the policy that it is about.
#[derive(Debug, PartialEq, Eq)]
pub enum Subject {
    /// Nothing more.
    Policy,
    /// The address or the asset that was listed or unlisted.
    Address(Address),
    /// The category or the rule that was listed or unlisted.
    Text(Text),
    /// The limit that an asset was given.
    Limit { asset: Address, limit: i128 },
    /// What was consumed of an asset's limit, and what is consumed in all.
    Usage { asset: Address, amount: i128, spent: i128 },
}

/// The view of a [`Subject`].
pub enum SubjectView {
    Policy,
    Address(Address),
    Text(Seq<u8>),
    Limit { asset: Address, limit: i128 },
    Usage { asset: Address, amount: i128, spent: i128 },
}

impl View for Subject {
    type V = SubjectView;

    open spec fn view(&self) -> SubjectView {
        match self {
            Subject::Policy => SubjectView::Policy,
            Subject::Address(address) => SubjectView::Address(*address),
            Subject::Text(text) => SubjectView::Text(text@),
            Subject::Limit { asset, limit } => SubjectView::Limit { asset: *asset, limit: *limit },
            Subject::Usage { asset, amount, spent } => SubjectView::Usage {
                asset: *asset,
                amount: *amount,
                spent: *spent,
            },
        }
    }
}

/// A published event.
#[derive(Debug, PartialEq, Eq)]
pub enum Event {
    /// Something happened to a policy.
    Policy { topic: Topic, policy_id: Text, subject: Subject },
    /// A request violated a policy, as a tuple of topics.
    Violation { policy_id: Text, reason: Reason },
    /// A request violated a policy, in the schema shared by all contracts.
    PolicyViolation { policy_id: Text, reason: Reason },
    /// The upgrade authority was recorded.
    AuthorityRecorded { admin: Address, registry: Address },
    /// The contract's code was replaced.
    UpgradeApplied { kind: ModuleKind, wasm_hash: Digest },
}

/// The view of an [`Event`].
pub enum EventView {
    Policy { topic: Topic, policy_id: Seq<u8>, subject: SubjectView },
    Violation { policy_id: Seq<u8>, reason: Reason },
    PolicyViolation { policy_id: Seq<u8>, reason: Reason },
    AuthorityRecorded { admin: Address, registry: Address },
    UpgradeApplied { kind: ModuleKind, wasm_hash: Digest },
}

impl View for Event {
    type V = EventView;

    open spec fn view(&self) -> EventView {
        match self {
            Event::Policy { topic, policy_id, subject } => EventView::Policy {
                topic: *topic,
                policy_id: policy_id@,
                subject: subject@,
            },
            Event::Violation { policy_id, reason } => EventView::Violation {
                policy_id: policy_id@,
                reason: *reason,
            },
            Event::PolicyViolation { policy_id, reason } => EventView::PolicyViolation {
                policy_id: policy_id@,
                reason: *reason,
            },
            Event::AuthorityRecorded { admin, registry } => EventView::AuthorityRecorded {
                admin: *admin,
                registry: *registry,
            },
            Event::UpgradeApplied { kind, wasm_hash } => EventView::UpgradeApplied {
                kind: *kind,
                wasm_hash: *wasm_hash,
            },
        }
    }
}

/// Something that the host does on behalf of a call.
#[derive(Debug, PartialEq, Eq)]
pub enum Action {
    /// Publish the event.
    Publish(Event),
    /// Extend the time that the contract instance stays on the ledger.
    ExtendInstance,
    /// Run the code with this digest from the next call on.
    ReplaceCode(Digest),
}

/// The view of an [`Action`].
pub enum ActionView {
    Publish(EventView),
    ExtendInstance,
    ReplaceCode(Digest),
}

impl View for Action {
    type V = ActionView;

    open spec fn view(&self) -> ActionView {
        match self {
            Action::Publish(event) => ActionView::Publish(event@),
            Action::ExtendInstance => ActionView::ExtendInstance,
            Action::ReplaceCode(wasm_hash) => ActionView::ReplaceCode(*wasm_hash),
        }
    }
}

} // verus!
