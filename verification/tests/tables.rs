use astroid_policy::events::{Reason, Topic};
use astroid_policy::table::{Key, Table};
use astroid_policy::values::{Address, AddressKind, Text};

fn account(n: u128) -> Address {
    Address { kind: AddressKind::Account, high: 0, low: n }
}

fn text(s: &str) -> Text {
    Text::new(s.as_bytes().to_vec())
}

#[test]
fn texts_compare_by_bytes() {
    assert!(text("abc").same(&text("abc")));
    assert!(!text("abc").same(&text("abd")));
    assert!(!text("abc").same(&text("ab")));
    assert!(text("").same(&text("")));
    assert!(text("").is_empty());
    assert!(!text("a").is_empty());
    assert!(Text::new(vec![0xff, 0]).same(&Text::new(vec![0xff, 0])));
    assert_eq!(text("abc").clone(), text("abc"));
}

#[test]
fn addresses_compare_by_kind_and_key() {
    let one = account(7);
    assert!(one.same(&account(7)));
    assert!(!one.same(&account(8)));
    assert!(!one.same(&Address { high: 1, ..one }));
    assert!(!one.same(&Address { kind: AddressKind::Contract, ..one }));
    assert!((text("a"), one).same(&(text("a"), one)));
    assert!(!(text("a"), one).same(&(text("b"), one)));
    assert!(!(text("a"), one).same(&(text("a"), account(8))));
}

#[test]
fn table_set_get_remove() {
    let mut table: Table<Address, Text> = Table::new();
    assert!(!table.has(&account(1)));
    table.set(account(1), text("one"));
    table.set(account(2), text("two"));
    assert_eq!(table.get(&account(1)), Some(&text("one")));
    table.set(account(1), text("uno"));
    assert_eq!(table.get(&account(1)), Some(&text("uno")));
    assert_eq!(table.entries.len(), 2);
    table.remove(&account(1));
    assert_eq!(table.get(&account(1)), None);
    assert_eq!(table.get(&account(2)), Some(&text("two")));
    table.remove(&account(1));
    assert_eq!(table.entries.len(), 1);
}

#[test]
fn repeated_keys_are_removed_together() {
    let mut table: Table<Address, bool> = Table::new();
    table.entries = vec![(account(1), true), (account(2), false), (account(1), false)];
    assert_eq!(table.get(&account(1)), Some(&true));
    table.remove(&account(1));
    assert!(!table.has(&account(1)));
    assert!(table.has(&account(2)));
}

#[test]
fn names_of_reasons_and_topics() {
    assert_eq!(Reason::Disabled.name(), "disabled");
    assert_eq!(Reason::Blacklisted.name(), "blacklisted");
    assert_eq!(Reason::MerchantBlocked.name(), "merchant_blocked");
    assert_eq!(Reason::Expired.name(), "expired");
    assert_eq!(Reason::AboveMax.name(), "above_max");
    assert_eq!(Reason::BadRecipient.name(), "bad_recipient");
    assert_eq!(Reason::BadAsset.name(), "bad_asset");
    assert_eq!(Reason::AssetBlacklisted.name(), "asset_blacklisted");
    assert_eq!(Reason::AssetNotWhitelisted.name(), "asset_not_whitelisted");
    assert_eq!(Reason::AllowanceExpired.name(), "allowance_expired");
    assert_eq!(Reason::AllowanceExceeded.name(), "allowance_exceeded");
    assert_eq!(Reason::CategoryRestricted.name(), "category_restricted");
    assert_eq!(Reason::RuleDenied.name(), "rule_denied");
    assert_eq!(Topic::Registered.name(), "registd");
    assert_eq!(Topic::Blacklisted.name(), "blk_add");
    assert_eq!(Topic::AssetUnwhitelisted.name(), "asset_rem");
    assert_eq!(Topic::AllowanceUsed.name(), "allow_use");
    assert_eq!(Topic::RuleRemoved.name(), "rule_rm");
}

#[test]
fn reason_names_are_distinct() {
    let names = [
        Reason::Disabled.name(),
        Reason::Blacklisted.name(),
        Reason::MerchantBlocked.name(),
        Reason::Expired.name(),
        Reason::AboveMax.name(),
        Reason::BadRecipient.name(),
        Reason::BadAsset.name(),
        Reason::AssetBlacklisted.name(),
        Reason::AssetNotWhitelisted.name(),
        Reason::AllowanceExpired.name(),
        Reason::AllowanceExceeded.name(),
        Reason::CategoryRestricted.name(),
        Reason::RuleDenied.name(),
    ];
    for (i, one) in names.iter().enumerate() {
        for other in &names[i + 1..] {
            assert_ne!(one, other);
        }
    }
}
