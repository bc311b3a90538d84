# astroid_policy

Spending policies for an on-chain treasury. A policy says whether a transfer of an
amount of an asset to a recipient may be made right now; owners register policies,
list recipients, merchants, categories and assets, set per-asset allowances and
attach composite rules.

- `src/` is the library, verified with Verus. `env` holds what a call reads and
  writes; `policies`, `restrictions`, `assets`, `allowances`, `composite`,
  `rule_tree`, `rules`, `transfer` and `upgrade` hold the contract; `table` is the
  key-value table behind the ledger entries; `laws` holds what is proved across
  calls.
- `tests/` runs the library.
- `app/` puts it on a Soroban host: it reads and writes ledger entries, has callers
  authenticated, asks the rule book and the upgrade registry, and publishes events.

Conditional rules are kept and evaluated outside the library, by a rule book. The
library says when the rule book is asked and what it is asked (`transfer::rule_query`,
`rules`), and decides on its answers; without an answer to that very question it
denies. Where the rule book lives is up to the deployment: `app/` reaches it as a
contract of its own.

A call never traps: that the caller has signed is a precondition, `Env::authorized`,
which the host establishes before the library is called.
