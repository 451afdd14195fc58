//! A lightweight testing harness for a deterministic ledger: named test
//! users and packages with a current selection, a facade that turns
//! high-level calls into executed ledger transactions, and a state walker
//! that finds the vaults reachable from a component and reads their
//! balances.

pub mod env;
pub mod errors;
pub mod ledger;
pub mod receipt;
pub mod registry;
pub mod walker;

pub use env::TestEnv;
pub use errors::EnvError;
pub use receipt::Receipt;
pub use registry::{PackageRegistry, User, UserRegistry};
pub use walker::{balance_of, dedup_balances, VaultSnapshot};
