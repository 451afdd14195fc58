//! The test environment: registries, context selection and the
//! transaction facade.
//!
//! Every facade operation resolves its acting identity — and, for
//! function calls, its target package — from the current selections,
//! builds the operation's instruction sequence with a trailing sweep that
//! deposits all resulting resources into an account, and submits it to
//! the ledger under the acting user's signature badge. Each submission
//! carries the nonce counter's value as read before the call and consumes
//! exactly one nonce — never zero, never two — so the nonces of any two
//! submitted transactions are strictly ordered and a transaction can
//! never be replayed under an old nonce.
//!
//! A missing user, package or name is a test-author mistake and is
//! reported as an [`EnvError`] without touching the ledger. Whatever
//! happens *inside* an executed transaction — a failed authorization, an
//! insufficient balance, a panic in called code — is never turned into an
//! [`EnvError`]: it comes back inside the [`Receipt`] for the test to
//! assert on.

use vstd::prelude::*;

use radix_common::math::Decimal;
use radix_common::types::ComponentAddress;
use radix_common::types::PackageAddress;
use radix_common::types::ResourceAddress;
use radix_engine::transaction::TransactionReceipt;
use radix_engine_interface::blueprints::package::PackageDefinition;
use radix_substate_store_impls::memory_db::InMemorySubstateDatabase;

use crate::errors::EnvError;
use crate::ledger::args_decodable;
use crate::ledger::build_balance_manifest;
use crate::ledger::build_call_function_manifest;
use crate::ledger::build_call_method_auth_manifest;
use crate::ledger::build_call_method_manifest;
use crate::ledger::build_create_token_manifest;
use crate::ledger::build_fund_account_manifest;
use crate::ledger::build_publish_manifest;
use crate::ledger::build_transfer_manifest;
use crate::ledger::component_node_bytes;
use crate::ledger::decimal_zero;
use crate::ledger::derive_account_key;
use crate::ledger::ledger_execute;
use crate::ledger::ledger_genesis;
use crate::ledger::receipt_new_components;
use crate::ledger::receipt_new_packages;
use crate::ledger::receipt_new_resources;
use crate::ledger::receipt_outcome;
use crate::ledger::receipt_outputs;
use crate::receipt::Receipt;
use crate::registry::PackageRegistry;
use crate::registry::User;
use crate::registry::UserRegistry;
use crate::walker::balance_of;
use crate::walker::collect_vault_readings;
use crate::walker::dedup_balances;
use crate::walker::distinct_resources;
use crate::walker::VaultSnapshot;

verus! {

/// A test environment: an in-memory ledger with its genesis committed,
/// the identity and package registries, and the bookkeeping that
/// transaction submission needs.
pub struct TestEnv {
    db: InMemorySubstateDatabase,
    trace: bool,
    next_key: u64,
    next_nonce: u32,
    users: UserRegistry,
    packages: PackageRegistry,
}

/// Moves what one executed transaction left behind into the harness's
/// own receipt.
fn summarize_receipt(raw: &TransactionReceipt) -> Receipt {
    Receipt {
        result: receipt_outcome(raw),
        new_component_addresses: receipt_new_components(raw),
        new_resource_addresses: receipt_new_resources(raw),
        new_package_addresses: receipt_new_packages(raw),
        outputs: receipt_outputs(raw),
    }
}

impl TestEnv {
    /// The mapping from registered user names to users.
    pub closed spec fn user_map(self) -> Map<Seq<char>, User> {
        self.users.users()
    }

    /// The currently selected user, if any.
    pub closed spec fn current_user(self) -> Option<User> {
        self.users.current_user()
    }

    /// The mapping from registered package names to addresses.
    pub closed spec fn package_map(self) -> Map<Seq<char>, PackageAddress> {
        self.packages.packages()
    }

    /// The currently selected package, if any.
    pub closed spec fn current_package(self) -> Option<PackageAddress> {
        self.packages.current_package()
    }

    /// How many transaction nonces have been handed out: every submitted
    /// transaction consumed one, and they only grow.
    pub closed spec fn nonces_used(self) -> u32 {
        self.next_nonce
    }

    /// Whether another transaction can still be submitted: each
    /// submission consumes one nonce, out of a range no test exhausts.
    pub open spec fn can_submit(self) -> bool {
        self.nonces_used() < u32::MAX
    }

    /// Whether another key pair can still be minted: one key pair is
    /// consumed per registered user, out of an inexhaustible range.
    pub open spec fn can_create_user(self) -> bool {
        self.user_map().dom().len() + 1 < u64::MAX as nat
    }

    pub closed spec fn wf(self) -> bool {
        &&& self.users.wf()
        &&& self.packages.wf()
        &&& self.next_key as nat == self.users.users().dom().len() + 1
    }

    /// The current user, when one is set, is always a user that was
    /// registered: the selection never invents an identity.
    pub proof fn lemma_current_user_is_registered(self)
        requires
            self.wf(),
            self.current_user() is Some,
        ensures
            exists|n: Seq<char>|
                #[trigger] self.user_map().contains_key(n) && self.user_map()[n]
                    == self.current_user()->Some_0,
    {
        self.users.lemma_current_is_registered();
        let n = choose|n: Seq<char>|
            #[trigger] self.users.users().contains_key(n) && self.users.users()[n]
                == self.users.current_user()->Some_0;
        assert(self.user_map().contains_key(n) && self.user_map()[n] == self.current_user()->Some_0);
    }

    /// A fresh environment over a newly bootstrapped in-memory ledger,
    /// with nothing registered and nothing selected.
    pub fn new() -> (r: TestEnv)
        ensures
            r.wf(),
            r.user_map() == Map::<Seq<char>, User>::empty(),
            r.user_map().dom().len() == 0,
            r.current_user() is None,
            r.package_map() == Map::<Seq<char>, PackageAddress>::empty(),
            r.current_package() is None,
            r.can_create_user(),
            r.nonces_used() == 0,
    {
        TestEnv {
            db: ledger_genesis(),
            trace: false,
            next_key: 1,
            next_nonce: 0,
            users: UserRegistry::new(),
            packages: PackageRegistry::new(),
        }
    }

    /// Exactly like [`TestEnv::new`], but every transaction is executed
    /// with the engine's kernel tracing switched on.
    pub fn new_with_tracing() -> (r: TestEnv)
        ensures
            r.wf(),
            r.user_map() == Map::<Seq<char>, User>::empty(),
            r.user_map().dom().len() == 0,
            r.current_user() is None,
            r.package_map() == Map::<Seq<char>, PackageAddress>::empty(),
            r.current_package() is None,
            r.can_create_user(),
            r.nonces_used() == 0,
    {
        TestEnv {
            db: ledger_genesis(),
            trace: true,
            next_key: 1,
            next_nonce: 0,
            users: UserRegistry::new(),
            packages: PackageRegistry::new(),
        }
    }

    /// Creates a test user under a fresh name: mints a key pair, derives
    /// the account that the key controls, funds the account from the
    /// testing faucet, and registers the user only once the funding
    /// transaction has been committed — a funding failure is reported as
    /// `ExecutionFailed` and registers nothing, never swallowed. The
    /// first user created becomes the current one. A name already
    /// registered is refused with `DuplicateName`, and the registry is
    /// left as it was. The funding transaction consumes exactly one
    /// nonce; when no key or nonce is left, nothing is submitted.
    pub fn create_user(&mut self, name: &str) -> (r: Result<User, EnvError>)
        requires
            old(self).wf(),
        ensures
            final(self).wf(),
            final(self).package_map() == old(self).package_map(),
            final(self).current_package() == old(self).current_package(),
            old(self).user_map().contains_key(name@) ==> r == Err::<User, EnvError>(
                EnvError::DuplicateName,
            ) && final(self).user_map() == old(self).user_map() && final(self).current_user()
                == old(self).current_user() && final(self).nonces_used() == old(self).nonces_used(),
            !old(self).user_map().contains_key(name@) && !(old(self).can_create_user() && old(self).can_submit()) ==> r == Err::<User, EnvError>(EnvError::ExecutionFailed) && final(self).user_map() == old(self).user_map() && final(self).current_user() == old(self).current_user() && final(self).nonces_used() == old(self).nonces_used(),
            !old(self).user_map().contains_key(name@) && old(self).can_create_user() && old(self).can_submit() ==> final(self).nonces_used() == old(self).nonces_used() + 1 && ((r
                matches Ok(u) && final(self).user_map() == old(self).user_map().insert(name@, u)
                && final(self).user_map().dom().len() == old(self).user_map().dom().len() + 1
                && final(self).current_user() == (if old(self).current_user() is Some {
                old(self).current_user()
            } else {
                Some(u)
            })) || (r == Err::<User, EnvError>(EnvError::ExecutionFailed) && final(self).user_map()
                == old(self).user_map() && final(self).current_user() == old(self).current_user())),
    {
        if self.users.contains(name) {
            return Err(EnvError::DuplicateName);
        }
        if self.next_key == u64::MAX || self.next_nonce == u32::MAX {
            return Err(EnvError::ExecutionFailed);
        }
        let n = self.next_key;
        let nonce = self.next_nonce;
        self.next_nonce = self.next_nonce + 1;
        let (key, account) = derive_account_key(n);
        let user = User { key, account };
        let manifest = build_fund_account_manifest(&user.account);
        let funded = match ledger_execute(&mut self.db, manifest, None, nonce, self.trace) {
            Some(raw) => summarize_receipt(&raw).is_ok(),
            None => false,
        };
        if !funded {
            return Err(EnvError::ExecutionFailed);
        }
        self.next_key = n + 1;
        self.users.insert_new(name, user);
        Ok(user)
    }

    /// The user registered under the name, or `NotFound`: never a
    /// default.
    pub fn get_user(&self, name: &str) -> (r: Result<User, EnvError>)
        requires
            self.wf(),
        ensures
            r == if self.user_map().contains_key(name@) {
                Ok::<User, EnvError>(self.user_map()[name@])
            } else {
                Err::<User, EnvError>(EnvError::NotFound)
            },
    {
        self.users.get(name)
    }

    /// Whether a user is registered under the name.
    pub fn has_user(&self, name: &str) -> (r: bool)
        requires
            self.wf(),
        ensures
            r == self.user_map().contains_key(name@),
    {
        self.users.contains(name)
    }

    /// How many users are registered: exactly the number of distinct
    /// names accepted so far.
    pub fn user_count(&self) -> (r: usize)
        requires
            self.wf(),
        ensures
            r == self.user_map().dom().len(),
    {
        self.users.count()
    }

    /// Makes the user registered under the name the current one, or
    /// reports `NotFound` and changes nothing.
    pub fn acting_as(&mut self, name: &str) -> (r: Result<(), EnvError>)
        requires
            old(self).wf(),
        ensures
            final(self).wf(),
            final(self).user_map() == old(self).user_map(),
            final(self).package_map() == old(self).package_map(),
            final(self).current_package() == old(self).current_package(),
            final(self).nonces_used() == old(self).nonces_used(),
            r == if old(self).user_map().contains_key(name@) {
                Ok::<(), EnvError>(())
            } else {
                Err::<(), EnvError>(EnvError::NotFound)
            },
            final(self).current_user() == if old(self).user_map().contains_key(name@) {
                Some(old(self).user_map()[name@])
            } else {
                old(self).current_user()
            },
    {
        self.users.select(name)
    }

    /// The current user, or `NoCurrentUser` when none was ever created or
    /// selected: never a default.
    pub fn get_current_user(&self) -> (r: Result<User, EnvError>)
        requires
            self.wf(),
        ensures
            r == match self.current_user() {
                Some(u) => Ok::<User, EnvError>(u),
                None => Err::<User, EnvError>(EnvError::NoCurrentUser),
            },
    {
        self.users.current_or_fail()
    }

    /// Publishes a package to the ledger and registers its address under
    /// the name; re-registering a name overwrites the address it mapped
    /// to. The first package registered becomes the current one. When the
    /// ledger does not commit the publish, the registries are left as
    /// they were and `ExecutionFailed` is reported. The publish consumes
    /// exactly one nonce; when none is left, nothing is submitted.
    pub fn publish_package(&mut self, name: &str, code: &[u8], definition: PackageDefinition) -> (r:
        Result<PackageAddress, EnvError>)
        requires
            old(self).wf(),
        ensures
            final(self).wf(),
            final(self).user_map() == old(self).user_map(),
            final(self).current_user() == old(self).current_user(),
            !old(self).can_submit() ==> r == Err::<PackageAddress, EnvError>(
                EnvError::ExecutionFailed,
            ) && final(self).nonces_used() == old(self).nonces_used(),
            old(self).can_submit() ==> final(self).nonces_used() == old(self).nonces_used() + 1
                && (r is Ok || r == Err::<PackageAddress, EnvError>(EnvError::ExecutionFailed)),
            r matches Ok(a) ==> final(self).package_map() == old(self).package_map().insert(
                name@,
                a,
            ) && final(self).current_package() == (if old(self).current_package() is Some {
                old(self).current_package()
            } else {
                Some(a)
            }),
            r is Err ==> final(self).package_map() == old(self).package_map()
                && final(self).current_package() == old(self).current_package(),
    {
        if self.next_nonce == u32::MAX {
            return Err(EnvError::ExecutionFailed);
        }
        let nonce = self.next_nonce;
        self.next_nonce = self.next_nonce + 1;
        let manifest = build_publish_manifest(code, &definition);
        let executed = ledger_execute(&mut self.db, manifest, None, nonce, self.trace);
        let raw = match executed {
            Some(raw) => raw,
            None => {
                return Err(EnvError::ExecutionFailed);
            },
        };
        let receipt = summarize_receipt(&raw);
        match receipt.first_new_package() {
            Ok(address) => {
                self.packages.register(name, address);
                Ok(address)
            },
            Err(e) => Err(e),
        }
    }

    /// The address registered under the name, or `NotFound`: never a
    /// default.
    pub fn get_package(&self, name: &str) -> (r: Result<PackageAddress, EnvError>)
        requires
            self.wf(),
        ensures
            r == if self.package_map().contains_key(name@) {
                Ok::<PackageAddress, EnvError>(self.package_map()[name@])
            } else {
                Err::<PackageAddress, EnvError>(EnvError::NotFound)
            },
    {
        self.packages.get(name)
    }

    /// Makes the package registered under the name the current one, or
    /// reports `NotFound` and changes nothing.
    pub fn using_package(&mut self, name: &str) -> (r: Result<(), EnvError>)
        requires
            old(self).wf(),
        ensures
            final(self).wf(),
            final(self).user_map() == old(self).user_map(),
            final(self).current_user() == old(self).current_user(),
            final(self).package_map() == old(self).package_map(),
            final(self).nonces_used() == old(self).nonces_used(),
            r == if old(self).package_map().contains_key(name@) {
                Ok::<(), EnvError>(())
            } else {
                Err::<(), EnvError>(EnvError::NotFound)
            },
            final(self).current_package() == if old(self).package_map().contains_key(name@) {
                Some(old(self).package_map()[name@])
            } else {
                old(self).current_package()
            },
    {
        self.packages.select(name)
    }

    /// The current package, or `NoCurrentPackage` when none was ever
    /// published or selected: never a default.
    pub fn get_current_package(&self) -> (r: Result<PackageAddress, EnvError>)
        requires
            self.wf(),
        ensures
            r == match self.current_package() {
                Some(a) => Ok::<PackageAddress, EnvError>(a),
                None => Err::<PackageAddress, EnvError>(EnvError::NoCurrentPackage),
            },
    {
        self.packages.current_or_fail()
    }

    /// Calls a function of a blueprint of the current package as the
    /// current user, sweeping everything the call leaves behind into the
    /// user's account, and returns the ledger's verdict unjudged. Each
    /// element of `params` is one manifest-encoded argument. A call that
    /// passes the context and argument checks consumes exactly one nonce;
    /// one that does not consumes none.
    pub fn call_function(
        &mut self,
        blueprint_name: &str,
        function_name: &str,
        params: Vec<Vec<u8>>,
    ) -> (r: Result<Receipt, EnvError>)
        requires
            old(self).wf(),
        ensures
            final(self).wf(),
            final(self).user_map() == old(self).user_map(),
            final(self).current_user() == old(self).current_user(),
            final(self).package_map() == old(self).package_map(),
            final(self).current_package() == old(self).current_package(),
            r == Err::<Receipt, EnvError>(EnvError::NoCurrentUser) <==> old(self).current_user()
                is None,
            r == Err::<Receipt, EnvError>(EnvError::NoCurrentPackage) <==> (old(self).current_user()
                is Some && old(self).current_package() is None),
            r == Err::<Receipt, EnvError>(EnvError::InvalidArguments) <==> (old(self).current_user()
                is Some && old(self).current_package() is Some && !args_decodable(params@)),
            old(self).current_user() is None || old(self).current_package() is None
                || !args_decodable(params@) ==> final(self).nonces_used() == old(self).nonces_used(),
            old(self).current_user() is Some && old(self).current_package() is Some
                && args_decodable(params@) && !old(self).can_submit() ==> r == Err::<
                Receipt,
                EnvError,
            >(EnvError::ExecutionFailed) && final(self).nonces_used() == old(self).nonces_used(),
            old(self).current_user() is Some && old(self).current_package() is Some
                && args_decodable(params@) && old(self).can_submit() ==> final(self).nonces_used()
                == old(self).nonces_used() + 1 && (r is Ok || r == Err::<Receipt, EnvError>(
                EnvError::ExecutionFailed,
            )),
    {
        let user = match self.users.current_or_fail() {
            Ok(u) => u,
            Err(_) => {
                return Err(EnvError::NoCurrentUser);
            },
        };
        let package = match self.packages.current_or_fail() {
            Ok(a) => a,
            Err(_) => {
                return Err(EnvError::NoCurrentPackage);
            },
        };
        let manifest = match build_call_function_manifest(
            &package,
            blueprint_name,
            function_name,
            &params,
            &user.account,
        ) {
            Some(m) => m,
            None => {
                return Err(EnvError::InvalidArguments);
            },
        };
        if self.next_nonce == u32::MAX {
            return Err(EnvError::ExecutionFailed);
        }
        let nonce = self.next_nonce;
        self.next_nonce = self.next_nonce + 1;
        match ledger_execute(&mut self.db, manifest, Some(&user.key), nonce, self.trace) {
            Some(raw) => Ok(summarize_receipt(&raw)),
            None => Err(EnvError::ExecutionFailed),
        }
    }

    /// Calls a method of a component as the current user, sweeping
    /// everything the call leaves behind into the user's account, and
    /// returns the ledger's verdict unjudged. Each element of `params` is
    /// one manifest-encoded argument. A call that passes the context and
    /// argument checks consumes exactly one nonce; one that does not
    /// consumes none.
    pub fn call_method(
        &mut self,
        component: ComponentAddress,
        method_name: &str,
        params: Vec<Vec<u8>>,
    ) -> (r: Result<Receipt, EnvError>)
        requires
            old(self).wf(),
        ensures
            final(self).wf(),
            final(self).user_map() == old(self).user_map(),
            final(self).current_user() == old(self).current_user(),
            final(self).package_map() == old(self).package_map(),
            final(self).current_package() == old(self).current_package(),
            r == Err::<Receipt, EnvError>(EnvError::NoCurrentUser) <==> old(self).current_user()
                is None,
            r == Err::<Receipt, EnvError>(EnvError::InvalidArguments) <==> (old(self).current_user()
                is Some && !args_decodable(params@)),
            old(self).current_user() is None || !args_decodable(params@) ==> final(self).nonces_used() == old(self).nonces_used(),
            old(self).current_user() is Some && args_decodable(params@) && !old(self).can_submit()
                ==> r == Err::<Receipt, EnvError>(EnvError::ExecutionFailed) && final(self).nonces_used() == old(self).nonces_used(),
            old(self).current_user() is Some && args_decodable(params@) && old(self).can_submit()
                ==> final(self).nonces_used() == old(self).nonces_used() + 1 && (r is Ok || r
                == Err::<Receipt, EnvError>(EnvError::ExecutionFailed)),
    {
        let user = match self.users.current_or_fail() {
            Ok(u) => u,
            Err(_) => {
                return Err(EnvError::NoCurrentUser);
            },
        };
        let manifest = match build_call_method_manifest(
            &component,
            method_name,
            &params,
            &user.account,
        ) {
            Some(m) => m,
            None => {
                return Err(EnvError::InvalidArguments);
            },
        };
        if self.next_nonce == u32::MAX {
            return Err(EnvError::ExecutionFailed);
        }
        let nonce = self.next_nonce;
        self.next_nonce = self.next_nonce + 1;
        match ledger_execute(&mut self.db, manifest, Some(&user.key), nonce, self.trace) {
            Some(raw) => Ok(summarize_receipt(&raw)),
            None => Err(EnvError::ExecutionFailed),
        }
    }

    /// As [`TestEnv::call_method`], but first proves possession of one
    /// unit of the badge resource from the current user's account, so
    /// that a method gated on that badge authorizes the call. A call that
    /// passes the context and argument checks consumes exactly one nonce;
    /// one that does not consumes none.
    pub fn call_method_auth(
        &mut self,
        component: ComponentAddress,
        method_name: &str,
        admin_badge: ResourceAddress,
        params: Vec<Vec<u8>>,
    ) -> (r: Result<Receipt, EnvError>)
        requires
            old(self).wf(),
        ensures
            final(self).wf(),
            final(self).user_map() == old(self).user_map(),
            final(self).current_user() == old(self).current_user(),
            final(self).package_map() == old(self).package_map(),
            final(self).current_package() == old(self).current_package(),
            r == Err::<Receipt, EnvError>(EnvError::NoCurrentUser) <==> old(self).current_user()
                is None,
            r == Err::<Receipt, EnvError>(EnvError::InvalidArguments) <==> (old(self).current_user()
                is Some && !args_decodable(params@)),
            old(self).current_user() is None || !args_decodable(params@) ==> final(self).nonces_used() == old(self).nonces_used(),
            old(self).current_user() is Some && args_decodable(params@) && !old(self).can_submit()
                ==> r == Err::<Receipt, EnvError>(EnvError::ExecutionFailed) && final(self).nonces_used() == old(self).nonces_used(),
            old(self).current_user() is Some && args_decodable(params@) && old(self).can_submit()
                ==> final(self).nonces_used() == old(self).nonces_used() + 1 && (r is Ok || r
                == Err::<Receipt, EnvError>(EnvError::ExecutionFailed)),
    {
        let user = match self.users.current_or_fail() {
            Ok(u) => u,
            Err(_) => {
                return Err(EnvError::NoCurrentUser);
            },
        };
        let manifest = match build_call_method_auth_manifest(
            &user.account,
            &admin_badge,
            &component,
            method_name,
            &params,
        ) {
            Some(m) => m,
            None => {
                return Err(EnvError::InvalidArguments);
            },
        };
        if self.next_nonce == u32::MAX {
            return Err(EnvError::ExecutionFailed);
        }
        let nonce = self.next_nonce;
        self.next_nonce = self.next_nonce + 1;
        match ledger_execute(&mut self.db, manifest, Some(&user.key), nonce, self.trace) {
            Some(raw) => Ok(summarize_receipt(&raw)),
            None => Err(EnvError::ExecutionFailed),
        }
    }

    /// Creates a fungible token with the given fixed supply, deposits all
    /// of it into the current user's account, and returns the new
    /// resource's address. When the ledger does not commit the creation,
    /// `ExecutionFailed` is reported. With a current user set, the call
    /// consumes exactly one nonce.
    pub fn create_token(&mut self, max_supply: Decimal) -> (r: Result<ResourceAddress, EnvError>)
        requires
            old(self).wf(),
        ensures
            final(self).wf(),
            final(self).user_map() == old(self).user_map(),
            final(self).current_user() == old(self).current_user(),
            final(self).package_map() == old(self).package_map(),
            final(self).current_package() == old(self).current_package(),
            r == Err::<ResourceAddress, EnvError>(EnvError::NoCurrentUser) <==> old(self).current_user()
                is None,
            old(self).current_user() is None ==> final(self).nonces_used() == old(self).nonces_used(),
            old(self).current_user() is Some && !old(self).can_submit() ==> r == Err::<
                ResourceAddress,
                EnvError,
            >(EnvError::ExecutionFailed) && final(self).nonces_used() == old(self).nonces_used(),
            old(self).current_user() is Some && old(self).can_submit() ==> final(self).nonces_used()
                == old(self).nonces_used() + 1 && (r is Ok || r == Err::<ResourceAddress, EnvError>(
                EnvError::ExecutionFailed,
            )),
    {
        let user = match self.users.current_or_fail() {
            Ok(u) => u,
            Err(_) => {
                return Err(EnvError::NoCurrentUser);
            },
        };
        if self.next_nonce == u32::MAX {
            return Err(EnvError::ExecutionFailed);
        }
        let nonce = self.next_nonce;
        self.next_nonce = self.next_nonce + 1;
        let manifest = build_create_token_manifest(&max_supply, &user.account);
        match ledger_execute(&mut self.db, manifest, Some(&user.key), nonce, self.trace) {
            Some(raw) => summarize_receipt(&raw).first_new_resource(),
            None => Err(EnvError::ExecutionFailed),
        }
    }

    /// Transfers an amount of a resource from the current user's account
    /// into the recipient's account, and returns the ledger's verdict
    /// unjudged: an overdraft comes back as a failed receipt, not as a
    /// harness error. With a current user set, the call consumes exactly
    /// one nonce.
    pub fn transfer_resource(
        &mut self,
        amount: Decimal,
        resource_to_send: &ResourceAddress,
        to_user: &User,
    ) -> (r: Result<Receipt, EnvError>)
        requires
            old(self).wf(),
        ensures
            final(self).wf(),
            final(self).user_map() == old(self).user_map(),
            final(self).current_user() == old(self).current_user(),
            final(self).package_map() == old(self).package_map(),
            final(self).current_package() == old(self).current_package(),
            r == Err::<Receipt, EnvError>(EnvError::NoCurrentUser) <==> old(self).current_user()
                is None,
            old(self).current_user() is None ==> final(self).nonces_used() == old(self).nonces_used(),
            old(self).current_user() is Some && !old(self).can_submit() ==> r == Err::<
                Receipt,
                EnvError,
            >(EnvError::ExecutionFailed) && final(self).nonces_used() == old(self).nonces_used(),
            old(self).current_user() is Some && old(self).can_submit() ==> final(self).nonces_used()
                == old(self).nonces_used() + 1 && (r is Ok || r == Err::<Receipt, EnvError>(
                EnvError::ExecutionFailed,
            )),
    {
        let user = match self.users.current_or_fail() {
            Ok(u) => u,
            Err(_) => {
                return Err(EnvError::NoCurrentUser);
            },
        };
        if self.next_nonce == u32::MAX {
            return Err(EnvError::ExecutionFailed);
        }
        let nonce = self.next_nonce;
        self.next_nonce = self.next_nonce + 1;
        let manifest = build_transfer_manifest(
            &user.account,
            resource_to_send,
            &amount,
            &to_user.account,
        );
        match ledger_execute(&mut self.db, manifest, Some(&user.key), nonce, self.trace) {
            Some(raw) => Ok(summarize_receipt(&raw)),
            None => Err(EnvError::ExecutionFailed),
        }
    }

    /// The amount of the resource that the component holds, read through
    /// the ledger's own `balance` query on the component, executed as the
    /// current user. When the component does not answer the query,
    /// `ExecutionFailed` is reported. With a current user set, the query
    /// consumes exactly one nonce, and exactly when a balance comes back
    /// is pinned by [`Receipt::balance_output`], which reads the query's
    /// answer out of the receipt.
    pub fn get_amount_for_rd(
        &mut self,
        component_address: ComponentAddress,
        resource_address: ResourceAddress,
    ) -> (r: Result<Decimal, EnvError>)
        requires
            old(self).wf(),
        ensures
            final(self).wf(),
            final(self).user_map() == old(self).user_map(),
            final(self).current_user() == old(self).current_user(),
            final(self).package_map() == old(self).package_map(),
            final(self).current_package() == old(self).current_package(),
            r == Err::<Decimal, EnvError>(EnvError::NoCurrentUser) <==> old(self).current_user()
                is None,
            old(self).current_user() is None ==> final(self).nonces_used() == old(self).nonces_used(),
            old(self).current_user() is Some && !old(self).can_submit() ==> r == Err::<
                Decimal,
                EnvError,
            >(EnvError::ExecutionFailed) && final(self).nonces_used() == old(self).nonces_used(),
            old(self).current_user() is Some && old(self).can_submit() ==> final(self).nonces_used()
                == old(self).nonces_used() + 1 && (r is Ok || r == Err::<Decimal, EnvError>(
                EnvError::ExecutionFailed,
            )),
    {
        let user = match self.users.current_or_fail() {
            Ok(u) => u,
            Err(_) => {
                return Err(EnvError::NoCurrentUser);
            },
        };
        if self.next_nonce == u32::MAX {
            return Err(EnvError::ExecutionFailed);
        }
        let nonce = self.next_nonce;
        self.next_nonce = self.next_nonce + 1;
        let manifest = build_balance_manifest(&component_address, &resource_address);
        match ledger_execute(&mut self.db, manifest, Some(&user.key), nonce, self.trace) {
            Some(raw) => summarize_receipt(&raw).balance_output(),
            None => Err(EnvError::ExecutionFailed),
        }
    }

    /// Walks the component's state and returns one balance entry per
    /// resource held in any vault reachable from it, however deeply
    /// nested; when several vaults hold the same resource, the entry
    /// carries the amount of the vault the walk found last. The walk
    /// visits at most [`crate::walker::WALK_NODE_BUDGET`] nodes — far
    /// beyond any test component — and a larger state tree is reported
    /// only as far as that bound reaches.
    pub fn get_all_balances(&self, component_address: ComponentAddress) -> (r: Vec<VaultSnapshot>)
        ensures
            distinct_resources(r@),
    {
        let root = component_node_bytes(&component_address);
        let raw = collect_vault_readings(&self.db, root);
        dedup_balances(raw)
    }

    /// The balance of one resource among the vaults reachable from the
    /// component, and zero — not an error — when no vault holds it. The
    /// zero default is not expressible over the ledger's opaque numeric
    /// type; a caller who needs the stated relation uses
    /// [`TestEnv::get_all_balances`] with [`crate::walker::balance_of`],
    /// whose contracts pin the lookup exactly.
    pub fn get_balance(&self, component_address: ComponentAddress, resource_address: ResourceAddress) -> (r:
        Decimal)
    {
        let entries = self.get_all_balances(component_address);
        match balance_of(&entries, &resource_address) {
            Some(d) => d,
            None => decimal_zero(),
        }
    }
}

/// Creating a user under a name and then selecting that name makes
/// current exactly the user that the creation returned: selecting reads
/// the registry mapping at the name, and the creation's contract says the
/// mapping now carries the created user there.
pub proof fn lemma_created_user_is_selected(
    users: Map<Seq<char>, User>,
    name: Seq<char>,
    created: User,
)
    ensures
        users.insert(name, created)[name] == created,
{
}

} // verus!
