//! The identity and package registries.
//!
//! Both registries map a test-chosen name to a value and keep a "current"
//! selection. The selection policy is first-write-wins: the first user
//! created and the first package registered become the current ones, and
//! only an explicit selection changes that afterwards.
//!
//! A user name can be registered once; registering it again is refused.
//! A package name may be re-registered, which overwrites the address it
//! maps to, as a convenience for repeated deployments under one name.
//!
//! Each registry holds its entries as a vector with a distinct-names
//! invariant in place of a string-keyed hash map, and states what the map
//! gave — one value per name, later insertions winning — as its view.

use vstd::prelude::*;

use radix_common::crypto::Secp256k1PublicKey;
use radix_common::types::ComponentAddress;
use radix_common::types::PackageAddress;

use crate::errors::EnvError;

verus! {

/// A test user: a public key whose signature the transactions carry, and
/// the address of the account that holds the user's resources.
#[derive(Clone, Copy, Debug, PartialEq)]
pub struct User {
    /// The user's public key.
    pub key: Secp256k1PublicKey,
    /// The user's account address.
    pub account: ComponentAddress,
}

pub(crate) struct UserEntry {
    pub name: String,
    pub user: User,
}

pub(crate) struct PackageEntry {
    pub name: String,
    pub address: PackageAddress,
}

/// The mapping that a sequence of user entries denotes: later entries win.
pub(crate) open spec fn user_map_of(s: Seq<UserEntry>) -> Map<Seq<char>, User>
    decreases s.len(),
{
    if s.len() == 0 {
        Map::empty()
    } else {
        user_map_of(s.drop_last()).insert(s.last().name@, s.last().user)
    }
}

/// The mapping that a sequence of package entries denotes: later entries win.
pub(crate) open spec fn package_map_of(s: Seq<PackageEntry>) -> Map<Seq<char>, PackageAddress>
    decreases s.len(),
{
    if s.len() == 0 {
        Map::empty()
    } else {
        package_map_of(s.drop_last()).insert(s.last().name@, s.last().address)
    }
}

pub(crate) open spec fn distinct_user_names(s: Seq<UserEntry>) -> bool {
    forall|i: int, j: int| 0 <= i < j < s.len() ==> s[i].name@ != s[j].name@
}

pub(crate) open spec fn distinct_package_names(s: Seq<PackageEntry>) -> bool {
    forall|i: int, j: int| 0 <= i < j < s.len() ==> s[i].name@ != s[j].name@
}

pub(crate) proof fn lemma_user_map_contains(s: Seq<UserEntry>, n: Seq<char>)
    ensures
        user_map_of(s).contains_key(n) <==> exists|i: int|
            0 <= i < s.len() && s[i].name@ == n,
    decreases s.len(),
{
    if s.len() > 0 {
        lemma_user_map_contains(s.drop_last(), n);
        if s.last().name@ != n && user_map_of(s).contains_key(n) {
            let i = choose|i: int| 0 <= i < s.len() - 1 && s.drop_last()[i].name@ == n;
            assert(s[i].name@ == n);
        }
        if exists|i: int| 0 <= i < s.len() && s[i].name@ == n {
            let i = choose|i: int| 0 <= i < s.len() && s[i].name@ == n;
            if i < s.len() - 1 {
                assert(s.drop_last()[i].name@ == n);
            }
        }
    }
}

pub(crate) proof fn lemma_user_map_get(s: Seq<UserEntry>, i: int)
    requires
        distinct_user_names(s),
        0 <= i < s.len(),
    ensures
        user_map_of(s).contains_key(s[i].name@),
        user_map_of(s)[s[i].name@] == s[i].user,
    decreases s.len(),
{
    if i < s.len() - 1 {
        lemma_user_map_get(s.drop_last(), i);
        assert(s.drop_last()[i].name@ == s[i].name@);
        assert(s.last().name@ != s[i].name@);
    }
}

pub(crate) proof fn lemma_user_map_len(s: Seq<UserEntry>)
    requires
        distinct_user_names(s),
    ensures
        user_map_of(s).dom().finite(),
        user_map_of(s).dom().len() == s.len(),
    decreases s.len(),
{
    if s.len() > 0 {
        lemma_user_map_len(s.drop_last());
        lemma_user_map_contains(s.drop_last(), s.last().name@);
        assert(forall|i: int|
            0 <= i < s.len() - 1 ==> s.drop_last()[i].name@ != s.last().name@);
        assert(!user_map_of(s.drop_last()).contains_key(s.last().name@));
    }
}

pub(crate) proof fn lemma_package_map_contains(s: Seq<PackageEntry>, n: Seq<char>)
    ensures
        package_map_of(s).contains_key(n) <==> exists|i: int|
            0 <= i < s.len() && s[i].name@ == n,
    decreases s.len(),
{
    if s.len() > 0 {
        lemma_package_map_contains(s.drop_last(), n);
        if s.last().name@ != n && package_map_of(s).contains_key(n) {
            let i = choose|i: int| 0 <= i < s.len() - 1 && s.drop_last()[i].name@ == n;
            assert(s[i].name@ == n);
        }
        if exists|i: int| 0 <= i < s.len() && s[i].name@ == n {
            let i = choose|i: int| 0 <= i < s.len() && s[i].name@ == n;
            if i < s.len() - 1 {
                assert(s.drop_last()[i].name@ == n);
            }
        }
    }
}

pub(crate) proof fn lemma_package_map_get(s: Seq<PackageEntry>, i: int)
    requires
        distinct_package_names(s),
        0 <= i < s.len(),
    ensures
        package_map_of(s).contains_key(s[i].name@),
        package_map_of(s)[s[i].name@] == s[i].address,
    decreases s.len(),
{
    if i < s.len() - 1 {
        lemma_package_map_get(s.drop_last(), i);
        assert(s.drop_last()[i].name@ == s[i].name@);
        assert(s.last().name@ != s[i].name@);
    }
}

/// Overwriting the entry at `i` with one of the same name denotes the same
/// mapping as inserting that name anew.
pub(crate) proof fn lemma_package_map_update(s: Seq<PackageEntry>, i: int, e: PackageEntry)
    requires
        distinct_package_names(s),
        0 <= i < s.len(),
        s[i].name@ == e.name@,
    ensures
        package_map_of(s.update(i, e)) == package_map_of(s).insert(e.name@, e.address),
    decreases s.len(),
{
    let t = s.update(i, e);
    if i == s.len() - 1 {
        assert(t.drop_last() =~= s.drop_last());
        assert(t.last() == e);
        assert(package_map_of(t) == package_map_of(s.drop_last()).insert(e.name@, e.address));
        assert(package_map_of(s).insert(e.name@, e.address) =~= package_map_of(
            s.drop_last(),
        ).insert(e.name@, e.address));
    } else {
        assert(t.drop_last() =~= s.drop_last().update(i, e));
        lemma_package_map_update(s.drop_last(), i, e);
        assert(t.last() == s.last());
        assert(s.last().name@ != e.name@);
        assert(package_map_of(t) == package_map_of(s.drop_last()).insert(
            e.name@,
            e.address,
        ).insert(s.last().name@, s.last().address));
        assert(package_map_of(s.drop_last()).insert(e.name@, e.address).insert(
            s.last().name@,
            s.last().address,
        ) =~= package_map_of(s).insert(e.name@, e.address));
    }
}

/// The mapping that a sequence of user creations builds up, one
/// insertion per creation, starting from nothing.
pub open spec fn created_map(calls: Seq<(Seq<char>, User)>) -> Map<Seq<char>, User>
    decreases calls.len(),
{
    if calls.len() == 0 {
        Map::empty()
    } else {
        created_map(calls.drop_last()).insert(calls.last().0, calls.last().1)
    }
}

/// For every sequence of user creations under pairwise distinct names,
/// the registry that results maps each name to exactly the user created
/// under it, and holds exactly as many users as names were used.
pub proof fn lemma_distinct_creations(calls: Seq<(Seq<char>, User)>)
    requires
        forall|i: int, j: int| 0 <= i < j < calls.len() ==> calls[i].0 != calls[j].0,
    ensures
        forall|i: int| 0 <= i < calls.len() ==> created_map(calls).contains_key(calls[i].0)
            && created_map(calls)[calls[i].0] == calls[i].1,
        created_map(calls).dom().finite(),
        created_map(calls).dom().len() == calls.len(),
    decreases calls.len(),
{
    if calls.len() > 0 {
        let head = calls.drop_last();
        lemma_distinct_creations(head);
        assert forall|i: int| 0 <= i < head.len() implies created_map(calls).contains_key(
            calls[i].0,
        ) && created_map(calls)[calls[i].0] == calls[i].1 by {
            assert(head[i] == calls[i]);
            assert(calls[i].0 != calls.last().0);
            assert(created_map(head).contains_key(calls[i].0));
        }
        assert(!created_map(head).dom().contains(calls.last().0)) by {
            if created_map(head).contains_key(calls.last().0) {
                assert(exists|i: int| 0 <= i < head.len() && head[i].0 == calls.last().0) by {
                    lemma_created_map_contains(head, calls.last().0);
                }
            }
        }
    }
}

/// A name is in the built-up mapping exactly when some creation used it.
pub proof fn lemma_created_map_contains(calls: Seq<(Seq<char>, User)>, n: Seq<char>)
    ensures
        created_map(calls).contains_key(n) <==> exists|i: int|
            0 <= i < calls.len() && calls[i].0 == n,
    decreases calls.len(),
{
    if calls.len() > 0 {
        lemma_created_map_contains(calls.drop_last(), n);
        if calls.last().0 != n && created_map(calls).contains_key(n) {
            let i = choose|i: int| 0 <= i < calls.len() - 1 && calls.drop_last()[i].0 == n;
            assert(calls[i].0 == n);
        }
        if exists|i: int| 0 <= i < calls.len() && calls[i].0 == n {
            let i = choose|i: int| 0 <= i < calls.len() && calls[i].0 == n;
            if i < calls.len() - 1 {
                assert(calls.drop_last()[i].0 == n);
            }
        }
    }
}

/// The registry of named test users, with the current selection.
pub struct UserRegistry {
    entries: Vec<UserEntry>,
    current: Option<usize>,
}

impl UserRegistry {
    /// The mapping from registered names to users.
    pub closed spec fn users(self) -> Map<Seq<char>, User> {
        user_map_of(self.entries@)
    }

    /// The currently selected user, if any.
    pub closed spec fn current_user(self) -> Option<User> {
        match self.current {
            Some(i) => Some(self.entries@[i as int].user),
            None => None,
        }
    }

    /// Names are registered at most once, and the current selection, when
    /// set, points at a registered user.
    pub closed spec fn wf(self) -> bool {
        &&& distinct_user_names(self.entries@)
        &&& match self.current {
            Some(i) => i < self.entries@.len(),
            None => true,
        }
    }

    /// When set, the current user is one of the registered users.
    pub proof fn lemma_current_is_registered(self)
        requires
            self.wf(),
            self.current_user() is Some,
        ensures
            exists|n: Seq<char>|
                #[trigger] self.users().contains_key(n) && self.users()[n]
                    == self.current_user()->Some_0,
    {
        let i = self.current->Some_0;
        lemma_user_map_get(self.entries@, i as int);
        assert(self.users().contains_key(self.entries@[i as int].name@));
    }

    pub fn new() -> (r: UserRegistry)
        ensures
            r.wf(),
            r.users() == Map::<Seq<char>, User>::empty(),
            r.users().dom().len() == 0,
            r.current_user() is None,
    {
        let r = UserRegistry { entries: Vec::new(), current: None };
        proof {
            assert(r.users().dom() =~= Set::<Seq<char>>::empty());
        }
        r
    }

    fn find_index(&self, name: &str) -> (r: Option<usize>)
        requires
            self.wf(),
        ensures
            match r {
                Some(i) => i < self.entries@.len() && self.entries@[i as int].name@ == name@
                    && self.users().contains_key(name@),
                None => !self.users().contains_key(name@),
            },
    {
        let key: String = name.to_owned();
        let mut i: usize = 0;
        while i < self.entries.len()
            invariant
                self.wf(),
                i <= self.entries@.len(),
                forall|j: int| 0 <= j < i ==> self.entries@[j].name@ != name@,
                key@ == name@,
            decreases self.entries@.len() - i,
        {
            if self.entries[i].name == key {
                proof {
                    lemma_user_map_get(self.entries@, i as int);
                }
                return Some(i);
            }
            i = i + 1;
        }
        proof {
            lemma_user_map_contains(self.entries@, name@);
        }
        None
    }

    /// Whether a user is registered under the name.
    pub fn contains(&self, name: &str) -> (r: bool)
        requires
            self.wf(),
        ensures
            r == self.users().contains_key(name@),
    {
        self.find_index(name).is_some()
    }

    /// How many users are registered: exactly the number of distinct names
    /// ever accepted.
    pub fn count(&self) -> (r: usize)
        requires
            self.wf(),
        ensures
            r == self.users().dom().len(),
    {
        proof {
            lemma_user_map_len(self.entries@);
        }
        self.entries.len()
    }

    /// The user registered under the name, or `NotFound`.
    pub fn get(&self, name: &str) -> (r: Result<User, EnvError>)
        requires
            self.wf(),
        ensures
            r == if self.users().contains_key(name@) {
                Ok::<User, EnvError>(self.users()[name@])
            } else {
                Err::<User, EnvError>(EnvError::NotFound)
            },
    {
        match self.find_index(name) {
            Some(i) => {
                proof {
                    lemma_user_map_get(self.entries@, i as int);
                }
                Ok(self.entries[i].user)
            },
            None => Err(EnvError::NotFound),
        }
    }

    /// Registers a user under a fresh name. The first user registered
    /// becomes the current one; later registrations leave the selection
    /// alone.
    pub fn insert_new(&mut self, name: &str, user: User)
        requires
            old(self).wf(),
            !old(self).users().contains_key(name@),
        ensures
            final(self).wf(),
            final(self).users() == old(self).users().insert(name@, user),
            final(self).users().dom().len() == old(self).users().dom().len() + 1,
            final(self).current_user() == if old(self).current_user() is Some {
                old(self).current_user()
            } else {
                Some(user)
            },
    {
        let ghost pre = self.entries@;
        if self.current.is_none() {
            self.current = Some(self.entries.len());
        }
        let entry = UserEntry { name: name.to_owned(), user };
        self.entries.push(entry);
        proof {
            assert(self.entries@.drop_last() =~= pre);
            lemma_user_map_contains(pre, name@);
            lemma_user_map_len(pre);
            lemma_user_map_len(self.entries@);
        }
    }

    /// Makes the user registered under the name the current one, or
    /// reports `NotFound` and changes nothing.
    pub fn select(&mut self, name: &str) -> (r: Result<(), EnvError>)
        requires
            old(self).wf(),
        ensures
            final(self).wf(),
            final(self).users() == old(self).users(),
            r == if old(self).users().contains_key(name@) {
                Ok::<(), EnvError>(())
            } else {
                Err::<(), EnvError>(EnvError::NotFound)
            },
            final(self).current_user() == if old(self).users().contains_key(name@) {
                Some(old(self).users()[name@])
            } else {
                old(self).current_user()
            },
    {
        match self.find_index(name) {
            Some(i) => {
                proof {
                    lemma_user_map_get(self.entries@, i as int);
                }
                self.current = Some(i);
                Ok(())
            },
            None => Err(EnvError::NotFound),
        }
    }

    /// The current user, or `NoCurrentUser` when none was ever set.
    pub fn current_or_fail(&self) -> (r: Result<User, EnvError>)
        requires
            self.wf(),
        ensures
            r == match self.current_user() {
                Some(u) => Ok::<User, EnvError>(u),
                None => Err::<User, EnvError>(EnvError::NoCurrentUser),
            },
    {
        match self.current {
            Some(i) => Ok(self.entries[i].user),
            None => Err(EnvError::NoCurrentUser),
        }
    }
}

/// The registry of named published packages, with the current selection.
pub struct PackageRegistry {
    entries: Vec<PackageEntry>,
    current: Option<PackageAddress>,
}

impl PackageRegistry {
    /// The mapping from registered names to package addresses.
    pub closed spec fn packages(self) -> Map<Seq<char>, PackageAddress> {
        package_map_of(self.entries@)
    }

    /// The currently selected package, if any.
    pub closed spec fn current_package(self) -> Option<PackageAddress> {
        self.current
    }

    pub closed spec fn wf(self) -> bool {
        distinct_package_names(self.entries@)
    }

    pub fn new() -> (r: PackageRegistry)
        ensures
            r.wf(),
            r.packages() == Map::<Seq<char>, PackageAddress>::empty(),
            r.current_package() is None,
    {
        PackageRegistry { entries: Vec::new(), current: None }
    }

    fn find_index(&self, name: &str) -> (r: Option<usize>)
        requires
            self.wf(),
        ensures
            match r {
                Some(i) => i < self.entries@.len() && self.entries@[i as int].name@ == name@
                    && self.packages().contains_key(name@),
                None => !self.packages().contains_key(name@),
            },
    {
        let key: String = name.to_owned();
        let mut i: usize = 0;
        while i < self.entries.len()
            invariant
                self.wf(),
                i <= self.entries@.len(),
                forall|j: int| 0 <= j < i ==> self.entries@[j].name@ != name@,
                key@ == name@,
            decreases self.entries@.len() - i,
        {
            if self.entries[i].name == key {
                proof {
                    lemma_package_map_get(self.entries@, i as int);
                }
                return Some(i);
            }
            i = i + 1;
        }
        proof {
            lemma_package_map_contains(self.entries@, name@);
        }
        None
    }

    /// The address registered under the name, or `NotFound`.
    pub fn get(&self, name: &str) -> (r: Result<PackageAddress, EnvError>)
        requires
            self.wf(),
        ensures
            r == if self.packages().contains_key(name@) {
                Ok::<PackageAddress, EnvError>(self.packages()[name@])
            } else {
                Err::<PackageAddress, EnvError>(EnvError::NotFound)
            },
    {
        match self.find_index(name) {
            Some(i) => {
                proof {
                    lemma_package_map_get(self.entries@, i as int);
                }
                Ok(self.entries[i].address)
            },
            None => Err(EnvError::NotFound),
        }
    }

    /// Registers an address under a name, overwriting the address a
    /// re-registered name mapped to before. The first registration becomes
    /// the current package; later ones leave the selection alone.
    pub fn register(&mut self, name: &str, address: PackageAddress)
        requires
            old(self).wf(),
        ensures
            final(self).wf(),
            final(self).packages() == old(self).packages().insert(name@, address),
            final(self).current_package() == if old(self).current_package() is Some {
                old(self).current_package()
            } else {
                Some(address)
            },
    {
        let ghost pre = self.entries@;
        if self.current.is_none() {
            self.current = Some(address);
        }
        match self.find_index(name) {
            Some(i) => {
                let entry = PackageEntry { name: name.to_owned(), address };
                proof {
                    lemma_package_map_update(pre, i as int, entry);
                }
                self.entries.set(i, entry);
            },
            None => {
                let entry = PackageEntry { name: name.to_owned(), address };
                self.entries.push(entry);
                proof {
                    assert(self.entries@.drop_last() =~= pre);
                    lemma_package_map_contains(pre, name@);
                }
            },
        }
    }

    /// Makes the package registered under the name the current one, or
    /// reports `NotFound` and changes nothing.
    pub fn select(&mut self, name: &str) -> (r: Result<(), EnvError>)
        requires
            old(self).wf(),
        ensures
            final(self).wf(),
            final(self).packages() == old(self).packages(),
            r == if old(self).packages().contains_key(name@) {
                Ok::<(), EnvError>(())
            } else {
                Err::<(), EnvError>(EnvError::NotFound)
            },
            final(self).current_package() == if old(self).packages().contains_key(name@) {
                Some(old(self).packages()[name@])
            } else {
                old(self).current_package()
            },
    {
        match self.find_index(name) {
            Some(i) => {
                proof {
                    lemma_package_map_get(self.entries@, i as int);
                }
                self.current = Some(self.entries[i].address);
                Ok(())
            },
            None => Err(EnvError::NotFound),
        }
    }

    /// The current package, or `NoCurrentPackage` when none was ever set.
    pub fn current_or_fail(&self) -> (r: Result<PackageAddress, EnvError>)
        requires
            self.wf(),
        ensures
            r == match self.current_package() {
                Some(a) => Ok::<PackageAddress, EnvError>(a),
                None => Err::<PackageAddress, EnvError>(EnvError::NoCurrentPackage),
            },
    {
        match self.current {
            Some(a) => Ok(a),
            None => Err(EnvError::NoCurrentPackage),
        }
    }
}

} // verus!
