//! The state introspection walker.
//!
//! The ledger exposes a component's state only as opaque encoded
//! substates, so balances are not a first-level queryable concept. The
//! walker starts from a component's node, follows the ownership
//! references that its substates embed — however deeply vaults are nested
//! in records, collections or key-value stores — and reads the resource
//! and amount out of every vault it reaches. A visited set guards against
//! reference cycles, and a node budget bounds the walk even on a
//! degenerate store.
//!
//! When several reachable vaults hold the same resource, the balance
//! snapshot keeps one entry per resource and the vault found last wins.
//! This overwrite rule is a deliberate simplification, stated exactly by
//! [`dedup_spec`] and proved of [`dedup_balances`].

use vstd::prelude::*;

use radix_common::math::Decimal;
use radix_common::types::ResourceAddress;
use radix_substate_store_impls::memory_db::InMemorySubstateDatabase;

use crate::ledger::node_child_refs;
use crate::ledger::resource_eq;
use crate::ledger::vault_info;

verus! {

/// How many nodes one walk will look at before giving up; a guard
/// against a degenerate store, far above what any test component holds.
pub const WALK_NODE_BUDGET: usize = 65536;

/// A point-in-time reading of one vault: the resource it holds and how
/// much of it was in the vault when the walker passed.
#[derive(Clone, Copy, Debug)]
pub struct VaultSnapshot {
    /// The address of the resource the vault holds.
    pub resource: ResourceAddress,
    /// The amount that was in the vault.
    pub amount: Decimal,
}

/// Whether some entry reads the given resource.
pub open spec fn has_resource(s: Seq<VaultSnapshot>, r: ResourceAddress) -> bool {
    exists|i: int| 0 <= i < s.len() && s[i].resource == r
}

/// No two entries read the same resource.
pub open spec fn distinct_resources(s: Seq<VaultSnapshot>) -> bool {
    forall|i: int, j: int| 0 <= i < j < s.len() ==> s[i].resource != s[j].resource
}

/// Every entry reading `v`'s resource replaced by `v`; the rest kept.
pub open spec fn overwrite_amount(s: Seq<VaultSnapshot>, v: VaultSnapshot) -> Seq<VaultSnapshot> {
    s.map_values(|e: VaultSnapshot| if e.resource == v.resource { v } else { e })
}

/// The balance snapshot that a sequence of vault readings denotes: one
/// entry per resource, in the order the resources were first seen, each
/// carrying the amount of the reading seen last.
pub open spec fn dedup_spec(s: Seq<VaultSnapshot>) -> Seq<VaultSnapshot>
    decreases s.len(),
{
    if s.len() == 0 {
        Seq::empty()
    } else {
        let d = dedup_spec(s.drop_last());
        if has_resource(d, s.last().resource) {
            overwrite_amount(d, s.last())
        } else {
            d.push(s.last())
        }
    }
}

/// The amount recorded for the resource by the reading seen last, if the
/// resource was read at all.
pub open spec fn lookup_spec(s: Seq<VaultSnapshot>, r: ResourceAddress) -> Option<Decimal>
    decreases s.len(),
{
    if s.len() == 0 {
        None
    } else if s.last().resource == r {
        Some(s.last().amount)
    } else {
        lookup_spec(s.drop_last(), r)
    }
}

/// However the vault readings came out of the walk, the snapshot they
/// denote is a mapping: it never reads one resource twice.
pub proof fn lemma_dedup_distinct(s: Seq<VaultSnapshot>)
    ensures
        distinct_resources(dedup_spec(s)),
    decreases s.len(),
{
    if s.len() > 0 {
        lemma_dedup_distinct(s.drop_last());
        let d = dedup_spec(s.drop_last());
        if has_resource(d, s.last().resource) {
            let o = overwrite_amount(d, s.last());
            assert forall|i: int, j: int| 0 <= i < j < o.len() implies o[i].resource
                != o[j].resource by {
                assert(o[i].resource == d[i].resource);
                assert(o[j].resource == d[j].resource);
            }
        }
    }
}

/// Equality of two byte strings.
fn bytes_eq(a: &Vec<u8>, b: &Vec<u8>) -> (r: bool)
    ensures
        r == (a@ == b@),
{
    if a.len() != b.len() {
        return false;
    }
    let mut i: usize = 0;
    while i < a.len()
        invariant
            i <= a@.len(),
            a@.len() == b@.len(),
            forall|j: int| 0 <= j < i ==> a@[j] == b@[j],
        decreases a@.len() - i,
    {
        if a[i] != b[i] {
            return false;
        }
        i = i + 1;
    }
    proof {
        assert(a@ =~= b@);
    }
    true
}

/// Whether the byte string is among the collected ones.
fn contains_bytes(v: &Vec<Vec<u8>>, x: &Vec<u8>) -> (r: bool)
    ensures
        r == exists|i: int| 0 <= i < v@.len() && v@[i]@ == x@,
{
    let mut i: usize = 0;
    while i < v.len()
        invariant
            i <= v@.len(),
            forall|j: int| 0 <= j < i ==> v@[j]@ != x@,
        decreases v@.len() - i,
    {
        if bytes_eq(&v[i], x) {
            assert(v@[i as int]@ == x@);
            return true;
        }
        i = i + 1;
    }
    false
}

/// Walks the ownership tree under `root` and reads every vault reached,
/// in the order the walk found them, nested vaults included. Nodes
/// already seen are not entered again, so a cyclic store cannot hang the
/// walk.
pub(crate) fn collect_vault_readings(db: &InMemorySubstateDatabase, root: Vec<u8>) -> Vec<
    VaultSnapshot,
>
    requires
        root@.len() == 30,
{
    let mut pending: Vec<Vec<u8>> = Vec::new();
    let mut visited: Vec<Vec<u8>> = Vec::new();
    let mut found: Vec<VaultSnapshot> = Vec::new();
    let mut budget: usize = WALK_NODE_BUDGET;
    pending.push(root);
    while pending.len() > 0 && budget > 0
        invariant
            forall|i: int| 0 <= i < pending@.len() ==> pending@[i]@.len() == 30,
        decreases budget,
    {
        budget = budget - 1;
        let node = pending.pop().unwrap();
        if contains_bytes(&visited, &node) {
            continue;
        }
        match vault_info(db, &node) {
            Some((resource, amount)) => {
                found.push(VaultSnapshot { resource, amount });
            },
            None => {
                let mut kids = node_child_refs(db, &node);
                while kids.len() > 0
                    invariant
                        forall|i: int| 0 <= i < pending@.len() ==> pending@[i]@.len() == 30,
                        forall|i: int| 0 <= i < kids@.len() ==> kids@[i]@.len() == 30,
                    decreases kids@.len(),
                {
                    let k = kids.pop().unwrap();
                    pending.push(k);
                }
            },
        }
        visited.push(node);
    }
    found
}

/// The first entry reading the resource, if any.
fn find_resource(entries: &Vec<VaultSnapshot>, r: &ResourceAddress) -> (res: Option<usize>)
    ensures
        match res {
            Some(j) => j < entries@.len() && entries@[j as int].resource == *r,
            None => !has_resource(entries@, *r),
        },
{
    let mut i: usize = 0;
    while i < entries.len()
        invariant
            i <= entries@.len(),
            forall|j: int| 0 <= j < i ==> entries@[j].resource != *r,
        decreases entries@.len() - i,
    {
        if resource_eq(&entries[i].resource, r) {
            return Some(i);
        }
        i = i + 1;
    }
    None
}

/// Folds raw vault readings into the balance snapshot they denote: one
/// entry per resource, later readings of a resource overwriting the
/// amount of earlier ones, exactly as [`dedup_spec`] says.
pub fn dedup_balances(entries: Vec<VaultSnapshot>) -> (out: Vec<VaultSnapshot>)
    ensures
        out@ == dedup_spec(entries@),
        distinct_resources(out@),
{
    let mut out: Vec<VaultSnapshot> = Vec::new();
    let mut i: usize = 0;
    while i < entries.len()
        invariant
            i <= entries@.len(),
            out@ == dedup_spec(entries@.take(i as int)),
            distinct_resources(out@),
        decreases entries@.len() - i,
    {
        let e = entries[i];
        proof {
            assert(entries@.take(i + 1 as int).drop_last() =~= entries@.take(i as int));
            assert(entries@.take(i + 1 as int).last() == entries@[i as int]);
        }
        match find_resource(&out, &e.resource) {
            Some(j) => {
                let ghost pre = out@;
                out.set(j, e);
                proof {
                    assert forall|k: int| 0 <= k < pre.len() implies out@[k] == overwrite_amount(
                        pre,
                        e,
                    )[k] by {
                        if k != j {
                            assert(pre[k].resource != pre[j as int].resource);
                        }
                    }
                    assert(out@ =~= overwrite_amount(pre, e));
                }
            },
            None => {
                out.push(e);
            },
        }
        i = i + 1;
    }
    proof {
        assert(entries@.take(entries@.len() as int) =~= entries@);
    }
    out
}

/// The amount the snapshot records for the resource, if it records one.
pub fn balance_of(entries: &Vec<VaultSnapshot>, resource: &ResourceAddress) -> (r: Option<
    Decimal,
>)
    ensures
        r == lookup_spec(entries@, *resource),
{
    let mut i: usize = entries.len();
    proof {
        assert(entries@.take(i as int) =~= entries@);
    }
    while i > 0
        invariant
            i <= entries@.len(),
            lookup_spec(entries@, *resource) == lookup_spec(entries@.take(i as int), *resource),
        decreases i,
    {
        i = i - 1;
        proof {
            assert(entries@.take(i + 1 as int).drop_last() =~= entries@.take(i as int));
            assert(entries@.take(i + 1 as int).last() == entries@[i as int]);
        }
        if resource_eq(&entries[i].resource, resource) {
            return Some(entries[i].amount);
        }
    }
    None
}

} // verus!
