//! A keyed collection of lockfile entries, the unit that later stages merge.

use crate::local_package::LocalPackage;
use crate::lock::{LockfilePackage, PackageKey};
use crate::manifest::Version;
use vstd::prelude::*;

verus! {

/// Lockfile entries, at most one per package key.
#[derive(Clone, Debug)]
pub struct LockfilePackages {
    pub packages: Vec<(PackageKey, LockfilePackage)>,
}

impl LockfilePackages {
    /// No two entries share a key.
    pub open spec fn wf(&self) -> bool {
        forall|i: int, j: int|
            0 <= i < j < self.packages@.len() ==> (#[trigger] self.packages@[i]).0@
                != (#[trigger] self.packages@[j]).0@
    }

    /// Whether some entry has the key `key`.
    pub open spec fn has_key(&self, key: (Seq<char>, Version)) -> bool {
        exists|i: int| 0 <= i < self.packages@.len() && (#[trigger] self.packages@[i]).0@ == key
    }

    /// The entries as a map from key to package.
    pub open spec fn to_map(&self) -> Map<(Seq<char>, Version), LockfilePackage> {
        Map::new(
            |key: (Seq<char>, Version)| self.has_key(key),
            |key: (Seq<char>, Version)|
                self.packages@[choose|i: int|
                    0 <= i < self.packages@.len() && (#[trigger] self.packages@[i]).0@ == key].1,
        )
    }

    /// The collection that holds `local` alone.
    pub fn from_local_package(local: LocalPackage) -> (r: LockfilePackages)
        ensures
            r.wf(),
            r.packages@.len() == 1,
            r.packages@[0].0@ == local.key@,
            r.packages@[0].1 == local.data,
            r.to_map() == map![local.key@ => local.data],
    {
        let ghost key = local.key@;
        let ghost data = local.data;
        let mut packages: Vec<(PackageKey, LockfilePackage)> = Vec::new();
        packages.push((local.key, local.data));
        let r = LockfilePackages { packages };
        assert(r.packages@[0].0@ == key);
        assert(r.has_key(key));
        assert(r.to_map() =~= map![key => data]);
        r
    }

    /// The number of entries.
    pub fn len(&self) -> (r: usize)
        ensures
            r == self.packages@.len(),
    {
        self.packages.len()
    }

    /// The package stored under `key`, if any.
    pub fn get(&self, key: &PackageKey) -> (r: Option<&LockfilePackage>)
        requires
            self.wf(),
        ensures
            match r {
                Some(p) => self.to_map().contains_key(key@) && *p == self.to_map()[key@],
                None => !self.to_map().contains_key(key@),
            },
    {
        let mut i: usize = 0;
        while i < self.packages.len()
            invariant
                i <= self.packages@.len(),
                self.wf(),
                forall|j: int| 0 <= j < i ==> (#[trigger] self.packages@[j]).0@ != key@,
            decreases self.packages@.len() - i,
        {
            if self.packages[i].0 == *key {
                assert(self.has_key(key@));
                let ghost c = choose|j: int|
                    0 <= j < self.packages@.len() && (#[trigger] self.packages@[j]).0@ == key@;
                assert(c == i as int) by {
                    if c < i {
                    } else if c > i {
                        assert(self.packages@[i as int].0@ != self.packages@[c].0@);
                    }
                }
                return Some(&self.packages[i].1);
            }
            i += 1;
        }
        None
    }
}

impl From<LocalPackage> for LockfilePackages {
    fn from(local: LocalPackage) -> (r: LockfilePackages)
        ensures
            r.wf(),
            r.packages@.len() == 1,
            r.to_map() == map![local.key@ => local.data],
    {
        LockfilePackages::from_local_package(local)
    }
}

/// Two collections with the same entries need not be equal as values, so
/// `from` is not promised to return one fixed value; its own `ensures` says
/// which entries the result holds.
impl vstd::std_specs::convert::FromSpecImpl<LocalPackage> for LockfilePackages {
    open spec fn obeys_from_spec() -> bool {
        false
    }

    open spec fn from_spec(v: LocalPackage) -> LockfilePackages {
        choose|r: LockfilePackages| r.wf() && r.to_map() == map![v.key@ => v.data]
    }
}

} // verus!
