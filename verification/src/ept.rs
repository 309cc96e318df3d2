//! Guest-physical to host-physical mappings.

use vstd::prelude::*;

use crate::sorted_map::SortedMap;

verus! {

/// What the guest may do with a page.
#[derive(Debug, Clone, Copy, PartialEq, Eq, Structural)]
pub enum EptPermissions {
    /// Read and execute; a write faults.
    ReadExecute,
    /// Read, write and execute.
    ReadWriteExecute,
}

/// The mapping of one 4 KB page.
#[derive(Debug, Clone, Copy, PartialEq, Eq, Structural)]
pub struct EptLeaf {
    /// Host-physical address.
    pub hpa: u64,
    /// Guest permissions.
    pub permissions: EptPermissions,
}

/// A mapping could not be changed.
#[derive(Debug, Clone, Copy, PartialEq, Eq, Structural)]
pub enum EptError {
    /// The page has no mapping.
    NotMapped,
}

/// The second-level page table of one VM.
pub struct EptPageTable {
    /// The pointer that selects this table.
    pub eptp: u64,
    /// Mappings by page-aligned guest-physical address.
    pub leaves: SortedMap<EptLeaf>,
}

/// What an [`EptPageTable`] holds.
#[verifier::ext_equal]
pub struct EptView {
    pub eptp: u64,
    pub leaves: Map<u64, EptLeaf>,
}

impl View for EptPageTable {
    type V = EptView;

    open spec fn view(&self) -> EptView {
        EptView { eptp: self.eptp, leaves: self.leaves@ }
    }
}

impl EptView {
    /// The mapping of a page.
    pub open spec fn lookup(self, gpa: u64) -> Option<EptLeaf> {
        if self.leaves.dom().contains(gpa) { Some(self.leaves[gpa]) } else { None }
    }

    /// The table after a page has been mapped elsewhere, and the outcome.
    pub open spec fn remap(self, gpa: u64, leaf: EptLeaf) -> (Self, Result<(), EptError>) {
        if self.leaves.dom().contains(gpa) {
            (EptView { leaves: self.leaves.insert(gpa, leaf), ..self }, Ok(()))
        } else {
            (self, Err(EptError::NotMapped))
        }
    }

    /// The table of a forked child: the same pages, none writable.
    pub open spec fn forked(self, eptp: u64) -> Self {
        EptView {
            eptp,
            leaves: self.leaves.map_values(
                |leaf: EptLeaf| EptLeaf { permissions: EptPermissions::ReadExecute, ..leaf },
            ),
        }
    }
}

impl EptPageTable {
    /// Mappings stand in address order.
    pub open spec fn wf(&self) -> bool {
        self.leaves.wf()
    }

    /// A table without mappings.
    pub fn new(eptp: u64) -> (r: Self)
        ensures
            r.wf(),
            r@ == (EptView { eptp, leaves: Map::empty() }),
    {
        EptPageTable { eptp, leaves: SortedMap::new() }
    }

    /// Map a page.
    pub fn map_4k(&mut self, gpa: u64, hpa: u64, permissions: EptPermissions)
        requires
            old(self).wf(),
        ensures
            final(self).wf(),
            final(self)@ == (EptView {
                leaves: old(self)@.leaves.insert(gpa, EptLeaf { hpa, permissions }),
                ..old(self)@
            }),
    {
        self.leaves.insert(gpa, EptLeaf { hpa, permissions });
    }

    /// The mapping of a page, if it has one.
    pub fn lookup(&self, gpa: u64) -> (r: Option<EptLeaf>)
        requires
            self.wf(),
        ensures
            r == self@.lookup(gpa),
    {
        match self.leaves.get(gpa) {
            Some(leaf) => Some(*leaf),
            None => None,
        }
    }

    /// Map a mapped page elsewhere.
    pub fn remap_4k(&mut self, gpa: u64, hpa: u64, permissions: EptPermissions) -> (r: Result<
        (),
        EptError,
    >)
        requires
            old(self).wf(),
        ensures
            final(self).wf(),
            (final(self)@, r) == old(self)@.remap(gpa, EptLeaf { hpa, permissions }),
    {
        if self.leaves.contains(gpa) {
            self.leaves.insert(gpa, EptLeaf { hpa, permissions });
            Ok(())
        } else {
            Err(EptError::NotMapped)
        }
    }

    /// The table of a forked child: every page of the parent, write-protected.
    pub fn clone_for_fork(&self, eptp: u64) -> (r: Self)
        requires
            self.wf(),
        ensures
            r.wf(),
            r@ == self@.forked(eptp),
    {
        let mut r = EptPageTable::new(eptp);
        let n: usize = self.leaves.len();
        let mut i: usize = 0;
        let ghost keys = self.leaves.spec_keys();
        while i < n
            invariant
                i <= n,
                self.wf(),
                r.wf(),
                keys == self.leaves.spec_keys(),
                n == keys.len(),
                r.eptp == eptp,
                forall|k: u64|
                    #![trigger r.leaves@.dom().contains(k)]
                    r.leaves@.dom().contains(k) <==> exists|j: int| 0 <= j < i && keys[j] == k,
                forall|k: u64|
                    #![trigger r.leaves@[k]]
                    r.leaves@.dom().contains(k) ==> r.leaves@[k] == (EptLeaf {
                        permissions: EptPermissions::ReadExecute,
                        ..self.leaves@[k]
                    }),
            decreases n - i,
        {
            let gpa: u64 = self.leaves.key_at(i);
            let leaf: &EptLeaf = self.leaves.value_at(i);
            let ghost before = r.leaves@;
            r.leaves.insert(
                gpa,
                EptLeaf { hpa: leaf.hpa, permissions: EptPermissions::ReadExecute },
            );
            proof {
                assert forall|k: u64|
                    #![trigger r.leaves@.dom().contains(k)]
                    r.leaves@.dom().contains(k) <==> exists|j: int|
                        0 <= j < i + 1 && keys[j] == k by {
                    if r.leaves@.dom().contains(k) {
                        if k == gpa {
                            assert(keys[i as int] == k);
                        } else {
                            assert(before.dom().contains(k));
                        }
                    }
                    if exists|j: int| 0 <= j < i + 1 && keys[j] == k {
                        let j = choose|j: int| 0 <= j < i + 1 && keys[j] == k;
                        if j < i {
                            assert(before.dom().contains(k));
                        }
                    }
                }
            }
            i = i + 1;
        }
        proof {
            assert forall|k: u64| r.leaves@.dom().contains(k) <==> self.leaves@.dom().contains(
                k,
            ) by {
                if self.leaves@.dom().contains(k) {
                    let j = keys.index_of(k);
                    assert(keys[j] == k);
                }
                if r.leaves@.dom().contains(k) {
                    let j = choose|j: int| 0 <= j < n && keys[j] == k;
                    self.leaves.lemma_at(j);
                }
            }
            assert(r@.leaves =~= self@.forked(eptp).leaves);
        }
        r
    }
}

/// Forking keeps every mapping and makes none writable.
pub proof fn fork_write_protects(parent: EptView, eptp: u64, gpa: u64)
    ensures
        match parent.forked(eptp).lookup(gpa) {
            Some(leaf) => parent.lookup(gpa) is Some && leaf.hpa == parent.lookup(gpa)->0.hpa
                && leaf.permissions == EptPermissions::ReadExecute,
            None => parent.lookup(gpa) is None,
        },
{
}

} // verus!
