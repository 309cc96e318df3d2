//! Host pages and the pool they come from.

use vstd::prelude::*;

use crate::bytes;

verus! {

/// Size of a page in bytes.
pub const PAGE_SIZE: usize = 4096;

/// One host page.
pub struct Page {
    /// Host-physical address.
    pub phys: u64,
    /// Host-virtual address.
    pub virt: u64,
    /// Contents.
    pub bytes: Box<[u8; 4096]>,
}

impl Page {
    /// A page whose contents are a copy of `src`.
    pub fn copy_of(frame: (u64, u64), src: &[u8; 4096]) -> (p: Self)
        ensures
            p == (Page { phys: frame.0, virt: frame.1, bytes: Box::new(*src) }),
    {
        Page { phys: frame.0, virt: frame.1, bytes: Box::new(*src) }
    }
}

/// Free host frames as `(physical, virtual)` address pairs. The pool's owner
/// refills it where it may sleep; taking a frame never sleeps.
pub struct PagePool {
    pub frames: Vec<(u64, u64)>,
}

impl PagePool {
    /// An empty pool.
    pub fn new() -> (r: Self)
        ensures
            r.frames@.len() == 0,
    {
        PagePool { frames: Vec::new() }
    }

    /// Add a frame to the pool.
    pub fn refill(&mut self, phys: u64, virt: u64)
        ensures
            final(self).frames@ == old(self).frames@.push((phys, virt)),
    {
        self.frames.push((phys, virt));
    }

    /// Take a frame for a copy-on-write page, or `None` if the pool is empty.
    pub fn allocate_cow_page(&mut self) -> (r: Option<(u64, u64)>)
        ensures
            old(self).frames@.len() == 0 ==> r is None && final(self).frames@ == old(self).frames@,
            old(self).frames@.len() > 0 ==> r == Some(old(self).frames@.last()) && final(
                self
            ).frames@ == old(self).frames@.drop_last(),
    {
        self.frames.pop()
    }

    /// Take a frame as a zeroed page, or `None` if the pool is empty.
    pub fn alloc_zeroed_page(&mut self) -> (r: Option<Page>)
        ensures
            old(self).frames@.len() == 0 ==> r is None && final(self).frames@ == old(self).frames@,
            old(self).frames@.len() > 0 ==> r is Some && r->0.phys == old(self).frames@.last().0
                && r->0.virt == old(self).frames@.last().1 && r->0.bytes@ == bytes::zeros(
                PAGE_SIZE as nat,
            ) && final(self).frames@ == old(self).frames@.drop_last(),
    {
        match self.frames.pop() {
            Some(frame) => {
                let page = Page { phys: frame.0, virt: frame.1, bytes: Box::new([0u8; 4096]) };
                assert(page.bytes@ =~= bytes::zeros(PAGE_SIZE as nat));
                Some(page)
            },
            None => None,
        }
    }
}

} // verus!
