//! Guest-physical memory as a VM sees it.

use vstd::prelude::*;

use crate::bytes;
use crate::page::PAGE_SIZE;
use crate::sorted_map;
use crate::traits::errors::MemoryError;

verus! {

/// Guest memory: the bytes a VM started from, and for a forked VM the pages it
/// has copied.
#[verifier::ext_equal]
pub struct MemView {
    /// A root VM's own memory, or what a forked VM's parent shows.
    pub base: Seq<u8>,
    /// A forked VM's own pages by address; `None` for a root VM.
    pub overlay: Option<Map<u64, Seq<u8>>>,
}

/// The address of the page that holds `gpa`.
pub open spec fn page_of(gpa: int) -> u64 {
    (gpa - gpa % (PAGE_SIZE as int)) as u64
}

impl MemView {
    /// Pages of a forked VM are whole, aligned and within the parent's memory.
    pub open spec fn wf(self) -> bool {
        &&& self.base.len() <= usize::MAX
        &&& self.overlay matches Some(pages) ==> {
            &&& self.base.len() % (PAGE_SIZE as nat) == 0
            &&& forall|k: u64| #[trigger]
                pages.dom().contains(k) ==> k % (PAGE_SIZE as u64) == 0 && k + PAGE_SIZE
                    <= self.base.len() && pages[k].len() == PAGE_SIZE
        }
    }

    /// The page at `page` is this VM's own copy.
    pub open spec fn owns(self, page: u64) -> bool {
        self.overlay matches Some(pages) && pages.dom().contains(page)
    }

    /// The byte at `a`.
    pub open spec fn byte(self, a: int) -> u8 {
        match self.overlay {
            Some(pages) => if pages.dom().contains(page_of(a)) {
                pages[page_of(a)][a % (PAGE_SIZE as int)]
            } else {
                self.base[a]
            },
            None => self.base[a],
        }
    }

    /// The `n` bytes from `gpa` on.
    pub open spec fn bytes_at(self, gpa: int, n: nat) -> Seq<u8> {
        Seq::new(n, |i: int| self.byte(gpa + i))
    }

    /// All of memory.
    pub open spec fn flat(self) -> Seq<u8> {
        self.bytes_at(0, self.base.len())
    }

    /// A read of `n` bytes at `gpa` succeeds. A forked VM looks up the first
    /// page even to read nothing.
    pub open spec fn readable(self, gpa: int, n: nat) -> bool {
        gpa + n <= self.base.len() && (self.overlay is Some ==> gpa < self.base.len())
    }

    /// The memory with `data` at `off` within an owned page.
    pub open spec fn with_page_data(self, page: u64, off: int, data: Seq<u8>) -> Self {
        let pages = self.overlay->0;
        MemView {
            overlay: Some(pages.insert(page, bytes::overwrite(pages[page], off, data))),
            ..self
        }
    }

    /// The memory after a write, and its outcome. A forked VM writes page by
    /// page and stops at the first page it does not own.
    pub open spec fn put(self, gpa: int, data: Seq<u8>) -> (Self, Result<(), MemoryError>)
        decreases data.len(),
    {
        match self.overlay {
            None => if gpa + data.len() <= self.base.len() {
                (MemView { base: bytes::overwrite(self.base, gpa, data), ..self }, Ok(()))
            } else {
                (self, Err(MemoryError::OutOfRange))
            },
            Some(_) => {
                let off = gpa % (PAGE_SIZE as int);
                let room = PAGE_SIZE - off;
                let page = page_of(gpa);
                if !self.owns(page) {
                    (self, Err(MemoryError::PermissionDenied))
                } else if data.len() <= room {
                    (self.with_page_data(page, off, data), Ok(()))
                } else {
                    self.with_page_data(page, off, data.take(room)).put(
                        page + PAGE_SIZE,
                        data.skip(room),
                    )
                }
            },
        }
    }

    /// The bytes a memory fingerprint covers: all of a root VM's memory, but
    /// only the pages a forked VM owns, each behind its address.
    pub open spec fn hash_input(self) -> Seq<u8> {
        match self.overlay {
            None => self.base,
            Some(pages) => pages_input(sorted_map::ascending_keys(pages.dom()), pages),
        }
    }

    /// The memory after the page at `page` has been copied from the parent.
    pub open spec fn with_copy(self, page: u64) -> Self {
        MemView {
            overlay: Some(
                self.overlay->0.insert(page, self.base.subrange(page as int, page + PAGE_SIZE)),
            ),
            ..self
        }
    }
}

/// The pages at `keys`, each behind its address.
pub open spec fn pages_input(keys: Seq<u64>, pages: Map<u64, Seq<u8>>) -> Seq<u8>
    decreases keys.len(),
{
    if keys.len() == 0 {
        Seq::empty()
    } else {
        pages_input(keys.drop_last(), pages) + bytes::le64(keys.last()) + pages[keys.last()]
    }
}

/// A successful write changes exactly the written bytes; any write keeps the
/// parent's memory and the set of owned pages of a forked VM.
pub proof fn write_changes_written_bytes(m: MemView, gpa: int, data: Seq<u8>)
    requires
        m.wf(),
        0 <= gpa <= u64::MAX,
    ensures
        m.put(gpa, data).0.wf(),
        m.put(gpa, data).0.base.len() == m.base.len(),
        m.overlay is Some ==> m.put(gpa, data).0.base == m.base && m.put(gpa, data).0.overlay is Some
            && m.put(gpa, data).0.overlay->0.dom() == m.overlay->0.dom(),
        m.overlay is None ==> m.put(gpa, data).0.overlay is None,
        m.put(gpa, data).1 is Ok ==> gpa + data.len() <= m.base.len(),
        m.put(gpa, data).1 is Ok ==> forall|a: int|
            0 <= a < m.base.len() ==> #[trigger] m.put(gpa, data).0.byte(a) == (if gpa <= a < gpa
                + data.len() {
                data[a - gpa]
            } else {
                m.byte(a)
            }),
    decreases data.len(),
{
    match m.overlay {
        None => {},
        Some(pages) => {
            let off = gpa % (PAGE_SIZE as int);
            let room = PAGE_SIZE - off;
            let page = page_of(gpa);
            if m.owns(page) {
                assert(page == gpa - off);
                let piece = if data.len() <= room { data } else { data.take(room) };
                let m1 = m.with_page_data(page, off, piece);
                assert(m1.overlay->0.dom() =~= pages.dom());
                assert(m1.wf());
                assert forall|a: int| 0 <= a < m.base.len() implies #[trigger] m1.byte(a) == (if gpa
                    <= a < gpa + piece.len() {
                    piece[a - gpa]
                } else {
                    m.byte(a)
                }) by {
                    if page_of(a) == page {
                    }
                }
                if data.len() > room {
                    write_changes_written_bytes(m1, page + PAGE_SIZE, data.skip(room));
                }
            }
        },
    }
}

/// What was written can be read back.
pub proof fn write_then_read(m: MemView, gpa: int, data: Seq<u8>)
    requires
        m.wf(),
        0 <= gpa <= u64::MAX,
        m.put(gpa, data).1 is Ok,
        m.readable(gpa, data.len()),
    ensures
        m.put(gpa, data).0.readable(gpa, data.len()),
        m.put(gpa, data).0.bytes_at(gpa, data.len()) == data,
{
    write_changes_written_bytes(m, gpa, data);
    assert(m.put(gpa, data).0.bytes_at(gpa, data.len()) =~= data);
}

/// Copying a page changes nothing the VM can read.
pub proof fn copying_a_page_keeps_contents(m: MemView, page: u64)
    requires
        m.wf(),
        m.overlay is Some,
        page % (PAGE_SIZE as u64) == 0,
        page + PAGE_SIZE <= m.base.len(),
        !m.owns(page),
    ensures
        m.with_copy(page).wf(),
        m.with_copy(page).owns(page),
        m.with_copy(page).flat() == m.flat(),
{
    let after = m.with_copy(page);
    assert forall|a: int| 0 <= a < m.base.len() implies after.byte(a) == m.byte(a) by {
        if page_of(a) == page {
        }
    }
    assert(after.flat() =~= m.flat());
}

} // verus!
