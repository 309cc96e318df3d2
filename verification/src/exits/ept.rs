//! Guest page-table walks and EPT violations.

use vstd::prelude::*;

use crate::bytes;
use crate::bytes::read_u64;
use crate::feedback::FEEDBACK_BUFFER_MAX_PAGES;
use crate::fields::VmcsFieldNatural;
use crate::memory::MemView;
use crate::traits::vm_context::{VmContext, VmView};

verus! {

/// Address bits of a page-table entry.
pub const PTE_ADDR_MASK: u64 = 0x000F_FFFF_FFFF_F000;

/// Address bits of an entry that maps 1 GB.
pub const PTE_ADDR_MASK_1G: u64 = 0x000F_FFFF_C000_0000;

/// Address bits of an entry that maps 2 MB.
pub const PTE_ADDR_MASK_2M: u64 = 0x000F_FFFF_FFE0_0000;

/// The entry of the page table at `table` that `gva` selects at the level
/// whose index starts at bit `shift`, if it can be read and is present.
pub open spec fn table_entry(mem: MemView, table: u64, gva: u64, shift: u64) -> Option<u64> {
    let at = (table & PTE_ADDR_MASK) + ((gva >> shift) & 0x1FF) * 8;
    if !mem.readable(at, 8) {
        None
    } else {
        let entry = bytes::word64(mem.bytes_at(at, 8), 0);
        if entry & 1 == 0 { None } else { Some(entry) }
    }
}

/// The entry maps a large page.
pub open spec fn is_large(entry: u64) -> bool {
    entry & 0x80 != 0
}

/// The guest-physical address that the tables at `cr3` give for `gva`.
#[verifier::opaque]
pub open spec fn walk(mem: MemView, cr3: u64, gva: u64) -> Option<u64> {
    match table_entry(mem, cr3, gva, 39) {
        None => None,
        Some(pml4e) => match table_entry(mem, pml4e, gva, 30) {
            None => None,
            Some(pdpte) => if is_large(pdpte) {
                Some((pdpte & PTE_ADDR_MASK_1G) | (gva & 0x3FFF_FFFF))
            } else {
                match table_entry(mem, pdpte, gva, 21) {
                    None => None,
                    Some(pde) => if is_large(pde) {
                        Some((pde & PTE_ADDR_MASK_2M) | (gva & 0x1F_FFFF))
                    } else {
                        match table_entry(mem, pde, gva, 12) {
                            None => None,
                            Some(pte) => Some((pte & PTE_ADDR_MASK) | (gva & 0xFFF)),
                        }
                    },
                }
            },
        },
    }
}

impl VmView {
    /// The guest-physical address of `gva` under the current page tables.
    pub open spec fn translate(self, gva: u64) -> Option<u64> {
        match self.state.vmcs.get_natural(VmcsFieldNatural::GuestCr3) {
            Ok(cr3) => walk(self.mem, cr3, gva),
            Err(_) => None,
        }
    }

    /// The guest-physical page of the `i`-th page of the range at `gva`.
    pub open spec fn translate_page(self, gva: u64, i: int) -> Option<u64> {
        match self.translate(page_gva(gva, i)) {
            Some(gpa) => Some((gpa - gpa % 4096) as u64),
            None => None,
        }
    }
}

/// Linear address of the `i`-th page of the range at `gva`.
pub open spec fn page_gva(gva: u64, i: int) -> u64 {
    ((gva - gva % 4096) as u64).wrapping_add((4096 * i) as u64)
}

/// Number of pages that `size` bytes at `gva` touch.
pub open spec fn pages_spanned(gva: u64, size: u64) -> int {
    (gva % 4096 + size + 4095) / 4096
}

/// Read a present page-table entry.
fn read_entry<C: VmContext>(ctx: &C, table: u64, gva: u64, shift: u64) -> (r: Option<u64>)
    requires
        ctx.wf(),
        shift < 64,
    ensures
        r == table_entry(ctx.vm().mem, table, gva, shift),
{
    let base: u64 = table & PTE_ADDR_MASK;
    let index: u64 = (gva >> shift) & 0x1FF;
    assert(base <= 0x000F_FFFF_FFFF_F000 && index <= 0x1FF) by (bit_vector)
        requires
            base == table & PTE_ADDR_MASK,
            index == (gva >> shift) & 0x1FF,
    ;
    let mut buf: [u8; 8] = [0u8; 8];
    match ctx.read_guest_memory(base + index * 8, &mut buf) {
        Ok(_) => {},
        Err(_) => {
            return None;
        },
    }
    let entry: u64 = read_u64(&buf, 0);
    if entry & 1 == 0 {
        None
    } else {
        Some(entry)
    }
}

/// Translate a guest linear address by walking the guest's page tables.
pub fn translate_gva_to_gpa<C: VmContext>(ctx: &C, gva: u64) -> (r: Result<u64, ()>)
    requires
        ctx.wf(),
    ensures
        match ctx.vm().translate(gva) {
            Some(gpa) => r == Ok::<u64, ()>(gpa),
            None => r == Err::<u64, ()>(()),
        },
{
    reveal(walk);
    let cr3: u64 = match ctx.state().vmcs.read_natural(VmcsFieldNatural::GuestCr3) {
        Ok(v) => v,
        Err(_) => {
            return Err(());
        },
    };
    let pml4e: u64 = match read_entry(ctx, cr3, gva, 39) {
        Some(e) => e,
        None => {
            return Err(());
        },
    };
    let pdpte: u64 = match read_entry(ctx, pml4e, gva, 30) {
        Some(e) => e,
        None => {
            return Err(());
        },
    };
    if pdpte & 0x80 != 0 {
        return Ok((pdpte & PTE_ADDR_MASK_1G) | (gva & 0x3FFF_FFFF));
    }
    let pde: u64 = match read_entry(ctx, pdpte, gva, 21) {
        Some(e) => e,
        None => {
            return Err(());
        },
    };
    if pde & 0x80 != 0 {
        return Ok((pde & PTE_ADDR_MASK_2M) | (gva & 0x1F_FFFF));
    }
    match read_entry(ctx, pde, gva, 12) {
        Some(pte) => Ok((pte & PTE_ADDR_MASK) | (gva & 0xFFF)),
        None => Err(()),
    }
}

/// Translate every page of the range at `gva` into `gpas` and give their
/// number. Fails if a page is not mapped or the range has too many pages.
pub fn translate_gva_range_to_gpas<C: VmContext>(
    ctx: &C,
    gva: u64,
    size: u64,
    gpas: &mut [u64; 256],
) -> (r: Result<usize, ()>)
    requires
        ctx.wf(),
    ensures
        ({
            let n = pages_spanned(gva, size);
            if n <= FEEDBACK_BUFFER_MAX_PAGES && (forall|i: int|
                0 <= i < n ==> #[trigger] ctx.vm().translate_page(gva, i) is Some) {
                &&& r == Ok::<usize, ()>(n as usize)
                &&& forall|i: int|
                    0 <= i < n ==> ctx.vm().translate_page(gva, i) == Some(#[trigger] final(gpas)@[i])
                &&& forall|i: int|
                    n <= i < FEEDBACK_BUFFER_MAX_PAGES ==> #[trigger] final(gpas)@[i] == old(gpas)@[i]
            } else {
                r == Err::<usize, ()>(())
            }
        }),
{
    if size > 0x20_0000 {
        return Err(());
    }
    let n: usize = ((gva % 4096 + size + 4095) / 4096) as usize;
    if n > FEEDBACK_BUFFER_MAX_PAGES {
        return Err(());
    }
    let start: u64 = gva - gva % 4096;
    let mut i: usize = 0;
    while i < n
        invariant
            i <= n <= FEEDBACK_BUFFER_MAX_PAGES,
            ctx.wf(),
            start == gva - gva % 4096,
            n == pages_spanned(gva, size),
            forall|k: int|
                0 <= k < i ==> ctx.vm().translate_page(gva, k) == Some(#[trigger] gpas@[k]),
            forall|k: int|
                i <= k < FEEDBACK_BUFFER_MAX_PAGES ==> #[trigger] gpas@[k] == old(gpas)@[k],
        decreases n - i,
    {
        let page: u64 = start.wrapping_add(4096 * (i as u64));
        assert(page == page_gva(gva, i as int));
        match translate_gva_to_gpa(ctx, page) {
            Ok(gpa) => {
                gpas[i] = gpa - gpa % 4096;
            },
            Err(_) => {
                assert(ctx.vm().translate_page(gva, i as int) is None);
                return Err(());
            },
        }
        i = i + 1;
    }
    assert forall|k: int| 0 <= k < n implies #[trigger] ctx.vm().translate_page(
        gva,
        k,
    ) is Some by {
        assert(ctx.vm().translate_page(gva, k) == Some(gpas@[k]));
    }
    Ok(n)
}

/// The frame that a table entry, or CR3, names: bits 51 to 12.
pub open spec fn frame_of(entry: u64) -> int {
    entry as int / 4096 % 0x100_0000_0000 * 4096
}

/// The table in the frame that `table` names has `entry` in its slot `index`.
pub open spec fn holds_entry(mem: MemView, table: u64, index: int, entry: u64) -> bool {
    let at = frame_of(table) + 8 * index;
    mem.readable(at, 8) && mem.bytes_at(at, 8) == bytes::le64(entry)
}

/// The entry points to the next table.
pub open spec fn points_on(entry: u64) -> bool {
    entry % 2 == 1 && entry / 128 % 2 == 0
}

/// The entry maps a large page.
pub open spec fn maps_large(entry: u64) -> bool {
    entry % 2 == 1 && entry / 128 % 2 == 1
}

proof fn lemma_entry_bits(e: u64, gva: u64)
    by (bit_vector)
    ensures
        e & 0x000F_FFFF_FFFF_F000 == e / 4096 % 0x100_0000_0000 * 4096,
        e & 1 == e % 2,
        e & 0x80 != 0 <==> e / 128 % 2 == 1,
        (gva >> 39) & 0x1FF == gva / 0x80_0000_0000 % 512,
        (gva >> 30) & 0x1FF == gva / 0x4000_0000 % 512,
        (gva >> 21) & 0x1FF == gva / 0x20_0000 % 512,
        (gva >> 12) & 0x1FF == gva / 0x1000 % 512,
        (e & 0x000F_FFFF_FFFF_F000) | (gva & 0xFFF) == e / 4096 % 0x100_0000_0000 * 4096 + gva
            % 4096,
        (e & 0x000F_FFFF_FFE0_0000) | (gva & 0x1F_FFFF) == e / 0x20_0000 % 0x8000_0000 * 0x20_0000
            + gva % 0x20_0000,
        (e & 0x000F_FFFF_C000_0000) | (gva & 0x3FFF_FFFF) == e / 0x4000_0000 % 0x40_0000
            * 0x4000_0000 + gva % 0x4000_0000,
{
}

proof fn lemma_entry_read(mem: MemView, table: u64, gva: u64, shift: u64, index: int, entry: u64)
    requires
        holds_entry(mem, table, index, entry),
        index == ((gva >> shift) & 0x1FF),
    ensures
        table_entry(mem, table, gva, shift) == if entry % 2 == 1 {
            Some(entry)
        } else {
            None
        },
{
    lemma_entry_bits(table, gva);
    lemma_entry_bits(entry, gva);
    let at = frame_of(table) + 8 * index;
    let b = mem.bytes_at(at, 8);
    bytes::le64_of_word64(b, 0);
    assert(b.subrange(0, 8) =~= b);
    bytes::le64_injective(bytes::word64(b, 0), entry);
}

/// An address that four tables map lies in the frame of the last entry, at the
/// offset it has in its page.
pub proof fn walk_of_small_page(
    mem: MemView,
    cr3: u64,
    gva: u64,
    pml4e: u64,
    pdpte: u64,
    pde: u64,
    pte: u64,
)
    requires
        holds_entry(mem, cr3, gva as int / 0x80_0000_0000 % 512, pml4e),
        holds_entry(mem, pml4e, gva as int / 0x4000_0000 % 512, pdpte),
        holds_entry(mem, pdpte, gva as int / 0x20_0000 % 512, pde),
        holds_entry(mem, pde, gva as int / 0x1000 % 512, pte),
        pml4e % 2 == 1,
        points_on(pdpte),
        points_on(pde),
        pte % 2 == 1,
    ensures
        walk(mem, cr3, gva) is Some,
        walk(mem, cr3, gva)->0 == frame_of(pte) + gva % 4096,
{
    reveal(walk);
    lemma_entry_bits(pdpte, gva);
    lemma_entry_bits(pde, gva);
    lemma_entry_bits(pte, gva);
    lemma_entry_read(mem, cr3, gva, 39, gva as int / 0x80_0000_0000 % 512, pml4e);
    lemma_entry_read(mem, pml4e, gva, 30, gva as int / 0x4000_0000 % 512, pdpte);
    lemma_entry_read(mem, pdpte, gva, 21, gva as int / 0x20_0000 % 512, pde);
    lemma_entry_read(mem, pde, gva, 12, gva as int / 0x1000 % 512, pte);
}

/// An address on a large page lies at its offset within the 2 MB or 1 GB that the
/// large entry maps.
pub proof fn walk_of_large_page(mem: MemView, cr3: u64, gva: u64, pml4e: u64, pdpte: u64, pde: u64)
    requires
        holds_entry(mem, cr3, gva as int / 0x80_0000_0000 % 512, pml4e),
        holds_entry(mem, pml4e, gva as int / 0x4000_0000 % 512, pdpte),
        pml4e % 2 == 1,
        maps_large(pdpte) || (points_on(pdpte) && holds_entry(
            mem,
            pdpte,
            gva as int / 0x20_0000 % 512,
            pde,
        ) && maps_large(pde)),
    ensures
        walk(mem, cr3, gva) is Some,
        maps_large(pdpte) ==> walk(mem, cr3, gva)->0 == pdpte as int / 0x4000_0000 % 0x40_0000
            * 0x4000_0000 + gva % 0x4000_0000,
        points_on(pdpte) ==> walk(mem, cr3, gva)->0 == pde as int / 0x20_0000 % 0x8000_0000
            * 0x20_0000 + gva % 0x20_0000,
{
    reveal(walk);
    lemma_entry_bits(pdpte, gva);
    lemma_entry_bits(pde, gva);
    lemma_entry_read(mem, cr3, gva, 39, gva as int / 0x80_0000_0000 % 512, pml4e);
    lemma_entry_read(mem, pml4e, gva, 30, gva as int / 0x4000_0000 % 512, pdpte);
    if points_on(pdpte) {
        lemma_entry_read(mem, pdpte, gva, 21, gva as int / 0x20_0000 % 512, pde);
    }
}

/// An entry that is not present, at whatever level the walk meets it, leaves the
/// address unmapped.
pub proof fn walk_stops_at_absent_entry(
    mem: MemView,
    cr3: u64,
    gva: u64,
    pml4e: u64,
    pdpte: u64,
    pde: u64,
    pte: u64,
)
    requires
        holds_entry(mem, cr3, gva as int / 0x80_0000_0000 % 512, pml4e),
        pml4e % 2 == 1 ==> holds_entry(mem, pml4e, gva as int / 0x4000_0000 % 512, pdpte),
        pml4e % 2 == 1 && points_on(pdpte) ==> holds_entry(
            mem,
            pdpte,
            gva as int / 0x20_0000 % 512,
            pde,
        ),
        pml4e % 2 == 1 && points_on(pdpte) && points_on(pde) ==> holds_entry(
            mem,
            pde,
            gva as int / 0x1000 % 512,
            pte,
        ),
    ensures
        walk(mem, cr3, gva) is None <==> (pml4e % 2 == 0 || pdpte % 2 == 0 || (points_on(pdpte) && (
        pde % 2 == 0 || (points_on(pde) && pte % 2 == 0)))),
{
    reveal(walk);
    lemma_entry_bits(pdpte, gva);
    lemma_entry_bits(pde, gva);
    lemma_entry_bits(pte, gva);
    lemma_entry_read(mem, cr3, gva, 39, gva as int / 0x80_0000_0000 % 512, pml4e);
    if pml4e % 2 == 1 {
        lemma_entry_read(mem, pml4e, gva, 30, gva as int / 0x4000_0000 % 512, pdpte);
        if points_on(pdpte) {
            lemma_entry_read(mem, pdpte, gva, 21, gva as int / 0x20_0000 % 512, pde);
            if points_on(pde) {
                lemma_entry_read(mem, pde, gva, 12, gva as int / 0x1000 % 512, pte);
            }
        }
    }
}

proof fn lemma_mapped_offset(e: u64, gva: u64, page: u64)
    by (bit_vector)
    requires
        page == gva - gva % 4096,
    ensures
        ((e & 0x000F_FFFF_FFFF_F000) | (gva & 0xFFF)) % 4096 == gva % 4096,
        ((e & 0x000F_FFFF_FFE0_0000) | (gva & 0x1F_FFFF)) % 4096 == gva % 4096,
        ((e & 0x000F_FFFF_C000_0000) | (gva & 0x3FFF_FFFF)) % 4096 == gva % 4096,
        ((e & 0x000F_FFFF_FFFF_F000) | (gva & 0xFFF)) - gva % 4096 == (e & 0x000F_FFFF_FFFF_F000) | (
        page & 0xFFF),
        ((e & 0x000F_FFFF_FFE0_0000) | (gva & 0x1F_FFFF)) - gva % 4096 == (e
            & 0x000F_FFFF_FFE0_0000) | (page & 0x1F_FFFF),
        ((e & 0x000F_FFFF_C000_0000) | (gva & 0x3FFF_FFFF)) - gva % 4096 == (e
            & 0x000F_FFFF_C000_0000) | (page & 0x3FFF_FFFF),
{
}

/// Pages are translated whole: an address keeps its offset within its page, and is
/// mapped where its page is.
pub proof fn walk_keeps_page_offset(mem: MemView, cr3: u64, gva: u64)
    ensures
        ({
            let page = (gva - gva % 4096) as u64;
            match walk(mem, cr3, gva) {
                Some(gpa) => gpa % 4096 == gva % 4096 && walk(mem, cr3, page) == Some(
                    (gpa - gpa % 4096) as u64,
                ),
                None => walk(mem, cr3, page) is None,
            }
        }),
{
    reveal(walk);
    let page = (gva - gva % 4096) as u64;
    assert(page >> 39 == gva >> 39 && page >> 30 == gva >> 30 && page >> 21 == gva >> 21 && page
        >> 12 == gva >> 12) by (bit_vector)
        requires
            page == gva - gva % 4096,
    ;
    assert forall|table: u64, shift: u64|
        (shift == 39 || shift == 30 || shift == 21 || shift == 12) implies #[trigger] table_entry(
        mem,
        table,
        gva,
        shift,
    ) == table_entry(mem, table, page, shift) by {}
    if let Some(pml4e) = table_entry(mem, cr3, gva, 39) {
        if let Some(pdpte) = table_entry(mem, pml4e, gva, 30) {
            lemma_mapped_offset(pdpte, gva, page);
            if !is_large(pdpte) {
                if let Some(pde) = table_entry(mem, pdpte, gva, 21) {
                    lemma_mapped_offset(pde, gva, page);
                    if !is_large(pde) {
                        if let Some(pte) = table_entry(mem, pde, gva, 12) {
                            lemma_mapped_offset(pte, gva, page);
                        }
                    }
                }
            }
        }
    }
}

/// The pages of a range are those of its bytes: the byte `k` bytes into the range
/// lies on the page that stands at its place in the list of pages.
pub proof fn range_pages_hold_its_bytes(vm: VmView, gva: u64, size: u64, k: int)
    requires
        0 <= k < size,
        gva + k <= u64::MAX,
    ensures
        ({
            let i = (gva % 4096 + k) / 4096;
            let at = (gva + k) as u64;
            &&& 0 <= i < pages_spanned(gva, size)
            &&& match vm.translate(at) {
                Some(gpa) => vm.translate_page(gva, i) == Some((gpa - at % 4096) as u64) && gpa
                    % 4096 == at % 4096,
                None => vm.translate_page(gva, i) is None,
            }
        }),
{
    let i = (gva % 4096 + k) / 4096;
    let at = (gva + k) as u64;
    assert(page_gva(gva, i) == at - at % 4096);
    if let Ok(cr3) = vm.state.vmcs.get_natural(VmcsFieldNatural::GuestCr3) {
        walk_keeps_page_offset(vm.mem, cr3, at);
    }
}

/// A range spans no more pages than its bytes touch.
pub proof fn range_has_no_spare_page(gva: u64, size: u64)
    ensures
        size > 0 ==> pages_spanned(gva, size) == (gva % 4096 + size - 1) / 4096 + 1,
        size == 0 && gva % 4096 == 0 ==> pages_spanned(gva, size) == 0,
{
}

} // verus!
