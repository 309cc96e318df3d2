//! The per-VM pages the processor reads around VM entry and exit: the MSR
//! bitmap, the MSR-load lists and the XSAVE areas.

use vstd::prelude::*;

use crate::bytes;
use crate::bytes::copy_into_page;
use crate::bytes::{push_u16, push_u32, push_u64};
use crate::msr;
use crate::page::{Page, PagePool, PAGE_SIZE};

verus! {

/// XCR0 bits for x87, SSE and AVX state.
pub const XCR0_SSE_AVX: u64 = 0x7;

/// Number of entries of the VM-entry MSR-load list used while a precise exit
/// is armed.
pub const PEBS_ENTRY_MSR_COUNT: usize = 9;

/// MSR indexes of that list, in load order. The instruction counter comes
/// first so that its value survives; the counters are then disabled,
/// reconfigured and enabled again.
pub const PEBS_ENTRY_MSR_INDEXES: [u32; 9] = [
    0x4C1,
    0x38F,
    0x309,
    0x38D,
    0x3F2,
    0x600,
    0x390,
    0x3F1,
    0x38F,
];

/// The bit of `x` at position `i` is set.
pub open spec fn bit_set(x: u8, i: u8) -> bool {
    (x >> i) & 1 == 1
}

/// Byte and bit of the MSR bitmap that control an access to `msr`, or `None`
/// if the bitmap does not cover the MSR. The read bits of the low range come
/// first, then those of the high range, then the write bits of each.
pub open spec fn bitmap_place(msr: u32, write: bool) -> Option<(int, u8)> {
    let base: int = if write { 2048 } else { 0 };
    if msr < 0x2000 {
        Some((base + (msr as int) / 8, (msr % 8) as u8))
    } else if 0xC000_0000 <= msr < 0xC000_2000 {
        let index = msr - 0xC000_0000;
        Some((base + 1024 + index / 8, (index % 8) as u8))
    } else {
        None
    }
}

/// An access to `msr` causes a VM exit. MSRs outside the bitmap always do.
pub open spec fn intercepted(bitmap: Seq<u8>, msr: u32, write: bool) -> bool {
    match bitmap_place(msr, write) {
        Some((byte, bit)) => bit_set(bitmap[byte], bit),
        None => true,
    }
}

/// The bitmap after both accesses to `msr` have been let through.
pub open spec fn let_through(bitmap: Seq<u8>, msr: u32) -> Seq<u8> {
    match bitmap_place(msr, false) {
        Some((byte, bit)) => Seq::new(
            bitmap.len(),
            |k: int|
                if k == byte || k == byte + 2048 {
                    bitmap[k] & !(1u8 << bit)
                } else {
                    bitmap[k]
                },
        ),
        None => bitmap,
    }
}

/// Letting one MSR through changes the intercept of that MSR alone.
pub proof fn let_through_affects_one_msr(bitmap: Seq<u8>, msr: u32, other: u32, write: bool)
    requires
        bitmap.len() == PAGE_SIZE,
        bitmap_place(msr, false) is Some,
    ensures
        intercepted(let_through(bitmap, msr), other, write) == (other != msr && intercepted(
            bitmap,
            other,
            write,
        )),
{
    let (byte, bit) = bitmap_place(msr, false)->0;
    match bitmap_place(other, write) {
        Some((b, i)) => {
            let x = bitmap[b];
            assert(bit < 8 && i < 8);
            assert(((x & !(1u8 << bit)) >> i) & 1 == (if bit == i {
                0u8
            } else {
                (x >> i) & 1
            })) by (bit_vector)
                requires
                    bit < 8,
                    i < 8,
            ;
        },
        None => {},
    }
}

/// Clear the read and write intercept of an MSR.
pub fn msr_bitmap_clear_intercept(bitmap: &mut [u8; 4096], msr: u32)
    ensures
        final(bitmap)@ == let_through(old(bitmap)@, msr),
{
    let (read_base, index): (usize, usize) = if msr < 0x2000 {
        (0, msr as usize)
    } else if 0xC000_0000 <= msr && msr < 0xC000_2000 {
        (1024, (msr - 0xC000_0000) as usize)
    } else {
        return;
    };
    let byte: usize = read_base + index / 8;
    let bit: u8 = (index % 8) as u8;
    let mask: u8 = !(1u8 << bit);
    bitmap[byte] = bitmap[byte] & mask;
    bitmap[byte + 2048] = bitmap[byte + 2048] & mask;
    assert(bitmap@ =~= let_through(old(bitmap)@, msr));
}

/// MSRs the guest accesses without a VM exit: those with a VMCS field of their
/// own, and the SYSCALL and SWAPGS MSRs, which are switched around each entry.
pub open spec fn passthrough(msr: u32) -> bool {
    ||| msr == msr::IA32_FS_BASE
    ||| msr == msr::IA32_GS_BASE
    ||| msr == msr::IA32_KERNEL_GS_BASE
    ||| msr == msr::IA32_EFER
    ||| msr == msr::IA32_STAR
    ||| msr == msr::IA32_LSTAR
    ||| msr == msr::IA32_CSTAR
    ||| msr == msr::IA32_FMASK
    ||| msr == msr::IA32_SYSENTER_CS
    ||| msr == msr::IA32_SYSENTER_ESP
    ||| msr == msr::IA32_SYSENTER_EIP
}

/// Fill an MSR bitmap: every access is intercepted but those to the
/// pass-through MSRs.
fn init_msr_bitmap(bitmap: &mut [u8; 4096])
    ensures
        forall|m: u32, w: bool| intercepted(final(bitmap)@, m, w) == !passthrough(m),
{
    let mut i: usize = 0;
    while i < PAGE_SIZE
        invariant
            i <= PAGE_SIZE,
            forall|k: int| 0 <= k < i ==> bitmap@[k] == 0xFF,
        decreases PAGE_SIZE - i,
    {
        bitmap[i] = 0xFF;
        i = i + 1;
    }
    assert forall|m: u32, w: bool| intercepted(bitmap@, m, w) by {
        assert(forall|b: u8| b < 8 ==> bit_set(0xFF, b)) by {
            assert(forall|b: u8| b < 8 ==> (0xFFu8 >> b) & 1 == 1) by (bit_vector);
        }
    }
    let ghost b0 = bitmap@;
    msr_bitmap_clear_intercept(bitmap, msr::IA32_FS_BASE);
    let ghost b1 = bitmap@;
    msr_bitmap_clear_intercept(bitmap, msr::IA32_GS_BASE);
    let ghost b2 = bitmap@;
    msr_bitmap_clear_intercept(bitmap, msr::IA32_KERNEL_GS_BASE);
    let ghost b3 = bitmap@;
    msr_bitmap_clear_intercept(bitmap, msr::IA32_EFER);
    let ghost b4 = bitmap@;
    msr_bitmap_clear_intercept(bitmap, msr::IA32_STAR);
    let ghost b5 = bitmap@;
    msr_bitmap_clear_intercept(bitmap, msr::IA32_LSTAR);
    let ghost b6 = bitmap@;
    msr_bitmap_clear_intercept(bitmap, msr::IA32_CSTAR);
    let ghost b7 = bitmap@;
    msr_bitmap_clear_intercept(bitmap, msr::IA32_FMASK);
    let ghost b8 = bitmap@;
    msr_bitmap_clear_intercept(bitmap, msr::IA32_SYSENTER_CS);
    let ghost b9 = bitmap@;
    msr_bitmap_clear_intercept(bitmap, msr::IA32_SYSENTER_ESP);
    let ghost b10 = bitmap@;
    msr_bitmap_clear_intercept(bitmap, msr::IA32_SYSENTER_EIP);
    assert forall|m: u32, w: bool| intercepted(bitmap@, m, w) == !passthrough(m) by {
        let_through_affects_one_msr(b0, msr::IA32_FS_BASE, m, w);
        let_through_affects_one_msr(b1, msr::IA32_GS_BASE, m, w);
        let_through_affects_one_msr(b2, msr::IA32_KERNEL_GS_BASE, m, w);
        let_through_affects_one_msr(b3, msr::IA32_EFER, m, w);
        let_through_affects_one_msr(b4, msr::IA32_STAR, m, w);
        let_through_affects_one_msr(b5, msr::IA32_LSTAR, m, w);
        let_through_affects_one_msr(b6, msr::IA32_CSTAR, m, w);
        let_through_affects_one_msr(b7, msr::IA32_FMASK, m, w);
        let_through_affects_one_msr(b8, msr::IA32_SYSENTER_CS, m, w);
        let_through_affects_one_msr(b9, msr::IA32_SYSENTER_ESP, m, w);
        let_through_affects_one_msr(b10, msr::IA32_SYSENTER_EIP, m, w);
    }
}

/// One MSR-load entry: index, reserved word, value.
pub open spec fn msr_entry(index: u32, value: u64) -> Seq<u8> {
    bytes::le32(index) + bytes::le32(0) + bytes::le64(value)
}

/// The VM-exit MSR-load list: one entry that disables PEBS.
pub open spec fn exit_load_list() -> Seq<u8> {
    bytes::overwrite(
        bytes::zeros(PAGE_SIZE as nat),
        0,
        msr_entry(msr::IA32_PEBS_ENABLE, 0),
    )
}

/// A page holding the VM-entry MSR-load list with the given values.
pub open spec fn entry_load_list(values: Seq<u64>) -> Seq<u8> {
    Seq::new(
        PAGE_SIZE as nat,
        |k: int|
            if k < 16 * PEBS_ENTRY_MSR_COUNT {
                msr_entry(PEBS_ENTRY_MSR_INDEXES@[k / 16], values[k / 16])[k % 16]
            } else {
                0
            },
    )
}

/// A page after the value fields of its first nine entries have been replaced.
pub open spec fn with_values(page: Seq<u8>, values: Seq<u64>) -> Seq<u8> {
    Seq::new(
        page.len(),
        |k: int|
            if k < 16 * PEBS_ENTRY_MSR_COUNT && k % 16 >= 8 {
                bytes::le64(values[k / 16])[k % 16 - 8]
            } else {
                page[k]
            },
    )
}

/// Replacing the values of a list gives the list with those values.
pub proof fn replacing_values_gives_the_list(a: Seq<u64>, b: Seq<u64>)
    ensures
        with_values(entry_load_list(a), b) == entry_load_list(b),
{
    assert(with_values(entry_load_list(a), b) =~= entry_load_list(b));
}

/// Nine zero values.
pub open spec fn no_values() -> Seq<u64> {
    Seq::new(PEBS_ENTRY_MSR_COUNT as nat, |i: int| 0u64)
}

/// Write entry `i` of an MSR-load list.
fn put_msr_entry(page: &mut [u8; 4096], i: usize, index: u32, value: u64)
    requires
        i < PEBS_ENTRY_MSR_COUNT,
    ensures
        final(page)@ == bytes::overwrite(old(page)@, 16 * i, msr_entry(index, value)),
{
    let mut entry: Vec<u8> = Vec::new();
    push_u32(&mut entry, index);
    push_u32(&mut entry, 0);
    push_u64(&mut entry, value);
    assert(entry@ =~= msr_entry(index, value));
    assert(entry@.subrange(0, 16) =~= entry@);
    copy_into_page(page, 16 * i, entry.as_slice(), 0, 16);
}

/// Replace the value fields of the VM-entry MSR-load list.
pub fn write_entry_values(page: &mut [u8; 4096], values: &[u64; 9])
    ensures
        final(page)@ == with_values(old(page)@, values@),
{
    let ghost before = page@;
    let mut i: usize = 0;
    while i < PEBS_ENTRY_MSR_COUNT
        invariant
            i <= PEBS_ENTRY_MSR_COUNT,
            before == old(page)@,
            forall|k: int|
                0 <= k < 16 * i ==> page@[k] == #[trigger] with_values(before, values@)[k],
            forall|k: int| 16 * i <= k < PAGE_SIZE ==> #[trigger] page@[k] == before[k],
        decreases PEBS_ENTRY_MSR_COUNT - i,
    {
        let mut value: Vec<u8> = Vec::new();
        push_u64(&mut value, values[i]);
        assert(value@ =~= bytes::le64(values@[i as int]));
        assert(value@.subrange(0, 8) =~= value@);
        copy_into_page(page, 16 * i + 8, value.as_slice(), 0, 8);
        i = i + 1;
    }
    assert(page@ =~= with_values(before, values@));
}

/// Write the whole VM-entry MSR-load list with the given values.
fn write_entry_load_list(page: &mut [u8; 4096], values: &[u64; 9])
    requires
        forall|k: int| 16 * PEBS_ENTRY_MSR_COUNT <= k < PAGE_SIZE ==> old(page)@[k] == 0,
    ensures
        final(page)@ == entry_load_list(values@),
{
    let mut i: usize = 0;
    let indexes: [u32; 9] = PEBS_ENTRY_MSR_INDEXES;
    while i < PEBS_ENTRY_MSR_COUNT
        invariant
            i <= PEBS_ENTRY_MSR_COUNT,
            indexes@ == PEBS_ENTRY_MSR_INDEXES@,
            forall|k: int| 16 * PEBS_ENTRY_MSR_COUNT <= k < PAGE_SIZE ==> page@[k] == 0,
            forall|k: int|
                0 <= k < 16 * i ==> page@[k] == #[trigger] entry_load_list(values@)[k],
        decreases PEBS_ENTRY_MSR_COUNT - i,
    {
        put_msr_entry(page, i, indexes[i], values[i]);
        i = i + 1;
    }
    assert(page@ =~= entry_load_list(values@));
}

/// The initial XSAVE area of a guest: FPU control word 0x037F, MXCSR 0x1F80
/// and the SSE and AVX components marked valid.
pub open spec fn initial_xsave() -> Seq<u8> {
    bytes::overwrite(
        bytes::overwrite(
            bytes::overwrite(bytes::zeros(PAGE_SIZE as nat), 0, bytes::le16(0x037F)),
            24,
            bytes::le32(0x1F80),
        ),
        512,
        bytes::le64(XCR0_SSE_AVX),
    )
}

/// Write the initial XSAVE area over a zeroed page.
fn init_xsave(page: &mut [u8; 4096])
    requires
        old(page)@ == bytes::zeros(PAGE_SIZE as nat),
    ensures
        final(page)@ == initial_xsave(),
{
    let mut fcw: Vec<u8> = Vec::new();
    push_u16(&mut fcw, 0x037F);
    let mut mxcsr: Vec<u8> = Vec::new();
    push_u32(&mut mxcsr, 0x1F80);
    let mut xstate_bv: Vec<u8> = Vec::new();
    push_u64(&mut xstate_bv, XCR0_SSE_AVX);
    assert(fcw@.subrange(0, 2) =~= bytes::le16(0x037F));
    assert(mxcsr@.subrange(0, 4) =~= bytes::le32(0x1F80));
    assert(xstate_bv@.subrange(0, 8) =~= bytes::le64(XCR0_SSE_AVX));
    copy_into_page(page, 0, fcw.as_slice(), 0, 2);
    copy_into_page(page, 24, mxcsr.as_slice(), 0, 4);
    copy_into_page(page, 512, xstate_bv.as_slice(), 0, 8);
}

/// A per-VM page could not be allocated.
#[derive(Debug, Clone, Copy, PartialEq, Eq, Structural)]
pub enum VmPagesError {
    /// No page for the MSR bitmap.
    MsrBitmapAlloc,
    /// No page for an MSR-load list.
    PebsExitMsrLoadAlloc,
    /// No page for an XSAVE area.
    XsavePageAlloc,
}

/// The pages of one VM.
pub struct VmPages {
    /// MSR bitmap.
    pub msr_bitmap: Page,
    /// VM-exit MSR-load list.
    pub pebs_exit_msr_load_page: Page,
    /// VM-entry MSR-load list for armed precise exits.
    pub pebs_entry_msr_load_page: Page,
    /// Guest XSAVE area.
    pub guest_xsave_page: Page,
    /// Host XSAVE area.
    pub host_xsave_page: Page,
}

/// The error of taking five pages in turn from a pool that holds `n`, if it
/// holds too few.
pub open spec fn pages_error(n: nat) -> Option<VmPagesError> {
    if n < 1 {
        Some(VmPagesError::MsrBitmapAlloc)
    } else if n < 3 {
        Some(VmPagesError::PebsExitMsrLoadAlloc)
    } else if n < 5 {
        Some(VmPagesError::XsavePageAlloc)
    } else {
        None
    }
}

impl VmPages {
    /// The five pages came off the end of `frames` in order.
    pub open spec fn taken_from(self, frames: Seq<(u64, u64)>) -> bool {
        let n = frames.len() as int;
        &&& n >= 5
        &&& (self.msr_bitmap.phys, self.msr_bitmap.virt) == frames[n - 1]
        &&& (self.pebs_exit_msr_load_page.phys, self.pebs_exit_msr_load_page.virt) == frames[n - 2]
        &&& (self.pebs_entry_msr_load_page.phys, self.pebs_entry_msr_load_page.virt) == frames[n
            - 3]
        &&& (self.guest_xsave_page.phys, self.guest_xsave_page.virt) == frames[n - 4]
        &&& (self.host_xsave_page.phys, self.host_xsave_page.virt) == frames[n - 5]
    }

    /// The MSR-load lists of a VM that has not armed anything yet, and an
    /// empty host XSAVE area.
    pub open spec fn unarmed(self) -> bool {
        &&& self.pebs_exit_msr_load_page.bytes@ == exit_load_list()
        &&& self.pebs_entry_msr_load_page.bytes@ == entry_load_list(no_values())
        &&& self.host_xsave_page.bytes@ == bytes::zeros(PAGE_SIZE as nat)
    }

    /// Five zeroed pages, with the MSR-load lists filled in.
    fn allocate(pool: &mut PagePool) -> (r: Result<Self, VmPagesError>)
        ensures
            match pages_error(old(pool).frames@.len()) {
                Some(e) => r == Err::<Self, VmPagesError>(e) && final(pool).frames@ == Seq::<
                    (u64, u64),
                >::empty(),
                None => {
                    &&& r is Ok
                    &&& r->Ok_0.taken_from(old(pool).frames@)
                    &&& r->Ok_0.unarmed()
                    &&& r->Ok_0.msr_bitmap.bytes@ == bytes::zeros(PAGE_SIZE as nat)
                    &&& r->Ok_0.guest_xsave_page.bytes@ == bytes::zeros(PAGE_SIZE as nat)
                    &&& final(pool).frames@ == old(pool).frames@.take(
                        old(pool).frames@.len() - 5,
                    )
                },
            },
    {
        let ghost frames = pool.frames@;
        let msr_bitmap = match pool.alloc_zeroed_page() {
            Some(p) => p,
            None => {
                assert(pool.frames@ =~= Seq::<(u64, u64)>::empty());
                return Err(VmPagesError::MsrBitmapAlloc);
            },
        };
        let mut pebs_exit_msr_load_page = match pool.alloc_zeroed_page() {
            Some(p) => p,
            None => {
                assert(pool.frames@ =~= Seq::<(u64, u64)>::empty());
                return Err(VmPagesError::PebsExitMsrLoadAlloc);
            },
        };
        put_msr_entry(&mut *pebs_exit_msr_load_page.bytes, 0, msr::IA32_PEBS_ENABLE, 0);
        let mut pebs_entry_msr_load_page = match pool.alloc_zeroed_page() {
            Some(p) => p,
            None => {
                assert(pool.frames@ =~= Seq::<(u64, u64)>::empty());
                return Err(VmPagesError::PebsExitMsrLoadAlloc);
            },
        };
        let values: [u64; 9] = [0u64; 9];
        assert(values@ =~= no_values());
        write_entry_load_list(&mut *pebs_entry_msr_load_page.bytes, &values);
        let guest_xsave_page = match pool.alloc_zeroed_page() {
            Some(p) => p,
            None => {
                assert(pool.frames@ =~= Seq::<(u64, u64)>::empty());
                return Err(VmPagesError::XsavePageAlloc);
            },
        };
        let host_xsave_page = match pool.alloc_zeroed_page() {
            Some(p) => p,
            None => {
                assert(pool.frames@ =~= Seq::<(u64, u64)>::empty());
                return Err(VmPagesError::XsavePageAlloc);
            },
        };
        assert(pool.frames@ =~= frames.take(frames.len() - 5));
        Ok(
            VmPages {
                msr_bitmap,
                pebs_exit_msr_load_page,
                pebs_entry_msr_load_page,
                guest_xsave_page,
                host_xsave_page,
            },
        )
    }

    /// The pages of a new root VM.
    pub fn new(pool: &mut PagePool) -> (r: Result<Self, VmPagesError>)
        ensures
            match pages_error(old(pool).frames@.len()) {
                Some(e) => r == Err::<Self, VmPagesError>(e) && final(pool).frames@ == Seq::<
                    (u64, u64),
                >::empty(),
                None => {
                    &&& r is Ok
                    &&& r->Ok_0.taken_from(old(pool).frames@)
                    &&& r->Ok_0.unarmed()
                    &&& forall|m: u32, w: bool|
                        intercepted(r->Ok_0.msr_bitmap.bytes@, m, w) == !passthrough(m)
                    &&& r->Ok_0.guest_xsave_page.bytes@ == initial_xsave()
                    &&& final(pool).frames@ == old(pool).frames@.take(
                        old(pool).frames@.len() - 5,
                    )
                },
            },
    {
        match VmPages::allocate(pool) {
            Ok(pages) => {
                let mut pages = pages;
                init_msr_bitmap(&mut *pages.msr_bitmap.bytes);
                init_xsave(&mut *pages.guest_xsave_page.bytes);
                Ok(pages)
            },
            Err(e) => Err(e),
        }
    }

    /// The pages of a forked VM: the parent's MSR bitmap and guest XSAVE area
    /// are copied, the MSR-load lists start afresh.
    pub fn new_for_fork(pool: &mut PagePool, msr_bitmap: &Page, guest_xsave: &Page) -> (r: Result<
        Self,
        VmPagesError,
    >)
        ensures
            match pages_error(old(pool).frames@.len()) {
                Some(e) => r == Err::<Self, VmPagesError>(e) && final(pool).frames@ == Seq::<
                    (u64, u64),
                >::empty(),
                None => {
                    &&& r is Ok
                    &&& r->Ok_0.taken_from(old(pool).frames@)
                    &&& r->Ok_0.unarmed()
                    &&& r->Ok_0.msr_bitmap.bytes == msr_bitmap.bytes
                    &&& r->Ok_0.guest_xsave_page.bytes == guest_xsave.bytes
                    &&& final(pool).frames@ == old(pool).frames@.take(
                        old(pool).frames@.len() - 5,
                    )
                },
            },
    {
        match VmPages::allocate(pool) {
            Ok(pages) => {
                let mut pages = pages;
                pages.msr_bitmap.bytes = Box::new(*msr_bitmap.bytes);
                pages.guest_xsave_page.bytes = Box::new(*guest_xsave.bytes);
                Ok(pages)
            },
            Err(e) => Err(e),
        }
    }
}

} // verus!
