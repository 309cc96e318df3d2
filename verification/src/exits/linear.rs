//! Guest memory by linear address.

use vstd::prelude::*;

use crate::bytes;
use crate::bytes::{copy_into, slice_to_vec};
use crate::exits::ept::translate_gva_to_gpa;
use crate::page::PagePool;
use crate::traits::vm_context::{VmContext, VmView};

verus! {

/// Bytes from `gva` to the end of its page, at most `n`.
pub open spec fn within_page(gva: u64, n: nat) -> nat {
    bytes::min_nat((4096 - gva % 4096) as nat, n)
}

impl VmView {
    /// The `n` bytes at linear address `gva`, if every page of them is mapped
    /// and lies in memory.
    pub open spec fn read_linear(self, gva: u64, n: nat) -> Option<Seq<u8>>
        decreases n,
    {
        if n == 0 {
            Some(Seq::empty())
        } else {
            let k = within_page(gva, n);
            match self.translate(gva) {
                None => None,
                Some(gpa) => if !self.mem.readable(gpa as int, k) {
                    None
                } else {
                    match self.read_linear(gva.wrapping_add(k as u64), (n - k) as nat) {
                        None => None,
                        Some(rest) => Some(self.mem.bytes_at(gpa as int, k) + rest),
                    }
                },
            }
        }
    }

    /// The VM and the pool after `data` has been written at linear address
    /// `gva`, page by page, and whether all of it was. A forked VM gets its own
    /// copy of each page first.
    pub open spec fn write_linear(self, gva: u64, data: Seq<u8>, frames: Seq<(u64, u64)>) -> (
        Self,
        Seq<(u64, u64)>,
        bool,
    )
        decreases data.len(),
    {
        if data.len() == 0 {
            (self, frames, true)
        } else {
            let k = within_page(gva, data.len());
            match self.translate(gva) {
                None => (self, frames, false),
                Some(gpa) => {
                    let (owner, left) = self.own_page(gpa, frames);
                    let (mem, r) = owner.mem.put(gpa as int, data.take(k as int));
                    let written = VmView { mem, ..owner };
                    if r is Err {
                        (written, left, false)
                    } else {
                        written.write_linear(
                            gva.wrapping_add(k as u64),
                            data.skip(k as int),
                            left,
                        )
                    }
                },
            }
        }
    }
}

/// Read `len` bytes at linear address `gva` into the start of `dst`.
pub fn read_guest_id<C: VmContext>(ctx: &C, gva: u64, len: usize, dst: &mut [u8; 128]) -> (r: Result<
    (),
    (),
>)
    requires
        ctx.wf(),
        len <= 128,
    ensures
        match ctx.vm().read_linear(gva, len as nat) {
            Some(data) => r is Ok && data.len() == len && final(dst)@ == bytes::overwrite(
                old(dst)@,
                0,
                data,
            ),
            None => r is Err,
        },
{
    let ghost vm = ctx.vm();
    let ghost before = dst@;
    let mut offset: usize = 0;
    let mut cur: u64 = gva;
    assert(bytes::overwrite(before, 0, Seq::empty()) =~= before);
    while offset < len
        invariant
            ctx.wf(),
            vm == ctx.vm(),
            before == old(dst)@,
            offset <= len <= 128,
            dst@ == bytes::overwrite(before, 0, dst@.take(offset as int)),
            match vm.read_linear(cur, (len - offset) as nat) {
                Some(rest) => rest.len() == len - offset ==> vm.read_linear(gva, len as nat) == Some(
                    dst@.take(offset as int) + rest,
                ),
                None => vm.read_linear(gva, len as nat) is None,
            },
            vm.read_linear(gva, len as nat) is Some ==> vm.read_linear(
                cur,
                (len - offset) as nat,
            ) is Some,
        decreases len - offset,
    {
        let page_off: usize = (cur % 4096) as usize;
        let room: usize = 4096 - page_off;
        let k: usize = if len - offset <= room { len - offset } else { room };
        let ghost rest_before = vm.read_linear(cur, (len - offset) as nat);
        assert(k == within_page(cur, (len - offset) as nat));
        let gpa: u64 = match translate_gva_to_gpa(ctx, cur) {
            Ok(gpa) => gpa,
            Err(_) => {
                return Err(());
            },
        };
        let mut piece: Vec<u8> = vec![0u8; k];
        match ctx.read_guest_memory(gpa, piece.as_mut_slice()) {
            Ok(_) => {},
            Err(_) => {
                return Err(());
            },
        }
        let ghost done = dst@.take(offset as int);
        copy_into(dst, offset, piece.as_slice(), 0, k);
        proof {
            lemma_read_linear_len(vm, cur, (len - offset) as nat);
            lemma_read_linear_len(vm, cur.wrapping_add(k as u64), (len - offset - k) as nat);
            assert(piece@.subrange(0, k as int) =~= piece@);
            assert(dst@.take(offset + k) =~= done + piece@);
            assert(dst@ =~= bytes::overwrite(before, 0, dst@.take(offset + k)));
            let next = vm.read_linear(cur.wrapping_add(k as u64), (len - offset - k) as nat);
            if next is Some {
                assert(done + (piece@ + next->0) =~= (done + piece@) + next->0);
            }
        }
        cur = cur.wrapping_add(k as u64);
        offset = offset + k;
    }
    proof {
        assert(dst@.take(offset as int) + Seq::<u8>::empty() =~= dst@.take(offset as int));
    }
    Ok(())
}

/// What is read has the length asked for.
pub proof fn lemma_read_linear_len(vm: VmView, gva: u64, n: nat)
    ensures
        vm.read_linear(gva, n) matches Some(data) ==> data.len() == n,
    decreases n,
{
    if n > 0 {
        let k = within_page(gva, n);
        lemma_read_linear_len(vm, gva.wrapping_add(k as u64), (n - k) as nat);
    }
}

/// Write `data` at linear address `gva`, copying pages of a forked VM first.
pub fn write_guest_linear<C: VmContext>(
    ctx: &mut C,
    allocator: &mut PagePool,
    gva: u64,
    data: &[u8],
) -> (r: bool)
    requires
        old(ctx).wf(),
    ensures
        final(ctx).wf(),
        final(ctx).child_count() == old(ctx).child_count(),
        (final(ctx).vm(), final(allocator).frames@, r) == old(ctx).vm().write_linear(
            gva,
            data@,
            old(allocator).frames@,
        ),
{
    let n: usize = data.len();
    let mut offset: usize = 0;
    let mut cur: u64 = gva;
    assert(data@.skip(0) =~= data@);
    while offset < n
        invariant
            ctx.wf(),
            ctx.child_count() == old(ctx).child_count(),
            n == data@.len(),
            offset <= n,
            old(ctx).vm().write_linear(gva, data@, old(allocator).frames@)
                == ctx.vm().write_linear(cur, data@.skip(offset as int), allocator.frames@),
        decreases n - offset,
    {
        let page_off: usize = (cur % 4096) as usize;
        let room: usize = 4096 - page_off;
        let k: usize = if n - offset <= room { n - offset } else { room };
        let ghost rest = data@.skip(offset as int);
        assert(k == within_page(cur, rest.len()));
        let gpa: u64 = match translate_gva_to_gpa(ctx, cur) {
            Ok(gpa) => gpa,
            Err(_) => {
                return false;
            },
        };
        ctx.pre_cow_page(gpa, allocator);
        let piece: Vec<u8> = slice_to_vec(data, offset, k);
        assert(piece@ =~= rest.take(k as int));
        match ctx.write_guest_memory(gpa, piece.as_slice()) {
            Ok(_) => {},
            Err(_) => {
                return false;
            },
        }
        assert(data@.skip(offset + k) =~= rest.skip(k as int));
        cur = cur.wrapping_add(k as u64);
        offset = offset + k;
    }
    true
}

} // verus!
