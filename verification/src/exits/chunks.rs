//! Copies between guest memory and the hypervisor in chunks. A copy that fails
//! keeps the chunks before the failure.

use vstd::prelude::*;

use crate::bytes;
use crate::bytes::{push_bytes, slice_to_vec};
use crate::memory;
use crate::memory::MemView;
use crate::traits::vm_context::{VmContext, VmView};

verus! {

/// Bytes copied at a time.
pub const IO_COPY_CHUNK: usize = 256;

impl MemView {
    /// The memory after `data` has been written at `gpa` chunk by chunk, and
    /// whether all of it was. The first chunk that cannot be written ends the
    /// copy.
    pub open spec fn put_chunks(self, gpa: int, data: Seq<u8>) -> (Self, bool)
        decreases data.len(),
    {
        if data.len() == 0 {
            (self, true)
        } else {
            let k = bytes::min_nat(IO_COPY_CHUNK as nat, data.len()) as int;
            let (mem, r) = self.put(gpa, data.take(k));
            if r is Err {
                (mem, false)
            } else {
                mem.put_chunks(gpa + k, data.skip(k))
            }
        }
    }

    /// How many of `n` bytes at `gpa` can be read chunk by chunk, up to the first
    /// chunk that cannot be.
    pub open spec fn readable_chunks(self, gpa: int, n: nat) -> nat
        decreases n,
    {
        if n == 0 {
            0
        } else {
            let k = bytes::min_nat(IO_COPY_CHUNK as nat, n);
            if self.readable(gpa, k) {
                k + self.readable_chunks(gpa + k, (n - k) as nat)
            } else {
                0
            }
        }
    }
}

/// All chunks can be read if and only if the whole can, but for reading nothing,
/// which looks nothing up.
pub proof fn chunks_make_the_whole(m: MemView, gpa: int, n: nat)
    ensures
        m.readable_chunks(gpa, n) <= n,
        m.readable_chunks(gpa, n) == n <==> n == 0 || m.readable(gpa, n),
    decreases n,
{
    if n > 0 {
        let k = bytes::min_nat(IO_COPY_CHUNK as nat, n);
        chunks_make_the_whole(m, gpa + k, (n - k) as nat);
    }
}

/// What was written in chunks can be read back, and nothing else has changed.
pub proof fn chunks_then_read(m: MemView, gpa: int, data: Seq<u8>)
    requires
        m.wf(),
        0 <= gpa <= u64::MAX,
        m.put_chunks(gpa, data).1,
    ensures
        ({
            let after = m.put_chunks(gpa, data).0;
            &&& after.wf()
            &&& after.base.len() == m.base.len()
            &&& data.len() > 0 ==> gpa + data.len() <= m.base.len()
            &&& after.bytes_at(gpa, data.len()) == data
            &&& forall|a: int|
                0 <= a < m.base.len() && !(gpa <= a < gpa + data.len()) ==> #[trigger] after.byte(a)
                    == m.byte(a)
        }),
    decreases data.len(),
{
    if data.len() > 0 {
        let k = bytes::min_nat(IO_COPY_CHUNK as nat, data.len()) as int;
        let mid = m.put(gpa, data.take(k)).0;
        memory::write_changes_written_bytes(m, gpa, data.take(k));
        let after = mid.put_chunks(gpa + k, data.skip(k)).0;
        chunks_then_read(mid, gpa + k, data.skip(k));
        assert forall|i: int| 0 <= i < data.len() implies after.byte(gpa + i) == data[i] by {
            if i < k {
                assert(mid.byte(gpa + i) == data.take(k)[i]);
            } else {
                assert(after.bytes_at(gpa + k, data.skip(k).len())[i - k] == data.skip(k)[i - k]);
            }
        }
        assert(after.bytes_at(gpa, data.len()) =~= data);
    } else {
        assert(m.bytes_at(gpa, 0) =~= data);
    }
}

/// Write `data` to guest memory at `gpa`, chunk by chunk.
pub fn copy_to_guest<C: VmContext>(ctx: &mut C, gpa: u64, data: &Vec<u8>) -> (r: bool)
    requires
        old(ctx).wf(),
    ensures
        final(ctx).wf(),
        final(ctx).child_count() == old(ctx).child_count(),
        ({
            let (mem, all) = old(ctx).vm().mem.put_chunks(gpa as int, data@);
            final(ctx).vm() == (VmView { mem, ..old(ctx).vm() }) && r == all
        }),
{
    let ghost start = ctx.vm();
    let n: usize = data.len();
    let mut done: usize = 0;
    let mut cur: u64 = gpa;
    assert(data@.skip(0) =~= data@);
    while done < n
        invariant
            ctx.wf(),
            ctx.child_count() == old(ctx).child_count(),
            start == old(ctx).vm(),
            done <= n,
            n == data@.len(),
            cur == gpa + done,
            ctx.vm() == (VmView { mem: ctx.vm().mem, ..start }),
            start.mem.put_chunks(gpa as int, data@) == ctx.vm().mem.put_chunks(
                cur as int,
                data@.skip(done as int),
            ),
        decreases n - done,
    {
        let k: usize = if n - done <= IO_COPY_CHUNK { n - done } else { IO_COPY_CHUNK };
        let chunk: Vec<u8> = slice_to_vec(data.as_slice(), done, k);
        let ghost mem = ctx.vm().mem;
        proof {
            ctx.lemma_memory();
            memory::write_changes_written_bytes(mem, cur as int, chunk@);
            assert(chunk@ =~= data@.skip(done as int).take(k as int));
            assert(data@.skip(done + k) =~= data@.skip(done as int).skip(k as int));
        }
        if ctx.write_guest_memory(cur, chunk.as_slice()).is_err() {
            return false;
        }
        done = done + k;
        cur = cur + k as u64;
    }
    assert(data@.skip(n as int) =~= Seq::<u8>::empty());
    true
}

/// Up to `n` bytes of guest memory at `gpa`, chunk by chunk: all that stand before
/// the first chunk that cannot be read.
pub fn copy_from_guest<C: VmContext>(ctx: &C, gpa: u64, n: usize) -> (v: Vec<u8>)
    requires
        ctx.wf(),
    ensures
        v@.len() == ctx.vm().mem.readable_chunks(gpa as int, n as nat),
        v@.len() <= n,
        v@ == ctx.vm().mem.bytes_at(gpa as int, v@.len()),
{
    let ghost mem = ctx.vm().mem;
    let mut v: Vec<u8> = Vec::new();
    let mut cur: u64 = gpa;
    proof {
        ctx.lemma_memory();
        chunks_make_the_whole(mem, gpa as int, n as nat);
        assert(v@ =~= mem.bytes_at(gpa as int, 0));
    }
    while v.len() < n
        invariant
            ctx.wf(),
            mem == ctx.vm().mem,
            mem.wf(),
            v@.len() <= n,
            cur == gpa + v@.len(),
            v@ == mem.bytes_at(gpa as int, v@.len()),
            mem.readable_chunks(gpa as int, n as nat) <= n,
            mem.readable_chunks(gpa as int, n as nat) == v@.len() + mem.readable_chunks(
                cur as int,
                (n - v@.len()) as nat,
            ),
        decreases n - v@.len(),
    {
        let left: usize = n - v.len();
        let k: usize = if left <= IO_COPY_CHUNK { left } else { IO_COPY_CHUNK };
        let mut chunk: Vec<u8> = vec![0u8; k];
        if ctx.read_guest_memory(cur, chunk.as_mut_slice()).is_err() {
            return v;
        }
        let ghost before = v@;
        push_bytes(&mut v, chunk.as_slice());
        assert(v@ =~= mem.bytes_at(gpa as int, (before.len() + k) as nat)) by {
            assert forall|i: int| before.len() <= i < before.len() + k implies v@[i] == mem.byte(
                gpa + i,
            ) by {
                assert(chunk@[i - before.len()] == mem.bytes_at(cur as int, k as nat)[i
                    - before.len()]);
            }
        }
        cur = cur + k as u64;
    }
    v
}

} // verus!
