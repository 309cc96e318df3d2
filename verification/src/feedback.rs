//! Feedback buffers that the guest registers for the host to read.

use vstd::prelude::*;

verus! {

/// Maximum number of pages of a single feedback buffer. The number of buffers
/// is unbounded.
pub const FEEDBACK_BUFFER_MAX_PAGES: usize = 256;

/// Size of one feedback-buffer slot in the mapping layout.
pub const FEEDBACK_BUFFER_SLOT_SIZE: u64 = 0x10_0000;

/// Mapping offset of the event buffer, above every guest-memory and
/// feedback-buffer region.
pub const EVENT_BUFFER_MMAP_OFFSET: u64 = 0x4000_0000_0000;

/// Maximum length of a feedback-buffer identifier.
pub const FEEDBACK_BUFFER_ID_MAX_LEN: usize = 128;

/// A registered feedback buffer. Identifiers need not be unique: equal ones
/// name instances of the same domain, which the host merges when it reads.
#[derive(Clone, Copy)]
pub struct FeedbackBufferInfo {
    /// Guest virtual address.
    pub gva: u64,
    /// Size in bytes.
    pub size: u64,
    /// Number of pages.
    pub num_pages: usize,
    /// Page-aligned guest-physical addresses of the pages.
    pub gpas: [u64; 256],
    /// Identifier; only the first `id_len` bytes are meaningful, the rest are
    /// zero.
    pub id: [u8; 128],
    /// Length of the identifier.
    pub id_len: u32,
}

impl FeedbackBufferInfo {
    /// Page count and identifier length stay within their arrays, and the
    /// pages are aligned.
    pub open spec fn wf(self) -> bool {
        &&& self.num_pages <= FEEDBACK_BUFFER_MAX_PAGES
        &&& self.id_len <= FEEDBACK_BUFFER_ID_MAX_LEN
        &&& forall|i: int| 0 <= i < self.num_pages ==> #[trigger] self.gpas@[i] % 4096 == 0
    }

    /// The identifier.
    pub fn id_bytes(&self) -> (r: &[u8])
        requires
            self.id_len <= FEEDBACK_BUFFER_ID_MAX_LEN,
        ensures
            r@ == self.id@.take(self.id_len as int),
    {
        let r: &[u8] = vstd::slice::slice_subrange(self.id.as_slice(), 0, self.id_len as usize);
        assert(r@ =~= self.id@.take(self.id_len as int));
        r
    }
}

impl Default for FeedbackBufferInfo {
    fn default() -> (r: Self)
        ensures
            r.gva == 0,
            r.size == 0,
            r.num_pages == 0,
            r.id_len == 0,
            forall|i: int| 0 <= i < FEEDBACK_BUFFER_MAX_PAGES ==> r.gpas@[i] == 0,
            forall|i: int| 0 <= i < FEEDBACK_BUFFER_ID_MAX_LEN ==> r.id@[i] == 0,
    {
        FeedbackBufferInfo {
            gva: 0,
            size: 0,
            num_pages: 0,
            gpas: [0u64; 256],
            id: [0u8; 128],
            id_len: 0,
        }
    }
}

/// The registered feedback buffers in slot order. Registration only appends,
/// so a slot index stays valid.
pub type FeedbackBuffers = Vec<FeedbackBufferInfo>;

/// No buffers.
pub fn feedback_buffers_new() -> (r: FeedbackBuffers)
    ensures
        r@ == Seq::<FeedbackBufferInfo>::empty(),
{
    Vec::new()
}

/// A copy of the parent's buffers for a forked VM.
pub fn feedback_buffers_from(parent: &FeedbackBuffers) -> (r: FeedbackBuffers)
    ensures
        r@ == parent@,
{
    let mut v: FeedbackBuffers = Vec::with_capacity(parent.len());
    let n: usize = parent.len();
    let mut i: usize = 0;
    while i < n
        invariant
            i <= n,
            n == parent@.len(),
            v@ == parent@.take(i as int),
        decreases n - i,
    {
        v.push(parent[i]);
        assert(v@ =~= parent@.take(i + 1));
        i = i + 1;
    }
    assert(parent@.take(n as int) =~= parent@);
    v
}

} // verus!
