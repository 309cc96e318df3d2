//! The body of an `Exit` event record.

use vstd::prelude::*;

use crate::bytes;
use crate::bytes::{push_bytes, push_u32, push_u64};
use crate::events::stream;

verus! {

/// Size of an exit record in bytes.
pub const EXIT_RECORD_SIZE: usize = 512;

/// Offset of the memory hash within an exit record.
pub const EXIT_RECORD_MEMORY_HASH_OFFSET: usize = 216;

/// Offset of the copy-on-write page count within an exit record.
pub const EXIT_RECORD_COW_PAGE_COUNT_OFFSET: usize = 300;

/// Flag bit: the record describes a deterministic exit.
pub const EXIT_RECORD_FLAG_DETERMINISTIC: u32 = 1;

/// Guest state at one VM exit. The memory hash and the page count are filled
/// in after the record has been emitted.
#[derive(Clone, Copy, Debug, PartialEq, Eq, Structural)]
pub struct ExitRecord {
    /// Emulated TSC at the exit.
    pub tsc: u64,
    /// Exit reason number.
    pub exit_reason: u32,
    /// Flags; bit 0 marks a deterministic exit.
    pub flags: u32,
    /// Exit qualification.
    pub exit_qualification: u64,
    /// RAX register.
    pub rax: u64,
    /// RCX register.
    pub rcx: u64,
    /// RDX register.
    pub rdx: u64,
    /// RBX register.
    pub rbx: u64,
    /// RSP register.
    pub rsp: u64,
    /// RBP register.
    pub rbp: u64,
    /// RSI register.
    pub rsi: u64,
    /// RDI register.
    pub rdi: u64,
    /// R8 register.
    pub r8: u64,
    /// R9 register.
    pub r9: u64,
    /// R10 register.
    pub r10: u64,
    /// R11 register.
    pub r11: u64,
    /// R12 register.
    pub r12: u64,
    /// R13 register.
    pub r13: u64,
    /// R14 register.
    pub r14: u64,
    /// R15 register.
    pub r15: u64,
    /// Instruction pointer.
    pub rip: u64,
    /// RFLAGS register.
    pub rflags: u64,
    /// Hash of the APIC state.
    pub apic_hash: u64,
    /// Hash of the serial port state.
    pub serial_hash: u64,
    /// Hash of the I/O APIC state.
    pub ioapic_hash: u64,
    /// Hash of the RTC state.
    pub rtc_hash: u64,
    /// Hash of the MTRR state.
    pub mtrr_hash: u64,
    /// Hash of the randomness state.
    pub rdrand_hash: u64,
    /// Hash of guest memory.
    pub memory_hash: u64,
    /// FS base.
    pub fs_base: u64,
    /// GS base.
    pub gs_base: u64,
    /// Kernel GS base.
    pub kernel_gs_base: u64,
    /// Page table root.
    pub cr3: u64,
    /// CS base.
    pub cs_base: u64,
    /// DS base.
    pub ds_base: u64,
    /// ES base.
    pub es_base: u64,
    /// SS base.
    pub ss_base: u64,
    /// Pending debug exceptions.
    pub pending_dbg_exceptions: u64,
    /// Guest interruptibility state.
    pub interruptibility_state: u32,
    /// Number of copied pages at the exit.
    pub cow_page_count: u32,
    /// Distance in instructions from the PEBS firing target; nonzero only on PEBS exits.
    pub pebs_skid: i64,
    /// Instructions retired between arming and firing.
    pub pebs_inst_delta: i64,
    /// TSC offset gained between arming and firing.
    pub pebs_tsc_offset_delta: i64,
    /// Run-loop iterations the arming lived through.
    pub pebs_iters_since_arm: u32,
    /// Distance to the firing target at arming time.
    pub pebs_arm_delta: u64,
    /// Instruction count at the exit.
    pub last_instruction_count: u64,
    /// APIC timer deadline; zero if none.
    pub apic_timer_deadline: u64,
    /// I/O channel target TSC.
    pub io_channel_target_tsc: u64,
    /// Armed PEBS target; zero if not armed.
    pub pebs_armed_target_tsc: u64,
    /// Bit 0: MTF enabled. Bit 1: the last exit was deterministic.
    pub vmx_state_flags: u64,
}

impl ExitRecord {
    /// The fields before the memory hash.
    #[verifier::opaque]
    pub open spec fn encode_head(self) -> Seq<u8> {
        bytes::le64(self.tsc)
            + bytes::le32(self.exit_reason)
            + bytes::le32(self.flags)
            + bytes::le64(self.exit_qualification)
            + bytes::le64(self.rax)
            + bytes::le64(self.rcx)
            + bytes::le64(self.rdx)
            + bytes::le64(self.rbx)
            + bytes::le64(self.rsp)
            + bytes::le64(self.rbp)
            + bytes::le64(self.rsi)
            + bytes::le64(self.rdi)
            + bytes::le64(self.r8)
            + bytes::le64(self.r9)
            + bytes::le64(self.r10)
            + bytes::le64(self.r11)
            + bytes::le64(self.r12)
            + bytes::le64(self.r13)
            + bytes::le64(self.r14)
            + bytes::le64(self.r15)
            + bytes::le64(self.rip)
            + bytes::le64(self.rflags)
            + bytes::le64(self.apic_hash)
            + bytes::le64(self.serial_hash)
            + bytes::le64(self.ioapic_hash)
            + bytes::le64(self.rtc_hash)
            + bytes::le64(self.mtrr_hash)
            + bytes::le64(self.rdrand_hash)
    }

    /// The fields between the memory hash and the page count.
    #[verifier::opaque]
    pub open spec fn encode_mid(self) -> Seq<u8> {
        bytes::le64(self.fs_base)
            + bytes::le64(self.gs_base)
            + bytes::le64(self.kernel_gs_base)
            + bytes::le64(self.cr3)
            + bytes::le64(self.cs_base)
            + bytes::le64(self.ds_base)
            + bytes::le64(self.es_base)
            + bytes::le64(self.ss_base)
            + bytes::le64(self.pending_dbg_exceptions)
            + bytes::le32(self.interruptibility_state)
    }

    /// The fields after the page count, with the zero padding.
    #[verifier::opaque]
    pub open spec fn encode_tail(self) -> Seq<u8> {
        bytes::le64(self.pebs_skid as u64)
            + bytes::le64(self.pebs_inst_delta as u64)
            + bytes::le64(self.pebs_tsc_offset_delta as u64)
            + bytes::le32(self.pebs_iters_since_arm)
            + bytes::zeros(4)
            + bytes::le64(self.pebs_arm_delta)
            + bytes::le64(self.last_instruction_count)
            + bytes::le64(self.apic_timer_deadline)
            + bytes::le64(self.io_channel_target_tsc)
            + bytes::le64(self.pebs_armed_target_tsc)
            + bytes::le64(self.vmx_state_flags)
            + bytes::zeros(128)
    }

    /// The record's 512 bytes.
    #[verifier::opaque]
    pub open spec fn encode(self) -> Seq<u8> {
        self.encode_head() + bytes::le64(self.memory_hash) + self.encode_mid() + bytes::le32(
            self.cow_page_count,
        ) + self.encode_tail()
    }

    fn head_bytes(&self) -> (v: Vec<u8>)
        ensures
            v@ == self.encode_head(),
            v@.len() == EXIT_RECORD_MEMORY_HASH_OFFSET,
    {
        proof {
            reveal(ExitRecord::encode_head);
        }
        let mut v: Vec<u8> = Vec::new();
        push_u64(&mut v, self.tsc);
        assert(v@ =~= bytes::le64(self.tsc));
        push_u32(&mut v, self.exit_reason);
        push_u32(&mut v, self.flags);
        push_u64(&mut v, self.exit_qualification);
        push_u64(&mut v, self.rax);
        push_u64(&mut v, self.rcx);
        push_u64(&mut v, self.rdx);
        push_u64(&mut v, self.rbx);
        push_u64(&mut v, self.rsp);
        push_u64(&mut v, self.rbp);
        push_u64(&mut v, self.rsi);
        push_u64(&mut v, self.rdi);
        push_u64(&mut v, self.r8);
        push_u64(&mut v, self.r9);
        push_u64(&mut v, self.r10);
        push_u64(&mut v, self.r11);
        push_u64(&mut v, self.r12);
        push_u64(&mut v, self.r13);
        push_u64(&mut v, self.r14);
        push_u64(&mut v, self.r15);
        push_u64(&mut v, self.rip);
        push_u64(&mut v, self.rflags);
        push_u64(&mut v, self.apic_hash);
        push_u64(&mut v, self.serial_hash);
        push_u64(&mut v, self.ioapic_hash);
        push_u64(&mut v, self.rtc_hash);
        push_u64(&mut v, self.mtrr_hash);
        push_u64(&mut v, self.rdrand_hash);
        v
    }

    fn mid_bytes(&self) -> (v: Vec<u8>)
        ensures
            v@ == self.encode_mid(),
            v@.len() == 76,
    {
        proof {
            reveal(ExitRecord::encode_mid);
        }
        let mut v: Vec<u8> = Vec::new();
        push_u64(&mut v, self.fs_base);
        assert(v@ =~= bytes::le64(self.fs_base));
        push_u64(&mut v, self.gs_base);
        push_u64(&mut v, self.kernel_gs_base);
        push_u64(&mut v, self.cr3);
        push_u64(&mut v, self.cs_base);
        push_u64(&mut v, self.ds_base);
        push_u64(&mut v, self.es_base);
        push_u64(&mut v, self.ss_base);
        push_u64(&mut v, self.pending_dbg_exceptions);
        push_u32(&mut v, self.interruptibility_state);
        v
    }

    fn tail_bytes(&self) -> (v: Vec<u8>)
        ensures
            v@ == self.encode_tail(),
            v@.len() == 208,
    {
        proof {
            reveal(ExitRecord::encode_tail);
        }
        let zero4: Vec<u8> = vec![0u8; 4];
        let zero128: Vec<u8> = vec![0u8; 128];
        assert(zero4@ =~= bytes::zeros(4));
        assert(zero128@ =~= bytes::zeros(128));
        let mut v: Vec<u8> = Vec::new();
        push_u64(&mut v, self.pebs_skid as u64);
        assert(v@ =~= bytes::le64(self.pebs_skid as u64));
        push_u64(&mut v, self.pebs_inst_delta as u64);
        push_u64(&mut v, self.pebs_tsc_offset_delta as u64);
        push_u32(&mut v, self.pebs_iters_since_arm);
        push_bytes(&mut v, zero4.as_slice());
        push_u64(&mut v, self.pebs_arm_delta);
        push_u64(&mut v, self.last_instruction_count);
        push_u64(&mut v, self.apic_timer_deadline);
        push_u64(&mut v, self.io_channel_target_tsc);
        push_u64(&mut v, self.pebs_armed_target_tsc);
        push_u64(&mut v, self.vmx_state_flags);
        push_bytes(&mut v, zero128.as_slice());
        v
    }

    /// The record as bytes.
    pub fn to_bytes(&self) -> (v: Vec<u8>)
        ensures
            v@ == self.encode(),
            v@.len() == EXIT_RECORD_SIZE,
    {
        let mut v: Vec<u8> = self.head_bytes();
        push_u64(&mut v, self.memory_hash);
        let mid: Vec<u8> = self.mid_bytes();
        push_bytes(&mut v, mid.as_slice());
        push_u32(&mut v, self.cow_page_count);
        let tail: Vec<u8> = self.tail_bytes();
        push_bytes(&mut v, tail.as_slice());
        proof {
            reveal(ExitRecord::encode);
        }
        v
    }
}

/// Length of the first block of fields.
proof fn lemma_head_length(r: ExitRecord)
    ensures
        r.encode_head().len() == EXIT_RECORD_MEMORY_HASH_OFFSET,
{
    reveal(ExitRecord::encode_head);
}

/// Length of the second block of fields.
proof fn lemma_mid_length(r: ExitRecord)
    ensures
        r.encode_mid().len() == 76,
{
    reveal(ExitRecord::encode_mid);
}

/// Length of the last block of fields.
proof fn lemma_tail_length(r: ExitRecord)
    ensures
        r.encode_tail().len() == 208,
{
    reveal(ExitRecord::encode_tail);
}

/// Lengths of the three blocks of fields.
pub(crate) proof fn lemma_block_lengths(r: ExitRecord)
    ensures
        r.encode_head().len() == EXIT_RECORD_MEMORY_HASH_OFFSET,
        r.encode_mid().len() == 76,
        r.encode_tail().len() == 208,
{
    lemma_head_length(r);
    lemma_mid_length(r);
    lemma_tail_length(r);
}

/// Filling in the deferred fields of an encoded record gives the encoding of
/// the record with those two fields set and all others unchanged.
pub proof fn patch_sets_deferred_fields(r: ExitRecord, memory_hash: u64, cow_page_count: u32)
    ensures
        stream::patch_exit(r.encode(), 0, memory_hash, cow_page_count) == (ExitRecord {
            memory_hash,
            cow_page_count,
            ..r
        }).encode(),
        r.encode().len() == EXIT_RECORD_SIZE,
{
    reveal(ExitRecord::encode);
    let head = r.encode_head();
    let mid = r.encode_mid();
    let tail = r.encode_tail();
    let after = ExitRecord { memory_hash, cow_page_count, ..r };
    lemma_block_lengths(r);
    assert(after.encode_head() == head) by {
        reveal(ExitRecord::encode_head);
    }
    assert(after.encode_mid() == mid) by {
        reveal(ExitRecord::encode_mid);
    }
    assert(after.encode_tail() == tail) by {
        reveal(ExitRecord::encode_tail);
    }
    assert(stream::patch_exit(r.encode(), 0, memory_hash, cow_page_count) =~= head + bytes::le64(
        memory_hash,
    ) + mid + bytes::le32(cow_page_count) + tail);
}

} // verus!
