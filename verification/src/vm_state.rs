//! The state of a VM but for its guest memory, shared by root and forked VMs.

use vstd::prelude::*;

use crate::bytes;
use crate::ept::{EptPageTable, EptView};
use crate::events::stream::{EventStream, EventStreamView};
use crate::events::types::{
    EventCategories, EventKind, IoChannelPayload, IoChannelPhase, EVENT_BUFFER_SIZE,
    EVENT_FLAG_DETERMINISTIC,
};
use crate::exit_record::{ExitRecord, EXIT_RECORD_FLAG_DETERMINISTIC};
use crate::exits::pebs::PebsState;
use crate::exits::reasons::ExitReason;
use crate::feedback::{feedback_buffers_from, feedback_buffers_new, FeedbackBufferInfo, FeedbackBuffers};
use crate::fields::{VmcsField16, VmcsField32, VmcsField64, VmcsFieldNatural};
use crate::hash;
use crate::hash::StateHash;
use crate::host::HostState;
use crate::io_channel::{
    IoChannelState, IoChannelView, SerialConsoleState, SERIAL_CONSOLE_PAGE_SIZE,
};
use crate::page::PagePool;
use crate::registers::{GeneralPurposeRegisters, VmxContext};
use crate::stats::AllExitStats;
use crate::traits::device_state::{DeviceStates, GuestMsrState};
use crate::traits::errors::{InveptError, VmcsReadResult, VmcsSetupError};
use crate::vm_pages;
use crate::vm_pages::{VmPages, VmPagesError, XCR0_SSE_AVX};
use crate::vmcs::Vmcs;

verus! {

/// Default TSC frequency (2995.2 MHz).
pub const DEFAULT_TSC_FREQUENCY: u64 = 2_995_200_000;

/// Exit reason that marks checkpoint records; no hardware exit has it.
pub const EXIT_REASON_CHECKPOINT: u32 = 0xFFFF_FFFF;

/// Which exits are captured as `Exit` records.
#[derive(Clone, Copy, Debug, PartialEq, Eq, Structural)]
pub enum ExitTrigger {
    /// None.
    Disabled,
    /// Every exit from the target TSC on.
    AllExits,
    /// One deterministic exit, the first at or after the target TSC.
    AtTsc,
    /// One record at shutdown.
    AtShutdown,
    /// One deterministic exit per interval; the target TSC is the interval.
    Checkpoints,
    /// Deterministic exits within the single-step range.
    TscRange,
}

impl Default for ExitTrigger {
    fn default() -> (r: Self)
        ensures
            r == ExitTrigger::Disabled,
    {
        ExitTrigger::Disabled
    }
}

/// The parts of a VM's state that are plain values.
pub struct VmCore {
    /// General-purpose registers as the exit handlers see them.
    pub gprs: GeneralPurposeRegisters,
    /// XCR0 components to save and restore.
    pub xcr0_mask: u64,
    /// Exit qualification of the last exit to userspace.
    pub last_exit_qualification: u64,
    /// Guest-physical address of the last exit to userspace.
    pub last_guest_physical_addr: u64,
    /// Emulated devices.
    pub devices: DeviceStates,
    /// Emulated MSRs.
    pub msr_state: GuestMsrState,
    /// IA32_KERNEL_GS_BASE of the guest.
    pub kernel_gs_base: u64,
    /// Guest instructions retired as of the last VM exit.
    pub last_instruction_count: u64,
    /// Emulated TSC as of the last deterministic exit.
    pub emulated_tsc: u64,
    /// What idle exits have added to the instruction count.
    pub tsc_offset: u64,
    /// TSC frequency in Hz.
    pub tsc_frequency: u64,
    /// Which exits are captured.
    pub exit_trigger: ExitTrigger,
    /// Threshold, trigger point or interval of the trigger.
    pub exit_target_tsc: u64,
    /// Nothing is captured before this emulated TSC; zero for no bound.
    pub exit_start_tsc: u64,
    /// A single-record trigger has fired.
    pub exit_captured: bool,
    /// Leave the memory hash of records at zero.
    pub skip_memory_hash: bool,
    /// Emulated TSC range that is single-stepped.
    pub single_step_tsc_range: Option<(u64, u64)>,
    /// The monitor trap flag is set in the VMCS.
    pub mtf_enabled: bool,
    /// Emulated TSC at which to exit to userspace.
    pub stop_at_tsc: Option<u64>,
    /// Index of the last captured checkpoint.
    pub last_checkpoint_idx: u64,
    /// The last VM exit was deterministic.
    pub last_exit_deterministic: bool,
    /// How far the last precise exit landed past its aim.
    pub last_pebs_skid: i64,
    /// Instructions retired between its arming and its firing.
    pub last_pebs_inst_delta: i64,
    /// TSC offset gained between its arming and its firing.
    pub last_pebs_tsc_offset_delta: i64,
    /// Iterations between its arming and its firing.
    pub last_pebs_iters_since_arm: u32,
    /// Distance it was armed for.
    pub last_pebs_arm_delta: u64,
    /// Guest page faults cause VM exits.
    pub intercept_pf: bool,
    /// Precise-exit state, once a scratch page is registered.
    pub pebs_state: Option<PebsState>,
    /// The host can trap record writes.
    pub pebs_supported: bool,
    /// Margin of precise exits on this host.
    pub pebs_margin: u64,
    /// The paravirtual console.
    pub serial_console: SerialConsoleState,
}

/// What a VM has of its host.
pub struct VmHost {
    /// Register context of the VM-entry code.
    pub vmx_ctx: VmxContext,
    /// Pages the processor reads around VM entry and exit.
    pub pages: VmPages,
    /// Host state captured at creation.
    pub host_state: HostState,
    /// VPID of the VM; zero if it has none.
    pub vpid: u16,
    /// CPU the VM last ran on.
    pub last_cpu: Option<u32>,
    /// A page has moved on the host: cached translations have to be dropped before
    /// the guest is entered again.
    pub invept_due: bool,
    /// Host TSC that stamps records emitted now; the run loop sets it.
    pub tsc: u64,
    /// Exit statistics.
    pub exit_stats: AllExitStats,
}

/// The state of a VM but for its guest memory.
pub struct VmState {
    /// Registers, devices, counters and settings.
    pub core: VmCore,
    /// The virtual machine control structure.
    pub vmcs: Vmcs,
    /// Host resources, clock and statistics.
    pub host: VmHost,
    /// Second-level page table.
    pub ept: EptPageTable,
    /// Event stream.
    pub events: EventStream,
    /// I/O channel.
    pub io_channel: IoChannelState,
    /// Registered feedback buffers.
    pub feedback_buffers: FeedbackBuffers,
}

/// What a [`VmState`] holds.
pub struct VmStateView {
    pub core: VmCore,
    pub vmcs: Vmcs,
    pub host: VmHost,
    pub ept: EptView,
    pub events: EventStreamView,
    pub io_channel: IoChannelView,
    pub feedback_buffers: Seq<FeedbackBufferInfo>,
}

impl View for VmState {
    type V = VmStateView;

    open spec fn view(&self) -> VmStateView {
        VmStateView {
            core: self.core,
            vmcs: self.vmcs,
            host: self.host,
            ept: self.ept@,
            events: self.events@,
            io_channel: self.io_channel@,
            feedback_buffers: self.feedback_buffers@,
        }
    }
}

/// A VMCS field or zero if it cannot be read.
pub open spec fn natural_or_zero(vmcs: Vmcs, f: VmcsFieldNatural) -> u64 {
    match vmcs.get_natural(f) {
        Ok(v) => v,
        Err(_) => 0,
    }
}

/// A VMCS field or zero if it cannot be read.
pub open spec fn dword_or_zero(vmcs: Vmcs, f: VmcsField32) -> u32 {
    match vmcs.get32(f) {
        Ok(v) => v,
        Err(_) => 0,
    }
}

/// A VMCS field or zero if it cannot be read.
pub open spec fn qword_or_zero(vmcs: Vmcs, f: VmcsField64) -> u64 {
    match vmcs.get64(f) {
        Ok(v) => v,
        Err(_) => 0,
    }
}

/// Read a VMCS field, or zero if it cannot be read.
pub fn read_natural_or_zero(vmcs: &Vmcs, f: VmcsFieldNatural) -> (r: u64)
    ensures
        r == natural_or_zero(*vmcs, f),
{
    match vmcs.read_natural(f) {
        Ok(v) => v,
        Err(_) => 0,
    }
}

/// Read a VMCS field, or zero if it cannot be read.
pub fn read32_or_zero(vmcs: &Vmcs, f: VmcsField32) -> (r: u32)
    ensures
        r == dword_or_zero(*vmcs, f),
{
    match vmcs.read32(f) {
        Ok(v) => v,
        Err(_) => 0,
    }
}

/// Read a VMCS field, or zero if it cannot be read.
pub fn read64_or_zero(vmcs: &Vmcs, f: VmcsField64) -> (r: u64)
    ensures
        r == qword_or_zero(*vmcs, f),
{
    match vmcs.read64(f) {
        Ok(v) => v,
        Err(_) => 0,
    }
}

impl VmCore {
    /// The diagnostics of the last precise exit have been consumed.
    pub open spec fn without_pebs_diagnostics(self) -> Self {
        VmCore {
            last_pebs_skid: 0,
            last_pebs_inst_delta: 0,
            last_pebs_tsc_offset_delta: 0,
            last_pebs_iters_since_arm: 0,
            last_pebs_arm_delta: 0,
            ..self
        }
    }

    /// The emulated TSC has reached the point where capturing starts.
    pub open spec fn past_start(self) -> bool {
        self.exit_start_tsc == 0 || self.emulated_tsc >= self.exit_start_tsc
    }

    /// An exit of the given determinism is captured by the current trigger.
    pub open spec fn captures(self, deterministic: bool) -> bool {
        self.past_start() && match self.exit_trigger {
            ExitTrigger::Disabled => false,
            ExitTrigger::AtShutdown => false,
            ExitTrigger::Checkpoints => deterministic && self.exit_target_tsc != 0
                && self.emulated_tsc / self.exit_target_tsc > self.last_checkpoint_idx,
            ExitTrigger::AtTsc => deterministic && !self.exit_captured && self.emulated_tsc
                >= self.exit_target_tsc,
            ExitTrigger::AllExits => self.emulated_tsc >= self.exit_target_tsc,
            ExitTrigger::TscRange => deterministic && match self.single_step_tsc_range {
                Some((start, end)) => start <= self.emulated_tsc < end,
                None => false,
            },
        }
    }

    /// Bookkeeping of the trigger after a captured exit.
    pub open spec fn after_capture(self) -> Self {
        match self.exit_trigger {
            ExitTrigger::Checkpoints => VmCore {
                last_checkpoint_idx: self.emulated_tsc / self.exit_target_tsc,
                ..self
            },
            ExitTrigger::AtTsc => VmCore { exit_captured: true, ..self },
            _ => self,
        }
    }
}

impl VmStateView {
    /// The stream after one event stamped with the current time.
    pub open spec fn event_append(self, kind: EventKind, payload: Seq<u8>) -> (Self, bool) {
        let (events, ok) = self.events.append(
            kind,
            kind.spec_default_flags(),
            self.core.emulated_tsc,
            self.host.tsc,
            payload,
        );
        (VmStateView { events, ..self }, ok)
    }

    /// The state after one early-boot serial byte.
    pub open spec fn event_serial_byte(self, byte: u8) -> (Self, bool) {
        let (events, ok) = self.events.serial_byte(
            byte,
            self.core.emulated_tsc,
            self.host.tsc,
        );
        (VmStateView { events, ..self }, ok)
    }

    /// The state after the serial line in progress has been emitted.
    pub open spec fn event_flush_serial_line(self) -> (Self, bool) {
        let (events, ok) = self.events.flush_line();
        (VmStateView { events, ..self }, ok)
    }

    /// The state after the first `len` bytes of the console page, at most one
    /// page, have been emitted.
    pub open spec fn event_emit_console(self, len: nat) -> (Self, bool) {
        self.event_append(
            EventKind::Serial,
            self.core.serial_console.pending_buf@.take(
                bytes::min_nat(len, SERIAL_CONSOLE_PAGE_SIZE as nat) as int,
            ),
        )
    }

    /// The state after an I/O-channel transaction has been recorded. Requests
    /// are inputs and deterministic, responses come from the host and are not.
    pub open spec fn event_emit_io_channel(self, payload: IoChannelPayload) -> (Self, bool) {
        let is_response = payload.phase == IoChannelPhase::Response.spec_as_u8();
        let (events, ok) = self.events.append(
            EventKind::IoChannel,
            if is_response { 0u16 } else { EVENT_FLAG_DETERMINISTIC },
            self.core.emulated_tsc,
            self.host.tsc,
            payload.encode() + (if is_response {
                self.io_channel.response
            } else {
                self.io_channel.request
            }),
        );
        (VmStateView { events, ..self }, ok)
    }

    /// The record of an exit: registers, device fingerprints and diagnostics.
    /// The memory hash and page count follow later.
    pub open spec fn exit_record(
        self,
        exit_reason: ExitReason,
        exit_qualification: u64,
        flags: u32,
    ) -> ExitRecord {
        let c = self.core;
        ExitRecord {
            tsc: c.emulated_tsc,
            exit_reason: exit_reason.code(),
            flags,
            exit_qualification,
            rax: c.gprs.rax,
            rcx: c.gprs.rcx,
            rdx: c.gprs.rdx,
            rbx: c.gprs.rbx,
            rsp: c.gprs.rsp,
            rbp: c.gprs.rbp,
            rsi: c.gprs.rsi,
            rdi: c.gprs.rdi,
            r8: c.gprs.r8,
            r9: c.gprs.r9,
            r10: c.gprs.r10,
            r11: c.gprs.r11,
            r12: c.gprs.r12,
            r13: c.gprs.r13,
            r14: c.gprs.r14,
            r15: c.gprs.r15,
            rip: natural_or_zero(self.vmcs, VmcsFieldNatural::GuestRip),
            rflags: natural_or_zero(self.vmcs, VmcsFieldNatural::GuestRflags),
            apic_hash: hash::xxh64(c.devices.apic.hash_input()),
            serial_hash: hash::xxh64(c.devices.serial.hash_input()),
            ioapic_hash: hash::xxh64(c.devices.ioapic.hash_input()),
            rtc_hash: hash::xxh64(c.devices.rtc.hash_input()),
            mtrr_hash: hash::xxh64(c.devices.mtrr.hash_input()),
            rdrand_hash: hash::xxh64(c.devices.random.hash_input()),
            memory_hash: 0,
            fs_base: natural_or_zero(self.vmcs, VmcsFieldNatural::GuestFsBase),
            gs_base: natural_or_zero(self.vmcs, VmcsFieldNatural::GuestGsBase),
            kernel_gs_base: c.kernel_gs_base,
            cr3: natural_or_zero(self.vmcs, VmcsFieldNatural::GuestCr3),
            cs_base: natural_or_zero(self.vmcs, VmcsFieldNatural::GuestCsBase),
            ds_base: natural_or_zero(self.vmcs, VmcsFieldNatural::GuestDsBase),
            es_base: natural_or_zero(self.vmcs, VmcsFieldNatural::GuestEsBase),
            ss_base: natural_or_zero(self.vmcs, VmcsFieldNatural::GuestSsBase),
            pending_dbg_exceptions: natural_or_zero(
                self.vmcs,
                VmcsFieldNatural::GuestPendingDebugExceptions,
            ),
            interruptibility_state: dword_or_zero(
                self.vmcs,
                VmcsField32::GuestInterruptibilityState,
            ),
            cow_page_count: 0,
            pebs_skid: c.last_pebs_skid,
            pebs_inst_delta: c.last_pebs_inst_delta,
            pebs_tsc_offset_delta: c.last_pebs_tsc_offset_delta,
            pebs_iters_since_arm: c.last_pebs_iters_since_arm,
            pebs_arm_delta: c.last_pebs_arm_delta,
            last_instruction_count: c.last_instruction_count,
            apic_timer_deadline: c.devices.apic.timer_deadline,
            io_channel_target_tsc: self.io_channel.request_target_tsc,
            pebs_armed_target_tsc: match c.pebs_state {
                Some(p) => p.armed_target_tsc,
                None => 0,
            },
            vmx_state_flags: (if c.mtf_enabled { 1u64 } else { 0u64 }) | (if
            c.last_exit_deterministic {
                2u64
            } else {
                0u64
            }),
        }
    }

    /// The state after an exit record has been written. Nothing happens unless
    /// a buffer is attached and exit records are enabled; otherwise the
    /// precise-exit diagnostics are consumed by the record.
    #[verifier::opaque]
    pub open spec fn write_exit_record(
        self,
        exit_reason: ExitReason,
        exit_qualification: u64,
        flags: u32,
    ) -> Self {
        if !self.events.attached || !self.events.enabled(EventKind::Exit) {
            self
        } else {
            VmStateView {
                core: self.core.without_pebs_diagnostics(),
                events: self.events.emit_exit(
                    self.exit_record(exit_reason, exit_qualification, flags).encode(),
                    flags & EXIT_RECORD_FLAG_DETERMINISTIC != 0,
                    self.core.emulated_tsc,
                    self.host.tsc,
                ),
                ..self
            }
        }
    }

    /// The state after an exit has been offered for capture.
    #[verifier::opaque]
    pub open spec fn capture_exit(
        self,
        exit_reason: ExitReason,
        exit_qualification: u64,
        deterministic: bool,
    ) -> Self {
        if !self.core.captures(deterministic) {
            self
        } else {
            VmStateView { core: self.core.after_capture(), ..self }.write_exit_record(
                exit_reason,
                exit_qualification,
                if deterministic { EXIT_RECORD_FLAG_DETERMINISTIC } else { 0 },
            )
        }
    }

    /// The state after a shutdown has been offered for capture.
    #[verifier::opaque]
    pub open spec fn capture_exit_at_shutdown(self) -> Self {
        if self.core.exit_trigger != ExitTrigger::AtShutdown || self.core.exit_captured
            || !self.core.past_start() {
            self
        } else {
            VmStateView {
                core: VmCore { exit_captured: true, ..self.core },
                ..self
            }.write_exit_record(
                ExitReason::VmcallShutdown,
                0,
                EXIT_RECORD_FLAG_DETERMINISTIC,
            )
        }
    }

    /// The state after a snapshot has been offered for capture.
    #[verifier::opaque]
    pub open spec fn capture_exit_at_snapshot(self) -> Self {
        if self.core.exit_trigger == ExitTrigger::Disabled || !self.core.past_start() {
            self
        } else {
            self.write_exit_record(ExitReason::VmcallSnapshot, 0, EXIT_RECORD_FLAG_DETERMINISTIC)
        }
    }

    /// The VMCS exception bitmap follows the page-fault interception setting.
    pub open spec fn apply_intercept_pf(self) -> Self {
        let bitmap = dword_or_zero(self.vmcs, VmcsField32::ExceptionBitmap);
        let wanted = if self.core.intercept_pf { bitmap | 0x4000 } else { bitmap & !0x4000u32 };
        VmStateView { vmcs: self.vmcs.put32(VmcsField32::ExceptionBitmap, wanted).0, ..self }
    }
}

impl VmState {
    /// Every part is well formed.
    pub open spec fn wf(&self) -> bool {
        &&& self.ept.wf()
        &&& self.events.wf()
        &&& self.io_channel.wf()
        &&& self.core.devices.random.wf()
        &&& forall|i: int|
            0 <= i < self.feedback_buffers@.len() ==> #[trigger] self.feedback_buffers@[i].wf()
    }

    /// Attach an event buffer.
    pub fn set_event_buffer(&mut self, buffer: Vec<u8>)
        requires
            old(self).wf(),
            buffer@.len() == EVENT_BUFFER_SIZE,
        ensures
            final(self).wf(),
            final(self)@ == (VmStateView {
                events: EventStreamView {
                    attached: true,
                    bytes: buffer@.subrange(0, old(self)@.events.bytes.len() as int),
                    ..old(self)@.events
                },
                ..old(self)@
            }),
    {
        self.events.attach(buffer);
    }

    /// Detach the event buffer and reset the cursor.
    pub fn clear_event_buffer_ptr(&mut self)
        requires
            old(self).wf(),
        ensures
            final(self).wf(),
            final(self)@ == (VmStateView {
                events: EventStreamView {
                    attached: false,
                    bytes: Seq::empty(),
                    pending: None,
                    exit_loc: None,
                    ..old(self)@.events
                },
                ..old(self)@
            }),
    {
        self.events.detach();
    }

    /// Number of valid bytes in the event buffer.
    pub fn event_buffer_len(&self) -> (r: usize)
        requires
            self.wf(),
        ensures
            r == self@.events.bytes.len(),
    {
        self.events.len
    }

    /// An event is staged because the buffer filled.
    pub fn event_buffer_full(&self) -> (r: bool)
        ensures
            r == self@.events.pending is Some,
    {
        self.events.pending.is_some()
    }

    /// The event buffer, if one is attached.
    pub fn event_buffer_ptr(&self) -> (r: Option<&Vec<u8>>)
        ensures
            r == (match self.events.buffer {
                Some(b) => Some(&b),
                None => None,
            }),
    {
        self.events.buffer.as_ref()
    }

    /// Set the enabled event categories.
    pub fn set_event_categories(&mut self, categories: EventCategories)
        requires
            old(self).wf(),
        ensures
            final(self).wf(),
            final(self)@ == (VmStateView {
                events: EventStreamView { categories, ..old(self)@.events },
                ..old(self)@
            }),
    {
        self.events.categories = categories;
    }

    /// The enabled event categories.
    pub fn event_categories(&self) -> (r: EventCategories)
        ensures
            r == self@.events.categories,
    {
        self.events.categories
    }

    /// The category of `kind` is enabled.
    pub fn event_category_enabled(&self, kind: EventKind) -> (r: bool)
        ensures
            r == self@.events.enabled(kind),
    {
        self.events.categories.contains(kind.category())
    }

    /// Reset the event cursor after a drain and write the staged event again.
    pub fn event_clear(&mut self)
        requires
            old(self).wf(),
        ensures
            final(self).wf(),
            final(self)@ == (VmStateView {
                events: old(self)@.events.clear(),
                ..old(self)@
            }),
    {
        self.events.clear();
    }

    /// Append an event stamped with the current time. Returns `false` if the
    /// buffer was full.
    pub fn event_append(&mut self, kind: EventKind, payload: &[u8]) -> (r: bool)
        requires
            old(self).wf(),
        ensures
            final(self).wf(),
            (final(self)@, r) == old(self)@.event_append(kind, payload@),
    {
        let tsc: u64 = self.core.emulated_tsc;
        let real_tsc: u64 = self.host.tsc;
        let empty: Vec<u8> = Vec::new();
        assert(payload@ + empty@ =~= payload@);
        self.events.append(kind, kind.default_flags(), tsc, real_tsc, payload, empty.as_slice())
    }

    /// Append an event with the given stamps.
    pub fn event_append_at(
        &mut self,
        kind: EventKind,
        payload: &[u8],
        tsc: u64,
        real_tsc: u64,
    ) -> (r: bool)
        requires
            old(self).wf(),
        ensures
            final(self).wf(),
            ({
                let (events, ok) = old(self)@.events.append(
                    kind,
                    kind.spec_default_flags(),
                    tsc,
                    real_tsc,
                    payload@,
                );
                final(self)@ == (VmStateView { events, ..old(self)@ }) && r == ok
            }),
    {
        let empty: Vec<u8> = Vec::new();
        assert(payload@ + empty@ =~= payload@);
        self.events.append(kind, kind.default_flags(), tsc, real_tsc, payload, empty.as_slice())
    }

    /// Accumulate one early-boot serial byte.
    pub fn event_serial_byte(&mut self, byte: u8) -> (r: bool)
        requires
            old(self).wf(),
        ensures
            final(self).wf(),
            (final(self)@, r) == old(self)@.event_serial_byte(byte),
    {
        let tsc: u64 = self.core.emulated_tsc;
        let real_tsc: u64 = self.host.tsc;
        self.events.serial_byte(byte, tsc, real_tsc)
    }

    /// Emit the serial line in progress.
    pub fn event_flush_serial_line(&mut self) -> (r: bool)
        requires
            old(self).wf(),
        ensures
            final(self).wf(),
            (final(self)@, r) == old(self)@.event_flush_serial_line(),
    {
        self.events.flush_line()
    }

    /// Emit the first `len` bytes of the console page.
    pub fn event_emit_console(&mut self, len: usize) -> (r: bool)
        requires
            old(self).wf(),
        ensures
            final(self).wf(),
            (final(self)@, r) == old(self)@.event_emit_console(len as nat),
    {
        let n: usize = if len <= SERIAL_CONSOLE_PAGE_SIZE { len } else { SERIAL_CONSOLE_PAGE_SIZE };
        let payload: Vec<u8> = bytes::slice_to_vec(&*self.core.serial_console.pending_buf, 0, n);
        assert(payload@ =~= self.core.serial_console.pending_buf@.take(n as int));
        self.event_append(EventKind::Serial, payload.as_slice())
    }

    /// Record an I/O-channel transaction with its bytes.
    pub fn event_emit_io_channel(&mut self, payload: &IoChannelPayload) -> (r: bool)
        requires
            old(self).wf(),
        ensures
            final(self).wf(),
            (final(self)@, r) == old(self)@.event_emit_io_channel(*payload),
    {
        let is_response: bool = payload.phase == IoChannelPhase::Response.as_u8();
        let data: Vec<u8> = if is_response {
            bytes::slice_to_vec(&*self.io_channel.response_buf, 0, self.io_channel.response_len)
        } else {
            bytes::slice_to_vec(&*self.io_channel.request_buf, 0, self.io_channel.request_len)
        };
        let flags: u16 = if is_response { 0 } else { EVENT_FLAG_DETERMINISTIC };
        let tsc: u64 = self.core.emulated_tsc;
        let real_tsc: u64 = self.host.tsc;
        let head: Vec<u8> = payload.as_bytes();
        self.events.append(
            EventKind::IoChannel,
            flags,
            tsc,
            real_tsc,
            head.as_slice(),
            data.as_slice(),
        )
    }

    /// Fill in the deferred fields of the waiting `Exit` record.
    pub fn finalize_exit_memory_hash(&mut self, memory_hash: u64, cow_page_count: u32)
        requires
            old(self).wf(),
        ensures
            final(self).wf(),
            final(self)@ == (VmStateView {
                events: old(self)@.events.finalize_exit(memory_hash, cow_page_count),
                ..old(self)@
            }),
    {
        self.events.finalize_exit(memory_hash, cow_page_count);
    }

    /// Some exits are captured.
    pub fn exit_capture_enabled(&self) -> (r: bool)
        ensures
            r == (self@.core.exit_trigger != ExitTrigger::Disabled),
    {
        self.core.exit_trigger != ExitTrigger::Disabled
    }

    /// Capture every exit.
    pub fn enable_exit_capture(&mut self)
        requires
            old(self).wf(),
        ensures
            final(self).wf(),
            final(self)@ == (VmStateView {
                core: VmCore {
                    exit_trigger: ExitTrigger::AllExits,
                    exit_captured: false,
                    ..old(self)@.core
                },
                ..old(self)@
            }),
    {
        self.core.exit_trigger = ExitTrigger::AllExits;
        self.core.exit_captured = false;
    }

    /// Capture nothing.
    pub fn disable_exit_capture(&mut self)
        requires
            old(self).wf(),
        ensures
            final(self).wf(),
            final(self)@ == (VmStateView {
                core: VmCore {
                    exit_trigger: ExitTrigger::Disabled,
                    exit_captured: false,
                    ..old(self)@.core
                },
                ..old(self)@
            }),
    {
        self.core.exit_trigger = ExitTrigger::Disabled;
        self.core.exit_captured = false;
    }

    /// Set which exits are captured, and the trigger's target TSC.
    pub fn set_exit_trigger(&mut self, mode: ExitTrigger, target_tsc: u64)
        requires
            old(self).wf(),
        ensures
            final(self).wf(),
            final(self)@ == (VmStateView {
                core: VmCore {
                    exit_trigger: mode,
                    exit_target_tsc: target_tsc,
                    exit_captured: false,
                    ..old(self)@.core
                },
                ..old(self)@
            }),
    {
        self.core.exit_trigger = mode;
        self.core.exit_target_tsc = target_tsc;
        self.core.exit_captured = false;
    }

    /// Which exits are captured.
    pub fn exit_trigger(&self) -> (r: ExitTrigger)
        ensures
            r == self@.core.exit_trigger,
    {
        self.core.exit_trigger
    }

    /// Set the emulated TSC before which nothing is captured.
    pub fn set_exit_start_tsc(&mut self, start_tsc: u64)
        requires
            old(self).wf(),
        ensures
            final(self).wf(),
            final(self)@ == (VmStateView {
                core: VmCore { exit_start_tsc: start_tsc, ..old(self)@.core },
                ..old(self)@
            }),
    {
        self.core.exit_start_tsc = start_tsc;
    }

    /// Choose whether guest page faults cause VM exits. The VMCS follows at the
    /// next run.
    pub fn set_intercept_pf(&mut self, enable: bool)
        requires
            old(self).wf(),
        ensures
            final(self).wf(),
            final(self)@ == (VmStateView {
                core: VmCore { intercept_pf: enable, ..old(self)@.core },
                ..old(self)@
            }),
    {
        self.core.intercept_pf = enable;
    }

    /// Apply the page-fault interception setting to the exception bitmap.
    pub fn apply_intercept_pf(&mut self)
        requires
            old(self).wf(),
        ensures
            final(self).wf(),
            final(self)@ == old(self)@.apply_intercept_pf(),
    {
        let bitmap: u32 = read32_or_zero(&self.vmcs, VmcsField32::ExceptionBitmap);
        let wanted: u32 = if self.core.intercept_pf { bitmap | 0x4000 } else { bitmap & !0x4000u32 };
        let _ = self.vmcs.write32(VmcsField32::ExceptionBitmap, wanted);
    }

    /// Write the record of an exit.
    fn write_exit_record(&mut self, exit_reason: ExitReason, exit_qualification: u64, flags: u32)
        requires
            old(self).wf(),
        ensures
            final(self).wf(),
            final(self)@ == old(self)@.write_exit_record(exit_reason, exit_qualification, flags),
    {
        reveal(VmStateView::write_exit_record);
        if self.events.buffer.is_none() || !self.events.categories.contains(
            EventCategories::exit(),
        ) {
            return;
        }
        let apic_hash: u64 = self.core.devices.apic.state_hash();
        let serial_hash: u64 = self.core.devices.serial.state_hash();
        let ioapic_hash: u64 = self.core.devices.ioapic.state_hash();
        let rtc_hash: u64 = self.core.devices.rtc.state_hash();
        let mtrr_hash: u64 = self.core.devices.mtrr.state_hash();
        let rdrand_hash: u64 = self.core.devices.random.state_hash();
        let mtf_flag: u64 = if self.core.mtf_enabled { 1 } else { 0 };
        let det_flag: u64 = if self.core.last_exit_deterministic { 2 } else { 0 };
        let vmcs: &Vmcs = &self.vmcs;
        let entry = ExitRecord {
            tsc: self.core.emulated_tsc,
            exit_reason: exit_reason.as_u32(),
            flags,
            exit_qualification,
            rax: self.core.gprs.rax,
            rcx: self.core.gprs.rcx,
            rdx: self.core.gprs.rdx,
            rbx: self.core.gprs.rbx,
            rsp: self.core.gprs.rsp,
            rbp: self.core.gprs.rbp,
            rsi: self.core.gprs.rsi,
            rdi: self.core.gprs.rdi,
            r8: self.core.gprs.r8,
            r9: self.core.gprs.r9,
            r10: self.core.gprs.r10,
            r11: self.core.gprs.r11,
            r12: self.core.gprs.r12,
            r13: self.core.gprs.r13,
            r14: self.core.gprs.r14,
            r15: self.core.gprs.r15,
            rip: read_natural_or_zero(vmcs, VmcsFieldNatural::GuestRip),
            rflags: read_natural_or_zero(vmcs, VmcsFieldNatural::GuestRflags),
            apic_hash,
            serial_hash,
            ioapic_hash,
            rtc_hash,
            mtrr_hash,
            rdrand_hash,
            memory_hash: 0,
            fs_base: read_natural_or_zero(vmcs, VmcsFieldNatural::GuestFsBase),
            gs_base: read_natural_or_zero(vmcs, VmcsFieldNatural::GuestGsBase),
            kernel_gs_base: self.core.kernel_gs_base,
            cr3: read_natural_or_zero(vmcs, VmcsFieldNatural::GuestCr3),
            cs_base: read_natural_or_zero(vmcs, VmcsFieldNatural::GuestCsBase),
            ds_base: read_natural_or_zero(vmcs, VmcsFieldNatural::GuestDsBase),
            es_base: read_natural_or_zero(vmcs, VmcsFieldNatural::GuestEsBase),
            ss_base: read_natural_or_zero(vmcs, VmcsFieldNatural::GuestSsBase),
            pending_dbg_exceptions: read_natural_or_zero(
                vmcs,
                VmcsFieldNatural::GuestPendingDebugExceptions,
            ),
            interruptibility_state: read32_or_zero(vmcs, VmcsField32::GuestInterruptibilityState),
            cow_page_count: 0,
            pebs_skid: self.core.last_pebs_skid,
            pebs_inst_delta: self.core.last_pebs_inst_delta,
            pebs_tsc_offset_delta: self.core.last_pebs_tsc_offset_delta,
            pebs_iters_since_arm: self.core.last_pebs_iters_since_arm,
            pebs_arm_delta: self.core.last_pebs_arm_delta,
            last_instruction_count: self.core.last_instruction_count,
            apic_timer_deadline: self.core.devices.apic.timer_deadline,
            io_channel_target_tsc: self.io_channel.request_target_tsc,
            pebs_armed_target_tsc: match &self.core.pebs_state {
                Some(p) => p.armed_target_tsc,
                None => 0,
            },
            vmx_state_flags: mtf_flag | det_flag,
        };
        assert(entry == old(self)@.exit_record(exit_reason, exit_qualification, flags));
        self.core.last_pebs_skid = 0;
        self.core.last_pebs_inst_delta = 0;
        self.core.last_pebs_tsc_offset_delta = 0;
        self.core.last_pebs_iters_since_arm = 0;
        self.core.last_pebs_arm_delta = 0;
        let deterministic: bool = flags & EXIT_RECORD_FLAG_DETERMINISTIC != 0;
        let payload: Vec<u8> = entry.to_bytes();
        let tsc: u64 = self.core.emulated_tsc;
        let real_tsc: u64 = self.host.tsc;
        self.events.emit_exit(payload.as_slice(), deterministic, tsc, real_tsc);
    }

    /// Offer an exit for capture.
    pub fn capture_exit(
        &mut self,
        exit_reason: ExitReason,
        exit_qualification: u64,
        deterministic: bool,
    )
        requires
            old(self).wf(),
        ensures
            final(self).wf(),
            final(self)@ == old(self)@.capture_exit(
                exit_reason,
                exit_qualification,
                deterministic,
            ),
    {
        reveal(VmStateView::capture_exit);
        if self.core.exit_start_tsc > 0 && self.core.emulated_tsc < self.core.exit_start_tsc {
            return;
        }
        match self.core.exit_trigger {
            ExitTrigger::Disabled => {
                return;
            },
            ExitTrigger::AtShutdown => {
                return;
            },
            ExitTrigger::Checkpoints => {
                if !deterministic {
                    return;
                }
                let interval: u64 = self.core.exit_target_tsc;
                if interval == 0 {
                    return;
                }
                let checkpoint_idx: u64 = self.core.emulated_tsc / interval;
                if checkpoint_idx > self.core.last_checkpoint_idx {
                    self.core.last_checkpoint_idx = checkpoint_idx;
                } else {
                    return;
                }
            },
            ExitTrigger::AtTsc => {
                if !deterministic {
                    return;
                }
                if self.core.exit_captured || self.core.emulated_tsc < self.core.exit_target_tsc {
                    return;
                }
                self.core.exit_captured = true;
            },
            ExitTrigger::AllExits => {
                if self.core.emulated_tsc < self.core.exit_target_tsc {
                    return;
                }
            },
            ExitTrigger::TscRange => {
                if !deterministic {
                    return;
                }
                match self.core.single_step_tsc_range {
                    Some((start, end)) => {
                        if self.core.emulated_tsc < start || self.core.emulated_tsc >= end {
                            return;
                        }
                    },
                    None => {
                        return;
                    },
                }
            },
        }
        let flags: u32 = if deterministic { EXIT_RECORD_FLAG_DETERMINISTIC } else { 0 };
        assert(self@.core == old(self)@.core.after_capture());
        self.write_exit_record(exit_reason, exit_qualification, flags);
    }

    /// Offer a shutdown for capture.
    pub fn capture_exit_at_shutdown(&mut self)
        requires
            old(self).wf(),
        ensures
            final(self).wf(),
            final(self)@ == old(self)@.capture_exit_at_shutdown(),
    {
        reveal(VmStateView::capture_exit_at_shutdown);
        if self.core.exit_trigger != ExitTrigger::AtShutdown || self.core.exit_captured {
            return;
        }
        if self.core.exit_start_tsc > 0 && self.core.emulated_tsc < self.core.exit_start_tsc {
            return;
        }
        self.core.exit_captured = true;
        self.write_exit_record(ExitReason::VmcallShutdown, 0, EXIT_RECORD_FLAG_DETERMINISTIC);
    }

    /// Offer a snapshot for capture.
    pub fn capture_exit_at_snapshot(&mut self)
        requires
            old(self).wf(),
        ensures
            final(self).wf(),
            final(self)@ == old(self)@.capture_exit_at_snapshot(),
    {
        reveal(VmStateView::capture_exit_at_snapshot);
        if self.core.exit_start_tsc > 0 && self.core.emulated_tsc < self.core.exit_start_tsc {
            return;
        }
        if self.core.exit_trigger == ExitTrigger::Disabled {
            return;
        }
        self.write_exit_record(ExitReason::VmcallSnapshot, 0, EXIT_RECORD_FLAG_DETERMINISTIC);
    }
}

/// Secondary control bit that tags TLB entries with a VPID.
pub const ENABLE_VPID: u32 = 0x20;

/// Preemption timer value of a VM that starts to run.
pub const PREEMPTION_TIMER_RESET: u32 = 0x10_0000;

/// Error of creating a VM state.
#[derive(Debug, PartialEq, Eq)]
pub enum VmStateError<E> {
    /// The second-level page table could not be created.
    EptCreation(E),
    /// No page for the MSR bitmap.
    MsrBitmapAlloc,
    /// No page for an MSR-load list.
    PebsExitMsrLoadAlloc,
    /// No page for an XSAVE area.
    XsavePageAlloc,
    /// The VMCS could not be set up.
    VmcsSetup(VmcsSetupError),
    /// The parent's guest state could not be copied.
    GuestStateCopy,
    /// Stale translations could not be invalidated.
    InveptFailed,
}

/// The state error for a page that could not be allocated.
pub open spec fn page_error<E>(e: VmPagesError) -> VmStateError<E> {
    match e {
        VmPagesError::MsrBitmapAlloc => VmStateError::MsrBitmapAlloc,
        VmPagesError::PebsExitMsrLoadAlloc => VmStateError::PebsExitMsrLoadAlloc,
        VmPagesError::XsavePageAlloc => VmStateError::XsavePageAlloc,
    }
}

/// Convert the error of a page that could not be allocated.
pub fn state_error_of_pages<E>(e: VmPagesError) -> (r: VmStateError<E>)
    ensures
        r == page_error::<E>(e),
{
    match e {
        VmPagesError::MsrBitmapAlloc => VmStateError::MsrBitmapAlloc,
        VmPagesError::PebsExitMsrLoadAlloc => VmStateError::PebsExitMsrLoadAlloc,
        VmPagesError::XsavePageAlloc => VmStateError::XsavePageAlloc,
    }
}

/// IA32_PERF_CAPABILITIES announces baseline records of format 4 or later. An
/// MSR that cannot be read announces nothing.
pub open spec fn traps_records(perf_capabilities: Option<u64>) -> bool {
    match perf_capabilities {
        Some(v) => (v >> 14) & 1 != 0 && (v >> 8) & 0xF >= 4,
        None => false,
    }
}

/// What the processor reported while a fork was set up.
#[derive(Clone, Copy, Debug, PartialEq, Eq, Structural)]
pub struct ForkSteps {
    /// The parent's VMCS could be flushed to memory.
    pub parent_cleared: bool,
    /// The child's VMCS could be made current.
    pub child_loaded: bool,
    /// Translations of the child's page table could be invalidated.
    pub invept: bool,
    /// The child's VMCS could be put into the clear state.
    pub child_cleared: bool,
}

impl VmCore {
    /// A VM that has not run yet.
    pub open spec fn initial(tsc_frequency: u64, pebs_supported: bool, pebs_margin: u64) -> Self {
        VmCore {
            gprs: GeneralPurposeRegisters::zero(),
            xcr0_mask: XCR0_SSE_AVX,
            last_exit_qualification: 0,
            last_guest_physical_addr: 0,
            devices: DeviceStates::reset(),
            msr_state: GuestMsrState::reset(),
            kernel_gs_base: 0,
            last_instruction_count: 0,
            emulated_tsc: 0,
            tsc_offset: 0,
            tsc_frequency,
            exit_trigger: ExitTrigger::Disabled,
            exit_target_tsc: 0,
            exit_start_tsc: 0,
            exit_captured: false,
            skip_memory_hash: false,
            single_step_tsc_range: None,
            mtf_enabled: false,
            stop_at_tsc: None,
            last_checkpoint_idx: 0,
            last_exit_deterministic: true,
            last_pebs_skid: 0,
            last_pebs_inst_delta: 0,
            last_pebs_tsc_offset_delta: 0,
            last_pebs_iters_since_arm: 0,
            last_pebs_arm_delta: 0,
            intercept_pf: false,
            pebs_state: None,
            pebs_supported,
            pebs_margin,
            serial_console: SerialConsoleState::at(0),
        }
    }

    /// The VMCS of a child before it is cleared: the parent's, with the
    /// child's own page table, bitmap, MSR-load list, timer and VPID.
    pub open spec fn forked_vmcs(self, vmcs: Vmcs, pages: VmPages, eptp: u64, next_vpid: u16) -> Vmcs {
        let copied = Vmcs { loaded: true, ..vmcs }.with64(VmcsField64::EptPointer, eptp).with64(
            VmcsField64::MsrBitmapAddr,
            pages.msr_bitmap.phys,
        ).with32(VmcsField32::VmxPreemptionTimerValue, PREEMPTION_TIMER_RESET);
        let listed = if self.pebs_state is Some {
            copied.with64(
                VmcsField64::VmExitMsrLoadAddr,
                pages.pebs_exit_msr_load_page.phys,
            ).with32(VmcsField32::VmExitMsrLoadCount, 1)
        } else {
            copied
        };
        if Self::uses_vpid(listed) {
            listed.with16(VmcsField16::VirtualProcessorId, next_vpid)
        } else {
            listed
        }
    }

    /// The VMCS enables VPIDs.
    pub open spec fn uses_vpid(vmcs: Vmcs) -> bool {
        dword_or_zero(vmcs, VmcsField32::SecondaryProcBasedVmExecControls) & ENABLE_VPID != 0
    }

    /// The core of a child: registers, devices, MSRs and time of the parent, and
    /// the trap flag as its VMCS has it; capture settings and armed exits start
    /// afresh.
    pub open spec fn forked(self) -> Self {
        VmCore {
            gprs: self.gprs,
            xcr0_mask: self.xcr0_mask,
            devices: self.devices,
            msr_state: self.msr_state,
            kernel_gs_base: self.kernel_gs_base,
            emulated_tsc: self.emulated_tsc,
            tsc_offset: self.emulated_tsc,
            mtf_enabled: self.mtf_enabled,
            pebs_state: match self.pebs_state {
                Some(p) => Some(p.forked()),
                None => None,
            },
            serial_console: SerialConsoleState::at(self.serial_console.page_gpa),
            ..VmCore::initial(self.tsc_frequency, self.pebs_supported, self.pebs_margin)
        }
    }
}

impl VmHost {
    /// The host side of a VM that has not run yet.
    pub open spec fn initial(pages: VmPages, host_state: HostState, vpid: u16) -> Self {
        VmHost {
            vmx_ctx: VmxContext::fresh(),
            pages,
            host_state,
            vpid,
            last_cpu: None,
            invept_due: false,
            tsc: 0,
            exit_stats: AllExitStats::zero(),
        }
    }
}

impl VmStateView {
    /// The state of a new VM around its core, VMCS, host side and page table.
    pub open spec fn initial(core: VmCore, vmcs: Vmcs, host: VmHost, ept: EptView) -> Self {
        VmStateView {
            core,
            vmcs,
            host,
            ept,
            events: EventStreamView::detached(),
            io_channel: IoChannelView::idle(0),
            feedback_buffers: Seq::empty(),
        }
    }

    /// The state of a child with the given pages and page table; nothing has
    /// been counted for it yet.
    pub open spec fn forked(self, pages: VmPages, ept: EptView, next_vpid: u16) -> Self {
        let vmcs = self.core.forked_vmcs(self.vmcs, pages, ept.eptp, next_vpid);
        VmStateView {
            core: self.core.forked(),
            vmcs: Vmcs { loaded: false, ..vmcs },
            host: VmHost::initial(
                pages,
                self.host.host_state,
                if VmCore::uses_vpid(vmcs) { next_vpid } else { 0 },
            ),
            ept,
            events: EventStreamView::detached(),
            io_channel: IoChannelView::idle(self.io_channel.page_gpa),
            feedback_buffers: self.feedback_buffers,
        }
    }
}

impl VmState {
    /// The state of a new root VM. The pages have been taken from the host,
    /// and `setup` and `invept` are what VMCS setup and the invalidation of
    /// stale translations gave.
    pub fn new<E>(
        vmcs: Vmcs,
        ept: EptPageTable,
        pages: VmPages,
        setup: Result<(), VmcsSetupError>,
        invept: Result<(), InveptError>,
        host_state: HostState,
        perf_capabilities: Option<u64>,
        pebs_margin: u64,
        tsc_frequency: u64,
    ) -> (r: Result<Self, VmStateError<E>>)
        requires
            ept.wf(),
        ensures
            match (setup, invept) {
                (Err(e), _) => r == Err::<Self, VmStateError<E>>(VmStateError::VmcsSetup(e)),
                (Ok(_), Err(_)) => r == Err::<Self, VmStateError<E>>(VmStateError::InveptFailed),
                (Ok(_), Ok(_)) => {
                    &&& r is Ok
                    &&& r->Ok_0.wf()
                    &&& r->Ok_0@ == VmStateView::initial(
                        VmCore::initial(
                            tsc_frequency,
                            traps_records(perf_capabilities),
                            pebs_margin,
                        ),
                        vmcs,
                        VmHost::initial(
                            pages,
                            host_state,
                            match vmcs.get16(VmcsField16::VirtualProcessorId) {
                                Ok(v) => v,
                                Err(_) => 0,
                            },
                        ),
                        ept@,
                    )
                },
            },
    {
        let pebs_supported: bool = match perf_capabilities {
            Some(v) => (v >> 14) & 1 != 0 && (v >> 8) & 0xF >= 4,
            None => false,
        };
        match setup {
            Ok(_) => {},
            Err(e) => {
                return Err(VmStateError::VmcsSetup(e));
            },
        }
        let vpid: u16 = match vmcs.read16(VmcsField16::VirtualProcessorId) {
            Ok(v) => v,
            Err(_) => 0,
        };
        match invept {
            Ok(_) => {},
            Err(_) => {
                return Err(VmStateError::InveptFailed);
            },
        }
        Ok(
            VmState {
                core: VmState::initial_core(tsc_frequency, pebs_supported, pebs_margin),
                vmcs,
                host: VmState::initial_host(pages, host_state, vpid),
                ept,
                events: EventStream::new(),
                io_channel: IoChannelState::new(),
                feedback_buffers: feedback_buffers_new(),
            },
        )
    }

    /// The state of a new root VM on pages from `pool`: its last five frames, with
    /// whose addresses the VMCS was set up. The guest reaches the pass-through MSRs
    /// directly; every other access exits.
    pub fn new_on_pool<E>(
        vmcs: Vmcs,
        ept: EptPageTable,
        pool: &mut PagePool,
        setup: Result<(), VmcsSetupError>,
        invept: Result<(), InveptError>,
        host_state: HostState,
        perf_capabilities: Option<u64>,
        pebs_margin: u64,
        tsc_frequency: u64,
    ) -> (r: Result<Self, VmStateError<E>>)
        requires
            ept.wf(),
        ensures
            match (vm_pages::pages_error(old(pool).frames@.len()), setup, invept) {
                (Some(e), _, _) => {
                    &&& r == Err::<Self, VmStateError<E>>(page_error(e))
                    &&& final(pool).frames@ == Seq::<(u64, u64)>::empty()
                },
                (None, Err(e), _) => r == Err::<Self, VmStateError<E>>(VmStateError::VmcsSetup(e)),
                (None, Ok(_), Err(_)) => r == Err::<Self, VmStateError<E>>(
                    VmStateError::InveptFailed,
                ),
                (None, Ok(_), Ok(_)) => {
                    let pages = r->Ok_0@.host.pages;
                    &&& r is Ok
                    &&& r->Ok_0.wf()
                    &&& r->Ok_0@ == VmStateView::initial(
                        VmCore::initial(
                            tsc_frequency,
                            traps_records(perf_capabilities),
                            pebs_margin,
                        ),
                        vmcs,
                        VmHost::initial(
                            pages,
                            host_state,
                            match vmcs.get16(VmcsField16::VirtualProcessorId) {
                                Ok(v) => v,
                                Err(_) => 0,
                            },
                        ),
                        ept@,
                    )
                    &&& pages.taken_from(old(pool).frames@)
                    &&& pages.unarmed()
                    &&& forall|m: u32, w: bool|
                        vm_pages::intercepted(pages.msr_bitmap.bytes@, m, w)
                            == !vm_pages::passthrough(m)
                    &&& pages.guest_xsave_page.bytes@ == vm_pages::initial_xsave()
                },
            },
            vm_pages::pages_error(old(pool).frames@.len()) is None ==> final(pool).frames@ == old(
                pool,
            ).frames@.take(old(pool).frames@.len() - 5),
    {
        let pages: VmPages = match VmPages::new(pool) {
            Ok(pages) => pages,
            Err(e) => {
                return Err(state_error_of_pages(e));
            },
        };
        VmState::new(
            vmcs,
            ept,
            pages,
            setup,
            invept,
            host_state,
            perf_capabilities,
            pebs_margin,
            tsc_frequency,
        )
    }

    fn initial_host(pages: VmPages, host_state: HostState, vpid: u16) -> (r: VmHost)
        ensures
            r == VmHost::initial(pages, host_state, vpid),
    {
        VmHost {
            vmx_ctx: VmxContext::new(),
            pages,
            host_state,
            vpid,
            last_cpu: None,
            invept_due: false,
            tsc: 0,
            exit_stats: AllExitStats::default(),
        }
    }

    fn initial_core(tsc_frequency: u64, pebs_supported: bool, pebs_margin: u64) -> (r: VmCore)
        ensures
            r == VmCore::initial(tsc_frequency, pebs_supported, pebs_margin),
    {
        VmCore {
            gprs: GeneralPurposeRegisters::default(),
            xcr0_mask: XCR0_SSE_AVX,
            last_exit_qualification: 0,
            last_guest_physical_addr: 0,
            devices: DeviceStates::default(),
            msr_state: GuestMsrState::new(),
            kernel_gs_base: 0,
            last_instruction_count: 0,
            emulated_tsc: 0,
            tsc_offset: 0,
            tsc_frequency,
            exit_trigger: ExitTrigger::Disabled,
            exit_target_tsc: 0,
            exit_start_tsc: 0,
            exit_captured: false,
            skip_memory_hash: false,
            single_step_tsc_range: None,
            mtf_enabled: false,
            stop_at_tsc: None,
            last_checkpoint_idx: 0,
            last_exit_deterministic: true,
            last_pebs_skid: 0,
            last_pebs_inst_delta: 0,
            last_pebs_tsc_offset_delta: 0,
            last_pebs_iters_since_arm: 0,
            last_pebs_arm_delta: 0,
            intercept_pf: false,
            pebs_state: None,
            pebs_supported,
            pebs_margin,
            serial_console: SerialConsoleState::new(),
        }
    }

    /// The VMCS of a child, current and with the fields of its own written.
    fn fork_vmcs(parent: &VmState, pages: &VmPages, eptp: u64, next_vpid: u16) -> (r: (Vmcs, u16))
        ensures
            r.0 == parent.core.forked_vmcs(parent.vmcs, *pages, eptp, next_vpid),
            r.1 == (if VmCore::uses_vpid(r.0) { next_vpid } else { 0 }),
    {
        let mut vmcs: Vmcs = parent.vmcs;
        vmcs.loaded = true;
        let _ = vmcs.write64(VmcsField64::EptPointer, eptp);
        let _ = vmcs.write64(VmcsField64::MsrBitmapAddr, pages.msr_bitmap.phys);
        let _ = vmcs.write32(VmcsField32::VmxPreemptionTimerValue, PREEMPTION_TIMER_RESET);
        if parent.core.pebs_state.is_some() {
            let _ = vmcs.write64(
                VmcsField64::VmExitMsrLoadAddr,
                pages.pebs_exit_msr_load_page.phys,
            );
            let _ = vmcs.write32(VmcsField32::VmExitMsrLoadCount, 1);
        }
        let exec2: u32 = read32_or_zero(&vmcs, VmcsField32::SecondaryProcBasedVmExecControls);
        if exec2 & ENABLE_VPID != 0 {
            let _ = vmcs.write16(VmcsField16::VirtualProcessorId, next_vpid);
            (vmcs, next_vpid)
        } else {
            (vmcs, 0)
        }
    }

    /// The state of a VM forked from `parent`. The pages and the page table
    /// have been made for the child, `next_vpid` is a free VPID, and `steps`
    /// is what the processor reported.
    pub fn new_for_fork<E>(
        ept: EptPageTable,
        parent: &VmState,
        pages: VmPages,
        steps: ForkSteps,
        next_vpid: u16,
    ) -> (r: Result<Self, VmStateError<E>>)
        requires
            ept.wf(),
            parent.wf(),
        ensures
            if !steps.parent_cleared || !steps.child_loaded {
                r == Err::<Self, VmStateError<E>>(VmStateError::GuestStateCopy)
            } else if !steps.invept {
                r == Err::<Self, VmStateError<E>>(VmStateError::InveptFailed)
            } else if !steps.child_cleared {
                r == Err::<Self, VmStateError<E>>(VmStateError::GuestStateCopy)
            } else {
                &&& r is Ok
                &&& r->Ok_0.wf()
                &&& r->Ok_0@ == parent@.forked(pages, ept@, next_vpid)
            },
    {
        if !steps.parent_cleared || !steps.child_loaded {
            return Err(VmStateError::GuestStateCopy);
        }
        let (mut vmcs, vpid) = VmState::fork_vmcs(parent, &pages, ept.eptp, next_vpid);
        if !steps.invept {
            return Err(VmStateError::InveptFailed);
        }
        if !steps.child_cleared {
            return Err(VmStateError::GuestStateCopy);
        }
        vmcs.loaded = false;
        let mut core: VmCore = VmState::initial_core(
            parent.core.tsc_frequency,
            parent.core.pebs_supported,
            parent.core.pebs_margin,
        );
        core.gprs = parent.core.gprs;
        core.xcr0_mask = parent.core.xcr0_mask;
        core.devices = parent.core.devices;
        core.msr_state = parent.core.msr_state;
        core.kernel_gs_base = parent.core.kernel_gs_base;
        core.emulated_tsc = parent.core.emulated_tsc;
        core.tsc_offset = parent.core.emulated_tsc;
        core.mtf_enabled = parent.core.mtf_enabled;
        core.pebs_state = match &parent.core.pebs_state {
            Some(p) => Some(p.clone_for_fork()),
            None => None,
        };
        core.serial_console = SerialConsoleState::clone_for_fork(&parent.core.serial_console);
        Ok(
            VmState {
                core,
                vmcs,
                host: VmState::initial_host(pages, parent.host.host_state, vpid),
                ept,
                events: EventStream::new(),
                io_channel: IoChannelState::clone_for_fork(&parent.io_channel),
                feedback_buffers: feedback_buffers_from(&parent.feedback_buffers),
            },
        )
    }
}

/// A fork goes on at the parent's emulated time with a fresh instruction
/// count: its offset is the parent's TSC, so the sum is unchanged.
pub proof fn fork_keeps_time(parent: VmStateView, pages: VmPages, ept: EptView, next_vpid: u16)
    ensures
        ({
            let child = parent.forked(pages, ept, next_vpid).core;
            &&& child.emulated_tsc == parent.core.emulated_tsc
            &&& child.emulated_tsc == child.last_instruction_count + child.tsc_offset
            &&& child.gprs == parent.core.gprs
            &&& child.devices == parent.core.devices
        }),
{
}

/// A fork inherits page registrations and feedback buffers, but no request, no
/// response, no event, no capture setting and no armed exit.
pub proof fn fork_starts_quiescent(
    parent: VmStateView,
    pages: VmPages,
    ept: EptView,
    next_vpid: u16,
)
    ensures
        ({
            let child = parent.forked(pages, ept, next_vpid);
            &&& child.io_channel == IoChannelView::idle(parent.io_channel.page_gpa)
            &&& child.core.serial_console.page_gpa == parent.core.serial_console.page_gpa
            &&& child.feedback_buffers == parent.feedback_buffers
            &&& !child.events.attached && child.events.pending is None
            &&& child.core.exit_trigger == ExitTrigger::Disabled
            &&& child.host.exit_stats == AllExitStats::zero()
            &&& (child.core.pebs_state is Some <==> parent.core.pebs_state is Some)
            &&& child.core.pebs_state is Some ==> child.core.pebs_state->0.armed_action is None
                && child.core.pebs_state->0.ds_area_va == parent.core.pebs_state->0.ds_area_va
        }),
{
}

/// A trigger at a TSC captures one exit: once it has, no later exit is captured,
/// whatever the time.
pub proof fn at_tsc_captures_once(core: VmCore, deterministic: bool, later: u64, again: bool)
    requires
        core.exit_trigger == ExitTrigger::AtTsc,
        core.captures(deterministic),
    ensures
        deterministic,
        core.emulated_tsc >= core.exit_target_tsc,
        !(VmCore { emulated_tsc: later, ..core.after_capture() }).captures(again),
{
}

/// Checkpoints capture at most one exit per interval, and the first
/// deterministic exit of a later interval is captured.
pub proof fn checkpoints_capture_once_per_interval(
    core: VmCore,
    deterministic: bool,
    later: u64,
    again: bool,
)
    requires
        core.exit_trigger == ExitTrigger::Checkpoints,
        core.captures(deterministic),
        later >= core.emulated_tsc,
    ensures
        ({
            let after = VmCore { emulated_tsc: later, ..core.after_capture() };
            after.captures(again) == (again && later / core.exit_target_tsc > core.emulated_tsc
                / core.exit_target_tsc)
        }),
{
}

/// Nothing is captured before the start, whatever the trigger.
pub proof fn nothing_is_captured_before_start(state: VmStateView, reason: ExitReason, qual: u64)
    requires
        state.core.emulated_tsc < state.core.exit_start_tsc,
    ensures
        state.capture_exit(reason, qual, true) == state,
        state.capture_exit(reason, qual, false) == state,
        state.capture_exit_at_shutdown() == state,
        state.capture_exit_at_snapshot() == state,
{
    reveal(VmStateView::capture_exit);
    reveal(VmStateView::capture_exit_at_shutdown);
    reveal(VmStateView::capture_exit_at_snapshot);
}

/// The final state is captured once, though shutdown may be signalled again.
pub proof fn shutdown_is_captured_once(state: VmStateView)
    requires
        state.core.exit_trigger == ExitTrigger::AtShutdown,
        state.core.past_start(),
    ensures
        state.capture_exit_at_shutdown().core.exit_captured,
        state.capture_exit_at_shutdown().capture_exit_at_shutdown()
            == state.capture_exit_at_shutdown(),
{
    reveal(VmStateView::capture_exit_at_shutdown);
    reveal(VmStateView::write_exit_record);
}

/// A field of a VMCS that may not be current.
pub open spec fn field_of(vmcs: Vmcs, f: VmcsFieldNatural) -> VmcsReadResult<u64> {
    (Vmcs { loaded: true, ..vmcs }).get_natural(f)
}

/// A child goes on where its parent stood: with its registers, extended state mask,
/// MSRs, kernel GS base, devices and emulated time, on the same kind of processor,
/// and with every guest-state field of its VMCS.
pub proof fn child_goes_on_where_parent_stood(
    parent: VmStateView,
    pages: VmPages,
    ept: EptView,
    next_vpid: u16,
)
    ensures
        ({
            let child = parent.forked(pages, ept, next_vpid);
            let p = parent.core;
            let c = child.core;
            &&& c.gprs == p.gprs
            &&& c.xcr0_mask == p.xcr0_mask
            &&& c.msr_state == p.msr_state
            &&& c.kernel_gs_base == p.kernel_gs_base
            &&& c.devices == p.devices
            &&& c.emulated_tsc == p.emulated_tsc
            &&& c.last_instruction_count == 0 && c.tsc_offset == p.emulated_tsc
            &&& c.tsc_frequency == p.tsc_frequency
            &&& c.pebs_supported == p.pebs_supported && c.pebs_margin == p.pebs_margin
            &&& forall|f: VmcsFieldNatural| #[trigger]
                field_of(child.vmcs, f) == field_of(parent.vmcs, f)
            &&& !child.vmcs.loaded
        }),
{
}

/// The VMCS of a child is its parent's but for what is the child's own: the page
/// table, the MSR bitmap, the VM-exit list of a VM with precise exits, the VPID
/// where VPIDs are used, and a fresh preemption timer.
pub proof fn child_has_its_own_vmcs_fields(
    parent: VmStateView,
    pages: VmPages,
    ept: EptView,
    next_vpid: u16,
    word: VmcsField16,
    dword: VmcsField32,
    qword: VmcsField64,
)
    ensures
        ({
            let child = parent.forked(pages, ept, next_vpid);
            let c = Vmcs { loaded: true, ..child.vmcs };
            let p = Vmcs { loaded: true, ..parent.vmcs };
            let precise = parent.core.pebs_state is Some;
            let vpids = match p.get32(VmcsField32::SecondaryProcBasedVmExecControls) {
                Ok(v) => v / 0x20 % 2 == 1,
                Err(_) => false,
            };
            &&& c.get64(VmcsField64::EptPointer) matches Ok(v) && v == ept.eptp
            &&& c.get64(VmcsField64::MsrBitmapAddr) matches Ok(v) && v == pages.msr_bitmap.phys
            &&& c.get32(VmcsField32::VmxPreemptionTimerValue) matches Ok(v) && v == 0x10_0000
            &&& precise ==> (c.get64(VmcsField64::VmExitMsrLoadAddr) matches Ok(v) && v
                == pages.pebs_exit_msr_load_page.phys)
            &&& precise ==> (c.get32(VmcsField32::VmExitMsrLoadCount) matches Ok(v) && v == 1)
            &&& vpids ==> (c.get16(VmcsField16::VirtualProcessorId) matches Ok(v) && v
                == next_vpid)
            &&& child.host.vpid == if vpids { next_vpid } else { 0 }
            &&& word != VmcsField16::VirtualProcessorId || !vpids ==> c.get16(word) == p.get16(word)
            &&& dword != VmcsField32::VmxPreemptionTimerValue && (dword != VmcsField32::VmExitMsrLoadCount
                || !precise) ==> c.get32(dword) == p.get32(dword)
            &&& qword != VmcsField64::EptPointer && qword != VmcsField64::MsrBitmapAddr && (qword
                != VmcsField64::VmExitMsrLoadAddr || !precise) ==> c.get64(qword) == p.get64(qword)
        }),
{
    let p = Vmcs { loaded: true, ..parent.vmcs };
    let exec2 = dword_or_zero(p, VmcsField32::SecondaryProcBasedVmExecControls);
    assert(exec2 & 0x20 != 0 <==> exec2 / 0x20 % 2 == 1) by (bit_vector);
    assert(0u32 / 0x20 % 2 == 0);
}

/// What a child does not take over: its parent's capture settings, stop point and
/// single-step range, statistics, and the CPU it last ran on.
pub proof fn child_starts_without_settings(
    parent: VmStateView,
    pages: VmPages,
    ept: EptView,
    next_vpid: u16,
)
    ensures
        ({
            let child = parent.forked(pages, ept, next_vpid);
            &&& child.core.single_step_tsc_range is None
            &&& child.core.stop_at_tsc is None
            &&& !child.core.intercept_pf
            &&& !child.core.exit_captured
            &&& child.core.exit_trigger is Disabled && child.core.last_checkpoint_idx == 0
            &&& !child.core.skip_memory_hash
            &&& child.core.mtf_enabled == parent.core.mtf_enabled
            &&& child.core.serial_console.page_gpa == parent.core.serial_console.page_gpa
            &&& child.io_channel.page_gpa == parent.io_channel.page_gpa
            &&& child.io_channel.request.len() == 0 && child.io_channel.response.len() == 0
            &&& child.io_channel.pending.len() == 0
            &&& child.feedback_buffers == parent.feedback_buffers
            &&& !child.events.attached && child.events.bytes.len() == 0 && child.events.seq == 0
            &&& child.core.pebs_state is Some <==> parent.core.pebs_state is Some
            &&& child.host.last_cpu is None
            &&& child.host.host_state == parent.host.host_state
            &&& child.host.vmx_ctx.launched == 0
            &&& child.host.pages == pages
            &&& child.ept == ept
            &&& child.core.pebs_state matches Some(q) ==> {
                let p = parent.core.pebs_state->0;
                &&& q.ds_management_gpa == p.ds_management_gpa
                &&& q.pebs_buffer_gpa == p.pebs_buffer_gpa
                &&& q.ds_area_va == p.ds_area_va
                &&& q.fixed_ctr_ctrl == p.fixed_ctr_ctrl
                &&& q.pebs_enable == p.pebs_enable
                &&& q.pebs_data_cfg == p.pebs_data_cfg
                &&& q.armed_action is None && q.armed_target_tsc == 0
            }
        }),
{
}

} // verus!
