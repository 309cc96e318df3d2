//! Precise VM exits: a performance counter is armed to overflow shortly before
//! the wanted instruction count, its record write traps, and single-stepping
//! covers the rest.

use vstd::prelude::*;

use crate::bytes;
use crate::bytes::push_u64;
use crate::ept::{EptLeaf, EptPermissions};
use crate::exits::ept::translate_gva_to_gpa;
use crate::exits::helpers::ExitHandlerResult;
use crate::exits::qualifications::EptViolationQualification;
use crate::exits::targets::{next_io_channel_target_tsc, next_single_step_start_tsc};
use crate::fields::{VmcsField32, VmcsField64};
use crate::msr;
use crate::msr::{Msr, MsrBank};
use crate::stats::AllExitStats;
use crate::traits::instruction_counter::InstructionCounter;
use crate::traits::vm_context::{VmContext, VmView};
use crate::vm_pages;
use crate::vm_pages::{write_entry_values, VmPages, PEBS_ENTRY_MSR_COUNT};
use crate::vm_state;
use crate::vm_state::{read64_or_zero, VmCore, VmHost, VmState, VmStateView};
use crate::vmcs::Vmcs;

verus! {

/// Offset of the record buffer within the registered scratch page.
pub const PEBS_BUFFER_OFFSET: u64 = 0x100;

/// Size of the record buffer within the scratch page.
pub const PEBS_BUFFER_SIZE: u64 = 0x800;

/// Base of the guest kernel's direct map. Every guest-physical page is mapped
/// there in every address space, so it stays valid across context switches.
pub const GUEST_LINUX_PAGE_OFFSET: u64 = 0xffff_8880_0000_0000;

/// Least distance to overflow at which the counter records on the exact
/// instruction.
pub const PEBS_MIN_DELTA: u64 = 257;

/// IA32_FIXED_CTR_CTRL value that runs the first fixed counter in both rings.
pub const FIXED_CTR_CTRL_FC0_OS_USR: u64 = 0x3;

/// IA32_PERF_GLOBAL_CTRL bit of the first fixed counter.
pub const PERF_GLOBAL_CTRL_FIXED_CTR0: u64 = 0x1_0000_0000;

/// IA32_PEBS_ENABLE bit of the first fixed counter.
pub const PEBS_ENABLE_FIXED_CTR0: u64 = 0x1_0000_0000;

/// Mask of the 48 counter bits.
pub const PMC_COUNTER_MASK: u64 = 0xFFFF_FFFF_FFFF;

/// Number of distinct counter values.
pub const PMC_COUNTER_MODULUS: u64 = 0x1_0000_0000_0000;

/// The area that tells the processor where to write records.
#[derive(Clone, Copy)]
pub struct DsManagementArea {
    /// Branch trace buffer base (unused).
    pub bts_buffer_base: u64,
    /// Branch trace index (unused).
    pub bts_index: u64,
    /// Branch trace limit (unused).
    pub bts_absolute_maximum: u64,
    /// Branch trace threshold (unused).
    pub bts_interrupt_threshold: u64,
    /// First byte of the record buffer.
    pub pebs_buffer_base: u64,
    /// Where the next record goes.
    pub pebs_index: u64,
    /// One past the end of the record buffer.
    pub pebs_absolute_maximum: u64,
    /// Index at which an interrupt is signalled.
    pub pebs_interrupt_threshold: u64,
    /// Reload values of the general counters.
    pub pebs_gp_counter_reset: [u64; 8],
    /// Reload values of the fixed counters.
    pub pebs_fixed_counter_reset: [u64; 4],
}

/// The little-endian bytes of a sequence of words.
pub open spec fn le64s(s: Seq<u64>) -> Seq<u8> {
    Seq::new(8 * s.len(), |k: int| bytes::le64(s[k / 8])[k % 8])
}

impl DsManagementArea {
    /// The words of the area in memory order.
    pub open spec fn words(self) -> Seq<u64> {
        seq![
            self.bts_buffer_base,
            self.bts_index,
            self.bts_absolute_maximum,
            self.bts_interrupt_threshold,
            self.pebs_buffer_base,
            self.pebs_index,
            self.pebs_absolute_maximum,
            self.pebs_interrupt_threshold,
        ] + self.pebs_gp_counter_reset@ + self.pebs_fixed_counter_reset@
    }

    /// The area for a record buffer inside the page at `page_va`. The threshold
    /// is the buffer base, so the first record already reaches it.
    pub open spec fn for_page(page_va: u64) -> Self {
        let base = page_va.wrapping_add(PEBS_BUFFER_OFFSET);
        DsManagementArea {
            bts_buffer_base: 0,
            bts_index: 0,
            bts_absolute_maximum: 0,
            bts_interrupt_threshold: 0,
            pebs_buffer_base: base,
            pebs_index: base,
            pebs_absolute_maximum: base.wrapping_add(PEBS_BUFFER_SIZE),
            pebs_interrupt_threshold: base,
            pebs_gp_counter_reset: vstd::array::spec_array_fill_for_copy_type(0u64),
            pebs_fixed_counter_reset: vstd::array::spec_array_fill_for_copy_type(0u64),
        }
    }
}

impl Default for DsManagementArea {
    fn default() -> (r: Self)
        ensures
            forall|i: int| 0 <= i < 20 ==> r.words()[i] == 0,
    {
        DsManagementArea {
            bts_buffer_base: 0,
            bts_index: 0,
            bts_absolute_maximum: 0,
            bts_interrupt_threshold: 0,
            pebs_buffer_base: 0,
            pebs_index: 0,
            pebs_absolute_maximum: 0,
            pebs_interrupt_threshold: 0,
            pebs_gp_counter_reset: [0u64; 8],
            pebs_fixed_counter_reset: [0u64; 4],
        }
    }
}

/// The management area for a record buffer inside the page at `page_va`.
pub fn build_ds_management_area(page_va: u64) -> (r: DsManagementArea)
    ensures
        r == DsManagementArea::for_page(page_va),
{
    let buffer_base: u64 = page_va.wrapping_add(PEBS_BUFFER_OFFSET);
    let buffer_max: u64 = buffer_base.wrapping_add(PEBS_BUFFER_SIZE);
    let r = DsManagementArea {
        bts_buffer_base: 0,
        bts_index: 0,
        bts_absolute_maximum: 0,
        bts_interrupt_threshold: 0,
        pebs_buffer_base: buffer_base,
        pebs_index: buffer_base,
        pebs_absolute_maximum: buffer_max,
        pebs_interrupt_threshold: buffer_base,
        pebs_gp_counter_reset: [0u64; 8],
        pebs_fixed_counter_reset: [0u64; 4],
    };
    assert(r.pebs_gp_counter_reset =~= DsManagementArea::for_page(page_va).pebs_gp_counter_reset);
    assert(r.pebs_fixed_counter_reset =~= DsManagementArea::for_page(
        page_va,
    ).pebs_fixed_counter_reset);
    r
}

/// Append the little-endian bytes of `words`.
fn push_words(v: &mut Vec<u8>, words: &[u64])
    ensures
        final(v)@ == old(v)@ + le64s(words@),
{
    let n: usize = words.len();
    let mut i: usize = 0;
    assert(v@ =~= old(v)@ + le64s(words@.take(0)));
    while i < n
        invariant
            i <= n,
            n == words@.len(),
            v@ == old(v)@ + le64s(words@.take(i as int)),
        decreases n - i,
    {
        push_u64(v, words[i]);
        assert(v@ =~= old(v)@ + le64s(words@.take(i + 1)));
        i = i + 1;
    }
    assert(words@.take(n as int) =~= words@);
}

/// The bytes of a management area as they stand in memory.
pub fn ds_management_area_bytes(area: &DsManagementArea) -> (v: Vec<u8>)
    ensures
        v@ == le64s(area.words()),
        v@.len() == 160,
{
    let head: [u64; 8] = [
        area.bts_buffer_base,
        area.bts_index,
        area.bts_absolute_maximum,
        area.bts_interrupt_threshold,
        area.pebs_buffer_base,
        area.pebs_index,
        area.pebs_absolute_maximum,
        area.pebs_interrupt_threshold,
    ];
    let mut v: Vec<u8> = Vec::new();
    push_words(&mut v, &head);
    push_words(&mut v, &area.pebs_gp_counter_reset);
    push_words(&mut v, &area.pebs_fixed_counter_reset);
    assert(v@ =~= le64s(area.words()));
    v
}

/// What happens when the precise exit fires.
#[derive(Debug, Clone, Copy, PartialEq, Eq, Structural)]
pub enum PebsAction {
    /// Go on towards injecting the given vector.
    InjectInterrupt(u8),
}

/// Host counter MSRs saved around an armed VM entry.
#[derive(Clone, Copy, PartialEq, Eq, Structural)]
pub struct PebsHostMsrs {
    pub pebs_enable: u64,
    pub ds_area: u64,
    pub fixed_ctr_ctrl: u64,
    pub fixed_ctr0: u64,
    pub pebs_data_cfg: u64,
}

impl PebsHostMsrs {
    /// Nothing saved yet.
    pub open spec fn zero() -> Self {
        PebsHostMsrs {
            pebs_enable: 0,
            ds_area: 0,
            fixed_ctr_ctrl: 0,
            fixed_ctr0: 0,
            pebs_data_cfg: 0,
        }
    }
}

impl Default for PebsHostMsrs {
    fn default() -> (r: Self)
        ensures
            r == PebsHostMsrs::zero(),
    {
        PebsHostMsrs {
            pebs_enable: 0,
            ds_area: 0,
            fixed_ctr_ctrl: 0,
            fixed_ctr0: 0,
            pebs_data_cfg: 0,
        }
    }
}

/// Precise-exit state of one VM.
#[derive(Clone, Copy, PartialEq, Eq, Structural)]
pub struct PebsState {
    /// Guest-physical address of the management area.
    pub ds_management_gpa: u64,
    /// Guest-physical address of the record buffer page.
    pub pebs_buffer_gpa: u64,
    /// Linear address loaded into IA32_DS_AREA.
    pub ds_area_va: u64,
    /// What to do when the exit fires; `None` while nothing is armed.
    pub armed_action: Option<PebsAction>,
    /// Emulated TSC at which the counter was aimed.
    pub armed_target_tsc: u64,
    /// Instruction count when it was armed.
    pub armed_inst_count: u64,
    /// TSC offset when it was armed.
    pub armed_tsc_offset: u64,
    /// Run-loop iterations begun since then with the arming still live.
    pub iters_since_arm: u32,
    /// Counter start value for the next entry.
    pub counter_reload: u64,
    /// IA32_FIXED_CTR_CTRL value for armed entries.
    pub fixed_ctr_ctrl: u64,
    /// IA32_PEBS_ENABLE value for armed entries.
    pub pebs_enable: u64,
    /// MSR_PEBS_DATA_CFG value for armed entries.
    pub pebs_data_cfg: u64,
    /// Host MSRs saved at the last armed entry.
    pub host_msrs: PebsHostMsrs,
    /// The first arming has been reported.
    pub logged_first_arm: bool,
}

impl PebsState {
    /// The state right after a scratch page has been registered.
    pub open spec fn registered(gpa: u64, ds_area_va: u64) -> Self {
        PebsState {
            ds_management_gpa: gpa,
            pebs_buffer_gpa: gpa,
            ds_area_va,
            armed_action: None,
            armed_target_tsc: 0,
            armed_inst_count: 0,
            armed_tsc_offset: 0,
            iters_since_arm: 0,
            counter_reload: 0,
            fixed_ctr_ctrl: FIXED_CTR_CTRL_FC0_OS_USR,
            pebs_enable: PEBS_ENABLE_FIXED_CTR0,
            pebs_data_cfg: 0,
            host_msrs: PebsHostMsrs::zero(),
            logged_first_arm: false,
        }
    }

    /// The registration alone, with nothing armed.
    pub open spec fn forked(self) -> Self {
        PebsState {
            armed_action: None,
            armed_target_tsc: 0,
            armed_inst_count: 0,
            armed_tsc_offset: 0,
            iters_since_arm: 0,
            counter_reload: 0,
            host_msrs: PebsHostMsrs::zero(),
            logged_first_arm: false,
            ..self
        }
    }

    /// The state after an attempt to arm, and its outcome.
    pub open spec fn arm(
        self,
        current_tsc: u64,
        target_tsc: u64,
        action: PebsAction,
        inst_count_now: u64,
        tsc_offset_now: u64,
        margin: u64,
    ) -> (Self, ArmResult) {
        if target_tsc < current_tsc {
            (self, ArmResult::AlreadyPast)
        } else if target_tsc - current_tsc < PEBS_MIN_DELTA + margin {
            (self, ArmResult::BelowMinDelta)
        } else {
            (
                PebsState {
                    counter_reload: reload_for((target_tsc - current_tsc - margin) as nat),
                    armed_target_tsc: (target_tsc - margin) as u64,
                    armed_inst_count: inst_count_now,
                    armed_tsc_offset: tsc_offset_now,
                    iters_since_arm: 0,
                    armed_action: Some(action),
                    logged_first_arm: true,
                    ..self
                },
                ArmResult::Armed,
            )
        }
    }

    /// The state with nothing armed.
    pub open spec fn disarm(self) -> Self {
        PebsState { armed_action: None, ..self }
    }

    /// The precise-exit state a forked child inherits.
    pub fn clone_for_fork(&self) -> (r: Self)
        ensures
            r == self.forked(),
    {
        PebsState {
            ds_management_gpa: self.ds_management_gpa,
            pebs_buffer_gpa: self.pebs_buffer_gpa,
            ds_area_va: self.ds_area_va,
            fixed_ctr_ctrl: self.fixed_ctr_ctrl,
            pebs_enable: self.pebs_enable,
            pebs_data_cfg: self.pebs_data_cfg,
            armed_action: None,
            armed_target_tsc: 0,
            armed_inst_count: 0,
            armed_tsc_offset: 0,
            iters_since_arm: 0,
            counter_reload: 0,
            host_msrs: PebsHostMsrs::default(),
            logged_first_arm: false,
        }
    }
}

/// The counter value from which `delta` increments lead to zero.
pub open spec fn reload_for(delta: nat) -> u64 {
    ((PMC_COUNTER_MODULUS - delta % (PMC_COUNTER_MODULUS as nat)) % (PMC_COUNTER_MODULUS as int)) as u64
}

/// A counter loaded for `delta` overflows after exactly `delta` increments, or
/// a multiple of the counter range sooner.
pub proof fn reload_overflows_after_delta(delta: nat)
    ensures
        (reload_for(delta) + delta) % (PMC_COUNTER_MODULUS as int) == 0,
        reload_for(delta) < PMC_COUNTER_MODULUS,
        0 < delta < PMC_COUNTER_MODULUS ==> reload_for(delta) == PMC_COUNTER_MODULUS - delta,
{
}

/// Outcome of arming a precise exit.
#[derive(Debug, Clone, Copy, PartialEq, Eq, Structural)]
pub enum ArmResult {
    /// The next VM entry programs the counter.
    Armed,
    /// The target has already passed.
    AlreadyPast,
    /// The target is too near; single-stepping covers the whole distance.
    BelowMinDelta,
    /// No scratch page is registered.
    NotRegistered,
}

/// CPU family and model encoded in CPUID leaf 1, register EAX.
pub open spec fn family_model(eax: u32) -> (u32, u32) {
    let base_model = (eax >> 4) & 0xF;
    let base_family = (eax >> 8) & 0xF;
    let ext_model = (eax >> 16) & 0xF;
    let ext_family = (eax >> 20) & 0xFF;
    (
        if base_family == 0xF { (base_family + ext_family) as u32 } else { base_family },
        if base_family == 0x6 || base_family == 0xF {
            (ext_model << 4) | base_model
        } else {
            base_model
        },
    )
}

/// Distance before the target at which the counter is aimed, by CPU model.
pub open spec fn pebs_margin(eax: u32) -> u64 {
    if family_model(eax) == (0x6u32, 0x8Fu32) { 3 } else { 8 }
}

/// Decode CPU family and model from CPUID leaf 1, register EAX.
pub fn host_family_model(eax: u32) -> (r: (u32, u32))
    ensures
        r == family_model(eax),
{
    let base_model: u32 = (eax >> 4) & 0xF;
    let base_family: u32 = (eax >> 8) & 0xF;
    let ext_model: u32 = (eax >> 16) & 0xF;
    let ext_family: u32 = (eax >> 20) & 0xFF;
    assert((eax >> 20) & 0xFF <= 0xFF) by (bit_vector);
    let model: u32 = if base_family == 0x6 || base_family == 0xF {
        (ext_model << 4) | base_model
    } else {
        base_model
    };
    let family: u32 = if base_family == 0xF { base_family + ext_family } else { base_family };
    (family, model)
}

/// Margin by which the counter fires before the target. Record writes can
/// drift by an instruction or so; single-stepping covers the margin. `eax` is
/// register EAX of the host's CPUID leaf 1.
pub fn get_pebs_margin(eax: u32) -> (r: u64)
    ensures
        r == pebs_margin(eax),
        r <= 8,
{
    let (family, model) = host_family_model(eax);
    if family == 0x6 && model == 0x8F {
        3
    } else {
        8
    }
}

/// Arm a precise exit `margin` instructions before `target_tsc`.
pub fn arm_precise_exit(
    pebs: &mut PebsState,
    current_tsc: u64,
    target_tsc: u64,
    action: PebsAction,
    inst_count_now: u64,
    tsc_offset_now: u64,
    margin: u64,
) -> (r: ArmResult)
    ensures
        (*final(pebs), r) == old(pebs).arm(
            current_tsc,
            target_tsc,
            action,
            inst_count_now,
            tsc_offset_now,
            margin,
        ),
{
    if target_tsc < current_tsc {
        return ArmResult::AlreadyPast;
    }
    let delta: u64 = target_tsc - current_tsc;
    if delta < PEBS_MIN_DELTA || delta - PEBS_MIN_DELTA < margin {
        return ArmResult::BelowMinDelta;
    }
    let encoded_delta: u64 = delta - margin;
    let low: u64 = encoded_delta & PMC_COUNTER_MASK;
    assert(low == encoded_delta % PMC_COUNTER_MODULUS) by (bit_vector)
        requires
            low == encoded_delta & PMC_COUNTER_MASK,
    ;
    pebs.counter_reload = if low == 0 { 0 } else { PMC_COUNTER_MODULUS - low };
    pebs.armed_target_tsc = target_tsc - margin;
    pebs.armed_inst_count = inst_count_now;
    pebs.armed_tsc_offset = tsc_offset_now;
    pebs.iters_since_arm = 0;
    pebs.armed_action = Some(action);
    pebs.logged_first_arm = true;
    ArmResult::Armed
}

/// Disarm any pending precise exit.
pub fn disarm_precise_exit(pebs: &mut PebsState)
    ensures
        *final(pebs) == old(pebs).disarm(),
{
    pebs.armed_action = None;
}

/// Disarming twice is disarming once.
pub proof fn disarm_is_idempotent(pebs: PebsState)
    ensures
        pebs.disarm().disarm() == pebs.disarm(),
        pebs.disarm().armed_action is None,
{
}

/// The violation is a record write: a write asynchronous to instruction
/// execution.
pub open spec fn pebs_induced(qual: EptViolationQualification) -> bool {
    qual.asynchronous && qual.write
}

/// Whether an EPT violation is a record write.
pub fn is_pebs_induced(qual: &EptViolationQualification) -> (r: bool)
    ensures
        r == pebs_induced(*qual),
{
    qual.asynchronous && qual.write
}

/// Outcome of registering a scratch page, as the guest sees it.
#[derive(Debug, Clone, Copy, PartialEq, Eq, Structural)]
pub enum RegisterPebsPageResult {
    /// Registered.
    Success,
    /// The host CPU cannot trap record writes.
    Unsupported,
    /// The address is not page-aligned.
    Misaligned,
    /// The address is not mapped by the guest.
    Untranslatable,
    /// The page is not mapped by the host.
    NotEptMapped,
    /// A page is registered already.
    AlreadyRegistered,
}

impl RegisterPebsPageResult {
    /// The value the guest gets.
    pub open spec fn code(self) -> u64 {
        match self {
            RegisterPebsPageResult::Success => 0,
            RegisterPebsPageResult::Unsupported => 0xFFFF_FFFF_FFFF_FFFF,
            RegisterPebsPageResult::Misaligned => 0xFFFF_FFFF_FFFF_FFFE,
            RegisterPebsPageResult::Untranslatable => 0xFFFF_FFFF_FFFF_FFFD,
            RegisterPebsPageResult::NotEptMapped => 0xFFFF_FFFF_FFFF_FFFC,
            RegisterPebsPageResult::AlreadyRegistered => 0xFFFF_FFFF_FFFF_FFFB,
        }
    }

    /// The value the guest gets.
    pub fn as_u64(self) -> (r: u64)
        ensures
            r == self.code(),
    {
        match self {
            RegisterPebsPageResult::Success => 0,
            RegisterPebsPageResult::Unsupported => 0xFFFF_FFFF_FFFF_FFFF,
            RegisterPebsPageResult::Misaligned => 0xFFFF_FFFF_FFFF_FFFE,
            RegisterPebsPageResult::Untranslatable => 0xFFFF_FFFF_FFFF_FFFD,
            RegisterPebsPageResult::NotEptMapped => 0xFFFF_FFFF_FFFF_FFFC,
            RegisterPebsPageResult::AlreadyRegistered => 0xFFFF_FFFF_FFFF_FFFB,
        }
    }
}

/// The earlier of two optional points in time.
pub open spec fn earlier(a: Option<u64>, b: Option<u64>) -> Option<u64> {
    match (a, b) {
        (Some(x), Some(y)) => Some(if y < x { y } else { x }),
        (Some(x), None) => Some(x),
        (None, b) => b,
    }
}

/// The earlier of two optional points in time.
fn min_target(a: Option<u64>, b: Option<u64>) -> (r: Option<u64>)
    ensures
        r == earlier(a, b),
{
    match a {
        Some(x) => match b {
            Some(y) => Some(if y < x { y } else { x }),
            None => Some(x),
        },
        None => b,
    }
}

impl VmStateView {
    /// The earliest point at which a precise exit is wanted: the timer
    /// deadline, the I/O request, the stop point or the start of the
    /// single-step range. Zero if there is none.
    #[verifier::opaque]
    pub open spec fn precise_target(self) -> u64 {
        let c = self.core;
        let deadline = c.devices.apic.timer_deadline;
        match earlier(
            earlier(
                earlier(
                    if deadline == 0 { None } else { Some(deadline) },
                    self.io_channel_target(),
                ),
                c.stop_at_tsc,
            ),
            c.single_step_target(),
        ) {
            Some(t) => t,
            None => 0,
        }
    }

    /// The state armed for the coming iteration.
    pub open spec fn armed_for_next_iteration(self) -> Self {
        let c = self.core;
        match c.pebs_state {
            None => self,
            Some(p) => {
                let (after, result) = p.rearm(
                    c.current_tsc(),
                    self.precise_target(),
                    PebsAction::InjectInterrupt((c.devices.apic.lvt_timer & 0xFF) as u8),
                    c.last_instruction_count,
                    c.tsc_offset,
                    c.pebs_margin,
                );
                self.with_core(VmCore { pebs_state: Some(after), ..c }).with_stats(
                    arming_counted(self.host.exit_stats, p.armed_action is Some, result),
                )
            },
        }
    }
}

impl PebsState {
    /// The state armed anew for the coming iteration, and the outcome if there
    /// was a target. A failed attempt disarms, so that a stale counter value
    /// cannot fire past a missed target.
    #[verifier::opaque]
    pub open spec fn rearm(
        self,
        current_tsc: u64,
        target_tsc: u64,
        action: PebsAction,
        inst_count_now: u64,
        tsc_offset_now: u64,
        margin: u64,
    ) -> (Self, Option<ArmResult>) {
        let counted = PebsState {
            iters_since_arm: if self.armed_action is Some && self.iters_since_arm < u32::MAX {
                (self.iters_since_arm + 1) as u32
            } else {
                self.iters_since_arm
            },
            ..self
        };
        if target_tsc == 0 {
            (counted.disarm(), None)
        } else {
            let (tried, result) = counted.arm(
                current_tsc,
                target_tsc,
                action,
                inst_count_now,
                tsc_offset_now,
                margin,
            );
            (if result == ArmResult::Armed { tried } else { tried.disarm() }, Some(result))
        }
    }
}

/// Statistics after one arming attempt.
#[verifier::opaque]
pub open spec fn arming_counted(
    stats: AllExitStats,
    was_armed: bool,
    result: Option<ArmResult>,
) -> AllExitStats {
    AllExitStats {
        pebs_armed_iter_no_fire: if was_armed {
            stats.pebs_armed_iter_no_fire.wrapping_add(1)
        } else {
            stats.pebs_armed_iter_no_fire
        },
        pebs_arm_already_past: if result == Some(ArmResult::AlreadyPast) {
            stats.pebs_arm_already_past.wrapping_add(1)
        } else {
            stats.pebs_arm_already_past
        },
        pebs_arm_below_min_delta: if result == Some(ArmResult::BelowMinDelta) {
            stats.pebs_arm_below_min_delta.wrapping_add(1)
        } else {
            stats.pebs_arm_below_min_delta
        },
        ..stats
    }
}

fn rearm(
    pebs: &mut PebsState,
    current_tsc: u64,
    target_tsc: u64,
    action: PebsAction,
    inst_count_now: u64,
    tsc_offset_now: u64,
    margin: u64,
) -> (r: Option<ArmResult>)
    ensures
        (*final(pebs), r) == old(pebs).rearm(
            current_tsc,
            target_tsc,
            action,
            inst_count_now,
            tsc_offset_now,
            margin,
        ),
{
    reveal(PebsState::rearm);
    if pebs.armed_action.is_some() && pebs.iters_since_arm < u32::MAX {
        pebs.iters_since_arm = pebs.iters_since_arm + 1;
    }
    if target_tsc == 0 {
        disarm_precise_exit(pebs);
        return None;
    }
    let result: ArmResult = arm_precise_exit(
        pebs,
        current_tsc,
        target_tsc,
        action,
        inst_count_now,
        tsc_offset_now,
        margin,
    );
    if result != ArmResult::Armed {
        disarm_precise_exit(pebs);
    }
    Some(result)
}

fn count_arming(stats: &mut AllExitStats, was_armed: bool, result: Option<ArmResult>)
    ensures
        *final(stats) == arming_counted(*old(stats), was_armed, result),
{
    reveal(arming_counted);
    if was_armed {
        stats.pebs_armed_iter_no_fire = stats.pebs_armed_iter_no_fire.wrapping_add(1);
    }
    match result {
        Some(ArmResult::AlreadyPast) => {
            stats.pebs_arm_already_past = stats.pebs_arm_already_past.wrapping_add(1);
        },
        Some(ArmResult::BelowMinDelta) => {
            stats.pebs_arm_below_min_delta = stats.pebs_arm_below_min_delta.wrapping_add(1);
        },
        _ => {},
    }
}

/// The earliest point at which a precise exit is wanted, or zero.
fn next_precise_target(state: &VmState) -> (r: u64)
    requires
        state.wf(),
    ensures
        r == state@.precise_target(),
{
    reveal(VmStateView::precise_target);
    let deadline: u64 = state.core.devices.apic.timer_deadline;
    let timer: Option<u64> = if deadline == 0 { None } else { Some(deadline) };
    let with_io: Option<u64> = min_target(timer, next_io_channel_target_tsc(state));
    let with_stop: Option<u64> = min_target(with_io, state.core.stop_at_tsc);
    match min_target(with_stop, next_single_step_start_tsc(state)) {
        Some(t) => t,
        None => 0,
    }
}

fn arm_next(state: &mut VmState)
    requires
        old(state).wf(),
    ensures
        final(state).wf(),
        final(state)@ == old(state)@.armed_for_next_iteration(),
{
    let mut pebs: PebsState = match state.core.pebs_state {
        Some(p) => p,
        None => {
            return;
        },
    };
    let was_armed: bool = pebs.armed_action.is_some();
    let inst_count: u64 = state.core.last_instruction_count;
    let tsc_offset: u64 = state.core.tsc_offset;
    let result: Option<ArmResult> = rearm(
        &mut pebs,
        inst_count.wrapping_add(tsc_offset),
        next_precise_target(state),
        PebsAction::InjectInterrupt((state.core.devices.apic.lvt_timer & 0xFF) as u8),
        inst_count,
        tsc_offset,
        state.core.pebs_margin,
    );
    state.core.pebs_state = Some(pebs);
    count_arming(&mut state.host.exit_stats, was_armed, result);
}

/// Arm the coming iteration for the earliest point at which a precise exit is
/// wanted.
pub fn arm_for_next_iteration<C: VmContext>(ctx: &mut C)
    requires
        old(ctx).wf(),
    ensures
        final(ctx).wf(),
        final(ctx).child_count() == old(ctx).child_count(),
        final(ctx).vm() == old(ctx).vm().with_state(old(ctx).vm().state.armed_for_next_iteration()),
{
    arm_next(ctx.state_mut());
}

/// Whatever is armed afterwards aims `margin` before the earliest target, with
/// at least the least usable distance to go.
pub proof fn armed_exit_aims_before_target(state: VmStateView)
    requires
        state.core.pebs_state is Some,
        state.armed_for_next_iteration().core.pebs_state->0.armed_action is Some,
    ensures
        ({
            let p = state.armed_for_next_iteration().core.pebs_state->0;
            let c = state.core;
            &&& p.armed_target_tsc == state.precise_target() - c.pebs_margin
            &&& p.armed_target_tsc - c.current_tsc() >= PEBS_MIN_DELTA
            &&& p.counter_reload == reload_for((p.armed_target_tsc - c.current_tsc()) as nat)
        }),
{
    reveal(PebsState::rearm);
}

/// The host counter MSRs that an armed entry overwrites.
pub open spec fn saved_host_msrs(bank: Map<u64, Msr>) -> PebsHostMsrs {
    PebsHostMsrs {
        pebs_enable: msr::msr_or_zero(bank, msr::IA32_PEBS_ENABLE),
        ds_area: msr::msr_or_zero(bank, msr::IA32_DS_AREA),
        fixed_ctr_ctrl: msr::msr_or_zero(bank, msr::IA32_FIXED_CTR_CTRL),
        fixed_ctr0: msr::msr_or_zero(bank, msr::IA32_FIXED_CTR0),
        pebs_data_cfg: msr::msr_or_zero(bank, msr::MSR_PEBS_DATA_CFG),
    }
}

/// The MSRs after the saved host values have been written back.
pub open spec fn restored_host_msrs(bank: Map<u64, Msr>, saved: PebsHostMsrs) -> Map<u64, Msr> {
    msr::msr_put(
        msr::msr_put(
            msr::msr_put(
                msr::msr_put(
                    msr::msr_put(bank, msr::IA32_FIXED_CTR_CTRL, saved.fixed_ctr_ctrl),
                    msr::IA32_FIXED_CTR0,
                    saved.fixed_ctr0,
                ),
                msr::IA32_DS_AREA,
                saved.ds_area,
            ),
            msr::MSR_PEBS_DATA_CFG,
            saved.pebs_data_cfg,
        ),
        msr::IA32_PEBS_ENABLE,
        saved.pebs_enable,
    )
}

/// The writes that give the host its saved values back. The counter is put in
/// place before records are enabled again, so that is written last.
pub open spec fn restoring_writes(saved: PebsHostMsrs) -> Seq<(u32, u64)> {
    seq![
        (msr::IA32_FIXED_CTR_CTRL, saved.fixed_ctr_ctrl),
        (msr::IA32_FIXED_CTR0, saved.fixed_ctr0),
        (msr::IA32_DS_AREA, saved.ds_area),
        (msr::MSR_PEBS_DATA_CFG, saved.pebs_data_cfg),
        (msr::IA32_PEBS_ENABLE, saved.pebs_enable),
    ]
}

/// The values of the VM-entry MSR-load list of an armed entry. The counters
/// are disabled first and enabled last; overflow bits are cleared before
/// records are enabled.
pub open spec fn entry_values(p: PebsState, count: u64, guest_global_ctrl: u64) -> Seq<u64> {
    seq![
        count,
        0,
        p.counter_reload,
        p.fixed_ctr_ctrl,
        p.pebs_data_cfg,
        p.ds_area_va,
        p.pebs_enable,
        p.pebs_enable,
        guest_global_ctrl,
    ]
}

fn save_host_msrs(state: &mut VmState, msr_access: &MsrBank)
    requires
        old(state).wf(),
        old(state)@.core.pebs_state is Some,
        msr_access.wf(),
    ensures
        final(state).wf(),
        ({
            let c = old(state)@.core;
            final(state)@ == old(state)@.with_core(
                VmCore {
                    pebs_state: Some(
                        PebsState { host_msrs: saved_host_msrs(msr_access@), ..c.pebs_state->0 },
                    ),
                    ..c
                },
            )
        }),
{
    if let Some(p) = &state.core.pebs_state {
        let mut pebs: PebsState = *p;
        pebs.host_msrs = PebsHostMsrs {
            pebs_enable: msr_access.read_or_zero(msr::IA32_PEBS_ENABLE),
            ds_area: msr_access.read_or_zero(msr::IA32_DS_AREA),
            fixed_ctr_ctrl: msr_access.read_or_zero(msr::IA32_FIXED_CTR_CTRL),
            fixed_ctr0: msr_access.read_or_zero(msr::IA32_FIXED_CTR0),
            pebs_data_cfg: msr_access.read_or_zero(msr::MSR_PEBS_DATA_CFG),
        };
        state.core.pebs_state = Some(pebs);
    }
}

fn stage_values(pages: &mut VmPages, values: &[u64; 9])
    ensures
        ({
            let list = old(pages).pebs_entry_msr_load_page;
            let page = final(pages).pebs_entry_msr_load_page;
            &&& *final(pages) == (VmPages { pebs_entry_msr_load_page: page, ..*old(pages) })
            &&& (page.phys, page.virt) == (list.phys, list.virt)
            &&& page.bytes@ == vm_pages::with_values(list.bytes@, values@)
        }),
{
    write_entry_values(&mut *pages.pebs_entry_msr_load_page.bytes, values);
}

fn stage_entry(state: &mut VmState, count: u64, msr_access: &MsrBank)
    requires
        old(state).wf(),
        old(state)@.core.pebs_state is Some,
        msr_access.wf(),
    ensures
        final(state).wf(),
        entry_staged(old(state)@, final(state)@, count, msr_access@),
{
    let pebs: PebsState = match state.core.pebs_state {
        Some(p) => p,
        None => {
            return;
        },
    };
    let guest_ctrl: u64 = read64_or_zero(&state.vmcs, VmcsField64::GuestIa32PerfGlobalCtrl);
    let values: [u64; 9] = [
        count,
        0,
        pebs.counter_reload,
        pebs.fixed_ctr_ctrl,
        pebs.pebs_data_cfg,
        pebs.ds_area_va,
        pebs.pebs_enable,
        pebs.pebs_enable,
        guest_ctrl,
    ];
    assert(values@ =~= entry_values(old(state)@.core.pebs_state->0, count, guest_ctrl));
    save_host_msrs(state, msr_access);
    stage_values(&mut state.host.pages, &values);
    let list: u64 = state.host.pages.pebs_entry_msr_load_page.phys;
    let _ = state.vmcs.write64(VmcsField64::VmEntryMsrLoadAddr, list);
    let _ = state.vmcs.write32(VmcsField32::VmEntryMsrLoadCount, PEBS_ENTRY_MSR_COUNT as u32);
}

/// The host MSRs are saved, the list of the armed entry holds this arming's
/// values, and the VMCS points at the list. Nothing else changes.
pub open spec fn entry_staged(
    before: VmStateView,
    after: VmStateView,
    count: u64,
    bank: Map<u64, Msr>,
) -> bool {
    let c = before.core;
    let list = before.host.pages.pebs_entry_msr_load_page;
    let page = after.host.pages.pebs_entry_msr_load_page;
    &&& after == (VmStateView {
        core: VmCore {
            pebs_state: Some(
                PebsState { host_msrs: saved_host_msrs(bank), ..c.pebs_state->0 },
            ),
            ..c
        },
        vmcs: before.vmcs.put64(VmcsField64::VmEntryMsrLoadAddr, page.phys).0.put32(
            VmcsField32::VmEntryMsrLoadCount,
            PEBS_ENTRY_MSR_COUNT as u32,
        ).0,
        host: VmHost {
            pages: VmPages { pebs_entry_msr_load_page: page, ..before.host.pages },
            ..before.host
        },
        ..before
    })
    &&& (page.phys, page.virt) == (list.phys, list.virt)
    &&& page.bytes@ == vm_pages::with_values(
        list.bytes@,
        entry_values(
            c.pebs_state->0,
            count,
            vm_state::qword_or_zero(before.vmcs, VmcsField64::GuestIa32PerfGlobalCtrl),
        ),
    )
}

/// Prepare an armed VM entry: save the host's counter MSRs and stage the guest
/// values in the list that the processor loads with the entry.
pub fn pebs_pre_vm_entry<C: VmContext, I: InstructionCounter>(
    ctx: &mut C,
    counter: &I,
    msr_access: &MsrBank,
)
    requires
        old(ctx).wf(),
        old(ctx).vm().state.core.pebs_state is Some,
        msr_access.wf(),
    ensures
        final(ctx).wf(),
        final(ctx).child_count() == old(ctx).child_count(),
        final(ctx).vm().mem == old(ctx).vm().mem,
        entry_staged(old(ctx).vm().state, final(ctx).vm().state, counter.count(), msr_access@),
{
    let count: u64 = counter.read();
    stage_entry(ctx.state_mut(), count, msr_access);
}

/// The VMCS after the VM-entry list has been handed back to the instruction
/// counter, or emptied if the counter has none.
pub open spec fn entry_list_returned(vmcs: Vmcs, counter_list: Option<u64>) -> Vmcs {
    match counter_list {
        Some(phys) => vmcs.put64(VmcsField64::VmEntryMsrLoadAddr, phys).0.put32(
            VmcsField32::VmEntryMsrLoadCount,
            1,
        ).0,
        None => vmcs.put32(VmcsField32::VmEntryMsrLoadCount, 0).0,
    }
}

fn return_entry_list(state: &mut VmState, list: Option<u64>)
    requires
        old(state).wf(),
    ensures
        final(state).wf(),
        final(state)@ == old(state)@.with_vmcs(entry_list_returned(old(state)@.vmcs, list)),
{
    match list {
        Some(phys) => {
            let _ = state.vmcs.write64(VmcsField64::VmEntryMsrLoadAddr, phys);
            let _ = state.vmcs.write32(VmcsField32::VmEntryMsrLoadCount, 1);
        },
        None => {
            let _ = state.vmcs.write32(VmcsField32::VmEntryMsrLoadCount, 0);
        },
    }
}

fn restore_host_msrs(msr_access: &mut MsrBank, saved: &PebsHostMsrs)
    requires
        old(msr_access).wf(),
    ensures
        final(msr_access).wf(),
        final(msr_access)@ == restored_host_msrs(old(msr_access)@, *saved),
        final(msr_access).writes() == old(msr_access).writes() + restoring_writes(*saved),
{
    let _ = msr_access.write_msr(msr::IA32_FIXED_CTR_CTRL, saved.fixed_ctr_ctrl);
    let _ = msr_access.write_msr(msr::IA32_FIXED_CTR0, saved.fixed_ctr0);
    let _ = msr_access.write_msr(msr::IA32_DS_AREA, saved.ds_area);
    let _ = msr_access.write_msr(msr::MSR_PEBS_DATA_CFG, saved.pebs_data_cfg);
    let _ = msr_access.write_msr(msr::IA32_PEBS_ENABLE, saved.pebs_enable);
}

/// Clean up after an armed VM entry: hand the VM-entry list back and restore
/// the host's counter MSRs.
pub fn pebs_post_vm_exit<C: VmContext, I: InstructionCounter>(
    ctx: &mut C,
    counter: &I,
    msr_access: &mut MsrBank,
)
    requires
        old(ctx).wf(),
        old(ctx).vm().state.core.pebs_state is Some,
        old(msr_access).wf(),
    ensures
        final(ctx).wf(),
        final(ctx).child_count() == old(ctx).child_count(),
        final(msr_access).wf(),
        ({
            let s = old(ctx).vm().state;
            &&& final(ctx).vm() == old(ctx).vm().with_state(
                s.with_vmcs(entry_list_returned(s.vmcs, counter.entry_phys())),
            )
            &&& final(msr_access)@ == restored_host_msrs(
                old(msr_access)@,
                s.core.pebs_state->0.host_msrs,
            )
            &&& final(msr_access).writes() == old(msr_access).writes() + restoring_writes(
                s.core.pebs_state->0.host_msrs,
            )
        }),
{
    let list: Option<u64> = counter.msr_save_load_entry_phys();
    let saved: PebsHostMsrs = match &ctx.state().core.pebs_state {
        Some(p) => p.host_msrs,
        None => {
            return;
        },
    };
    return_entry_list(ctx.state_mut(), list);
    restore_host_msrs(msr_access, &saved);
}

/// The writes that restore the host's values, performed on a processor, restore
/// them there.
pub proof fn restoring_writes_restore(cpu: Map<u64, Msr>, saved: PebsHostMsrs)
    ensures
        msr::performed(cpu, restoring_writes(saved)) == restored_host_msrs(cpu, saved),
{
    let w0 = Seq::<(u32, u64)>::empty();
    let w1 = w0.push((msr::IA32_FIXED_CTR_CTRL, saved.fixed_ctr_ctrl));
    let w2 = w1.push((msr::IA32_FIXED_CTR0, saved.fixed_ctr0));
    let w3 = w2.push((msr::IA32_DS_AREA, saved.ds_area));
    let w4 = w3.push((msr::MSR_PEBS_DATA_CFG, saved.pebs_data_cfg));
    msr::performed_push(cpu, w0, msr::IA32_FIXED_CTR_CTRL, saved.fixed_ctr_ctrl);
    msr::performed_push(cpu, w1, msr::IA32_FIXED_CTR0, saved.fixed_ctr0);
    msr::performed_push(cpu, w2, msr::IA32_DS_AREA, saved.ds_area);
    msr::performed_push(cpu, w3, msr::MSR_PEBS_DATA_CFG, saved.pebs_data_cfg);
    msr::performed_push(cpu, w4, msr::IA32_PEBS_ENABLE, saved.pebs_enable);
    assert(restoring_writes(saved) =~= w4.push((msr::IA32_PEBS_ENABLE, saved.pebs_enable)));
}

/// Whatever the guest did to the counter MSRs, restoring gives the host back
/// what was saved before the entry, and touches no other MSR. Each of the five is
/// written once, IA32_PEBS_ENABLE last, and the processor that performs the writes
/// comes to hold just that.
pub proof fn host_msrs_survive_guest(before: Map<u64, Msr>, clobbered: Map<u64, Msr>, index: u32)
    requires
        msr::rewritten(before, clobbered),
    ensures
        ({
            let after = restored_host_msrs(clobbered, saved_host_msrs(before));
            let counter_msr = index == msr::IA32_PEBS_ENABLE || index == msr::IA32_DS_AREA || index
                == msr::IA32_FIXED_CTR_CTRL || index == msr::IA32_FIXED_CTR0 || index
                == msr::MSR_PEBS_DATA_CFG;
            msr::msr_get(after, index) == (if counter_msr {
                msr::msr_get(before, index)
            } else {
                msr::msr_get(clobbered, index)
            })
        }),
        restoring_writes(saved_host_msrs(before)).last() == (
            msr::IA32_PEBS_ENABLE,
            msr::msr_or_zero(before, msr::IA32_PEBS_ENABLE),
        ),
        restoring_writes(saved_host_msrs(before)).no_duplicates(),
        msr::performed(clobbered, restoring_writes(saved_host_msrs(before))) == restored_host_msrs(
            clobbered,
            saved_host_msrs(before),
        ),
{
    restoring_writes_restore(clobbered, saved_host_msrs(before));
}

/// Addition that stops at the largest value.
pub open spec fn saturating_sum(a: u64, b: u64) -> u64 {
    if a + b > u64::MAX { u64::MAX } else { (a + b) as u64 }
}

/// The difference of two counts as a signed number.
pub open spec fn signed_diff(a: u64, b: u64) -> i64 {
    (a as i64).wrapping_sub(b as i64)
}

impl VmStateView {
    /// The state after a precise exit has fired: its diagnostics are noted and
    /// the arming is consumed.
    pub open spec fn precise_exit_fired(self) -> Self {
        let c = self.core;
        match c.pebs_state {
            None => self,
            Some(p) => {
                let disarmed = VmCore { pebs_state: Some(p.disarm()), ..c };
                if p.armed_target_tsc == 0 {
                    self.with_core(disarmed)
                } else {
                    let now = saturating_sum(c.last_instruction_count, c.tsc_offset);
                    let armed_at = saturating_sum(p.armed_inst_count, p.armed_tsc_offset);
                    let skid = signed_diff(now, p.armed_target_tsc);
                    let stats = self.host.exit_stats;
                    self.with_stats(
                        AllExitStats {
                            max_pebs_skid: if skid > stats.max_pebs_skid {
                                skid
                            } else {
                                stats.max_pebs_skid
                            },
                            ..stats
                        },
                    ).with_core(
                        VmCore {
                            last_pebs_skid: skid,
                            last_pebs_inst_delta: signed_diff(
                                c.last_instruction_count,
                                p.armed_inst_count,
                            ),
                            last_pebs_tsc_offset_delta: signed_diff(
                                c.tsc_offset,
                                p.armed_tsc_offset,
                            ),
                            last_pebs_iters_since_arm: p.iters_since_arm,
                            last_pebs_arm_delta: if p.armed_target_tsc >= armed_at {
                                (p.armed_target_tsc - armed_at) as u64
                            } else {
                                0
                            },
                            ..disarmed
                        },
                    )
                }
            },
        }
    }
}

fn fire(state: &mut VmState)
    requires
        old(state).wf(),
    ensures
        final(state).wf(),
        final(state)@ == old(state)@.precise_exit_fired(),
{
    let inst_count_now: u64 = state.core.last_instruction_count;
    let tsc_offset_now: u64 = state.core.tsc_offset;
    let current_tsc: u64 = inst_count_now.saturating_add(tsc_offset_now);
    let mut p: PebsState = match state.core.pebs_state {
        Some(p) => p,
        None => {
            return;
        },
    };
    if p.armed_target_tsc != 0 {
        let arm_current: u64 = p.armed_inst_count.saturating_add(p.armed_tsc_offset);
        let arm_delta: u64 = p.armed_target_tsc.saturating_sub(arm_current);
        let skid: i64 = (current_tsc as i64).wrapping_sub(p.armed_target_tsc as i64);
        state.core.last_pebs_skid = skid;
        if skid > state.host.exit_stats.max_pebs_skid {
            state.host.exit_stats.max_pebs_skid = skid;
        }
        state.core.last_pebs_inst_delta = (inst_count_now as i64).wrapping_sub(
            p.armed_inst_count as i64,
        );
        state.core.last_pebs_tsc_offset_delta = (tsc_offset_now as i64).wrapping_sub(
            p.armed_tsc_offset as i64,
        );
        state.core.last_pebs_iters_since_arm = p.iters_since_arm;
        state.core.last_pebs_arm_delta = arm_delta;
    }
    disarm_precise_exit(&mut p);
    state.core.pebs_state = Some(p);
}

/// Handle a trapped record write. The interrupt itself is delivered on the way
/// to the next entry, after single-stepping has covered the margin.
pub fn handle_pebs_precise_exit<C: VmContext>(ctx: &mut C) -> (r: ExitHandlerResult)
    requires
        old(ctx).wf(),
    ensures
        final(ctx).wf(),
        final(ctx).child_count() == old(ctx).child_count(),
        final(ctx).vm() == old(ctx).vm().with_state(old(ctx).vm().state.precise_exit_fired()),
        r == ExitHandlerResult::Continue,
{
    fire(ctx.state_mut());
    ExitHandlerResult::Continue
}

impl VmView {
    /// The VM after a request to register the scratch page at `page_va`, and
    /// the outcome.
    pub open spec fn register_pebs_page(self, page_va: u64) -> (Self, RegisterPebsPageResult) {
        let c = self.state.core;
        if !c.pebs_supported {
            (self, RegisterPebsPageResult::Unsupported)
        } else if page_va & 0xFFF != 0 {
            (self, RegisterPebsPageResult::Misaligned)
        } else if c.pebs_state is Some {
            (self, RegisterPebsPageResult::AlreadyRegistered)
        } else {
            match self.translate(page_va) {
                None => (self, RegisterPebsPageResult::Untranslatable),
                Some(gpa) => self.register_pebs_gpa((gpa - gpa % 4096) as u64),
            }
        }
    }

    /// The VM after the page at `gpa` has been made the scratch page: the
    /// management area is written, the page loses its write permission, and the
    /// VMCS runs the counter in the guest and disables records on every exit.
    pub open spec fn register_pebs_gpa(self, gpa: u64) -> (Self, RegisterPebsPageResult) {
        let c = self.state.core;
        let ds_area_va = GUEST_LINUX_PAGE_OFFSET.wrapping_add(gpa);
        match self.state.ept.lookup(gpa) {
            None => (self, RegisterPebsPageResult::NotEptMapped),
            Some(leaf) => {
                let (mem, written) = self.mem.put(
                    gpa as int,
                    le64s(DsManagementArea::for_page(ds_area_va).words()),
                );
                if written is Err {
                    (VmView { mem, ..self }, RegisterPebsPageResult::NotEptMapped)
                } else {
                    let read_only = EptLeaf {
                        hpa: leaf.hpa,
                        permissions: EptPermissions::ReadExecute,
                    };
                    (
                        VmView {
                            mem,
                            state: VmStateView {
                                ept: self.state.ept.remap(gpa, read_only).0,
                                vmcs: pebs_wired(
                                    self.state.vmcs,
                                    self.state.host.pages.pebs_exit_msr_load_page.phys,
                                ),
                                core: VmCore {
                                    pebs_state: Some(PebsState::registered(gpa, ds_area_va)),
                                    ..c
                                },
                                ..self.state
                            },
                        },
                        RegisterPebsPageResult::Success,
                    )
                }
            },
        }
    }
}

/// The VMCS with the counter enabled in the guest and the VM-exit list in
/// place.
pub open spec fn pebs_wired(vmcs: Vmcs, exit_list: u64) -> Vmcs {
    let counting = match vmcs.get64(VmcsField64::GuestIa32PerfGlobalCtrl) {
        Ok(prev) => vmcs.put64(
            VmcsField64::GuestIa32PerfGlobalCtrl,
            prev | PERF_GLOBAL_CTRL_FIXED_CTR0,
        ).0,
        Err(_) => vmcs,
    };
    counting.put64(VmcsField64::VmExitMsrLoadAddr, exit_list).0.put32(
        VmcsField32::VmExitMsrLoadCount,
        1,
    ).0
}

fn install_scratch_page(state: &mut VmState, gpa: u64, hpa: u64, ds_area_va: u64) -> (r: bool)
    requires
        old(state).wf(),
        old(state)@.ept.lookup(gpa) is Some,
    ensures
        final(state).wf(),
        r,
        ({
            let c = old(state)@.core;
            let read_only = EptLeaf { hpa, permissions: EptPermissions::ReadExecute };
            final(state)@ == (VmStateView {
                ept: old(state)@.ept.remap(gpa, read_only).0,
                vmcs: pebs_wired(
                    old(state)@.vmcs,
                    old(state)@.host.pages.pebs_exit_msr_load_page.phys,
                ),
                core: VmCore {
                    pebs_state: Some(PebsState::registered(gpa, ds_area_va)),
                    ..c
                },
                ..old(state)@
            })
        }),
{
    match state.ept.remap_4k(gpa, hpa, EptPermissions::ReadExecute) {
        Ok(_) => {},
        Err(_) => {
            return false;
        },
    }
    match state.vmcs.read64(VmcsField64::GuestIa32PerfGlobalCtrl) {
        Ok(prev) => {
            let _ = state.vmcs.write64(
                VmcsField64::GuestIa32PerfGlobalCtrl,
                prev | PERF_GLOBAL_CTRL_FIXED_CTR0,
            );
        },
        Err(_) => {},
    }
    let exit_list: u64 = state.host.pages.pebs_exit_msr_load_page.phys;
    let _ = state.vmcs.write64(VmcsField64::VmExitMsrLoadAddr, exit_list);
    let _ = state.vmcs.write32(VmcsField32::VmExitMsrLoadCount, 1);
    state.core.pebs_state = Some(
        PebsState {
            ds_management_gpa: gpa,
            pebs_buffer_gpa: gpa,
            ds_area_va,
            armed_action: None,
            armed_target_tsc: 0,
            armed_inst_count: 0,
            armed_tsc_offset: 0,
            iters_since_arm: 0,
            counter_reload: 0,
            fixed_ctr_ctrl: FIXED_CTR_CTRL_FC0_OS_USR,
            pebs_enable: PEBS_ENABLE_FIXED_CTR0,
            pebs_data_cfg: 0,
            host_msrs: PebsHostMsrs::default(),
            logged_first_arm: false,
        },
    );
    true
}

fn register_gpa<C: VmContext>(ctx: &mut C, gpa: u64) -> (r: RegisterPebsPageResult)
    requires
        old(ctx).wf(),
    ensures
        final(ctx).wf(),
        final(ctx).child_count() == old(ctx).child_count(),
        (final(ctx).vm(), r) == old(ctx).vm().register_pebs_gpa(gpa),
{
    let hpa: u64 = match ctx.state().ept.lookup(gpa) {
        Some(leaf) => leaf.hpa,
        None => {
            return RegisterPebsPageResult::NotEptMapped;
        },
    };
    let ds_area_va: u64 = GUEST_LINUX_PAGE_OFFSET.wrapping_add(gpa);
    let area = build_ds_management_area(ds_area_va);
    let area_bytes: Vec<u8> = ds_management_area_bytes(&area);
    match ctx.write_guest_memory(gpa, area_bytes.as_slice()) {
        Ok(_) => {},
        Err(_) => {
            return RegisterPebsPageResult::NotEptMapped;
        },
    }
    if install_scratch_page(ctx.state_mut(), gpa, hpa, ds_area_va) {
        RegisterPebsPageResult::Success
    } else {
        RegisterPebsPageResult::NotEptMapped
    }
}

/// Register the page at `page_va` as the scratch page for precise exits. The
/// page must be mapped by the guest and by the host; the processor reaches it
/// through the guest kernel's direct map.
pub fn register_pebs_page<C: VmContext>(ctx: &mut C, page_va: u64) -> (r: RegisterPebsPageResult)
    requires
        old(ctx).wf(),
    ensures
        final(ctx).wf(),
        final(ctx).child_count() == old(ctx).child_count(),
        (final(ctx).vm(), r) == old(ctx).vm().register_pebs_page(page_va),
{
    if !ctx.state().core.pebs_supported {
        return RegisterPebsPageResult::Unsupported;
    }
    if page_va & 0xFFF != 0 {
        return RegisterPebsPageResult::Misaligned;
    }
    if ctx.state().core.pebs_state.is_some() {
        return RegisterPebsPageResult::AlreadyRegistered;
    }
    let gpa: u64 = match translate_gva_to_gpa(ctx, page_va) {
        Ok(gpa) => gpa - gpa % 4096,
        Err(_) => {
            return RegisterPebsPageResult::Untranslatable;
        },
    };
    register_gpa(ctx, gpa)
}

/// A scratch page is registered at most once.
pub proof fn scratch_page_is_registered_once(vm: VmView, first: u64, second: u64)
    requires
        vm.register_pebs_page(first).1 == RegisterPebsPageResult::Success,
        second & 0xFFF == 0,
    ensures
        vm.register_pebs_page(first).0.register_pebs_page(second) == (
            vm.register_pebs_page(first).0,
            RegisterPebsPageResult::AlreadyRegistered,
        ),
{
}

} // verus!
