//! RDRAND and RDSEED exits.

use vstd::prelude::*;

use crate::devices::random::RdrandMode;
use crate::events::types::{EventKind, RandomPayload, RandomSource};
use crate::exits::helpers::{complete, emit_randomness_event, ExitError, ExitHandlerResult};
use crate::exits::qualifications;
use crate::exits::qualifications::{RdrandInstructionInfo, RdrandOperandSize};
use crate::exits::reasons::ExitReason;
use crate::fields::{VmcsField32, VmcsFieldNatural};
use crate::registers::GeneralPurposeRegisters;
use crate::traits::device_state::DeviceStates;
use crate::traits::vm_context::VmContext;
use crate::vm_state::{VmCore, VmState, VmStateView};

verus! {

/// Number of bytes of an operand.
pub open spec fn operand_width(size: RdrandOperandSize) -> u8 {
    match size {
        RdrandOperandSize::Size16 => 2,
        RdrandOperandSize::Size32 => 4,
        RdrandOperandSize::Size64 => 8,
    }
}

/// A register after a result of the given size has been written to it: 16-bit
/// results keep the upper bits, 32-bit results clear them.
pub open spec fn register_written(reg: u64, value: u64, size: RdrandOperandSize) -> u64 {
    match size {
        RdrandOperandSize::Size16 => (reg & !0xFFFF) | (value & 0xFFFF),
        RdrandOperandSize::Size32 => value & 0xFFFF_FFFF,
        RdrandOperandSize::Size64 => value,
    }
}

impl GeneralPurposeRegisters {
    /// The register at `index`; indexes above 15 name none.
    pub open spec fn reg(self, index: u8) -> u64 {
        match index {
            0 => self.rax,
            1 => self.rcx,
            2 => self.rdx,
            3 => self.rbx,
            4 => self.rsp,
            5 => self.rbp,
            6 => self.rsi,
            7 => self.rdi,
            8 => self.r8,
            9 => self.r9,
            10 => self.r10,
            11 => self.r11,
            12 => self.r12,
            13 => self.r13,
            14 => self.r14,
            15 => self.r15,
            _ => 0,
        }
    }

    /// The registers with the one at `index` replaced.
    pub open spec fn with_reg(self, index: u8, value: u64) -> Self {
        match index {
            0 => GeneralPurposeRegisters { rax: value, ..self },
            1 => GeneralPurposeRegisters { rcx: value, ..self },
            2 => GeneralPurposeRegisters { rdx: value, ..self },
            3 => GeneralPurposeRegisters { rbx: value, ..self },
            4 => GeneralPurposeRegisters { rsp: value, ..self },
            5 => GeneralPurposeRegisters { rbp: value, ..self },
            6 => GeneralPurposeRegisters { rsi: value, ..self },
            7 => GeneralPurposeRegisters { rdi: value, ..self },
            8 => GeneralPurposeRegisters { r8: value, ..self },
            9 => GeneralPurposeRegisters { r9: value, ..self },
            10 => GeneralPurposeRegisters { r10: value, ..self },
            11 => GeneralPurposeRegisters { r11: value, ..self },
            12 => GeneralPurposeRegisters { r12: value, ..self },
            13 => GeneralPurposeRegisters { r13: value, ..self },
            14 => GeneralPurposeRegisters { r14: value, ..self },
            15 => GeneralPurposeRegisters { r15: value, ..self },
            _ => self,
        }
    }
}

/// The registers after a result of the given size has been written to the one
/// at `index`; indexes above 15 name none.
#[verifier::opaque]
pub open spec fn result_written(
    gprs: GeneralPurposeRegisters,
    index: u8,
    value: u64,
    size: RdrandOperandSize,
) -> GeneralPurposeRegisters {
    if index < 16 {
        gprs.with_reg(index, register_written(gprs.reg(index), value, size))
    } else {
        gprs
    }
}

/// The register at `index`.
pub fn read_gpr_by_index(gprs: &GeneralPurposeRegisters, index: u8) -> (r: u64)
    ensures
        r == gprs.reg(index),
{
    match index {
        0 => gprs.rax,
        1 => gprs.rcx,
        2 => gprs.rdx,
        3 => gprs.rbx,
        4 => gprs.rsp,
        5 => gprs.rbp,
        6 => gprs.rsi,
        7 => gprs.rdi,
        8 => gprs.r8,
        9 => gprs.r9,
        10 => gprs.r10,
        11 => gprs.r11,
        12 => gprs.r12,
        13 => gprs.r13,
        14 => gprs.r14,
        15 => gprs.r15,
        _ => 0,
    }
}

/// Write a result to the register at `index`.
pub fn write_gpr_by_index(
    gprs: &mut GeneralPurposeRegisters,
    index: u8,
    value: u64,
    size: RdrandOperandSize,
)
    ensures
        *final(gprs) == result_written(*old(gprs), index, value, size),
{
    reveal(result_written);
    match index {
        0 => gprs.rax = merge(gprs.rax, value, size),
        1 => gprs.rcx = merge(gprs.rcx, value, size),
        2 => gprs.rdx = merge(gprs.rdx, value, size),
        3 => gprs.rbx = merge(gprs.rbx, value, size),
        4 => gprs.rsp = merge(gprs.rsp, value, size),
        5 => gprs.rbp = merge(gprs.rbp, value, size),
        6 => gprs.rsi = merge(gprs.rsi, value, size),
        7 => gprs.rdi = merge(gprs.rdi, value, size),
        8 => gprs.r8 = merge(gprs.r8, value, size),
        9 => gprs.r9 = merge(gprs.r9, value, size),
        10 => gprs.r10 = merge(gprs.r10, value, size),
        11 => gprs.r11 = merge(gprs.r11, value, size),
        12 => gprs.r12 = merge(gprs.r12, value, size),
        13 => gprs.r13 = merge(gprs.r13, value, size),
        14 => gprs.r14 = merge(gprs.r14, value, size),
        15 => gprs.r15 = merge(gprs.r15, value, size),
        _ => {},
    }
}

/// A register after a result of the given size has been written to it.
fn merge(reg: u64, value: u64, size: RdrandOperandSize) -> (r: u64)
    ensures
        r == register_written(reg, value, size),
{
    match size {
        RdrandOperandSize::Size16 => (reg & !0xFFFF) | (value & 0xFFFF),
        RdrandOperandSize::Size32 => value & 0xFFFF_FFFF,
        RdrandOperandSize::Size64 => value,
    }
}

impl VmStateView {
    /// The VM with the carry flag set, which reports a random value as valid.
    pub open spec fn with_carry(self, cf: bool) -> (Self, Result<(), ExitError>) {
        match self.vmcs.get_natural(VmcsFieldNatural::GuestRflags) {
            Err(_) => (self, Err(ExitError::Fatal("Failed to read guest RFLAGS"))),
            Ok(rflags) => (
                self.with_vmcs(
                    self.vmcs.with_natural(
                        VmcsFieldNatural::GuestRflags,
                        if cf { rflags | 0x1 } else { rflags & !0x1 },
                    ),
                ),
                Ok(()),
            ),
        }
    }

    /// The VM after `value` has been served to an RDRAND or RDSEED.
    #[verifier::opaque]
    pub open spec fn serve_random(
        self,
        info: RdrandInstructionInfo,
        source: RandomSource,
        value: u64,
    ) -> (Self, ExitHandlerResult) {
        let recorded = self.emit_randomness(
            RandomPayload {
                value,
                source: source.spec_as_u8(),
                width: operand_width(info.operand_size),
                pid: 0,
            },
            Seq::empty(),
        );
        let c = recorded.core;
        let written = recorded.with_core(
            VmCore {
                gprs: result_written(c.gprs, info.dest_reg, value, info.operand_size),
                ..c
            },
        );
        let (flagged, r) = written.with_carry(true);
        match r {
            Err(e) => (flagged, ExitHandlerResult::Error(e)),
            Ok(_) => flagged.complete(ExitHandlerResult::Continue),
        }
    }

    /// RDRAND or RDSEED. Without a value at hand the guest waits at the
    /// instruction while userspace provides one.
    #[verifier::opaque]
    pub open spec fn random(self, source: RandomSource) -> (Self, ExitHandlerResult) {
        let c = self.core;
        match self.vmcs.get32(VmcsField32::VmExitInstructionInfo) {
            Err(_) => (
                self,
                ExitHandlerResult::Error(
                    ExitError::Fatal("Failed to read VM-exit instruction info"),
                ),
            ),
            Ok(info) => {
                let (device, value) = c.devices.random.draw();
                match value {
                    None => (self, ExitHandlerResult::ExitToUserspace(ExitReason::Rdrand)),
                    Some(v) => self.with_core(
                        VmCore { devices: DeviceStates { random: device, ..c.devices }, ..c },
                    ).serve_random(qualifications::decode_rdrand(info), source, v),
                }
            },
        }
    }
}

/// Set or clear the carry flag.
fn set_cf_flag(state: &mut VmState, cf: bool) -> (r: Result<(), ExitError>)
    requires
        old(state).wf(),
    ensures
        final(state).wf(),
        (final(state)@, r) == old(state)@.with_carry(cf),
{
    let rflags: u64 = match state.vmcs.read_natural(VmcsFieldNatural::GuestRflags) {
        Ok(v) => v,
        Err(_) => {
            return Err(ExitError::Fatal("Failed to read guest RFLAGS"));
        },
    };
    let new_rflags: u64 = if cf { rflags | 0x1 } else { rflags & !0x1 };
    match state.vmcs.write_natural(VmcsFieldNatural::GuestRflags, new_rflags) {
        Ok(_) => Ok(()),
        Err(_) => Err(ExitError::Fatal("Failed to write guest RFLAGS")),
    }
}

/// Read the instruction information of an RDRAND or RDSEED.
fn read_instruction_info(state: &VmState) -> (r: Result<RdrandInstructionInfo, ExitError>)
    ensures
        match state.vmcs.get32(VmcsField32::VmExitInstructionInfo) {
            Ok(info) => r == Ok::<RdrandInstructionInfo, ExitError>(
                qualifications::decode_rdrand(info),
            ),
            Err(_) => r == Err::<RdrandInstructionInfo, ExitError>(
                ExitError::Fatal("Failed to read VM-exit instruction info"),
            ),
        },
{
    match state.vmcs.read32(VmcsField32::VmExitInstructionInfo) {
        Ok(info) => Ok(RdrandInstructionInfo::from(info)),
        Err(_) => Err(ExitError::Fatal("Failed to read VM-exit instruction info")),
    }
}

/// Serve `value` to an RDRAND or RDSEED.
fn serve_random(
    state: &mut VmState,
    info: RdrandInstructionInfo,
    source: RandomSource,
    value: u64,
) -> (r: ExitHandlerResult)
    requires
        old(state).wf(),
    ensures
        final(state).wf(),
        (final(state)@, r) == old(state)@.serve_random(info, source, value),
{
    reveal(VmStateView::serve_random);
    let width: u8 = match info.operand_size {
        RdrandOperandSize::Size16 => 2,
        RdrandOperandSize::Size32 => 4,
        RdrandOperandSize::Size64 => 8,
    };
    let payload = RandomPayload { value, source: source.as_u8(), width, pid: 0 };
    let none: Vec<u8> = Vec::new();
    emit_randomness_event(state, &payload, none.as_slice());
    write_gpr_by_index(&mut state.core.gprs, info.dest_reg, value, info.operand_size);
    match set_cf_flag(state, true) {
        Ok(_) => {},
        Err(e) => {
            return ExitHandlerResult::Error(e);
        },
    }
    complete(state, ExitHandlerResult::Continue)
}

/// Handle an RDRAND or RDSEED; `source` says which.
fn handle_random(state: &mut VmState, source: RandomSource) -> (r: ExitHandlerResult)
    requires
        old(state).wf(),
    ensures
        final(state).wf(),
        (final(state)@, r) == old(state)@.random(source),
{
    reveal(VmStateView::random);
    let info: RdrandInstructionInfo = match read_instruction_info(state) {
        Ok(i) => i,
        Err(e) => {
            return ExitHandlerResult::Error(e);
        },
    };
    if state.core.devices.random.needs_rdrand_exit() {
        return ExitHandlerResult::ExitToUserspace(ExitReason::Rdrand);
    }
    let value: u64 = match state.core.devices.random.generate() {
        Some(v) => v,
        None => {
            return ExitHandlerResult::ExitToUserspace(ExitReason::Rdrand);
        },
    };
    serve_random(state, info, source, value)
}

/// Handle RDRAND.
pub fn handle_rdrand<C: VmContext>(ctx: &mut C) -> (r: ExitHandlerResult)
    requires
        old(ctx).wf(),
    ensures
        final(ctx).wf(),
        final(ctx).child_count() == old(ctx).child_count(),
        ({
            let (state, result) = old(ctx).vm().state.random(RandomSource::Rdrand);
            final(ctx).vm() == old(ctx).vm().with_state(state) && r == result
        }),
{
    handle_random(ctx.state_mut(), RandomSource::Rdrand)
}

/// Handle RDSEED, which differs from RDRAND only in the recorded source.
pub fn handle_rdseed<C: VmContext>(ctx: &mut C) -> (r: ExitHandlerResult)
    requires
        old(ctx).wf(),
    ensures
        final(ctx).wf(),
        final(ctx).child_count() == old(ctx).child_count(),
        ({
            let (state, result) = old(ctx).vm().state.random(RandomSource::Rdseed);
            final(ctx).vm() == old(ctx).vm().with_state(state) && r == result
        }),
{
    handle_random(ctx.state_mut(), RandomSource::Rdseed)
}

/// A register that is written reads back, and no other register changes.
pub proof fn with_reg_changes_one(
    gprs: GeneralPurposeRegisters,
    index: u8,
    value: u64,
    other: u8,
)
    requires
        index < 16,
    ensures
        gprs.with_reg(index, value).reg(index) == value,
        other != index ==> gprs.with_reg(index, value).reg(other) == gprs.reg(other),
{
}

/// While userspace owes a value, RDRAND changes nothing, so the instruction can
/// run again.
pub proof fn waiting_for_value_changes_nothing(state: VmStateView, source: RandomSource)
    requires
        state.core.devices.random.mode == RdrandMode::ExitToUserspace,
        state.core.devices.random.pending_value is None,
        state.vmcs.get32(VmcsField32::VmExitInstructionInfo) is Ok,
    ensures
        state.random(source) == (state, ExitHandlerResult::ExitToUserspace(ExitReason::Rdrand)),
{
    reveal(VmStateView::random);
}

/// The payload of a randomness record for a register-sized value.
pub open spec fn random_payload(source: RandomSource, value: u64, width: u8) -> Seq<u8> {
    RandomPayload { value, source: source.spec_as_u8(), width, pid: 0 }.encode()
}

/// Records of the two instructions differ in the source byte only.
pub proof fn source_is_one_byte(value: u64, width: u8)
    ensures
        ({
            let a = random_payload(RandomSource::Rdrand, value, width);
            let b = random_payload(RandomSource::Rdseed, value, width);
            &&& a.len() == b.len()
            &&& a[12] == 0 && b[12] == 1
            &&& forall|i: int| 0 <= i < a.len() && i != 12 ==> a[i] == b[i]
        }),
{
    reveal(RandomPayload::encode);
}

/// Completing an instruction neither reads nor writes the event stream.
proof fn lemma_complete_keeps_events(a: VmStateView, b: VmStateView, done: ExitHandlerResult)
    requires
        a == (VmStateView { events: a.events, ..b }),
    ensures
        ({
            let (after_a, ra) = a.complete(done);
            let (after_b, rb) = b.complete(done);
            &&& ra == rb
            &&& after_a == (VmStateView { events: a.events, ..after_b })
            &&& after_b.events == b.events
        }),
{
    reveal(VmStateView::complete);
}

/// What is served does not depend on the source, but for the record.
proof fn lemma_serve_alike(state: VmStateView, info: RdrandInstructionInfo, value: u64)
    ensures
        ({
            let (a, ra) = state.serve_random(info, RandomSource::Rdrand, value);
            let (b, rb) = state.serve_random(info, RandomSource::Rdseed, value);
            let width = operand_width(info.operand_size);
            &&& ra == rb
            &&& a == (VmStateView { events: a.events, ..b })
            &&& a.events == state.event_append(
                EventKind::Randomness,
                random_payload(RandomSource::Rdrand, value, width),
            ).0.events
            &&& b.events == state.event_append(
                EventKind::Randomness,
                random_payload(RandomSource::Rdseed, value, width),
            ).0.events
        }),
{
    reveal(VmStateView::serve_random);
    let width = operand_width(info.operand_size);
    let pa = random_payload(RandomSource::Rdrand, value, width);
    let pb = random_payload(RandomSource::Rdseed, value, width);
    let none = Seq::<u8>::empty();
    assert(pa + none.take(0) =~= pa);
    assert(pb + none.take(0) =~= pb);
    let a = state.event_append(EventKind::Randomness, pa).0;
    let b = state.event_append(EventKind::Randomness, pb).0;
    let gprs = result_written(state.core.gprs, info.dest_reg, value, info.operand_size);
    let core = VmCore { gprs, ..state.core };
    let flagged_a = a.with_core(core).with_carry(true).0;
    let flagged_b = b.with_core(core).with_carry(true).0;
    lemma_complete_keeps_events(flagged_a, flagged_b, ExitHandlerResult::Continue);
}

/// RDSEED does what RDRAND does. From equal states both come to the same outcome
/// and the same state but for the event stream, and there both record the same
/// value, if one was served, each with its own source.
pub proof fn rdseed_is_like_rdrand(state: VmStateView)
    ensures
        ({
            let (a, ra) = state.random(RandomSource::Rdrand);
            let (b, rb) = state.random(RandomSource::Rdseed);
            &&& ra == rb
            &&& a == (VmStateView { events: a.events, ..b })
            &&& match (
                state.vmcs.get32(VmcsField32::VmExitInstructionInfo),
                state.core.devices.random.draw().1,
            ) {
                (Ok(info), Some(value)) => {
                    let width = operand_width(qualifications::decode_rdrand(info).operand_size);
                    &&& a.events == state.event_append(
                        EventKind::Randomness,
                        random_payload(RandomSource::Rdrand, value, width),
                    ).0.events
                    &&& b.events == state.event_append(
                        EventKind::Randomness,
                        random_payload(RandomSource::Rdseed, value, width),
                    ).0.events
                },
                _ => a == state && b == state,
            }
        }),
{
    reveal(VmStateView::random);
    let c = state.core;
    let (device, drawn) = c.devices.random.draw();
    if let (Ok(info), Some(value)) = (
        state.vmcs.get32(VmcsField32::VmExitInstructionInfo),
        drawn,
    ) {
        let served = state.with_core(
            VmCore { devices: DeviceStates { random: device, ..c.devices }, ..c },
        );
        lemma_serve_alike(served, qualifications::decode_rdrand(info), value);
    }
}

} // verus!
