//! What exits do for the guest, in terms of its registers and devices.

use vstd::prelude::*;

use crate::devices::apic::ApicState;
use crate::devices::random;
use crate::devices::random::{RandomState, RdrandMode};
use crate::events::types::{EventKind, RandomPayload, RandomSource};
use crate::exits::helpers::ExitHandlerResult;
use crate::exits::io;
use crate::exits::pebs::PebsState;
use crate::exits::qualifications;
use crate::exits::qualifications::{
    CrAccessQualification, IoDirection, IoQualification, RdrandOperandSize,
};
use crate::exits::rdrand;
use crate::exits::reasons::ExitReason;
use crate::fields::{VmcsField32, VmcsFieldNatural};
use crate::io_channel::IoChannelView;
use crate::registers::GeneralPurposeRegisters;
use crate::traits::device_state::DeviceStates;
use crate::vm_state::{VmCore, VmStateView};
use crate::vmcs::Vmcs;

verus! {

/// The guest has its I/O channel page registered and its interrupt pin routed, and
/// a request with a target waits to be announced.
pub open spec fn io_request_awaits(state: VmStateView, target: u64) -> bool {
    let chan = state.io_channel;
    let pin = state.core.devices.ioapic.redtbl@[9];
    &&& chan.page_gpa != 0
    &&& chan.request.len() > 0
    &&& !chan.request_delivered
    &&& chan.request_target_tsc == target
    &&& target != 0
    &&& pin / 0x1_0000 % 2 == 0
    &&& pin % 256 >= 16
}

/// The emulated TSC as of the last exit.
pub open spec fn tsc_now(c: VmCore) -> int {
    (c.last_instruction_count + c.tsc_offset) % 0x1_0000_0000_0000_0000
}

/// A point ahead of which the guest has to be stopped: the timer deadline, the
/// target of an I/O request, the stop point, the start of a single-step range that
/// has not begun.
pub open spec fn is_pending_target(state: VmStateView, t: u64) -> bool {
    let c = state.core;
    ||| t != 0 && c.devices.apic.timer_deadline == t
    ||| io_request_awaits(state, t)
    ||| c.stop_at_tsc == Some(t)
    ||| c.single_step_tsc_range matches Some((start, _)) && start == t && tsc_now(c) < t
}

pub(crate) proof fn lemma_pin_bits(entry: u64)
    by (bit_vector)
    ensures
        (entry >> 16) & 1 == entry / 0x1_0000 % 2,
        entry & 0xFF == entry % 256,
{
}

/// What is armed for is the earliest of the pending targets, and there is none
/// only if none is pending.
pub proof fn earliest_target_is_armed_for(state: VmStateView, t: u64)
    requires
        is_pending_target(state, t),
    ensures
        is_pending_target(state, state.precise_target()),
        state.precise_target() <= t,
{
    reveal(VmStateView::precise_target);
    lemma_pin_bits(state.core.devices.ioapic.redtbl@[9]);
}

/// Without a pending target nothing is armed for.
pub proof fn no_target_is_made_up(state: VmStateView)
    ensures
        state.precise_target() != 0 ==> is_pending_target(state, state.precise_target()),
{
    reveal(VmStateView::precise_target);
    lemma_pin_bits(state.core.devices.ioapic.redtbl@[9]);
}

/// Arming aims the counter `pebs_margin` instructions before the earliest pending
/// target, to overflow after just the instructions that lead there; a target that
/// has passed or lies too near leaves nothing armed.
pub proof fn arming_stops_short_of_the_earliest_target(state: VmStateView, t: u64)
    requires
        state.core.pebs_state is Some,
        t != 0,
        is_pending_target(state, t),
        forall|u: u64| #[trigger] is_pending_target(state, u) ==> t <= u,
    ensures
        ({
            let c = state.core;
            let p = state.armed_for_next_iteration().core.pebs_state;
            let ahead = t - tsc_now(c);
            &&& p is Some
            &&& p->0.armed_action is Some <==> ahead >= 257 + c.pebs_margin
            &&& ahead >= 257 + c.pebs_margin ==> {
                let steps = ahead - c.pebs_margin;
                &&& p->0.armed_target_tsc == t - c.pebs_margin
                &&& p->0.armed_inst_count == c.last_instruction_count
                &&& p->0.armed_tsc_offset == c.tsc_offset
                &&& p->0.iters_since_arm == 0
                &&& p->0.counter_reload < 0x1_0000_0000_0000
                &&& (p->0.counter_reload + steps) % 0x1_0000_0000_0000 == 0
            }
        }),
{
    reveal(PebsState::rearm);
    earliest_target_is_armed_for(state, t);
}

/// Without a pending target the counter is disarmed, and without a scratch page
/// nothing changes. Arming touches only the precise-exit state and statistics.
pub proof fn arming_touches_little(state: VmStateView)
    ensures
        ({
            let after = state.armed_for_next_iteration();
            &&& (forall|u: u64| !is_pending_target(state, u)) && state.core.pebs_state is Some ==>
                after.core.pebs_state->0.armed_action is None
            &&& state.core.pebs_state is None ==> after == state
            &&& after.core == (VmCore { pebs_state: after.core.pebs_state, ..state.core })
            &&& after.vmcs == state.vmcs && after.events == state.events && after.io_channel
                == state.io_channel
        }),
{
    reveal(PebsState::rearm);
    no_target_is_made_up(state);
}

/// The instruction count at which the emulated TSC is `t`.
pub open spec fn count_at(c: VmCore, t: u64) -> int {
    if t >= c.tsc_offset { t - c.tsc_offset } else { 0 }
}

/// A target for which the last stretch is single-stepped: as above, but a timer
/// counts only while its interrupt can be delivered.
pub open spec fn is_stepped_target(state: VmStateView, t: u64) -> bool {
    let c = state.core;
    let apic = c.devices.apic;
    ||| t != 0 && apic.timer_deadline == t && apic.svr / 0x100 % 2 == 1 && apic.lvt_timer
        / 0x1_0000 % 2 == 0
    ||| io_request_awaits(state, t)
    ||| c.stop_at_tsc == Some(t)
    ||| c.single_step_tsc_range matches Some((start, _)) && start == t && tsc_now(c) < t
}

pub(crate) proof fn lemma_apic_bits(svr: u32, lvt: u32)
    by (bit_vector)
    ensures
        svr & 0x100 == 0 <==> svr / 0x100 % 2 == 0,
        lvt & 0x1_0000 != 0 <==> lvt / 0x1_0000 % 2 == 1,
{
}

proof fn lemma_mtf_bits(controls: u32)
    by (bit_vector)
    ensures
        (controls | 0x800_0000) & 0x800_0000 != 0,
        (controls & !0x800_0000u32) & 0x800_0000 == 0,
        (controls | 0x800_0000) & !0x800_0000u32 == controls & !0x800_0000u32,
        (controls & !0x800_0000u32) & !0x800_0000u32 == controls & !0x800_0000u32,
{
}

/// Every instruction is stepped just where it has to be: inside the single-step
/// range, and, with a scratch page, on the last instructions before a target -
/// those the counter is not aimed past. The trap flag in the VMCS says so
/// afterwards, and every other control is as it was.
pub proof fn last_stretch_is_stepped(state: VmStateView)
    requires
        state.trap_flag_known(),
        state.vmcs.get32(VmcsField32::PrimaryProcBasedVmExecControls) is Ok,
    ensures
        state.update_mtf().1 is Ok,
        ({
            let c = state.core;
            let after = state.update_mtf().0;
            let before = state.vmcs.get32(VmcsField32::PrimaryProcBasedVmExecControls)->Ok_0;
            let controls = after.vmcs.get32(VmcsField32::PrimaryProcBasedVmExecControls);
            let ranged = c.single_step_tsc_range matches Some((start, end)) && start <= tsc_now(c)
                < end;
            let near = exists|t: u64| #[trigger]
                is_stepped_target(state, t) && c.last_instruction_count < count_at(c, t)
                    <= c.last_instruction_count + 257 + c.pebs_margin;
            &&& controls is Ok
            &&& controls->Ok_0 & 0x800_0000 != 0 <==> (ranged || (c.pebs_state is Some && near))
            &&& controls->Ok_0 & !0x800_0000u32 == before & !0x800_0000u32
        }),
{
    let c = state.core;
    lemma_pin_bits(c.devices.ioapic.redtbl@[9]);
    lemma_apic_bits(c.devices.apic.svr, c.devices.apic.lvt_timer);
    let before = state.vmcs.get32(VmcsField32::PrimaryProcBasedVmExecControls)->Ok_0;
    lemma_mtf_bits(before);
    if c.in_margin(c.count_of(c.timer_target())) {
        assert(is_stepped_target(state, c.timer_target()->0));
    }
    if c.in_margin(c.count_of(state.io_channel_target())) {
        assert(is_stepped_target(state, state.io_channel_target()->0));
    }
    if c.in_margin(c.count_of(c.stop_at_tsc)) {
        assert(is_stepped_target(state, c.stop_at_tsc->0));
    }
    if c.in_margin(c.count_of(c.single_step_target())) {
        assert(is_stepped_target(state, c.single_step_target()->0));
    }
}

/// Where idle time jumps: with an armed timer, to the earliest of its deadline, the
/// target of a waiting I/O request and the stop point, if that lies ahead.
pub proof fn idle_reaches_the_next_wake_up(state: VmStateView)
    ensures
        ({
            let before = state.core;
            let deadline = before.devices.apic.timer_deadline;
            let after = state.idle().0.core;
            let io = |t: u64| io_request_awaits(state, t);
            let now = before.emulated_tsc;
            let ahead = deadline > now && (forall|t: u64| #[trigger] io(t) ==> t > now) && (
            before.stop_at_tsc matches Some(t) ==> t > now);
            &&& deadline != 0 && ahead ==> {
                let woken = after.emulated_tsc;
                &&& woken == deadline || io(woken) || before.stop_at_tsc == Some(woken)
                &&& woken <= deadline
                &&& forall|t: u64| #[trigger] io(t) ==> woken <= t
                &&& before.stop_at_tsc matches Some(t) ==> woken <= t
            }
            &&& deadline == 0 || !ahead ==> after.emulated_tsc == now
            &&& after.tsc_offset == (before.tsc_offset + (after.emulated_tsc - now))
                % 0x1_0000_0000_0000_0000
            &&& after == (VmCore {
                emulated_tsc: after.emulated_tsc,
                tsc_offset: after.tsc_offset,
                ..before
            })
        }),
{
    reveal(VmStateView::idle);
    reveal(VmStateView::complete);
    lemma_pin_bits(state.core.devices.ioapic.redtbl@[9]);
    let io = |t: u64| io_request_awaits(state, t);
    let target = state.io_channel.request_target_tsc;
    assert(io(target) == io_request_awaits(state, target));
}

/// The guest's instruction pointer, if it can be read.
pub open spec fn rip(state: VmStateView) -> Option<u64> {
    match state.vmcs.get_natural(VmcsFieldNatural::GuestRip) {
        Ok(v) => Some(v),
        Err(_) => None,
    }
}

/// Completing an instruction moves the instruction pointer by its length and
/// changes nothing else; it fails only where one of the two cannot be read.
pub proof fn completion_moves_past_the_instruction(state: VmStateView, done: ExitHandlerResult)
    requires
        done is Continue || done is ExitToUserspace,
    ensures
        ({
            let (after, result) = state.complete(done);
            let len = state.vmcs.get32(VmcsField32::VmExitInstructionLen);
            &&& rip(state) is Some && len is Ok ==> {
                &&& result == done
                &&& rip(after) is Some
                &&& rip(after)->0 == (rip(state)->0 + len->Ok_0) % 0x1_0000_0000_0000_0000
            }
            &&& rip(state) is None || len is Err ==> after == state && result is Error
            &&& after == (VmStateView { vmcs: after.vmcs, ..state })
            &&& after.vmcs == (Vmcs { naturals: after.vmcs.naturals, ..state.vmcs })
            &&& forall|f: VmcsFieldNatural|
                f != VmcsFieldNatural::GuestRip ==> #[trigger] after.vmcs.get_natural(f)
                    == state.vmcs.get_natural(f)
        }),
{
    reveal(VmStateView::complete);
    assert forall|f: VmcsFieldNatural| f != VmcsFieldNatural::GuestRip implies #[trigger] f.slot()
        != VmcsFieldNatural::GuestRip.slot() by {}
}

/// RDTSC and RDTSCP read the emulated TSC, the latter also TSC_AUX; RDPMC reads
/// zero. No other register and nothing else of the core changes.
pub proof fn time_is_read_in_halves(state: VmStateView)
    ensures
        ({
            let c = state.core;
            let tsc = c.emulated_tsc;
            let g = c.gprs;
            let rdtsc = state.rdtsc().0.core;
            let rdtscp = state.rdtscp().0.core;
            let rdpmc = state.rdpmc().0.core;
            let halves = |r: GeneralPurposeRegisters|
                r.rax == tsc % 0x1_0000_0000 && r.rdx == tsc / 0x1_0000_0000;
            &&& halves(rdtsc.gprs)
            &&& halves(rdtscp.gprs)
            &&& rdtscp.gprs.rcx == c.msr_state.tsc_aux % 0x1_0000_0000
            &&& rdtsc.gprs == (GeneralPurposeRegisters {
                rax: rdtsc.gprs.rax,
                rdx: rdtsc.gprs.rdx,
                ..g
            })
            &&& rdtscp.gprs == (GeneralPurposeRegisters { rcx: rdtscp.gprs.rcx, ..rdtsc.gprs })
            &&& rdpmc.gprs == (GeneralPurposeRegisters { rax: 0, rdx: 0, ..g })
            &&& rdtsc == (VmCore { gprs: rdtsc.gprs, ..c })
            &&& rdtscp == (VmCore { gprs: rdtscp.gprs, ..c })
            &&& rdpmc == (VmCore { gprs: rdpmc.gprs, ..c })
        }),
{
    reveal(VmStateView::rdtsc);
    reveal(VmStateView::rdtscp);
    reveal(VmStateView::rdpmc);
    reveal(VmStateView::complete);
    let tsc = state.core.emulated_tsc;
    let aux = state.core.msr_state.tsc_aux;
    lemma_halves(tsc);
    lemma_halves(aux);
}

proof fn lemma_halves(x: u64)
    by (bit_vector)
    ensures
        x & 0xFFFF_FFFF == x % 0x1_0000_0000,
        x >> 32 == x / 0x1_0000_0000,
{
}

proof fn lemma_carry(rflags: u64)
    by (bit_vector)
    ensures
        (rflags | 0x1) % 2 == 1,
        (rflags | 0x1) / 2 == rflags / 2,
{
}

proof fn lemma_operand(reg: u64, value: u64)
    by (bit_vector)
    ensures
        ((reg & !0xFFFF) | (value & 0xFFFF)) == reg / 0x1_0000 * 0x1_0000 + value % 0x1_0000,
        value & 0xFFFF_FFFF == value % 0x1_0000_0000,
{
}

/// A step of the generator is the exclusive or of eight shifted copies of its
/// state.
pub proof fn generator_step_mixes_shifts(x: u64)
    ensures
        random::xorshift64(x) == x ^ (x << 13) ^ (x >> 7) ^ ((x << 13) >> 7) ^ (x << 17) ^ (x << 30)
            ^ ((x >> 7) << 17) ^ (((x << 13) >> 7) << 17),
{
    let a = x ^ (x << 13);
    let b = a ^ (a >> 7);
    assert(b ^ (b << 17) == x ^ (x << 13) ^ (x >> 7) ^ ((x << 13) >> 7) ^ (x << 17) ^ (x << 30) ^ ((
    x >> 7) << 17) ^ (((x << 13) >> 7) << 17)) by (bit_vector)
        requires
            a == x ^ (x << 13),
            b == a ^ (a >> 7),
    ;
}

/// A draw: in seeded mode the value is the next state of the generator; else it is
/// what userspace staged, once. Nothing else of the device changes.
pub proof fn draw_advances_the_generator(d: RandomState)
    ensures
        ({
            let (after, value) = d.draw();
            &&& d.mode == RdrandMode::SeededRng ==> {
                &&& value == Some(after.seed)
                &&& after.seed == d.seed ^ (d.seed << 13) ^ (d.seed >> 7) ^ ((d.seed << 13) >> 7) ^ (
                d.seed << 17) ^ (d.seed << 30) ^ ((d.seed >> 7) << 17) ^ (((d.seed << 13) >> 7)
                    << 17)
                &&& after == (RandomState { seed: after.seed, ..d })
            }
            &&& d.mode == RdrandMode::ExitToUserspace ==> {
                &&& value == d.pending_value
                &&& after == (RandomState { pending_value: None, ..d })
            }
        }),
{
    generator_step_mixes_shifts(d.seed);
}

/// A register after an operand of 16, 32 or 64 bits has been written to it: the
/// first keeps the bits above, the second clears them.
pub open spec fn operand_stored(reg: u64, value: u64, size: u32) -> int {
    if size == 0 {
        reg / 0x1_0000 * 0x1_0000 + value % 0x1_0000
    } else if size == 1 {
        value as int % 0x1_0000_0000
    } else {
        value as int
    }
}

proof fn lemma_info_bits(info: u32)
    by (bit_vector)
    ensures
        (info >> 11) & 0x3 == info / 0x800 % 4,
        (info >> 3) & 0xF == info / 8 % 16,
        ((info >> 3) & 0xF) < 16,
{
}

/// RDRAND and RDSEED that continue have put the drawn value into the destination
/// register, by operand size, and set the carry flag, and only that flag; the other
/// registers are as they were.
pub proof fn served_random_value_is_valid(state: VmStateView, source: RandomSource)
    requires
        source == RandomSource::Rdrand || source == RandomSource::Rdseed,
        state.random(source).1 == ExitHandlerResult::Continue,
    ensures
        ({
            let c = state.core;
            let after = state.random(source).0;
            let info = state.vmcs.get32(VmcsField32::VmExitInstructionInfo)->Ok_0;
            let (device, value) = c.devices.random.draw();
            let dest = (info / 8 % 16) as u8;
            let flags = state.vmcs.get_natural(VmcsFieldNatural::GuestRflags);
            let flags_after = after.vmcs.get_natural(VmcsFieldNatural::GuestRflags);
            &&& value is Some
            &&& flags is Ok && flags_after is Ok
            &&& flags_after->Ok_0 % 2 == 1
            &&& flags_after->Ok_0 / 2 == flags->Ok_0 / 2
            &&& after.core.gprs.reg(dest) == operand_stored(
                c.gprs.reg(dest),
                value->0,
                info / 0x800 % 4,
            )
            &&& forall|r: u8| r < 16 && r != dest ==> #[trigger] after.core.gprs.reg(r)
                == c.gprs.reg(r)
            &&& after.core == (VmCore {
                gprs: after.core.gprs,
                devices: DeviceStates { random: device, ..c.devices },
                ..c
            })
        }),
{
    reveal(VmStateView::random);
    reveal(VmStateView::serve_random);
    reveal(VmStateView::complete);
    reveal(rdrand::result_written);
    let c = state.core;
    let info = state.vmcs.get32(VmcsField32::VmExitInstructionInfo)->Ok_0;
    let value = c.devices.random.draw().1->0;
    let decoded = qualifications::decode_rdrand(info);
    lemma_info_bits(info);
    lemma_carry(state.vmcs.get_natural(VmcsFieldNatural::GuestRflags)->Ok_0);
    lemma_operand(c.gprs.reg(decoded.dest_reg), value);
    assert(decoded.dest_reg == (info / 8 % 16) as u8);
    rdrand::with_reg_changes_one(
        c.gprs,
        decoded.dest_reg,
        rdrand::register_written(c.gprs.reg(decoded.dest_reg), value, decoded.operand_size),
        0,
    );
    assert forall|r: u8| r < 16 && r != decoded.dest_reg implies #[trigger] state.random(
        source,
    ).0.core.gprs.reg(r) == c.gprs.reg(r) by {
        rdrand::with_reg_changes_one(
            c.gprs,
            decoded.dest_reg,
            rdrand::register_written(c.gprs.reg(decoded.dest_reg), value, decoded.operand_size),
            r,
        );
    }
}

/// In seeded mode RDRAND and RDSEED never wait: with the VMCS readable they
/// continue.
pub proof fn seeded_randomness_never_waits(state: VmStateView, source: RandomSource)
    requires
        state.core.devices.random.mode == RdrandMode::SeededRng,
        state.vmcs.get32(VmcsField32::VmExitInstructionInfo) is Ok,
        state.vmcs.get32(VmcsField32::VmExitInstructionLen) is Ok,
        state.vmcs.get_natural(VmcsFieldNatural::GuestRflags) is Ok,
        rip(state) is Some,
    ensures
        state.random(source).1 == ExitHandlerResult::Continue,
        rip(state.random(source).0) is Some,
        rip(state.random(source).0)->0 == (rip(state)->0 + state.vmcs.get32(
            VmcsField32::VmExitInstructionLen,
        )->Ok_0) % 0x1_0000_0000_0000_0000,
{
    reveal(VmStateView::random);
    reveal(VmStateView::serve_random);
    reveal(VmStateView::complete);
}

/// General-purpose registers by the numbers that instructions give them.
pub proof fn registers_have_their_numbers(g: GeneralPurposeRegisters)
    ensures
        g.reg(0) == g.rax && g.reg(1) == g.rcx && g.reg(2) == g.rdx && g.reg(3) == g.rbx,
        g.reg(4) == g.rsp && g.reg(5) == g.rbp && g.reg(6) == g.rsi && g.reg(7) == g.rdi,
        g.reg(8) == g.r8 && g.reg(9) == g.r9 && g.reg(10) == g.r10 && g.reg(11) == g.r11,
        g.reg(12) == g.r12 && g.reg(13) == g.r13 && g.reg(14) == g.r14 && g.reg(15) == g.r15,
{
}

/// A value that RDRAND or RDSEED served is recorded, with the number of its source, 0 or
/// 1, and the operand's width in bytes; a value that was not served is not.
pub proof fn served_value_is_recorded(state: VmStateView, source: RandomSource)
    requires
        state.vmcs.get32(VmcsField32::VmExitInstructionInfo) is Ok,
    ensures
        RandomSource::Rdrand.spec_as_u8() == 0 && RandomSource::Rdseed.spec_as_u8() == 1,
        RandomSource::GetRandom.spec_as_u8() == 2,
        ({
            let info = state.vmcs.get32(VmcsField32::VmExitInstructionInfo)->Ok_0;
            let size = info / 0x800 % 4;
            let (after, result) = state.random(source);
            let value = state.core.devices.random.draw().1;
            let payload = RandomPayload {
                value: value->0,
                pid: 0,
                source: source.spec_as_u8(),
                width: if size == 0 {
                    2
                } else if size == 1 {
                    4
                } else {
                    8
                },
            };
            &&& value is None ==> after == state && result == ExitHandlerResult::ExitToUserspace(
                ExitReason::Rdrand,
            )
            &&& value is Some ==> after.events == state.events.append(
                EventKind::Randomness,
                1,
                state.core.emulated_tsc,
                state.host.tsc,
                payload.encode(),
            ).0
        }),
{
    reveal(VmStateView::random);
    reveal(VmStateView::serve_random);
    reveal(VmStateView::complete);
    let info = state.vmcs.get32(VmcsField32::VmExitInstructionInfo)->Ok_0;
    lemma_info_bits(info);
    if let Some(v) = state.core.devices.random.draw().1 {
        let decoded = qualifications::decode_rdrand(info);
        let payload = RandomPayload {
            value: v,
            source: source.spec_as_u8(),
            width: rdrand::operand_width(decoded.operand_size),
            pid: 0,
        };
        assert(payload.encode() + Seq::<u8>::empty().take(0) =~= payload.encode());
    }
}

pub(crate) proof fn lemma_qualification_bits(q: u64)
    by (bit_vector)
    ensures
        q & 0x7 == q % 8,
        q & 0x8 != 0 <==> q / 8 % 2 == 1,
        q & 0x10 != 0 <==> q / 16 % 2 == 1,
        (q >> 16) & 0xFFFF == q / 0x1_0000 % 0x1_0000,
        q & 0xF == q % 16,
        (q >> 4) & 0x3 == q / 16 % 4,
        (q >> 8) & 0xF == q / 256 % 16,
        q & 0x1 != 0 <==> q % 2 == 1,
        q & 0x2 != 0 <==> q / 2 % 2 == 1,
        q & 0x4 != 0 <==> q / 4 % 2 == 1,
        q & 0x20 != 0 <==> q / 32 % 2 == 1,
        q & 0x80 != 0 <==> q / 128 % 2 == 1,
        q & 0x1_0000 != 0 <==> q / 0x1_0000 % 2 == 1,
        q & 0xFF == q % 256,
        q & 0xFFFF == q % 0x1_0000,
        q & 0xFFFF_FFFF == q % 0x1_0000_0000,
        q & !0xFF == q / 0x100 * 0x100,
        q & !0xFFFF == q / 0x1_0000 * 0x1_0000,
        q & !0xFFFF_FFFFu64 == q / 0x1_0000_0000 * 0x1_0000_0000,
{
}

/// Exit qualifications by the bits they are made of.
pub proof fn qualifications_are_bit_fields(q: u64, info: u32)
    ensures
        ({
            let io = qualifications::decode_io(q);
            &&& io.size == (if q % 8 == 0 {
                1
            } else if q % 8 == 1 {
                2
            } else {
                4int
            })
            &&& io.direction == IoDirection::In <==> q / 8 % 2 == 1
            &&& io.string <==> q / 16 % 2 == 1
            &&& io.port == q / 0x1_0000 % 0x1_0000
        }),
        ({
            let cr = qualifications::decode_cr(q);
            &&& cr.cr == q % 16
            &&& cr.access == q / 16 % 4
            &&& cr.register == q / 256 % 16
        }),
        ({
            let ept = qualifications::decode_ept(q);
            &&& ept.read <==> q % 2 == 1
            &&& ept.write <==> q / 2 % 2 == 1
            &&& ept.execute <==> q / 4 % 2 == 1
            &&& ept.readable <==> q / 8 % 2 == 1
            &&& ept.writable <==> q / 16 % 2 == 1
            &&& ept.executable <==> q / 32 % 2 == 1
            &&& ept.guest_linear_valid <==> q / 128 % 2 == 1
            &&& ept.asynchronous <==> q / 0x1_0000 % 2 == 1
        }),
        ({
            let r = qualifications::decode_rdrand(info);
            let size = info / 0x800 % 4;
            &&& r.dest_reg == info / 8 % 16
            &&& r.operand_size == RdrandOperandSize::Size16 <==> size == 0
            &&& r.operand_size == RdrandOperandSize::Size32 <==> size == 1
        }),
{
    lemma_qualification_bits(q);
    lemma_info_bits(info);
}

/// What each port shows: the UART registers as they were written, behind the latch
/// bit the divisor; an empty transmitter and no input; no PCI device.
pub open spec fn port_shows(d: DeviceStates, port: u16, value: u32) -> bool {
    let s = d.serial;
    let latch = s.lcr / 128 == 1;
    &&& port == 0x3F8 ==> value == if latch { s.dll } else { 0 }
    &&& port == 0x3F9 ==> value == if latch { s.dlh } else { s.ier }
    &&& port == 0x3FA ==> value == 0xC0 + (if s.ier / 2 % 2 == 1 { 2int } else { 1 })
    &&& port == 0x3FB ==> value == s.lcr
    &&& port == 0x3FC ==> value == s.mcr
    &&& port == 0x3FD ==> value == 0x60
    &&& port == 0x3FE ==> value == 0xB0
    &&& port == 0x3FF ==> value == s.scr
    &&& 0xCFC <= port <= 0xCFF ==> value == 0xFFFF_FFFF
    &&& port == 0x64 ==> value == 0xFF
    &&& port == 0x71 ==> value == d.rtc.data
    &&& !(0x3F8 <= port <= 0x3FF || 0xCFC <= port <= 0xCFF || port == 0x64 || port == 0x71) ==> value
        == 0
}

proof fn lemma_serial_bits(b: u8)
    by (bit_vector)
    ensures
        b & 0x80 != 0 <==> b / 128 == 1,
        b & 0x02 != 0 <==> b / 2 % 2 == 1,
        b & 0x0F == b % 16,
        b & 0x1F == b % 32,
        b & 0x7F == b % 128,
{
}

proof fn lemma_low_bytes(rax: u64, value: u64)
    by (bit_vector)
    ensures
        ((rax & !0xFF) | (value & 0xFF)) == rax / 0x100 * 0x100 + value % 0x100,
        ((rax & !0xFFFF) | (value & 0xFFFF)) == rax / 0x1_0000 * 0x1_0000 + value % 0x1_0000,
        ((rax & !0xFFFF_FFFFu64) | (value & 0xFFFF_FFFF)) == rax / 0x1_0000_0000 * 0x1_0000_0000
            + value % 0x1_0000_0000,
{
}

/// IN replaces as many low bytes of RAX as the access has by what the port shows,
/// and changes nothing else of the core.
pub proof fn port_read_reaches_rax(state: VmStateView, qual: IoQualification)
    requires
        !qual.string,
        qual.direction == IoDirection::In,
        qual.size == 1 || qual.size == 2 || qual.size == 4,
    ensures
        ({
            let c = state.core;
            let after = state.io(qual).0.core;
            let unit: int = if qual.size == 1 {
                0x100
            } else if qual.size == 2 {
                0x1_0000
            } else {
                0x1_0000_0000
            };
            &&& exists|value: u32| #[trigger]
                port_shows(c.devices, qual.port, value) && after.gprs.rax == c.gprs.rax as int / unit
                    * unit + value as int % unit
            &&& after == (VmCore {
                gprs: GeneralPurposeRegisters { rax: after.gprs.rax, ..c.gprs },
                ..c
            })
        }),
{
    reveal(VmStateView::io);
    reveal(VmStateView::complete);
    let c = state.core;
    let value = io::port_value(c.devices, qual.port);
    lemma_serial_bits(c.devices.serial.lcr);
    lemma_serial_bits(c.devices.serial.ier);
    lemma_low_bytes(c.gprs.rax, value as u64);
    assert(port_shows(c.devices, qual.port, value));
}

/// The interrupt `vector` is requested at the local APIC.
pub open spec fn requested(c: VmCore, vector: u8) -> bool {
    (c.devices.apic.irr@[vector as int / 32] >> (vector % 32)) & 1 == 1
}

proof fn lemma_request_bit(word: u32, a: u8, b: u8)
    by (bit_vector)
    requires
        a < 32,
        b < 32,
    ensures
        ((word | (1u32 << a)) >> b) & 1 == 1 <==> (a == b || (word >> b) & 1 == 1),
{
}

/// Requesting an interrupt sets its bit and no other.
pub proof fn request_sets_one_bit(c: VmCore, vector: u8, other: u8)
    ensures
        requested(c.with_request(vector), other) <==> (other == vector || requested(c, other)),
        ({
            let after = c.with_request(vector);
            after == (VmCore {
                devices: DeviceStates {
                    apic: ApicState {
                        irr: after.devices.apic.irr,
                        ..c.devices.apic
                    },
                    ..c.devices
                },
                ..c
            })
        }),
{
    lemma_request_bit(c.devices.apic.irr@[vector as int / 32], vector % 32, other % 32);
    lemma_request_bit(c.devices.apic.irr@[other as int / 32], vector % 32, other % 32);
}

/// A raised pin requests the vector of its redirection entry, unless the entry is
/// masked or the vector below 16.
pub proof fn raised_pin_requests_its_vector(c: VmCore, pin: int, other: u8)
    requires
        0 <= pin < 24,
    ensures
        ({
            let entry = c.devices.ioapic.redtbl@[pin];
            let open = entry / 0x1_0000 % 2 == 0 && entry % 256 >= 16;
            &&& requested(c.deliver_irq(pin), other) <==> ((open && other == entry % 256)
                || requested(c, other))
            &&& !open ==> c.deliver_irq(pin) == c
        }),
{
    let entry = c.devices.ioapic.redtbl@[pin];
    lemma_pin_bits(entry);
    request_sets_one_bit(c, (entry % 256) as u8, other);
}

/// OUT: each UART register takes the byte, cut to the bits it has; the clock's index
/// its low seven bits; other ports take nothing. Enabling the transmitter interrupt
/// raises pin 4 at once, and nothing else requests an interrupt.
pub proof fn port_write_reaches_the_device(state: VmStateView, qual: IoQualification, other: u8)
    requires
        !qual.string,
        qual.direction == IoDirection::Out,
    ensures
        ({
            let c = state.core;
            let b = c.gprs.rax % 256;
            let port = qual.port;
            let s = c.devices.serial;
            let latch = s.lcr / 128 == 1;
            let after = state.io(qual).0.core;
            let t = after.devices.serial;
            let entry = c.devices.ioapic.redtbl@[4];
            let raised = port == 0x3F9 && !latch && b / 2 % 2 == 1 && entry / 0x1_0000 % 2 == 0
                && entry % 256 >= 16;
            &&& t.dll == if port == 0x3F8 && latch { b } else { s.dll as u64 }
            &&& t.dlh == if port == 0x3F9 && latch { b } else { s.dlh as u64 }
            &&& t.ier == if port == 0x3F9 && !latch { b % 16 } else { s.ier as u64 }
            &&& t.lcr == if port == 0x3FB { b } else { s.lcr as u64 }
            &&& t.mcr == if port == 0x3FC { b % 32 } else { s.mcr as u64 }
            &&& t.scr == if port == 0x3FF { b } else { s.scr as u64 }
            &&& after.devices.rtc.index == if port == 0x70 {
                b % 128
            } else {
                c.devices.rtc.index as u64
            }
            &&& requested(after, other) <==> (requested(c, other) || (raised && other == entry
                % 256))
            &&& after.gprs == c.gprs
            &&& after.emulated_tsc == c.emulated_tsc
        }),
{
    reveal(VmStateView::io);
    reveal(VmStateView::complete);
    let c = state.core;
    let byte = (c.gprs.rax & 0xFF) as u8;
    lemma_qualification_bits(c.gprs.rax);
    lemma_serial_bits(c.devices.serial.lcr);
    lemma_serial_bits(byte);
    let written = VmCore { devices: io::port_written(c.devices, qual.port, byte), ..c };
    raised_pin_requests_its_vector(written, 4, other);
}

/// A character sent to the UART joins the serial line, stamped with emulated time;
/// no other port touches the event stream. String instructions are left alone.
pub proof fn transmitted_character_is_recorded(state: VmStateView, qual: IoQualification)
    ensures
        ({
            let (after, result) = state.io(qual);
            let sent = qual.direction == IoDirection::Out && qual.port == 0x3F8
                && state.core.devices.serial.lcr / 128 == 0;
            &&& qual.string ==> after == state && result == ExitHandlerResult::ExitToUserspace(
                ExitReason::IoInstruction,
            )
            &&& !qual.string && sent ==> exists|b: u8|
                b == state.core.gprs.rax % 256 && after.events == #[trigger] state.events.serial_byte(
                    b,
                    state.core.emulated_tsc,
                    state.host.tsc,
                ).0
            &&& !sent ==> after.events == state.events
        }),
{
    reveal(VmStateView::io);
    reveal(VmStateView::complete);
    lemma_qualification_bits(state.core.gprs.rax);
    lemma_serial_bits(state.core.devices.serial.lcr);
    let b = (state.core.gprs.rax & 0xFF) as u8;
    assert(state.events.serial_byte(b, state.core.emulated_tsc, state.host.tsc).0
        == state.event_serial_byte(b).0.events);
}

/// A waiting I/O request is announced once its target has come, by the vector of
/// pin 9, and is marked so; until then, or while the pin is closed or no page is
/// registered, nothing happens.
pub proof fn due_request_is_announced(state: VmStateView, other: u8)
    ensures
        ({
            let chan = state.io_channel;
            let entry = state.core.devices.ioapic.redtbl@[9];
            let due = chan.page_gpa != 0 && chan.request.len() > 0 && !chan.request_delivered
                && state.core.emulated_tsc >= chan.request_target_tsc && entry / 0x1_0000 % 2 == 0
                && entry % 256 >= 16;
            let after = state.check_io_channel();
            &&& !due ==> after == state
            &&& due ==> {
                &&& requested(after.core, other) <==> (requested(state.core, other) || other
                    == entry % 256)
                &&& after.io_channel == (IoChannelView {
                    request_delivered: true,
                    ..chan
                })
                &&& after.core.gprs == state.core.gprs
                &&& after.core.emulated_tsc == state.core.emulated_tsc
            }
        }),
{
    let entry = state.core.devices.ioapic.redtbl@[9];
    lemma_pin_bits(entry);
    request_sets_one_bit(state.core, (entry % 256) as u8, other);
}

/// MOV to CR3 stores the named register, MOV from CR0 or CR3 fetches it into the
/// named one, and the two are inverse.
pub proof fn control_register_moves(state: VmStateView, cr: u8, register: u8, other: u8)
    requires
        register < 16,
        other < 16,
        cr == 0 || cr == 3,
        state.vmcs.loaded,
        rip(state) is Some,
        state.vmcs.get32(VmcsField32::VmExitInstructionLen) is Ok,
    ensures
        ({
            let field = if cr == 0 {
                VmcsFieldNatural::GuestCr0
            } else {
                VmcsFieldNatural::GuestCr3
            };
            let to = CrAccessQualification { cr: 3, access: 0, register };
            let from = CrAccessQualification { cr, access: 1, register };
            let (written, r) = state.cr_access(to);
            let (fetched, q) = state.cr_access(from);
            &&& r == ExitHandlerResult::Continue
            &&& written.vmcs.get_natural(VmcsFieldNatural::GuestCr3) matches Ok(v) && v
                == state.core.gprs.reg(register)
            &&& written.core == state.core
            &&& state.vmcs.get_natural(field) is Ok ==> {
                &&& q == ExitHandlerResult::Continue
                &&& fetched.core.gprs.reg(register) == state.vmcs.get_natural(field)->Ok_0
                &&& other != register ==> fetched.core.gprs.reg(other) == state.core.gprs.reg(other)
                &&& fetched.core == (VmCore { gprs: fetched.core.gprs, ..state.core })
                &&& fetched.vmcs.get_natural(field) == state.vmcs.get_natural(field)
            }
        }),
{
    reveal(VmStateView::cr_access);
    reveal(VmStateView::complete);
    reveal(rdrand::result_written);
    let field = if cr == 0 { VmcsFieldNatural::GuestCr0 } else { VmcsFieldNatural::GuestCr3 };
    if let Ok(v) = state.vmcs.get_natural(field) {
        rdrand::with_reg_changes_one(state.core.gprs, register, v, other);
    }
}

/// CPUID looks at EAX alone, fills the four registers with 32-bit values and
/// changes no other; beyond the highest leaf of either range it gives zeros, and
/// the leaves in between spell the same processor on every host.
pub proof fn cpuid_is_fixed(state: VmStateView, leaf: u32)
    requires
        leaf == state.core.gprs.rax as u32,
    ensures
        ({
            let g = state.core.gprs;
            let after = state.cpuid().0.core;
            let r = after.gprs;
            &&& after == (VmCore {
                gprs: GeneralPurposeRegisters { rax: r.rax, rbx: r.rbx, rcx: r.rcx, rdx: r.rdx, ..g },
                ..state.core
            })
            &&& r.rax <= u32::MAX && r.rbx <= u32::MAX && r.rcx <= u32::MAX && r.rdx <= u32::MAX
            &&& leaf == 0 ==> r.rax == 1 && (r.rbx, r.rdx, r.rcx) == (
                0x756E_6547u64,
                0x4965_6E69u64,
                0x6C65_746Eu64,
            )
            &&& leaf == 1 ==> r.rax == 0x5_0657 && r.rbx == 0 && r.rcx == 0x8000_0000 && r.rdx == 0
            &&& leaf == 0x8000_0000 ==> r.rax == 0x8000_0004 && r.rbx == 0 && r.rcx == 0 && r.rdx == 0
            &&& leaf == 0x8000_0002 ==> (r.rax, r.rbx, r.rcx, r.rdx) == (
                0x7264_6542u64,
                0x206B_636Fu64,
                0x4320_4D56u64,
                0x5550u64,
            )
            &&& leaf != 0 && leaf != 1 && leaf != 0x8000_0000 && leaf != 0x8000_0002 ==> r.rax == 0
                && r.rbx == 0 && r.rcx == 0 && r.rdx == 0
        }),
{
    reveal(VmStateView::cpuid);
    reveal(VmStateView::complete);
}

} // verus!
