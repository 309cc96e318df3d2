//! Interrupt requests from emulated devices.

use vstd::prelude::*;

use crate::devices::ioapic::{IOAPIC_NUM_PINS, IO_CHANNEL_IRQ};
use crate::events::types::{IoChannelPayload, IoChannelPhase};
use crate::io_channel::IoChannelView;
use crate::traits::device_state::DeviceStates;
use crate::traits::vm_context::VmContext;
use crate::vm_state::{VmCore, VmState, VmStateView};

verus! {

impl VmCore {
    /// The core with `vector` requested at the local APIC.
    pub open spec fn with_request(self, vector: u8) -> Self {
        VmCore {
            devices: DeviceStates { apic: self.devices.apic.with_request(vector), ..self.devices },
            ..self
        }
    }

    /// The core after a device has raised an I/O APIC pin. A masked pin or an
    /// illegal vector delivers nothing.
    pub open spec fn deliver_irq(self, pin: int) -> Self {
        match self.devices.ioapic.route(pin) {
            Some(vector) => self.with_request(vector),
            None => self,
        }
    }
}

impl VmStateView {
    /// The vector that announces the waiting I/O request, if the guest has
    /// registered its page and routed the interrupt and the request is due.
    pub open spec fn io_channel_due(self) -> Option<u8> {
        let chan = self.io_channel;
        if chan.page_gpa == 0 || chan.request.len() == 0 || chan.request_delivered {
            None
        } else if chan.request_target_tsc != 0 && self.core.emulated_tsc < chan.request_target_tsc {
            None
        } else {
            self.core.devices.ioapic.route(IO_CHANNEL_IRQ as int)
        }
    }

    /// The state after a due I/O request has been announced once and recorded.
    pub open spec fn check_io_channel(self) -> Self {
        match self.io_channel_due() {
            None => self,
            Some(vector) => VmStateView {
                core: self.core.with_request(vector),
                io_channel: IoChannelView { request_delivered: true, ..self.io_channel },
                ..self
            }.event_emit_io_channel(
                IoChannelPayload {
                    phase: IoChannelPhase::Request.spec_as_u8(),
                    target_tsc: self.io_channel.request_target_tsc,
                },
            ).0,
        }
    }
}

/// Raise an I/O APIC pin.
pub fn ioapic_deliver_irq(state: &mut VmState, pin: u8)
    requires
        old(state).wf(),
        pin < IOAPIC_NUM_PINS,
    ensures
        final(state).wf(),
        final(state)@ == old(state)@.with_core(old(state)@.core.deliver_irq(pin as int)),
{
    match state.core.devices.ioapic.routed_vector(pin) {
        Some(vector) => {
            state.core.devices.apic.request(vector);
        },
        None => {},
    }
}

fn announce_io_request(state: &mut VmState)
    requires
        old(state).wf(),
    ensures
        final(state).wf(),
        final(state)@ == old(state)@.check_io_channel(),
{
    let target: u64 = state.io_channel.request_target_tsc;
    if state.io_channel.page_gpa == 0 {
        return;
    }
    if state.io_channel.request_len == 0 || state.io_channel.request_delivered {
        return;
    }
    if target != 0 && state.core.emulated_tsc < target {
        return;
    }
    match state.core.devices.ioapic.routed_vector(IO_CHANNEL_IRQ) {
        Some(vector) => {
            state.core.devices.apic.request(vector);
            state.io_channel.request_delivered = true;
            let payload = IoChannelPayload {
                phase: IoChannelPhase::Request.as_u8(),
                target_tsc: target,
            };
            let _ = state.event_emit_io_channel(&payload);
        },
        None => {},
    }
}

/// Announce the waiting I/O request to the guest once it is due.
pub fn check_io_channel<C: VmContext>(ctx: &mut C)
    requires
        old(ctx).wf(),
    ensures
        final(ctx).wf(),
        final(ctx).child_count() == old(ctx).child_count(),
        final(ctx).vm() == old(ctx).vm().with_state(old(ctx).vm().state.check_io_channel()),
{
    announce_io_request(ctx.state_mut());
}

/// An announced request is not announced again.
pub proof fn request_is_announced_once(state: VmStateView)
    ensures
        state.check_io_channel().check_io_channel() == state.check_io_channel(),
{
}

} // verus!
