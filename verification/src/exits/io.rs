//! I/O instruction exits: serial port, CMOS clock and PCI configuration space.

use vstd::prelude::*;

use crate::devices::rtc::RtcState;
use crate::devices::serial::SerialState;
use crate::exits::helpers::{complete, ExitHandlerResult};
use crate::exits::interrupts::ioapic_deliver_irq;
use crate::exits::qualifications::{IoDirection, IoQualification};
use crate::exits::reasons::ExitReason;
use crate::traits::device_state::DeviceStates;
use crate::traits::vm_context::VmContext;
use crate::vm_state::{VmCore, VmState, VmStateView};

verus! {

/// I/O APIC pin of the serial port.
pub const SERIAL_IRQ: u8 = 4;

/// The bits an access of `size` bytes covers.
pub open spec fn size_mask(size: u8) -> u64 {
    if size == 1 {
        0xFF
    } else if size == 2 {
        0xFFFF
    } else {
        0xFFFF_FFFF
    }
}

/// What a read of `port` gives. The UART's transmitter is always empty and it
/// never has input; there is no PCI device and no keyboard controller.
pub open spec fn port_value(devices: DeviceStates, port: u16) -> u32 {
    let serial = devices.serial;
    if port == 0x3F8 {
        if serial.dlab() { serial.dll as u32 } else { 0 }
    } else if port == 0x3F9 {
        if serial.dlab() { serial.dlh as u32 } else { serial.ier as u32 }
    } else if port == 0x3FA {
        if serial.ier & 0x02 != 0 { 0xC2 } else { 0xC1 }
    } else if port == 0x3FB {
        serial.lcr as u32
    } else if port == 0x3FC {
        serial.mcr as u32
    } else if port == 0x3FD {
        0x60
    } else if port == 0x3FE {
        0xB0
    } else if port == 0x3FF {
        serial.scr as u32
    } else if 0xCFC <= port <= 0xCFF {
        0xFFFF_FFFF
    } else if port == 0x64 {
        0xFF
    } else if port == 0x71 {
        devices.rtc.data as u32
    } else {
        0
    }
}

/// The device state after `byte` has been written to a register port.
pub open spec fn port_written(devices: DeviceStates, port: u16, byte: u8) -> DeviceStates {
    let serial = devices.serial;
    if port == 0x3F8 && serial.dlab() {
        DeviceStates { serial: SerialState { dll: byte, ..serial }, ..devices }
    } else if port == 0x3F9 && serial.dlab() {
        DeviceStates { serial: SerialState { dlh: byte, ..serial }, ..devices }
    } else if port == 0x3F9 {
        DeviceStates { serial: SerialState { ier: byte & 0x0F, ..serial }, ..devices }
    } else if port == 0x3FB {
        DeviceStates { serial: SerialState { lcr: byte, ..serial }, ..devices }
    } else if port == 0x3FC {
        DeviceStates { serial: SerialState { mcr: byte & 0x1F, ..serial }, ..devices }
    } else if port == 0x3FF {
        DeviceStates { serial: SerialState { scr: byte, ..serial }, ..devices }
    } else if port == 0x70 {
        DeviceStates { rtc: RtcState { index: byte & 0x7F, ..devices.rtc }, ..devices }
    } else {
        devices
    }
}

impl VmStateView {
    /// The state after the guest has written `byte` to `port`. A transmitted
    /// character joins the serial line; enabling the transmitter interrupt
    /// raises it at once, as the transmitter is empty.
    pub open spec fn port_out(self, port: u16, byte: u8) -> Self {
        let c = self.core;
        let dlab = c.devices.serial.dlab();
        if port == 0x3F8 && !dlab {
            self.event_serial_byte(byte).0
        } else {
            let written = VmCore { devices: port_written(c.devices, port, byte), ..c };
            if port == 0x3F9 && !dlab && byte & 0x02 != 0 {
                self.with_core(written.deliver_irq(SERIAL_IRQ as int))
            } else {
                self.with_core(written)
            }
        }
    }

    /// The state after a read of `port` has replaced the low bytes of RAX.
    pub open spec fn port_in(self, port: u16, size: u8) -> Self {
        let c = self.core;
        let mask = size_mask(size);
        self.with_rax((c.gprs.rax & !mask) | (port_value(c.devices, port) as u64 & mask))
    }

    /// An I/O instruction. String instructions are left to userspace.
    #[verifier::opaque]
    pub open spec fn io(self, qual: IoQualification) -> (Self, ExitHandlerResult) {
        if qual.string {
            (self, ExitHandlerResult::ExitToUserspace(ExitReason::IoInstruction))
        } else {
            match qual.direction {
                IoDirection::Out => self.port_out(
                    qual.port,
                    (self.core.gprs.rax & 0xFF) as u8,
                ),
                IoDirection::In => self.port_in(qual.port, qual.size),
            }.complete(ExitHandlerResult::Continue)
        }
    }
}

/// Write `byte` to a register port.
fn write_register(devices: &mut DeviceStates, port: u16, byte: u8)
    ensures
        *final(devices) == port_written(*old(devices), port, byte),
{
    let dlab: bool = devices.serial.lcr & 0x80 != 0;
    if port == 0x3F8 && dlab {
        devices.serial.dll = byte;
    } else if port == 0x3F9 && dlab {
        devices.serial.dlh = byte;
    } else if port == 0x3F9 {
        devices.serial.ier = byte & 0x0F;
    } else if port == 0x3FB {
        devices.serial.lcr = byte;
    } else if port == 0x3FC {
        devices.serial.mcr = byte & 0x1F;
    } else if port == 0x3FF {
        devices.serial.scr = byte;
    } else if port == 0x70 {
        devices.rtc.index = byte & 0x7F;
    }
}

/// Write `byte` to `port`.
fn write_port(state: &mut VmState, port: u16, byte: u8)
    requires
        old(state).wf(),
    ensures
        final(state).wf(),
        final(state)@ == old(state)@.port_out(port, byte),
{
    let dlab: bool = state.core.devices.serial.lcr & 0x80 != 0;
    if port == 0x3F8 && !dlab {
        let _ = state.event_serial_byte(byte);
        return;
    }
    write_register(&mut state.core.devices, port, byte);
    if port == 0x3F9 && !dlab && byte & 0x02 != 0 {
        ioapic_deliver_irq(state, SERIAL_IRQ);
    }
}

/// Read `port`.
fn read_port(devices: &DeviceStates, port: u16) -> (r: u32)
    ensures
        r == port_value(*devices, port),
{
    let dlab: bool = devices.serial.lcr & 0x80 != 0;
    if port == 0x3F8 {
        if dlab {
            devices.serial.dll as u32
        } else {
            0
        }
    } else if port == 0x3F9 {
        if dlab {
            devices.serial.dlh as u32
        } else {
            devices.serial.ier as u32
        }
    } else if port == 0x3FA {
        if devices.serial.ier & 0x02 != 0 {
            0xC2
        } else {
            0xC1
        }
    } else if port == 0x3FB {
        devices.serial.lcr as u32
    } else if port == 0x3FC {
        devices.serial.mcr as u32
    } else if port == 0x3FD {
        0x60
    } else if port == 0x3FE {
        0xB0
    } else if port == 0x3FF {
        devices.serial.scr as u32
    } else if port >= 0xCFC && port <= 0xCFF {
        0xFFFF_FFFF
    } else if port == 0x64 {
        0xFF
    } else if port == 0x71 {
        devices.rtc.data as u32
    } else {
        0
    }
}

fn io(state: &mut VmState, qual: IoQualification) -> (r: ExitHandlerResult)
    requires
        old(state).wf(),
        qual.size == 1 || qual.size == 2 || qual.size == 4,
    ensures
        final(state).wf(),
        (final(state)@, r) == old(state)@.io(qual),
{
    reveal(VmStateView::io);
    if qual.string {
        return ExitHandlerResult::ExitToUserspace(ExitReason::IoInstruction);
    }
    match qual.direction {
        IoDirection::Out => {
            let byte: u8 = (state.core.gprs.rax & 0xFF) as u8;
            write_port(state, qual.port, byte);
        },
        IoDirection::In => {
            let value: u32 = read_port(&state.core.devices, qual.port);
            let mask: u64 = if qual.size == 1 {
                0xFF
            } else if qual.size == 2 {
                0xFFFF
            } else {
                0xFFFF_FFFF
            };
            state.core.gprs.rax = (state.core.gprs.rax & !mask) | (value as u64 & mask);
        },
    }
    complete(state, ExitHandlerResult::Continue)
}

/// Handle an I/O instruction.
pub fn handle_io<C: VmContext>(ctx: &mut C, qual: IoQualification) -> (r: ExitHandlerResult)
    requires
        old(ctx).wf(),
        qual.size == 1 || qual.size == 2 || qual.size == 4,
    ensures
        final(ctx).wf(),
        final(ctx).child_count() == old(ctx).child_count(),
        ({
            let (state, result) = old(ctx).vm().state.io(qual);
            final(ctx).vm() == old(ctx).vm().with_state(state) && r == result
        }),
{
    io(ctx.state_mut(), qual)
}

/// Scratch, line control and, behind the latch bit, divisor registers read back
/// what was written; interrupt enable and modem control read back the bits they
/// have.
pub proof fn uart_registers_read_back(devices: DeviceStates, byte: u8)
    ensures
        port_value(port_written(devices, 0x3FF, byte), 0x3FF) == byte,
        port_value(port_written(devices, 0x3FB, byte), 0x3FB) == byte,
        port_value(port_written(devices, 0x3FC, byte), 0x3FC) == byte & 0x1F,
        devices.serial.dlab() ==> port_value(port_written(devices, 0x3F8, byte), 0x3F8) == byte,
        devices.serial.dlab() ==> port_value(port_written(devices, 0x3F9, byte), 0x3F9) == byte,
        !devices.serial.dlab() ==> port_value(port_written(devices, 0x3F9, byte), 0x3F9) == byte
            & 0x0F,
{
}

/// A read of `size` bytes leaves the higher bytes of RAX alone and sets the
/// lower ones to what the port gives.
pub proof fn port_in_changes_low_bytes(state: VmStateView, port: u16, size: u8)
    ensures
        state.port_in(port, size).core.gprs.rax & !size_mask(size) == state.core.gprs.rax
            & !size_mask(size),
        state.port_in(port, size).core.gprs.rax & size_mask(size) == port_value(
            state.core.devices,
            port,
        ) as u64 & size_mask(size),
{
    let rax = state.core.gprs.rax;
    let value = port_value(state.core.devices, port) as u64;
    let mask = size_mask(size);
    assert(((rax & !mask) | (value & mask)) & !mask == rax & !mask && ((rax & !mask) | (value
        & mask)) & mask == value & mask) by (bit_vector);
}

} // verus!
