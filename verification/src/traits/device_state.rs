//! Grouped device and MSR state.

use vstd::prelude::*;

use crate::devices::apic::ApicState;
use crate::devices::ioapic::IoApicState;
use crate::devices::mtrr::MtrrState;
use crate::devices::random::RandomState;
use crate::devices::rtc::RtcState;
use crate::devices::serial::SerialState;
use crate::msr::SyscallMsrs;

verus! {

/// The emulated devices.
#[derive(Clone, Copy)]
pub struct DeviceStates {
    /// Local APIC.
    pub apic: ApicState,
    /// Serial port.
    pub serial: SerialState,
    /// I/O APIC.
    pub ioapic: IoApicState,
    /// CMOS clock.
    pub rtc: RtcState,
    /// Memory type range registers.
    pub mtrr: MtrrState,
    /// Controlled randomness: RDRAND, RDSEED and `HYPERCALL_GET_RANDOM`.
    pub random: RandomState,
}

impl DeviceStates {
    /// Every device after reset.
    pub open spec fn reset() -> Self {
        DeviceStates {
            apic: ApicState::reset(),
            serial: SerialState { ier: 0, lcr: 0, mcr: 0, scr: 0, dll: 0, dlh: 0 },
            ioapic: IoApicState::reset(),
            rtc: RtcState { index: 0, data: 0 },
            mtrr: MtrrState::reset(),
            random: RandomState::reset(),
        }
    }

    /// Every device in its default state.
    pub fn new() -> (r: Self)
        ensures
            r == DeviceStates::reset(),
    {
        DeviceStates {
            apic: ApicState::default(),
            serial: SerialState::default(),
            ioapic: IoApicState::default(),
            rtc: RtcState::default(),
            mtrr: MtrrState::default(),
            random: RandomState::default(),
        }
    }
}

impl Default for DeviceStates {
    fn default() -> (r: Self)
        ensures
            r == DeviceStates::reset(),
    {
        DeviceStates::new()
    }
}

/// IA32_PAT after reset.
pub const PAT_DEFAULT: u64 = 0x0007_0406_0007_0406;

/// The MSRs that are emulated rather than passed through.
#[derive(Clone, Copy, PartialEq, Eq, Structural)]
pub struct GuestMsrState {
    /// IA32_PAT.
    pub pat: u64,
    /// IA32_TSC_AUX, the auxiliary value of RDTSCP.
    pub tsc_aux: u64,
    /// SYSCALL/SYSRET MSRs.
    pub syscall: SyscallMsrs,
}

impl GuestMsrState {
    /// The MSRs after reset.
    pub open spec fn reset() -> Self {
        GuestMsrState { pat: PAT_DEFAULT, tsc_aux: 0, syscall: SyscallMsrs::zero() }
    }

    /// The MSRs in their default state.
    pub fn new() -> (r: Self)
        ensures
            r == GuestMsrState::reset(),
    {
        GuestMsrState { pat: PAT_DEFAULT, tsc_aux: 0, syscall: SyscallMsrs::default() }
    }
}

impl Default for GuestMsrState {
    fn default() -> (r: Self)
        ensures
            r == GuestMsrState::reset(),
    {
        GuestMsrState::new()
    }
}

} // verus!
