//! VM exit reasons.

use vstd::prelude::*;

verus! {

/// Why the guest was left: a hardware basic exit reason, or one of the
/// hypervisor's own reasons to return to userspace.
#[derive(Debug, Clone, Copy, PartialEq, Eq, Structural)]
pub enum ExitReason {
    ExceptionNmi,
    ExternalInterrupt,
    TripleFault,
    Init,
    Sipi,
    IoSmi,
    OtherSmi,
    InterruptWindow,
    NmiWindow,
    TaskSwitch,
    Cpuid,
    Getsec,
    Hlt,
    Invd,
    Invlpg,
    Rdpmc,
    Rdtsc,
    Rsm,
    Vmcall,
    Vmclear,
    Vmlaunch,
    Vmptrld,
    Vmptrst,
    Vmread,
    Vmresume,
    Vmwrite,
    Vmxoff,
    Vmxon,
    CrAccess,
    DrAccess,
    IoInstruction,
    MsrRead,
    MsrWrite,
    InvalidGuestState,
    MsrLoading,
    Mwait,
    MonitorTrapFlag,
    Monitor,
    Pause,
    MachineCheck,
    TprBelowThreshold,
    ApicAccess,
    VirtualizedEoi,
    GdtrIdtrAccess,
    LdtrTrAccess,
    EptViolation,
    EptMisconfig,
    Invept,
    Rdtscp,
    VmxPreemptionTimer,
    Invvpid,
    Wbinvd,
    Xsetbv,
    ApicWrite,
    Rdrand,
    Invpcid,
    Vmfunc,
    Encls,
    Rdseed,
    PmlFull,
    Xsaves,
    Xrstors,
    // Reasons of the hypervisor's own.
    VmcallShutdown,
    VmcallSnapshot,
    VmcallReady,
    VmcallFeedbackBuffer,
    VmcallPebsPage,
    VmcallFileFetch,
    VmcallFileStore,
    VmcallGetRandom,
    VmcallIoRegisterPage,
    VmcallIoResponse,
    StopTscReached,
    EventBufferFull,
    NeedResched,
    PoolExhausted,
}

/// An exit reason the processor reported but this hypervisor does not know.
#[derive(Debug, Clone, Copy, PartialEq, Eq, Structural)]
pub struct UnknownExitReason(pub u32);

impl ExitReason {
    /// The number of a reason. The hypervisor's own reasons lie above every
    /// hardware reason.
    pub open spec fn code(self) -> u32 {
        match self {
            ExitReason::ExceptionNmi => 0,
            ExitReason::ExternalInterrupt => 1,
            ExitReason::TripleFault => 2,
            ExitReason::Init => 3,
            ExitReason::Sipi => 4,
            ExitReason::IoSmi => 5,
            ExitReason::OtherSmi => 6,
            ExitReason::InterruptWindow => 7,
            ExitReason::NmiWindow => 8,
            ExitReason::TaskSwitch => 9,
            ExitReason::Cpuid => 10,
            ExitReason::Getsec => 11,
            ExitReason::Hlt => 12,
            ExitReason::Invd => 13,
            ExitReason::Invlpg => 14,
            ExitReason::Rdpmc => 15,
            ExitReason::Rdtsc => 16,
            ExitReason::Rsm => 17,
            ExitReason::Vmcall => 18,
            ExitReason::Vmclear => 19,
            ExitReason::Vmlaunch => 20,
            ExitReason::Vmptrld => 21,
            ExitReason::Vmptrst => 22,
            ExitReason::Vmread => 23,
            ExitReason::Vmresume => 24,
            ExitReason::Vmwrite => 25,
            ExitReason::Vmxoff => 26,
            ExitReason::Vmxon => 27,
            ExitReason::CrAccess => 28,
            ExitReason::DrAccess => 29,
            ExitReason::IoInstruction => 30,
            ExitReason::MsrRead => 31,
            ExitReason::MsrWrite => 32,
            ExitReason::InvalidGuestState => 33,
            ExitReason::MsrLoading => 34,
            ExitReason::Mwait => 36,
            ExitReason::MonitorTrapFlag => 37,
            ExitReason::Monitor => 39,
            ExitReason::Pause => 40,
            ExitReason::MachineCheck => 41,
            ExitReason::TprBelowThreshold => 43,
            ExitReason::ApicAccess => 44,
            ExitReason::VirtualizedEoi => 45,
            ExitReason::GdtrIdtrAccess => 46,
            ExitReason::LdtrTrAccess => 47,
            ExitReason::EptViolation => 48,
            ExitReason::EptMisconfig => 49,
            ExitReason::Invept => 50,
            ExitReason::Rdtscp => 51,
            ExitReason::VmxPreemptionTimer => 52,
            ExitReason::Invvpid => 53,
            ExitReason::Wbinvd => 54,
            ExitReason::Xsetbv => 55,
            ExitReason::ApicWrite => 56,
            ExitReason::Rdrand => 57,
            ExitReason::Invpcid => 58,
            ExitReason::Vmfunc => 59,
            ExitReason::Encls => 60,
            ExitReason::Rdseed => 61,
            ExitReason::PmlFull => 62,
            ExitReason::Xsaves => 63,
            ExitReason::Xrstors => 64,
            ExitReason::VmcallShutdown => 256,
            ExitReason::VmcallSnapshot => 257,
            ExitReason::VmcallReady => 258,
            ExitReason::VmcallFeedbackBuffer => 259,
            ExitReason::VmcallPebsPage => 260,
            ExitReason::VmcallFileFetch => 261,
            ExitReason::VmcallFileStore => 262,
            ExitReason::VmcallGetRandom => 263,
            ExitReason::VmcallIoRegisterPage => 264,
            ExitReason::VmcallIoResponse => 265,
            ExitReason::StopTscReached => 266,
            ExitReason::EventBufferFull => 267,
            ExitReason::NeedResched => 268,
            ExitReason::PoolExhausted => 269,
        }
    }

    /// The reason is one that the processor reports.
    pub open spec fn hardware(self) -> bool {
        self.code() < 256
    }

    /// The hardware reason in the low half of the VM-exit reason field.
    pub open spec fn decode(raw: u32) -> Result<ExitReason, UnknownExitReason> {
        if exists|reason: ExitReason| reason.hardware() && #[trigger] reason.code() == raw % 0x1_0000 {
            Ok(
                choose|reason: ExitReason|
                    reason.hardware() && #[trigger] reason.code() == raw % 0x1_0000,
            )
        } else {
            Err(UnknownExitReason(raw))
        }
    }

    /// The number of this reason.
    pub fn as_u32(self) -> (r: u32)
        ensures
            r == self.code(),
    {
        match self {
            ExitReason::ExceptionNmi => 0,
            ExitReason::ExternalInterrupt => 1,
            ExitReason::TripleFault => 2,
            ExitReason::Init => 3,
            ExitReason::Sipi => 4,
            ExitReason::IoSmi => 5,
            ExitReason::OtherSmi => 6,
            ExitReason::InterruptWindow => 7,
            ExitReason::NmiWindow => 8,
            ExitReason::TaskSwitch => 9,
            ExitReason::Cpuid => 10,
            ExitReason::Getsec => 11,
            ExitReason::Hlt => 12,
            ExitReason::Invd => 13,
            ExitReason::Invlpg => 14,
            ExitReason::Rdpmc => 15,
            ExitReason::Rdtsc => 16,
            ExitReason::Rsm => 17,
            ExitReason::Vmcall => 18,
            ExitReason::Vmclear => 19,
            ExitReason::Vmlaunch => 20,
            ExitReason::Vmptrld => 21,
            ExitReason::Vmptrst => 22,
            ExitReason::Vmread => 23,
            ExitReason::Vmresume => 24,
            ExitReason::Vmwrite => 25,
            ExitReason::Vmxoff => 26,
            ExitReason::Vmxon => 27,
            ExitReason::CrAccess => 28,
            ExitReason::DrAccess => 29,
            ExitReason::IoInstruction => 30,
            ExitReason::MsrRead => 31,
            ExitReason::MsrWrite => 32,
            ExitReason::InvalidGuestState => 33,
            ExitReason::MsrLoading => 34,
            ExitReason::Mwait => 36,
            ExitReason::MonitorTrapFlag => 37,
            ExitReason::Monitor => 39,
            ExitReason::Pause => 40,
            ExitReason::MachineCheck => 41,
            ExitReason::TprBelowThreshold => 43,
            ExitReason::ApicAccess => 44,
            ExitReason::VirtualizedEoi => 45,
            ExitReason::GdtrIdtrAccess => 46,
            ExitReason::LdtrTrAccess => 47,
            ExitReason::EptViolation => 48,
            ExitReason::EptMisconfig => 49,
            ExitReason::Invept => 50,
            ExitReason::Rdtscp => 51,
            ExitReason::VmxPreemptionTimer => 52,
            ExitReason::Invvpid => 53,
            ExitReason::Wbinvd => 54,
            ExitReason::Xsetbv => 55,
            ExitReason::ApicWrite => 56,
            ExitReason::Rdrand => 57,
            ExitReason::Invpcid => 58,
            ExitReason::Vmfunc => 59,
            ExitReason::Encls => 60,
            ExitReason::Rdseed => 61,
            ExitReason::PmlFull => 62,
            ExitReason::Xsaves => 63,
            ExitReason::Xrstors => 64,
            ExitReason::VmcallShutdown => 256,
            ExitReason::VmcallSnapshot => 257,
            ExitReason::VmcallReady => 258,
            ExitReason::VmcallFeedbackBuffer => 259,
            ExitReason::VmcallPebsPage => 260,
            ExitReason::VmcallFileFetch => 261,
            ExitReason::VmcallFileStore => 262,
            ExitReason::VmcallGetRandom => 263,
            ExitReason::VmcallIoRegisterPage => 264,
            ExitReason::VmcallIoResponse => 265,
            ExitReason::StopTscReached => 266,
            ExitReason::EventBufferFull => 267,
            ExitReason::NeedResched => 268,
            ExitReason::PoolExhausted => 269,
        }
    }

    /// Decoding finds the reason with the given number.
    pub proof fn lemma_decode(self, raw: u32)
        requires
            self.hardware(),
            self.code() == raw % 0x1_0000,
        ensures
            ExitReason::decode(raw) == Ok::<ExitReason, UnknownExitReason>(self),
    {
        let found = ExitReason::decode(raw)->Ok_0;
        code_is_injective(found, self);
    }

    /// The reason in the low half of the VM-exit reason field.
    pub fn from_raw(raw: u32) -> (r: Result<ExitReason, UnknownExitReason>)
        ensures
            r == ExitReason::decode(raw),
    {
        let r = ExitReason::lookup(raw);
        proof {
            if r is Ok {
                r->Ok_0.lemma_decode(raw);
            }
        }
        r
    }

    fn lookup(raw: u32) -> (r: Result<ExitReason, UnknownExitReason>)
        ensures
            match r {
                Ok(reason) => reason.hardware() && reason.code() == raw % 0x1_0000,
                Err(e) => e == UnknownExitReason(raw) && forall|reason: ExitReason|
                    reason.hardware() ==> #[trigger] reason.code() != raw % 0x1_0000,
            },
    {
        let basic: u32 = raw % 0x1_0000;
        match basic {
            0 => Ok(ExitReason::ExceptionNmi),
            1 => Ok(ExitReason::ExternalInterrupt),
            2 => Ok(ExitReason::TripleFault),
            3 => Ok(ExitReason::Init),
            4 => Ok(ExitReason::Sipi),
            5 => Ok(ExitReason::IoSmi),
            6 => Ok(ExitReason::OtherSmi),
            7 => Ok(ExitReason::InterruptWindow),
            8 => Ok(ExitReason::NmiWindow),
            9 => Ok(ExitReason::TaskSwitch),
            10 => Ok(ExitReason::Cpuid),
            11 => Ok(ExitReason::Getsec),
            12 => Ok(ExitReason::Hlt),
            13 => Ok(ExitReason::Invd),
            14 => Ok(ExitReason::Invlpg),
            15 => Ok(ExitReason::Rdpmc),
            16 => Ok(ExitReason::Rdtsc),
            17 => Ok(ExitReason::Rsm),
            18 => Ok(ExitReason::Vmcall),
            19 => Ok(ExitReason::Vmclear),
            20 => Ok(ExitReason::Vmlaunch),
            21 => Ok(ExitReason::Vmptrld),
            22 => Ok(ExitReason::Vmptrst),
            23 => Ok(ExitReason::Vmread),
            24 => Ok(ExitReason::Vmresume),
            25 => Ok(ExitReason::Vmwrite),
            26 => Ok(ExitReason::Vmxoff),
            27 => Ok(ExitReason::Vmxon),
            28 => Ok(ExitReason::CrAccess),
            29 => Ok(ExitReason::DrAccess),
            30 => Ok(ExitReason::IoInstruction),
            31 => Ok(ExitReason::MsrRead),
            32 => Ok(ExitReason::MsrWrite),
            33 => Ok(ExitReason::InvalidGuestState),
            34 => Ok(ExitReason::MsrLoading),
            36 => Ok(ExitReason::Mwait),
            37 => Ok(ExitReason::MonitorTrapFlag),
            39 => Ok(ExitReason::Monitor),
            40 => Ok(ExitReason::Pause),
            41 => Ok(ExitReason::MachineCheck),
            43 => Ok(ExitReason::TprBelowThreshold),
            44 => Ok(ExitReason::ApicAccess),
            45 => Ok(ExitReason::VirtualizedEoi),
            46 => Ok(ExitReason::GdtrIdtrAccess),
            47 => Ok(ExitReason::LdtrTrAccess),
            48 => Ok(ExitReason::EptViolation),
            49 => Ok(ExitReason::EptMisconfig),
            50 => Ok(ExitReason::Invept),
            51 => Ok(ExitReason::Rdtscp),
            52 => Ok(ExitReason::VmxPreemptionTimer),
            53 => Ok(ExitReason::Invvpid),
            54 => Ok(ExitReason::Wbinvd),
            55 => Ok(ExitReason::Xsetbv),
            56 => Ok(ExitReason::ApicWrite),
            57 => Ok(ExitReason::Rdrand),
            58 => Ok(ExitReason::Invpcid),
            59 => Ok(ExitReason::Vmfunc),
            60 => Ok(ExitReason::Encls),
            61 => Ok(ExitReason::Rdseed),
            62 => Ok(ExitReason::PmlFull),
            63 => Ok(ExitReason::Xsaves),
            64 => Ok(ExitReason::Xrstors),
            _ => Err(UnknownExitReason(raw)),
        }
    }
}

/// No two reasons share a number.
pub proof fn code_is_injective(a: ExitReason, b: ExitReason)
    requires
        a.code() == b.code(),
    ensures
        a == b,
{
}

} // verus!
