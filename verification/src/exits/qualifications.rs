//! Decoded exit qualifications.

use vstd::prelude::*;
use vstd::std_specs::convert::FromSpecImpl;

verus! {

/// Direction of an I/O instruction.
#[derive(Debug, Clone, Copy, PartialEq, Eq, Structural)]
pub enum IoDirection {
    Out,
    In,
}

/// Exit qualification of an I/O instruction.
#[derive(Debug, Clone, Copy, PartialEq, Eq, Structural)]
pub struct IoQualification {
    /// Access size in bytes: 1, 2 or 4.
    pub size: u8,
    /// Direction of the access.
    pub direction: IoDirection,
    /// String instruction (INS/OUTS).
    pub string: bool,
    /// Port number.
    pub port: u16,
}

/// The fields of an I/O exit qualification: size in bits 2:0 (0, 1 and 3 stand
/// for 1, 2 and 4 bytes), direction in bit 3, string in bit 4, port in bits
/// 31:16.
pub open spec fn decode_io(q: u64) -> IoQualification {
    IoQualification {
        size: if q & 0x7 == 0 {
            1
        } else if q & 0x7 == 1 {
            2
        } else {
            4
        },
        direction: if q & 0x8 != 0 { IoDirection::In } else { IoDirection::Out },
        string: q & 0x10 != 0,
        port: ((q >> 16) & 0xFFFF) as u16,
    }
}

impl From<u64> for IoQualification {
    fn from(q: u64) -> (r: Self) {
        IoQualification {
            size: if q & 0x7 == 0 {
                1
            } else if q & 0x7 == 1 {
                2
            } else {
                4
            },
            direction: if q & 0x8 != 0 { IoDirection::In } else { IoDirection::Out },
            string: q & 0x10 != 0,
            port: ((q >> 16) & 0xFFFF) as u16,
        }
    }
}

impl FromSpecImpl<u64> for IoQualification {
    open spec fn obeys_from_spec() -> bool {
        true
    }

    open spec fn from_spec(q: u64) -> Self {
        decode_io(q)
    }
}

/// Exit qualification of a control-register access.
#[derive(Debug, Clone, Copy, PartialEq, Eq, Structural)]
pub struct CrAccessQualification {
    /// Number of the control register.
    pub cr: u8,
    /// 0 for MOV to the register, 1 for MOV from it; CLTS and LMSW above.
    pub access: u8,
    /// Index of the general-purpose register.
    pub register: u8,
}

/// The fields of a control-register exit qualification: number in bits 3:0,
/// access in bits 5:4, general-purpose register in bits 11:8.
pub open spec fn decode_cr(q: u64) -> CrAccessQualification {
    CrAccessQualification {
        cr: (q & 0xF) as u8,
        access: ((q >> 4) & 0x3) as u8,
        register: ((q >> 8) & 0xF) as u8,
    }
}

impl From<u64> for CrAccessQualification {
    fn from(q: u64) -> (r: Self) {
        CrAccessQualification {
            cr: (q & 0xF) as u8,
            access: ((q >> 4) & 0x3) as u8,
            register: ((q >> 8) & 0xF) as u8,
        }
    }
}

impl FromSpecImpl<u64> for CrAccessQualification {
    open spec fn obeys_from_spec() -> bool {
        true
    }

    open spec fn from_spec(q: u64) -> Self {
        decode_cr(q)
    }
}

/// Exit qualification of an EPT violation.
#[derive(Debug, Clone, Copy, PartialEq, Eq, Structural)]
pub struct EptViolationQualification {
    /// The access was a data read.
    pub read: bool,
    /// The access was a data write.
    pub write: bool,
    /// The access was an instruction fetch.
    pub execute: bool,
    /// The page was readable.
    pub readable: bool,
    /// The page was writable.
    pub writable: bool,
    /// The page was executable.
    pub executable: bool,
    /// The guest linear address is valid.
    pub guest_linear_valid: bool,
    /// The access was asynchronous to instruction execution.
    pub asynchronous: bool,
}

/// The fields of an EPT-violation exit qualification.
pub open spec fn decode_ept(q: u64) -> EptViolationQualification {
    EptViolationQualification {
        read: q & 0x1 != 0,
        write: q & 0x2 != 0,
        execute: q & 0x4 != 0,
        readable: q & 0x8 != 0,
        writable: q & 0x10 != 0,
        executable: q & 0x20 != 0,
        guest_linear_valid: q & 0x80 != 0,
        asynchronous: q & 0x1_0000 != 0,
    }
}

impl From<u64> for EptViolationQualification {
    fn from(q: u64) -> (r: Self) {
        EptViolationQualification {
            read: q & 0x1 != 0,
            write: q & 0x2 != 0,
            execute: q & 0x4 != 0,
            readable: q & 0x8 != 0,
            writable: q & 0x10 != 0,
            executable: q & 0x20 != 0,
            guest_linear_valid: q & 0x80 != 0,
            asynchronous: q & 0x1_0000 != 0,
        }
    }
}

impl FromSpecImpl<u64> for EptViolationQualification {
    open spec fn obeys_from_spec() -> bool {
        true
    }

    open spec fn from_spec(q: u64) -> Self {
        decode_ept(q)
    }
}

/// Operand size of RDRAND/RDSEED.
#[derive(Debug, Clone, Copy, PartialEq, Eq, Structural)]
pub enum RdrandOperandSize {
    Size16,
    Size32,
    Size64,
}

/// Instruction information of an RDRAND/RDSEED exit.
#[derive(Debug, Clone, Copy, PartialEq, Eq, Structural)]
pub struct RdrandInstructionInfo {
    /// Destination register, 0 (RAX) to 15 (R15).
    pub dest_reg: u8,
    /// Operand size.
    pub operand_size: RdrandOperandSize,
}

/// The fields of RDRAND/RDSEED instruction information: destination in bits
/// 6:3, operand size in bits 12:11.
pub open spec fn decode_rdrand(info: u32) -> RdrandInstructionInfo {
    let size = (info >> 11) & 0x3;
    RdrandInstructionInfo {
        dest_reg: ((info >> 3) & 0xF) as u8,
        operand_size: if size == 0 {
            RdrandOperandSize::Size16
        } else if size == 1 {
            RdrandOperandSize::Size32
        } else {
            RdrandOperandSize::Size64
        },
    }
}

impl From<u32> for RdrandInstructionInfo {
    fn from(info: u32) -> (r: Self) {
        let size: u32 = (info >> 11) & 0x3;
        RdrandInstructionInfo {
            dest_reg: ((info >> 3) & 0xF) as u8,
            operand_size: if size == 0 {
                RdrandOperandSize::Size16
            } else if size == 1 {
                RdrandOperandSize::Size32
            } else {
                RdrandOperandSize::Size64
            },
        }
    }
}

impl FromSpecImpl<u32> for RdrandInstructionInfo {
    open spec fn obeys_from_spec() -> bool {
        true
    }

    open spec fn from_spec(info: u32) -> Self {
        decode_rdrand(info)
    }
}

/// An event to inject on VM entry.
#[derive(Debug, Clone, Copy, PartialEq, Eq, Structural)]
pub struct InterruptionInfo {
    /// Interrupt or exception vector.
    pub vector: u8,
    /// Interruption type (three bits).
    pub interruption_type: u8,
    /// An error code is delivered.
    pub deliver_error_code: bool,
}

impl InterruptionInfo {
    /// The VM-entry interruption-information field: vector in bits 7:0, type in
    /// bits 10:8, error-code delivery in bit 11, valid in bit 31.
    pub open spec fn spec_encode(self) -> u32 {
        (self.vector as u32) | (((self.interruption_type & 0x7) as u32) << 8) | (if
        self.deliver_error_code {
            0x800u32
        } else {
            0u32
        }) | 0x8000_0000u32
    }

    /// The field's value.
    pub fn encode(&self) -> (r: u32)
        ensures
            r == self.spec_encode(),
    {
        let error: u32 = if self.deliver_error_code { 0x800 } else { 0 };
        (self.vector as u32) | (((self.interruption_type & 0x7) as u32) << 8) | error | 0x8000_0000
    }
}

} // verus!
