use vstd::prelude::*;

verus! {

pub const CARRY_FLAG: u32 = 1 << 0;
pub const PARITY_FLAG: u32 = 1 << 2;
pub const AUXILIARY_CARRY_FLAG: u32 = 1 << 4;
pub const ZERO_FLAG: u32 = 1 << 6;
pub const SIGN_FLAG: u32 = 1 << 7;
pub const TRAP_FLAG: u32 = 1 << 8;
pub const INTERRUPT_ENABLE_FLAG: u32 = 1 << 9;
pub const DIRECTION_FLAG: u32 = 1 << 10;
pub const OVERFLOW_FLAG: u32 = 1 << 11;
/// Two bits: the I/O privilege level.
pub const IO_PRIVILEGE_LEVEL: u32 = 3 << 12;
pub const NESTED_TASK_FLAG: u32 = 1 << 14;
pub const MODE_FLAG: u32 = 1 << 15;

/// Every bit that a flag names, with the two fixed bits 1 and 3.
pub const KNOWN_FLAGS: u32 = 0xffdf;

/// A decoded view of the CPU's flags word.
#[derive(Clone, Copy, Debug)]
pub struct CpuFlags(u32);

impl View for CpuFlags {
    type V = u32;

    closed spec fn view(&self) -> u32 {
        self.0
    }
}

impl CpuFlags {
    /// The flags of `bits`, or none when it holds a bit that no flag names.
    pub fn from_bits(bits: u32) -> (r: Option<Self>)
        ensures
            r is Some <==> bits & !KNOWN_FLAGS == 0,
            r matches Some(f) ==> f@ == bits,
    {
        if bits & !KNOWN_FLAGS == 0 {
            Some(CpuFlags(bits))
        } else {
            None
        }
    }

    pub fn bits(&self) -> (r: u32)
        ensures
            r == self@,
    {
        self.0
    }

    /// Whether every flag of `other` is set.
    pub fn contains(&self, other: u32) -> (r: bool)
        ensures
            r == (self@ & other == other),
    {
        self.0 & other == other
    }

    /// The two-bit I/O privilege level.
    pub fn io_privilege_level(&self) -> (r: u32)
        ensures
            r == (self@ >> 12u32) & 3,
            r < 4,
    {
        let w = self.0;
        assert((w >> 12u32) & 3u32 < 4u32) by (bit_vector);
        (w >> 12) & 3
    }
}

} // verus!
