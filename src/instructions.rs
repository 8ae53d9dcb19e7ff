use vstd::prelude::*;

use crate::condition_flags::{even_parity, parity, ConditionFlags};
use crate::memory::{Memory, MemoryState};
use crate::registers::RegisterPair;

verus! {

/// The flags that one instruction defines. A flag left at `None` keeps its
/// previous value when the status is applied.
#[derive(Debug, Clone, Copy, PartialEq, Eq, Structural)]
pub struct ConditionFlagsStatus {
    pub zero: Option<bool>,
    pub sign: Option<bool>,
    pub parity: Option<bool>,
    pub carry: Option<bool>,
}

/// `update` when the status defines the flag, `previous` otherwise.
pub open spec fn updated(update: Option<bool>, previous: bool) -> bool {
    match update {
        Some(b) => b,
        None => previous,
    }
}

/// The status that sets Z, S and P from `v` and does not define C.
pub open spec fn zsp_status(v: u8) -> ConditionFlagsStatus {
    ConditionFlagsStatus {
        zero: Some(v == 0),
        sign: Some(v >= 0x80),
        parity: Some(even_parity(v)),
        carry: None,
    }
}

impl ConditionFlagsStatus {
    /// A status that defines no flag.
    pub fn new() -> (r: Self)
        ensures
            r.zero is None && r.sign is None && r.parity is None && r.carry is None,
    {
        Self { zero: None, sign: None, parity: None, carry: None }
    }

    pub open spec fn applied_to(self, f: ConditionFlags) -> ConditionFlags {
        ConditionFlags {
            zero: updated(self.zero, f.zero),
            sign: updated(self.sign, f.sign),
            parity: updated(self.parity, f.parity),
            carry: updated(self.carry, f.carry),
        }
    }

    /// Writes the defined flags into `flags` and leaves the others alone.
    pub fn apply(&self, flags: &mut ConditionFlags)
        ensures
            *final(flags) == self.applied_to(*old(flags)),
    {
        if let Some(b) = self.zero {
            flags.zero = b;
        }
        if let Some(b) = self.sign {
            flags.sign = b;
        }
        if let Some(b) = self.parity {
            flags.parity = b;
        }
        if let Some(b) = self.carry {
            flags.carry = b;
        }
    }
}

/// `STAX`: stores the accumulator at the address held in `register`.
pub fn stax(register: &RegisterPair, accumulator: u8, memory: &mut Memory)
    ensures
        final(memory)@ == (MemoryState {
            ram: old(memory)@.ram.update(register.value() as int, accumulator),
            ..old(memory)@
        }),
{
    let addr = register.get_pair();
    let _ = memory.write_byte(addr, accumulator);
}

/// `INX`: increments a register pair, wrapping from 0xFFFF to 0.
pub fn inx(register: &mut RegisterPair)
    ensures
        *final(register) == RegisterPair::from_word(((old(register).value() + 1) % 0x10000) as u16),
{
    let w = register.get_pair();
    let next: u16 = if w == 0xFFFF {
        0
    } else {
        w + 1
    };
    register.set_pair(next);
}

/// `DCX`: decrements a register pair, wrapping from 0 to 0xFFFF.
pub fn dcx(register: &mut RegisterPair)
    ensures
        *final(register) == RegisterPair::from_word(((old(register).value() - 1) % 0x10000) as u16),
{
    let w = register.get_pair();
    let next: u16 = if w == 0 {
        0xFFFF
    } else {
        w - 1
    };
    register.set_pair(next);
}

/// `INR`: increments a byte, wrapping from 0xFF to 0, and gives the flags it
/// sets: Z, S and P of the result. C is not touched.
pub fn inr(register: &mut u8) -> (r: ConditionFlagsStatus)
    ensures
        *final(register) == ((*old(register) + 1) % 0x100) as u8,
        r == zsp_status(*final(register)),
{
    *register = if *register == 0xFF {
        0
    } else {
        *register + 1
    };
    let v = *register;
    ConditionFlagsStatus { zero: Some(v == 0), sign: Some(v >= 0x80), parity: Some(parity(v)), carry: None }
}

/// `DCR`: decrements a byte, wrapping from 0 to 0xFF, and gives the flags it
/// sets: Z, S and P of the result. C is not touched.
pub fn dcr(register: &mut u8) -> (r: ConditionFlagsStatus)
    ensures
        *final(register) == ((*old(register) - 1) % 0x100) as u8,
        r == zsp_status(*final(register)),
{
    *register = if *register == 0 {
        0xFF
    } else {
        *register - 1
    };
    let v = *register;
    ConditionFlagsStatus { zero: Some(v == 0), sign: Some(v >= 0x80), parity: Some(parity(v)), carry: None }
}

} // verus!
