use vstd::prelude::*;

use crate::condition_flags::{even_parity, ConditionFlags};
use crate::core_error::CoreError;
use crate::io::Inputs;
use crate::memory::{
    fetched_byte, fetched_word, popped, pushed, read_word, store_word, written_word, MemoryState,
};
use crate::registers::{high_byte, low_byte, RegisterPair, Registers};
use crate::shift_register::{shift_in, shift_out, with_offset, ShiftState};

verus! {

/// The whole machine state as mathematical values.
pub struct CpuState {
    pub mem: MemoryState,
    pub regs: Registers,
    pub flags: ConditionFlags,
    pub shifter: ShiftState,
    pub interrupt_enable: bool,
    pub pending: Option<u8>,
    pub halted: bool,
    pub input: Inputs,
}

/// What executing one instruction yields: the next state and the machine
/// cycles it took, or the error that stopped it.
pub type Outcome = Result<(CpuState, u32), CoreError>;

pub open spec fn hl(s: CpuState) -> u16 {
    s.regs.hl_reg.value()
}

pub open spec fn with_mem(s: CpuState, m: MemoryState) -> CpuState {
    CpuState { mem: m, ..s }
}

pub open spec fn with_pc(s: CpuState, pc: u16) -> CpuState {
    CpuState { mem: MemoryState { pc: pc, ..s.mem }, ..s }
}

pub open spec fn with_a(s: CpuState, v: u8) -> CpuState {
    CpuState { regs: Registers { a_reg: v, ..s.regs }, ..s }
}

pub open spec fn with_flags(s: CpuState, f: ConditionFlags) -> CpuState {
    CpuState { flags: f, ..s }
}

/// The 8-bit operand named by a 3-bit register code: B, C, D, E, H, L, the
/// byte at HL (M), A.
pub open spec fn reg(s: CpuState, r: u8) -> u8 {
    if r == 0 {
        s.regs.bc_reg.high
    } else if r == 1 {
        s.regs.bc_reg.low
    } else if r == 2 {
        s.regs.de_reg.high
    } else if r == 3 {
        s.regs.de_reg.low
    } else if r == 4 {
        s.regs.hl_reg.high
    } else if r == 5 {
        s.regs.hl_reg.low
    } else if r == 6 {
        s.mem.ram[hl(s) as int]
    } else {
        s.regs.a_reg
    }
}

/// The state with the operand named by register code `r` set to `v`.
pub open spec fn with_reg(s: CpuState, r: u8, v: u8) -> CpuState {
    let g = s.regs;
    if r == 0 {
        CpuState { regs: Registers { bc_reg: RegisterPair { high: v, ..g.bc_reg }, ..g }, ..s }
    } else if r == 1 {
        CpuState { regs: Registers { bc_reg: RegisterPair { low: v, ..g.bc_reg }, ..g }, ..s }
    } else if r == 2 {
        CpuState { regs: Registers { de_reg: RegisterPair { high: v, ..g.de_reg }, ..g }, ..s }
    } else if r == 3 {
        CpuState { regs: Registers { de_reg: RegisterPair { low: v, ..g.de_reg }, ..g }, ..s }
    } else if r == 4 {
        CpuState { regs: Registers { hl_reg: RegisterPair { high: v, ..g.hl_reg }, ..g }, ..s }
    } else if r == 5 {
        CpuState { regs: Registers { hl_reg: RegisterPair { low: v, ..g.hl_reg }, ..g }, ..s }
    } else if r == 6 {
        with_mem(s, MemoryState { ram: s.mem.ram.update(hl(s) as int, v), ..s.mem })
    } else {
        with_a(s, v)
    }
}

/// The 16-bit register named by a pair code: BC, DE, HL, SP.
pub open spec fn pair(s: CpuState, rp: u8) -> u16 {
    if rp == 0 {
        s.regs.bc_reg.value()
    } else if rp == 1 {
        s.regs.de_reg.value()
    } else if rp == 2 {
        s.regs.hl_reg.value()
    } else {
        s.mem.sp
    }
}

/// The state with the 16-bit register named by pair code `rp` set to `w`.
pub open spec fn with_pair(s: CpuState, rp: u8, w: u16) -> CpuState {
    if rp == 0 {
        CpuState { regs: Registers { bc_reg: RegisterPair::from_word(w), ..s.regs }, ..s }
    } else if rp == 1 {
        CpuState { regs: Registers { de_reg: RegisterPair::from_word(w), ..s.regs }, ..s }
    } else if rp == 2 {
        CpuState { regs: Registers { hl_reg: RegisterPair::from_word(w), ..s.regs }, ..s }
    } else {
        with_mem(s, MemoryState { sp: w, ..s.mem })
    }
}

/// The flags with Z, S and P describing `v`, and C as it was.
pub open spec fn zsp(f: ConditionFlags, v: u8) -> ConditionFlags {
    ConditionFlags { zero: v == 0, sign: v >= 0x80, parity: even_parity(v), ..f }
}

/// The condition selected by a 3-bit code: NZ, Z, NC, C, PO, PE, P, M.
pub open spec fn condition(f: ConditionFlags, cc: u8) -> bool {
    if cc == 0 {
        !f.zero
    } else if cc == 1 {
        f.zero
    } else if cc == 2 {
        !f.carry
    } else if cc == 3 {
        f.carry
    } else if cc == 4 {
        !f.parity
    } else if cc == 5 {
        f.parity
    } else if cc == 6 {
        !f.sign
    } else {
        f.sign
    }
}

/// `a + v + c` in eight bits, and whether it carried out of bit 7.
pub open spec fn add_bytes(a: u8, v: u8, c: int) -> (u8, bool) {
    let sum = a + v + c;
    if sum > 0xFF {
        ((sum - 0x100) as u8, true)
    } else {
        (sum as u8, false)
    }
}

/// `a - v - c` in eight bits, and whether it borrowed.
pub open spec fn sub_bytes(a: u8, v: u8, c: int) -> (u8, bool) {
    let diff = a - v - c;
    if diff < 0 {
        ((diff + 0x100) as u8, true)
    } else {
        (diff as u8, false)
    }
}

/// Result and carry of the accumulator operation with 3-bit code `op`:
/// ADD, ADC, SUB, SBB, ANA, XRA, ORA, CMP.
pub open spec fn alu_value(op: u8, a: u8, v: u8, carry: bool) -> (u8, bool) {
    let c: int = if carry {
        1
    } else {
        0
    };
    if op == 0 {
        add_bytes(a, v, 0)
    } else if op == 1 {
        add_bytes(a, v, c)
    } else if op == 2 || op == 7 {
        sub_bytes(a, v, 0)
    } else if op == 3 {
        sub_bytes(a, v, c)
    } else if op == 4 {
        (a & v, false)
    } else if op == 5 {
        (a ^ v, false)
    } else {
        (a | v, false)
    }
}

/// The state after accumulator operation `op` with operand `v`: all four
/// flags describe the result; CMP keeps A.
pub open spec fn alu(s: CpuState, op: u8, v: u8) -> CpuState {
    let (r, c) = alu_value(op, s.regs.a_reg, v, s.flags.carry);
    let f = ConditionFlags { carry: c, ..zsp(s.flags, r) };
    if op == 7 {
        with_flags(s, f)
    } else {
        with_flags(with_a(s, r), f)
    }
}

/// Decimal adjustment of `a` after a BCD addition, and the carry after it.
pub open spec fn daa_value(a: u8, carry: bool) -> (u8, bool) {
    let t: int = if a % 16 > 9 {
        a + 6
    } else {
        a as int
    };
    let u: int = if t / 16 > 9 || carry {
        t + 0x60
    } else {
        t
    };
    ((u % 0x100) as u8, carry || u > 0xFF)
}

/// Accumulator result and carry of the rotate and flag instructions of
/// column 7: RLC, RRC, RAL, RAR, DAA, CMA, STC, CMC.
pub open spec fn accumulator_value(row: u8, a: u8, carry: bool) -> (u8, bool) {
    let c: int = if carry {
        1
    } else {
        0
    };
    if row == 0 {
        (((a % 0x80) * 2 + a / 0x80) as u8, a >= 0x80)
    } else if row == 1 {
        ((a / 2 + (a % 2) * 0x80) as u8, a % 2 == 1)
    } else if row == 2 {
        (((a % 0x80) * 2 + c) as u8, a >= 0x80)
    } else if row == 3 {
        ((a / 2 + c * 0x80) as u8, a % 2 == 1)
    } else if row == 4 {
        daa_value(a, carry)
    } else if row == 5 {
        (!a, carry)
    } else if row == 6 {
        (a, true)
    } else {
        (a, !carry)
    }
}

/// Rotates, DAA and the carry instructions; DAA also sets Z, S and P.
pub open spec fn accumulator_op(s: CpuState, row: u8) -> CpuState {
    let (r, c) = accumulator_value(row, s.regs.a_reg, s.flags.carry);
    let f = if row == 4 {
        zsp(s.flags, r)
    } else {
        s.flags
    };
    with_flags(with_a(s, r), ConditionFlags { carry: c, ..f })
}

/// The low byte of the program status word, in the 8080's layout
/// `S Z 0 AC 0 P 1 C` (AC is not modelled and reads 0).
pub open spec fn psw_byte(f: ConditionFlags) -> u8 {
    ((if f.sign {
        0x80int
    } else {
        0
    }) + (if f.zero {
        0x40int
    } else {
        0
    }) + (if f.parity {
        0x04int
    } else {
        0
    }) + 0x02 + (if f.carry {
        0x01int
    } else {
        0
    })) as u8
}

/// The flags that a program status word byte encodes.
pub open spec fn flags_of_psw(b: u8) -> ConditionFlags {
    ConditionFlags {
        zero: b & 0x40 != 0,
        sign: b & 0x80 != 0,
        parity: b & 0x04 != 0,
        carry: b & 0x01 != 0,
    }
}

/// The word that `PUSH` stores for push code `rp`: BC, DE, HL, PSW.
pub open spec fn push_value(s: CpuState, rp: u8) -> u16 {
    if rp == 3 {
        (s.regs.a_reg * 0x100 + psw_byte(s.flags)) as u16
    } else {
        pair(s, rp)
    }
}

/// The state after `POP` with push code `rp` took the word `w`.
pub open spec fn with_popped(s: CpuState, rp: u8, w: u16) -> CpuState {
    if rp == 3 {
        with_flags(with_a(s, high_byte(w)), flags_of_psw(low_byte(w)))
    } else {
        with_pair(s, rp, w)
    }
}

/// The byte that `IN` reads from `port`.
pub open spec fn port_in(s: CpuState, port: u8) -> u8 {
    if port == 1 {
        s.input.port1
    } else if port == 2 {
        s.input.port2
    } else if port == 3 {
        shift_out(s.shifter)
    } else {
        0
    }
}

/// The state after `OUT` wrote the accumulator to `port`.
pub open spec fn port_out(s: CpuState, port: u8) -> CpuState {
    if port == 2 {
        CpuState { shifter: with_offset(s.shifter, s.regs.a_reg), ..s }
    } else if port == 4 {
        CpuState { shifter: shift_in(s.shifter, s.regs.a_reg), ..s }
    } else {
        s
    }
}

/// A call from state `s` to `target`: the program counter of `s` is pushed.
pub open spec fn call(s: CpuState, target: u16, cycles: u32) -> Outcome {
    match pushed(s.mem, s.mem.pc) {
        Ok(m) => Ok((with_pc(with_mem(s, m), target), cycles)),
        Err(e) => Err(e),
    }
}

/// A return: the program counter is popped.
pub open spec fn ret(s: CpuState, cycles: u32) -> Outcome {
    match popped(s.mem) {
        Ok((m, w)) => Ok((with_pc(with_mem(s, m), w), cycles)),
        Err(e) => Err(e),
    }
}

/// An instruction with an immediate byte: the byte is fetched, then `f` runs.
pub open spec fn with_byte(s: CpuState, f: spec_fn(CpuState, u8) -> Outcome) -> Outcome {
    match fetched_byte(s.mem) {
        Ok((m, b)) => f(with_mem(s, m), b),
        Err(e) => Err(e),
    }
}

/// An instruction with an immediate word: the word is fetched, then `f` runs.
pub open spec fn with_word(s: CpuState, f: spec_fn(CpuState, u16) -> Outcome) -> Outcome {
    match fetched_word(s.mem) {
        Ok((m, w)) => f(with_mem(s, m), w),
        Err(e) => Err(e),
    }
}

pub open spec fn undefined(op: u8) -> Outcome {
    Err(CoreError::OpcodeError { opcode: op })
}

/// Instructions `00 rrr ccc` other than the register moves.
pub open spec fn step_low(s: CpuState, op: u8, row: u8, col: u8) -> Outcome {
    let rp = row / 2;
    if col == 0 {
        if row == 0 {
            Ok((s, 1))
        } else {
            undefined(op)
        }
    } else if col == 1 {
        if row % 2 == 0 {
            with_word(s, |t: CpuState, w: u16| Ok((with_pair(t, rp, w), 3u32)))
        } else {
            let sum = hl(s) + pair(s, rp);
            let t = with_pair(s, 2, (sum % 0x10000) as u16);
            Ok((with_flags(t, ConditionFlags { carry: sum > 0xFFFF, ..s.flags }), 3))
        }
    } else if col == 2 {
        if row < 4 {
            let addr = pair(s, row / 2);
            if row % 2 == 0 {
                Ok((with_mem(s, MemoryState { ram: s.mem.ram.update(addr as int, s.regs.a_reg), ..s.mem }), 2))
            } else {
                Ok((with_a(s, s.mem.ram[addr as int]), 2))
            }
        } else if row == 4 {
            with_word(
                s,
                |t: CpuState, a: u16|
                    match written_word(t.mem, a, hl(t)) {
                        Ok(m) => Ok((with_mem(t, m), 5u32)),
                        Err(e) => Err(e),
                    },
            )
        } else if row == 5 {
            with_word(
                s,
                |t: CpuState, a: u16|
                    match read_word(t.mem, a) {
                        Ok(w) => Ok((with_pair(t, 2, w), 5u32)),
                        Err(e) => Err(e),
                    },
            )
        } else if row == 6 {
            with_word(
                s,
                |t: CpuState, a: u16|
                    Ok((with_mem(t, MemoryState { ram: t.mem.ram.update(a as int, t.regs.a_reg), ..t.mem }), 4u32)),
            )
        } else {
            with_word(s, |t: CpuState, a: u16| Ok((with_a(t, t.mem.ram[a as int]), 4u32)))
        }
    } else if col == 3 {
        let w = pair(s, rp);
        if row % 2 == 0 {
            Ok((with_pair(s, rp, ((w + 1) % 0x10000) as u16), 1))
        } else {
            Ok((with_pair(s, rp, ((w - 1) % 0x10000) as u16), 1))
        }
    } else if col == 4 || col == 5 {
        let v = reg(s, row);
        let r = if col == 4 {
            ((v + 1) % 0x100) as u8
        } else {
            ((v - 1) % 0x100) as u8
        };
        Ok((with_flags(with_reg(s, row, r), zsp(s.flags, r)), if row == 6 { 3 } else { 1 }))
    } else if col == 6 {
        with_byte(s, |t: CpuState, b: u8| Ok((with_reg(t, row, b), if row == 6 { 3u32 } else { 2u32 })))
    } else {
        Ok((accumulator_op(s, row), 1))
    }
}

/// Instructions `11 rrr ccc`.
pub open spec fn step_high(s: CpuState, op: u8, row: u8, col: u8) -> Outcome {
    let rp = row / 2;
    if col == 0 {
        if condition(s.flags, row) {
            ret(s, 3)
        } else {
            Ok((s, 1))
        }
    } else if col == 1 {
        if row % 2 == 0 {
            match popped(s.mem) {
                Ok((m, w)) => Ok((with_popped(with_mem(s, m), rp, w), 3)),
                Err(e) => Err(e),
            }
        } else if row == 1 {
            ret(s, 3)
        } else if row == 5 {
            Ok((with_pc(s, hl(s)), 1))
        } else if row == 7 {
            Ok((with_mem(s, MemoryState { sp: hl(s), ..s.mem }), 1))
        } else {
            undefined(op)
        }
    } else if col == 2 {
        with_word(
            s,
            |t: CpuState, a: u16|
                Ok((
                    if condition(t.flags, row) {
                        with_pc(t, a)
                    } else {
                        t
                    },
                    3u32,
                )),
        )
    } else if col == 3 {
        if row == 0 {
            with_word(s, |t: CpuState, a: u16| Ok((with_pc(t, a), 3u32)))
        } else if row == 2 {
            with_byte(s, |t: CpuState, p: u8| Ok((port_out(t, p), 3u32)))
        } else if row == 3 {
            with_byte(s, |t: CpuState, p: u8| Ok((with_a(t, port_in(t, p)), 3u32)))
        } else if row == 4 {
            match read_word(s.mem, s.mem.sp) {
                Ok(w) => Ok(
                    (
                        with_pair(
                            with_mem(s, MemoryState { ram: store_word(s.mem.ram, s.mem.sp as int, hl(s)), ..s.mem }),
                            2,
                            w,
                        ),
                        5,
                    ),
                ),
                Err(e) => Err(e),
            }
        } else if row == 5 {
            Ok((with_pair(with_pair(s, 1, hl(s)), 2, s.regs.de_reg.value()), 1))
        } else if row == 6 {
            Ok((CpuState { interrupt_enable: false, ..s }, 1))
        } else if row == 7 {
            Ok((CpuState { interrupt_enable: true, ..s }, 1))
        } else {
            undefined(op)
        }
    } else if col == 4 {
        with_word(
            s,
            |t: CpuState, a: u16|
                if condition(t.flags, row) {
                    call(t, a, 5)
                } else {
                    Ok((t, 3u32))
                },
        )
    } else if col == 5 {
        if row % 2 == 0 {
            match pushed(s.mem, push_value(s, rp)) {
                Ok(m) => Ok((with_mem(s, m), 3)),
                Err(e) => Err(e),
            }
        } else if row == 1 {
            with_word(s, |t: CpuState, a: u16| call(t, a, 5))
        } else {
            undefined(op)
        }
    } else if col == 6 {
        with_byte(s, |t: CpuState, b: u8| Ok((alu(t, row, b), 2u32)))
    } else {
        call(s, (row * 8) as u16, 3)
    }
}

/// Executing opcode `op` in state `s`, whose program counter already points
/// past the opcode byte.
pub open spec fn step(s: CpuState, op: u8) -> Outcome {
    let row = ((op / 8) % 8) as u8;
    let col = (op % 8) as u8;
    if op == 0x76 {
        if s.mem.pc == 0 {
            Err(CoreError::ProgramCounterOverflow)
        } else {
            Ok((CpuState { halted: true, ..with_pc(s, (s.mem.pc - 1) as u16) }, 1))
        }
    } else if 0x40 <= op < 0x80 {
        Ok((with_reg(s, row, reg(s, col)), if row == 6 || col == 6 { 2 } else { 1 }))
    } else if 0x80 <= op < 0xC0 {
        Ok((alu(s, row, reg(s, col)), if col == 6 { 2 } else { 1 }))
    } else if op < 0x40 {
        step_low(s, op, row, col)
    } else {
        step_high(s, op, row, col)
    }
}

/// The state of a freshly built processor: memory, registers and flags all
/// zero, interrupts disabled, nothing pending, running.
pub open spec fn reset_state() -> CpuState {
    CpuState {
        mem: MemoryState { ram: Seq::new(0x10000, |i: int| 0u8), pc: 0, sp: 0 },
        regs: Registers {
            a_reg: 0,
            bc_reg: RegisterPair { high: 0, low: 0 },
            de_reg: RegisterPair { high: 0, low: 0 },
            hl_reg: RegisterPair { high: 0, low: 0 },
        },
        flags: ConditionFlags { zero: false, sign: false, parity: false, carry: false },
        shifter: ShiftState { register: 0, offset: 0 },
        interrupt_enable: false,
        pending: None,
        halted: false,
        input: Inputs { port0: 0x0E, port1: 0x08, port2: 0x08 },
    }
}

/// The state after `interrupt(v)`: the vector is latched for the next tick
/// when interrupts are enabled and `v` names one of the eight vectors.
pub open spec fn interrupted(s: CpuState, v: u8) -> CpuState {
    if s.interrupt_enable && v < 8 {
        CpuState { pending: Some(v), ..s }
    } else {
        s
    }
}

/// Entering interrupt service for vector `v`: interrupts are disabled, the
/// processor leaves the halted state and `RST v` runs. Should that call fail,
/// the failure is dropped.
pub open spec fn serviced(s: CpuState, v: u8) -> (CpuState, u32) {
    let t = CpuState { pending: None, interrupt_enable: false, halted: false, ..s };
    match call(t, (v * 8) as u16, 3) {
        Ok(r) => r,
        Err(_) => (t, 3),
    }
}

/// One tick: a pending interrupt is served; a halted processor idles for one
/// cycle; otherwise the next opcode is fetched and executed.
pub open spec fn tick_outcome(s: CpuState) -> Outcome {
    match s.pending {
        Some(v) => Ok(serviced(s, v)),
        None => if s.halted {
            Ok((s, 1))
        } else {
            match fetched_byte(s.mem) {
                Ok((m, op)) => step(with_mem(s, m), op),
                Err(e) => Err(e),
            }
        },
    }
}

} // verus!

verus! {

/// The opcodes whose instruction defines at least one flag: the accumulator
/// operations, INR, DCR, DAD, the rotates, DAA, STC, CMC and POP PSW.
pub open spec fn defines_flags(op: u8) -> bool {
    ||| 0x80 <= op < 0xC0
    ||| op >= 0xC0 && op % 8 == 6
    ||| op < 0x40 && (op % 8 == 4 || op % 8 == 5)
    ||| op < 0x40 && op % 16 == 9
    ||| op < 0x40 && op % 8 == 7 && op != 0x2F
    ||| op == 0xF1
}

/// An instruction that defines no flag leaves all four flags as they were.
pub proof fn lemma_flags_kept(s: CpuState, op: u8)
    requires
        !defines_flags(op),
    ensures
        match step(s, op) {
            Ok((t, _)) => t.flags == s.flags,
            Err(_) => true,
        },
{
}

/// INR and DCR set Z, S and P from the byte they wrote and keep C.
pub proof fn lemma_increment_flags(s: CpuState, op: u8)
    requires
        s.mem.ram.len() == 0x10000,
        op < 0x40,
        op % 8 == 4 || op % 8 == 5,
    ensures
        match step(s, op) {
            Ok((t, _)) => {
                let r = reg(t, ((op / 8) % 8) as u8);
                &&& t.flags.zero == (r == 0)
                &&& t.flags.sign == (r >= 0x80)
                &&& t.flags.parity == even_parity(r)
                &&& t.flags.carry == s.flags.carry
            },
            Err(_) => false,
        },
{
    let row = ((op / 8) % 8) as u8;
    let col = (op % 8) as u8;
    let v = reg(s, row);
    let r = if col == 4 {
        ((v + 1) % 0x100) as u8
    } else {
        ((v - 1) % 0x100) as u8
    };
    let t = with_flags(with_reg(s, row, r), zsp(s.flags, r));
    assert(step(s, op) == Ok::<(CpuState, u32), CoreError>((t, if row == 6 { 3u32 } else { 1u32 })));
    if row == 6 {
        assert(hl(t) == hl(s));
    }
    assert(reg(t, row) == r);
}

/// The accumulator operations with a register or memory operand set all four
/// flags from their result alone: Z, S and P describe the 8-bit result (the
/// difference, for CMP) and C is its carry or borrow.
pub proof fn lemma_alu_flags(s: CpuState, op: u8)
    requires
        0x80 <= op < 0xC0,
    ensures
        match step(s, op) {
            Ok((t, _)) => {
                let (r, c) = alu_value(((op / 8) % 8) as u8, s.regs.a_reg, reg(s, (op % 8) as u8), s.flags.carry);
                &&& t.flags == (ConditionFlags { zero: r == 0, sign: r >= 0x80, parity: even_parity(r), carry: c })
                &&& t.regs.a_reg == if (op / 8) % 8 == 7 { s.regs.a_reg } else { r }
            },
            Err(_) => false,
        },
{
}

/// Complementing the accumulator and then incrementing it negates it: the
/// old and the new value add up to zero modulo 256.
pub proof fn lemma_complement_then_increment(s: CpuState)
    ensures
        match step(s, 0x2F) {
            Ok((t1, _)) => match step(t1, 0x3C) {
                Ok((t2, _)) => (s.regs.a_reg + t2.regs.a_reg) % 0x100 == 0,
                Err(_) => false,
            },
            Err(_) => false,
        },
{
    let a = s.regs.a_reg;
    let t1 = accumulator_op(s, 5);
    assert(step(s, 0x2F) == Ok::<(CpuState, u32), CoreError>((t1, 1)));
    assert(t1.regs.a_reg == !a);
    let r = ((t1.regs.a_reg + 1) % 0x100) as u8;
    let t2 = with_flags(with_reg(t1, 7, r), zsp(t1.flags, r));
    assert(step(t1, 0x3C) == Ok::<(CpuState, u32), CoreError>((t2, 1)));
    assert(!a == 0xFF - a) by (bit_vector);
}

/// Pushing the program status word and popping it again restores the
/// accumulator and all four flags.
pub proof fn lemma_psw_round_trip(s: CpuState)
    ensures
        with_popped(s, 3, push_value(s, 3)).regs == s.regs,
        with_popped(s, 3, push_value(s, 3)).flags == s.flags,
{
    let a = s.regs.a_reg;
    let b = psw_byte(s.flags);
    let w = push_value(s, 3);
    let x: u8 = if s.flags.sign { 1 } else { 0 };
    let y: u8 = if s.flags.zero { 1 } else { 0 };
    let u: u8 = if s.flags.parity { 1 } else { 0 };
    let v: u8 = if s.flags.carry { 1 } else { 0 };
    assert(b == (0x80 * x + 0x40 * y + 4 * u + 2 + v) as u8);
    assert((b & 0x80 != 0 <==> x == 1) && (b & 0x40 != 0 <==> y == 1) && (b & 0x04 != 0 <==> u
        == 1) && (b & 0x01 != 0 <==> v == 1)) by (bit_vector)
        requires
            b == (0x80 * x + 0x40 * y + 4 * u + 2 + v) as u8,
            x <= 1 && y <= 1 && u <= 1 && v <= 1,
    ;
    assert(high_byte(w) == a && low_byte(w) == b) by (bit_vector)
        requires
            w == (a * 0x100 + b) as u16,
    ;
}

} // verus!
