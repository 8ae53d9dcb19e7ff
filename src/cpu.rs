use vstd::prelude::*;

use crate::condition_flags::{parity, ConditionFlags};
use crate::core_error::CoreError;
use crate::instruction_set::{
    accumulator_op, alu, call, condition, daa_value, interrupted, pair, push_value, reg,
    reset_state, ret, step, step_high, step_low, tick_outcome, with_pair, with_popped, with_reg,
    CpuState, Outcome,
};
use crate::instructions::{dcr, dcx, inr, inx, stax};
use crate::io::Inputs;
use crate::memory::{with_rom, Memory, MemoryState, ROM_SIZE};
use crate::registers::{lemma_split_join, lemma_word_of, Registers};
use crate::shift_register::ShiftRegister;

verus! {

/// Whether running `o` ended with result `r` in state `after`. After an error
/// the state is not described: the program is corrupt and the host stops.
pub open spec fn matches_outcome(o: Outcome, r: Result<u32, CoreError>, after: CpuState) -> bool {
    match o {
        Ok((t, c)) => r == Ok::<u32, CoreError>(c) && after == t,
        Err(e) => r == Err::<u32, CoreError>(e),
    }
}

/// An Intel 8080 wired as on the Space Invaders board.
pub struct CPU {
    memory: Memory,
    registers: Registers,
    flags: ConditionFlags,
    shifter: ShiftRegister,
    interrupt_enable: bool,
    pending_interrupt: Option<u8>,
    halted: bool,
    pub input: Inputs,
}

impl View for CPU {
    type V = CpuState;

    closed spec fn view(&self) -> CpuState {
        CpuState {
            mem: self.memory@,
            regs: self.registers,
            flags: self.flags,
            shifter: self.shifter@,
            interrupt_enable: self.interrupt_enable,
            pending: self.pending_interrupt,
            halted: self.halted,
            input: self.input,
        }
    }
}

impl CPU {
    pub fn new() -> (r: Self)
        ensures
            r@ == reset_state(),
    {
        Self {
            memory: Memory::new(),
            registers: Registers::new(),
            flags: ConditionFlags::new(),
            shifter: ShiftRegister::new(),
            interrupt_enable: false,
            pending_interrupt: None,
            halted: false,
            input: Inputs::new(),
        }
    }

    /// Copies a ROM image to address 0 and points the program counter there.
    pub fn load_rom(&mut self, buffer: &Vec<u8>) -> (r: Result<(), CoreError>)
        ensures
            r is Ok <==> buffer@.len() <= ROM_SIZE,
            r is Err ==> r == Err::<(), CoreError>(CoreError::RomSizeError) && final(self)@
                == old(self)@,
            r is Ok ==> final(self)@ == (CpuState {
                mem: MemoryState { ram: with_rom(old(self)@.mem.ram, 0, buffer@), pc: 0, ..old(self)@.mem },
                ..old(self)@
            }),
    {
        self.memory.load_rom(buffer, 0)
    }

    /// Runs one step: serves a latched interrupt, idles when halted, or
    /// fetches and executes the next instruction. Returns the machine cycles
    /// spent.
    pub fn tick(&mut self) -> (r: Result<u32, CoreError>)
        ensures
            matches_outcome(tick_outcome(old(self)@), r, final(self)@),
    {
        if let Some(v) = self.pending_interrupt {
            self.pending_interrupt = None;
            self.interrupt_enable = false;
            self.halted = false;
            let _ = self.call_to(v as u16 * 8, 3);
            return Ok(3);
        }
        if self.halted {
            return Ok(1);
        }
        let opcode = self.memory.fetch_byte()?;
        self.execute(opcode)
    }

    /// Latches interrupt vector `interrupt` (0 to 7) for the next tick, which
    /// then runs `RST interrupt`. Does nothing while interrupts are disabled;
    /// a later call before that tick replaces the vector.
    pub fn interrupt(&mut self, interrupt: u8)
        ensures
            final(self)@ == interrupted(old(self)@, interrupt),
    {
        if self.interrupt_enable && interrupt < 8 {
            self.pending_interrupt = Some(interrupt);
        }
    }

    /// Executes `opcode`; the program counter already points past it.
    pub fn execute(&mut self, opcode: u8) -> (r: Result<u32, CoreError>)
        ensures
            matches_outcome(step(old(self)@, opcode), r, final(self)@),
    {
        let row = (opcode / 8) % 8;
        let col = opcode % 8;
        if opcode == 0x76 {
            if self.memory.program_counter == 0 {
                return Err(CoreError::ProgramCounterOverflow);
            }
            self.memory.program_counter = self.memory.program_counter - 1;
            self.halted = true;
            Ok(1)
        } else if 0x40 <= opcode && opcode < 0x80 {
            let v = self.get_reg(col);
            self.set_reg(row, v);
            Ok(
                if row == 6 || col == 6 {
                    2
                } else {
                    1
                },
            )
        } else if 0x80 <= opcode && opcode < 0xC0 {
            let v = self.get_reg(col);
            self.alu(row, v);
            Ok(
                if col == 6 {
                    2
                } else {
                    1
                },
            )
        } else if opcode < 0x40 {
            self.execute_low(opcode, row, col)
        } else {
            self.execute_high(opcode, row, col)
        }
    }

    /// The accumulator and the register pairs.
    pub fn registers(&self) -> (r: Registers)
        ensures
            r == self@.regs,
    {
        self.registers
    }

    /// The condition flags.
    pub fn flags(&self) -> (r: ConditionFlags)
        ensures
            r == self@.flags,
    {
        self.flags
    }

    /// Memory with the program counter and the stack pointer, for the host to
    /// read video memory from.
    pub fn memory(&self) -> (r: &Memory)
        ensures
            r@ == self@.mem,
    {
        &self.memory
    }

    pub fn interrupt_enabled(&self) -> (r: bool)
        ensures
            r == self@.interrupt_enable,
    {
        self.interrupt_enable
    }

    pub fn is_halted(&self) -> (r: bool)
        ensures
            r == self@.halted,
    {
        self.halted
    }

    fn get_reg(&self, r: u8) -> (v: u8)
        requires
            r < 8,
        ensures
            v == reg(self@, r),
    {
        if r == 0 {
            self.registers.bc_reg.high
        } else if r == 1 {
            self.registers.bc_reg.low
        } else if r == 2 {
            self.registers.de_reg.high
        } else if r == 3 {
            self.registers.de_reg.low
        } else if r == 4 {
            self.registers.hl_reg.high
        } else if r == 5 {
            self.registers.hl_reg.low
        } else if r == 6 {
            self.memory.ram[self.registers.hl_reg.get_pair() as usize]
        } else {
            self.registers.a_reg
        }
    }

    fn set_reg(&mut self, r: u8, v: u8)
        requires
            r < 8,
        ensures
            final(self)@ == with_reg(old(self)@, r, v),
    {
        if r == 0 {
            self.registers.bc_reg.high = v;
        } else if r == 1 {
            self.registers.bc_reg.low = v;
        } else if r == 2 {
            self.registers.de_reg.high = v;
        } else if r == 3 {
            self.registers.de_reg.low = v;
        } else if r == 4 {
            self.registers.hl_reg.high = v;
        } else if r == 5 {
            self.registers.hl_reg.low = v;
        } else if r == 6 {
            let addr = self.registers.hl_reg.get_pair();
            let _ = self.memory.write_byte(addr, v);
        } else {
            self.registers.a_reg = v;
        }
    }

    fn get_rp(&self, rp: u8) -> (w: u16)
        ensures
            w == pair(self@, rp),
    {
        if rp == 0 {
            self.registers.bc_reg.get_pair()
        } else if rp == 1 {
            self.registers.de_reg.get_pair()
        } else if rp == 2 {
            self.registers.hl_reg.get_pair()
        } else {
            self.memory.stack_pointer
        }
    }

    fn set_rp(&mut self, rp: u8, w: u16)
        ensures
            final(self)@ == with_pair(old(self)@, rp, w),
    {
        if rp == 0 {
            self.registers.bc_reg.set_pair(w);
        } else if rp == 1 {
            self.registers.de_reg.set_pair(w);
        } else if rp == 2 {
            self.registers.hl_reg.set_pair(w);
        } else {
            self.memory.stack_pointer = w;
        }
    }

    /// Accumulator operation `op` (ADD, ADC, SUB, SBB, ANA, XRA, ORA, CMP)
    /// with operand `v`.
    fn alu(&mut self, op: u8, v: u8)
        ensures
            final(self)@ == alu(old(self)@, op, v),
    {
        let a = self.registers.a_reg;
        let c: u16 = if self.flags.carry {
            1
        } else {
            0
        };
        let (r, carry): (u8, bool) = if op == 0 || op == 1 {
            let sum: u16 = a as u16 + v as u16 + if op == 1 {
                c
            } else {
                0
            };
            if sum > 0xFF {
                ((sum - 0x100) as u8, true)
            } else {
                (sum as u8, false)
            }
        } else if op == 2 || op == 3 || op == 7 {
            let sub: u16 = v as u16 + if op == 3 {
                c
            } else {
                0
            };
            if (a as u16) < sub {
                ((a as u16 + 0x100 - sub) as u8, true)
            } else {
                ((a as u16 - sub) as u8, false)
            }
        } else if op == 4 {
            (a & v, false)
        } else if op == 5 {
            (a ^ v, false)
        } else {
            (a | v, false)
        };
        if op != 7 {
            self.registers.a_reg = r;
        }
        self.flags = ConditionFlags { zero: r == 0, sign: r >= 0x80, parity: parity(r), carry };
    }

    /// Rotates, DAA and the carry instructions (column 7 of the low quadrant).
    fn accumulator_op(&mut self, row: u8)
        ensures
            final(self)@ == accumulator_op(old(self)@, row),
    {
        let a = self.registers.a_reg;
        let c = self.flags.carry;
        let (r, carry): (u8, bool) = if row == 0 {
            ((a % 0x80) * 2 + a / 0x80, a >= 0x80)
        } else if row == 1 {
            (a / 2 + (a % 2) * 0x80, a % 2 == 1)
        } else if row == 2 {
            ((a % 0x80) * 2 + if c {
                1
            } else {
                0
            }, a >= 0x80)
        } else if row == 3 {
            (a / 2 + if c {
                0x80
            } else {
                0
            }, a % 2 == 1)
        } else if row == 4 {
            decimal_adjust(a, c)
        } else if row == 5 {
            (!a, c)
        } else if row == 6 {
            (a, true)
        } else {
            (a, !c)
        };
        self.registers.a_reg = r;
        if row == 4 {
            self.flags.zero = r == 0;
            self.flags.sign = r >= 0x80;
            self.flags.parity = parity(r);
        }
        self.flags.carry = carry;
    }

    /// Loads and stores of column 2: STAX, LDAX, SHLD, LHLD, STA, LDA.
    fn transfer(&mut self, op: u8, row: u8) -> (r: Result<u32, CoreError>)
        requires
            op < 0x40,
            row == (op / 8) % 8,
            op % 8 == 2,
        ensures
            matches_outcome(step_low(old(self)@, op, row, 2), r, final(self)@),
    {
        if row == 0 {
            stax(&self.registers.bc_reg, self.registers.a_reg, &mut self.memory);
            Ok(2)
        } else if row == 2 {
            stax(&self.registers.de_reg, self.registers.a_reg, &mut self.memory);
            Ok(2)
        } else if row == 1 || row == 3 {
            let addr = self.get_rp(row / 2);
            self.registers.a_reg = self.memory.ram[addr as usize];
            Ok(2)
        } else if row == 4 {
            let addr = self.memory.fetch_two_bytes()?;
            let h = self.registers.hl_reg.get_pair();
            self.memory.write_two_bytes(addr, h)?;
            Ok(5)
        } else if row == 5 {
            let addr = self.memory.fetch_two_bytes()?;
            let w = self.memory.read_two_bytes(addr)?;
            self.registers.hl_reg.set_pair(w);
            Ok(5)
        } else if row == 6 {
            let addr = self.memory.fetch_two_bytes()?;
            let _ = self.memory.write_byte(addr, self.registers.a_reg);
            Ok(4)
        } else {
            let addr = self.memory.fetch_two_bytes()?;
            self.registers.a_reg = self.memory.ram[addr as usize];
            Ok(4)
        }
    }

    /// LXI and DAD (column 1 of the low quadrant).
    fn load_or_add_pair(&mut self, op: u8, row: u8) -> (r: Result<u32, CoreError>)
        requires
            op < 0x40,
            row == (op / 8) % 8,
            op % 8 == 1,
        ensures
            matches_outcome(step_low(old(self)@, op, row, 1), r, final(self)@),
    {
        let rp = row / 2;
        if row % 2 == 0 {
            let w = self.memory.fetch_two_bytes()?;
            self.set_rp(rp, w);
            Ok(3)
        } else {
            let sum: u32 = self.registers.hl_reg.get_pair() as u32 + self.get_rp(rp) as u32;
            let carry = sum > 0xFFFF;
            let w: u16 = if carry {
                (sum - 0x10000) as u16
            } else {
                sum as u16
            };
            self.registers.hl_reg.set_pair(w);
            self.flags.carry = carry;
            Ok(3)
        }
    }

    /// INX and DCX (column 3 of the low quadrant).
    fn step_pair(&mut self, op: u8, row: u8) -> (r: Result<u32, CoreError>)
        requires
            op < 0x40,
            row == (op / 8) % 8,
            op % 8 == 3,
        ensures
            matches_outcome(step_low(old(self)@, op, row, 3), r, final(self)@),
    {
        let rp = row / 2;
        if row % 2 == 0 {
            if rp == 0 {
                inx(&mut self.registers.bc_reg);
            } else if rp == 1 {
                inx(&mut self.registers.de_reg);
            } else if rp == 2 {
                inx(&mut self.registers.hl_reg);
            } else {
                self.memory.stack_pointer = if self.memory.stack_pointer == 0xFFFF {
                    0
                } else {
                    self.memory.stack_pointer + 1
                };
            }
        } else {
            if rp == 0 {
                dcx(&mut self.registers.bc_reg);
            } else if rp == 1 {
                dcx(&mut self.registers.de_reg);
            } else if rp == 2 {
                dcx(&mut self.registers.hl_reg);
            } else {
                self.memory.stack_pointer = if self.memory.stack_pointer == 0 {
                    0xFFFF
                } else {
                    self.memory.stack_pointer - 1
                };
            }
        }
        Ok(1)
    }

    /// INR and DCR (columns 4 and 5 of the low quadrant).
    fn step_reg(&mut self, op: u8, row: u8, col: u8) -> (r: Result<u32, CoreError>)
        requires
            op < 0x40,
            row == (op / 8) % 8,
            col == op % 8,
            col == 4 || col == 5,
        ensures
            matches_outcome(step_low(old(self)@, op, row, col), r, final(self)@),
    {
        let mut v = self.get_reg(row);
        let status = if col == 4 {
            inr(&mut v)
        } else {
            dcr(&mut v)
        };
        self.set_reg(row, v);
        status.apply(&mut self.flags);
        Ok(
            if row == 6 {
                3
            } else {
                1
            },
        )
    }

    /// MVI (column 6 of the low quadrant).
    fn move_immediate(&mut self, op: u8, row: u8) -> (r: Result<u32, CoreError>)
        requires
            op < 0x40,
            row == (op / 8) % 8,
            op % 8 == 6,
        ensures
            matches_outcome(step_low(old(self)@, op, row, 6), r, final(self)@),
    {
        let b = self.memory.fetch_byte()?;
        self.set_reg(row, b);
        Ok(
            if row == 6 {
                3
            } else {
                2
            },
        )
    }

    /// Instructions `00 rrr ccc`.
    fn execute_low(&mut self, op: u8, row: u8, col: u8) -> (r: Result<u32, CoreError>)
        requires
            op < 0x40,
            row == (op / 8) % 8,
            col == op % 8,
        ensures
            matches_outcome(step_low(old(self)@, op, row, col), r, final(self)@),
    {
        if col == 0 {
            if row == 0 {
                Ok(1)
            } else {
                Err(CoreError::OpcodeError { opcode: op })
            }
        } else if col == 1 {
            self.load_or_add_pair(op, row)
        } else if col == 2 {
            self.transfer(op, row)
        } else if col == 3 {
            self.step_pair(op, row)
        } else if col == 4 || col == 5 {
            self.step_reg(op, row, col)
        } else if col == 6 {
            self.move_immediate(op, row)
        } else {
            self.accumulator_op(row);
            Ok(1)
        }
    }

    fn condition_holds(&self, cc: u8) -> (r: bool)
        ensures
            r == condition(self@.flags, cc),
    {
        if cc == 0 {
            !self.flags.zero
        } else if cc == 1 {
            self.flags.zero
        } else if cc == 2 {
            !self.flags.carry
        } else if cc == 3 {
            self.flags.carry
        } else if cc == 4 {
            !self.flags.parity
        } else if cc == 5 {
            self.flags.parity
        } else if cc == 6 {
            !self.flags.sign
        } else {
            self.flags.sign
        }
    }

    /// Pushes the program counter and jumps to `target`. A failed push
    /// changes nothing.
    fn call_to(&mut self, target: u16, cycles: u32) -> (r: Result<u32, CoreError>)
        ensures
            match call(old(self)@, target, cycles) {
                Ok((t, c)) => r == Ok::<u32, CoreError>(c) && final(self)@ == t,
                Err(e) => r == Err::<u32, CoreError>(e) && final(self)@ == old(self)@,
            },
    {
        let pc = self.memory.program_counter;
        self.memory.push_stack(pc)?;
        self.memory.program_counter = target;
        Ok(cycles)
    }

    /// Pops the program counter.
    fn return_from(&mut self, cycles: u32) -> (r: Result<u32, CoreError>)
        ensures
            matches_outcome(ret(old(self)@, cycles), r, final(self)@),
    {
        let pc = self.memory.pop_stack()?;
        self.memory.program_counter = pc;
        Ok(cycles)
    }

    /// The program status word: the accumulator in the high byte, the flags
    /// in the low byte as `S Z 0 AC 0 P 1 C`.
    fn generate_psw(&self) -> (r: u16)
        ensures
            r == push_value(self@, 3),
    {
        let low: u8 = (if self.flags.sign {
            0x80u8
        } else {
            0
        }) + (if self.flags.zero {
            0x40u8
        } else {
            0
        }) + (if self.flags.parity {
            0x04u8
        } else {
            0
        }) + 0x02 + (if self.flags.carry {
            0x01u8
        } else {
            0
        });
        (self.registers.a_reg as u16) * 0x100 + low as u16
    }

    /// Takes the accumulator and the flags back from a program status word.
    fn restore_psw(&mut self, psw: u16)
        ensures
            final(self)@ == with_popped(old(self)@, 3, psw),
    {
        self.registers.a_reg = (psw >> 8) as u8;
        let low = (psw & 0xFF) as u8;
        self.flags = ConditionFlags {
            zero: low & 0x40 != 0,
            sign: low & 0x80 != 0,
            parity: low & 0x04 != 0,
            carry: low & 0x01 != 0,
        };
    }

    /// POP, RET, PCHL and SPHL (column 1 of the high quadrant).
    fn pop_group(&mut self, op: u8, row: u8) -> (r: Result<u32, CoreError>)
        requires
            op >= 0xC0,
            row == (op / 8) % 8,
            op % 8 == 1,
        ensures
            matches_outcome(step_high(old(self)@, op, row, 1), r, final(self)@),
    {
        if row % 2 == 0 {
            let w = self.memory.pop_stack()?;
            if row == 6 {
                self.restore_psw(w);
            } else {
                self.set_rp(row / 2, w);
            }
            Ok(3)
        } else if row == 1 {
            self.return_from(3)
        } else if row == 5 {
            self.memory.program_counter = self.registers.hl_reg.get_pair();
            Ok(1)
        } else if row == 7 {
            self.memory.stack_pointer = self.registers.hl_reg.get_pair();
            Ok(1)
        } else {
            Err(CoreError::OpcodeError { opcode: op })
        }
    }

    /// JMP, OUT, IN, XTHL, XCHG, DI and EI (column 3 of the high quadrant).
    fn control_group(&mut self, op: u8, row: u8) -> (r: Result<u32, CoreError>)
        requires
            op >= 0xC0,
            row == (op / 8) % 8,
            op % 8 == 3,
        ensures
            matches_outcome(step_high(old(self)@, op, row, 3), r, final(self)@),
    {
        if row == 0 {
            let a = self.memory.fetch_two_bytes()?;
            self.memory.program_counter = a;
            Ok(3)
        } else if row == 2 {
            let port = self.memory.fetch_byte()?;
            let data = self.registers.a_reg;
            if port == 2 {
                self.shifter.set_offset(data);
            } else if port == 4 {
                self.shifter.load(data);
            }
            Ok(3)
        } else if row == 3 {
            let port = self.memory.fetch_byte()?;
            self.registers.a_reg = if port == 1 {
                self.input.port1
            } else if port == 2 {
                self.input.port2
            } else if port == 3 {
                self.shifter.get_shift()
            } else {
                0
            };
            Ok(3)
        } else if row == 4 {
            let sp = self.memory.stack_pointer;
            let w = self.memory.read_two_bytes(sp)?;
            let h = self.registers.hl_reg.get_pair();
            let _ = self.memory.write_two_bytes(sp, h);
            self.registers.hl_reg.set_pair(w);
            Ok(5)
        } else if row == 5 {
            let d = self.registers.de_reg;
            self.registers.de_reg = self.registers.hl_reg;
            self.registers.hl_reg = d;
            proof {
                lemma_split_join(d.value());
                lemma_split_join(old(self)@.regs.hl_reg.value());
                lemma_word_of(d.high, d.low);
                lemma_word_of(old(self)@.regs.hl_reg.high, old(self)@.regs.hl_reg.low);
            }
            Ok(1)
        } else if row == 6 {
            self.interrupt_enable = false;
            Ok(1)
        } else if row == 7 {
            self.interrupt_enable = true;
            Ok(1)
        } else {
            Err(CoreError::OpcodeError { opcode: op })
        }
    }

    /// Instructions `11 rrr ccc`.
    fn execute_high(&mut self, op: u8, row: u8, col: u8) -> (r: Result<u32, CoreError>)
        requires
            op >= 0xC0,
            row == (op / 8) % 8,
            col == op % 8,
        ensures
            matches_outcome(step_high(old(self)@, op, row, col), r, final(self)@),
    {
        if col == 0 {
            if self.condition_holds(row) {
                self.return_from(3)
            } else {
                Ok(1)
            }
        } else if col == 1 {
            self.pop_group(op, row)
        } else if col == 2 {
            let a = self.memory.fetch_two_bytes()?;
            if self.condition_holds(row) {
                self.memory.program_counter = a;
            }
            Ok(3)
        } else if col == 3 {
            self.control_group(op, row)
        } else if col == 4 {
            let a = self.memory.fetch_two_bytes()?;
            if self.condition_holds(row) {
                self.call_to(a, 5)
            } else {
                Ok(3)
            }
        } else if col == 5 {
            if row % 2 == 0 {
                let w = if row == 6 {
                    self.generate_psw()
                } else {
                    self.get_rp(row / 2)
                };
                self.memory.push_stack(w)?;
                Ok(3)
            } else if row == 1 {
                let a = self.memory.fetch_two_bytes()?;
                self.call_to(a, 5)
            } else {
                Err(CoreError::OpcodeError { opcode: op })
            }
        } else if col == 6 {
            let b = self.memory.fetch_byte()?;
            self.alu(row, b);
            Ok(2)
        } else {
            self.call_to(row as u16 * 8, 3)
        }
    }
}

/// Decimal adjustment of the accumulator after a BCD addition.
fn decimal_adjust(a: u8, carry: bool) -> (r: (u8, bool))
    ensures
        r == daa_value(a, carry),
{
    let t: u16 = if a % 16 > 9 {
        a as u16 + 6
    } else {
        a as u16
    };
    let u: u16 = if t / 16 > 9 || carry {
        t + 0x60
    } else {
        t
    };
    ((u % 0x100) as u8, carry || u > 0xFF)
}

} // verus!
