use vstd::prelude::*;

use crate::core_error::CoreError;
use crate::registers::{high_byte, lemma_split_join, lemma_word_of, low_byte, word_of};

verus! {

/// Bytes in the flat address space.
pub const MEM_SIZE: usize = 0x10000;

/// Largest ROM image that can be loaded.
pub const ROM_SIZE: usize = 0x2000;

/// What a `Memory` holds, as mathematical values.
pub struct MemoryState {
    pub ram: Seq<u8>,
    pub pc: u16,
    pub sp: u16,
}

/// The little-endian word stored at `a` and `a + 1`.
pub open spec fn word_at(ram: Seq<u8>, a: int) -> u16 {
    word_of(ram[a + 1], ram[a])
}

/// `ram` with the word `w` stored little-endian at `a` and `a + 1`.
pub open spec fn store_word(ram: Seq<u8>, a: int, w: u16) -> Seq<u8> {
    ram.update(a, low_byte(w)).update(a + 1, high_byte(w))
}

/// `ram` with `bytes` copied in from address `start` on.
pub open spec fn with_rom(ram: Seq<u8>, start: int, bytes: Seq<u8>) -> Seq<u8> {
    Seq::new(
        ram.len(),
        |k: int|
            if start <= k < start + bytes.len() {
                bytes[k - start]
            } else {
                ram[k]
            },
    )
}

/// Fetching one byte at the program counter: the byte, and the state with the
/// program counter advanced past it.
pub open spec fn fetched_byte(m: MemoryState) -> Result<(MemoryState, u8), CoreError> {
    if m.pc == 0xFFFF {
        Err(CoreError::ProgramCounterOverflow)
    } else {
        Ok((MemoryState { pc: (m.pc + 1) as u16, ..m }, m.ram[m.pc as int]))
    }
}

/// Fetching a little-endian word at the program counter.
pub open spec fn fetched_word(m: MemoryState) -> Result<(MemoryState, u16), CoreError> {
    if m.pc >= 0xFFFE {
        Err(CoreError::ProgramCounterOverflow)
    } else {
        Ok((MemoryState { pc: (m.pc + 2) as u16, ..m }, word_at(m.ram, m.pc as int)))
    }
}

/// Reading the word at `a`, which needs `a + 1` to be an address too.
pub open spec fn read_word(m: MemoryState, a: u16) -> Result<u16, CoreError> {
    if a == 0xFFFF {
        Err(CoreError::IndexError { index: a })
    } else {
        Ok(word_at(m.ram, a as int))
    }
}

/// Writing the word `w` at `a`.
pub open spec fn written_word(m: MemoryState, a: u16, w: u16) -> Result<MemoryState, CoreError> {
    if a == 0xFFFF {
        Err(CoreError::IndexError { index: a })
    } else {
        Ok(MemoryState { ram: store_word(m.ram, a as int, w), ..m })
    }
}

/// Pushing `w`: the stack pointer moves down by two, then the word is stored there.
pub open spec fn pushed(m: MemoryState, w: u16) -> Result<MemoryState, CoreError> {
    if m.sp < 2 {
        Err(CoreError::StackPointerOverflow)
    } else {
        Ok(
            MemoryState {
                ram: store_word(m.ram, m.sp - 2, w),
                sp: (m.sp - 2) as u16,
                ..m
            },
        )
    }
}

/// Popping: the word at the stack pointer, and the state with the stack
/// pointer moved up by two.
pub open spec fn popped(m: MemoryState) -> Result<(MemoryState, u16), CoreError> {
    if m.sp == 0xFFFF {
        Err(CoreError::IndexError { index: m.sp })
    } else if m.sp == 0xFFFE {
        Err(CoreError::StackPointerOverflow)
    } else {
        Ok((MemoryState { sp: (m.sp + 2) as u16, ..m }, word_at(m.ram, m.sp as int)))
    }
}

/// A word written at any address but the last reads back unchanged from there.
pub proof fn lemma_write_then_read_word(m: MemoryState, a: u16, w: u16)
    requires
        m.ram.len() == MEM_SIZE,
        a < 0xFFFF,
    ensures
        match written_word(m, a, w) {
            Ok(m2) => read_word(m2, a) == Ok::<u16, CoreError>(w),
            Err(_) => false,
        },
{
    lemma_split_join(w);
}

/// Pushing a word and popping right after gives that word back and leaves the
/// stack pointer where it was.
pub proof fn lemma_push_then_pop(m: MemoryState, v: u16)
    requires
        m.ram.len() == MEM_SIZE,
        m.sp >= 2,
    ensures
        match pushed(m, v) {
            Ok(m1) => match popped(m1) {
                Ok((m2, w)) => w == v && m2.sp == m.sp && m2.pc == m.pc,
                Err(_) => false,
            },
            Err(_) => false,
        },
{
    lemma_split_join(v);
}

/// The 64 KiB address space with the program counter and the stack pointer.
pub struct Memory {
    pub ram: [u8; MEM_SIZE],
    pub program_counter: u16,
    pub stack_pointer: u16,
}

impl View for Memory {
    type V = MemoryState;

    open spec fn view(&self) -> MemoryState {
        MemoryState { ram: self.ram@, pc: self.program_counter, sp: self.stack_pointer }
    }
}

impl Memory {
    pub fn new() -> (r: Self)
        ensures
            r@.ram == Seq::new(MEM_SIZE as nat, |i: int| 0u8),
            r@.pc == 0,
            r@.sp == 0,
    {
        let r = Self { ram: [0u8; MEM_SIZE], program_counter: 0, stack_pointer: 0 };
        assert(r@.ram =~= Seq::new(MEM_SIZE as nat, |i: int| 0u8));
        r
    }

    /// Copies a ROM image into memory from `start_addr` on and points the
    /// program counter at it.
    pub fn load_rom(&mut self, buffer: &Vec<u8>, start_addr: u16) -> (r: Result<(), CoreError>)
        ensures
            buffer@.len() > ROM_SIZE ==> r == Err::<(), CoreError>(CoreError::RomSizeError),
            buffer@.len() <= ROM_SIZE && start_addr + buffer@.len() > MEM_SIZE ==> r == Err::<
                (),
                CoreError,
            >(CoreError::IndexError { index: start_addr }),
            r is Err ==> *final(self) == *old(self),
            r is Ok <==> buffer@.len() <= ROM_SIZE && start_addr + buffer@.len() <= MEM_SIZE,
            r is Ok ==> final(self)@ == (MemoryState {
                ram: with_rom(old(self)@.ram, start_addr as int, buffer@),
                pc: start_addr,
                ..old(self)@
            }),
    {
        if buffer.len() > ROM_SIZE {
            return Err(CoreError::RomSizeError);
        }
        let start = start_addr as usize;
        if buffer.len() > MEM_SIZE - start {
            return Err(CoreError::IndexError { index: start_addr });
        }
        let mut i: usize = 0;
        while i < buffer.len()
            invariant
                start == start_addr as usize,
                start + buffer@.len() <= MEM_SIZE,
                i <= buffer@.len(),
                self.program_counter == old(self).program_counter,
                self.stack_pointer == old(self).stack_pointer,
                forall|k: int|
                    0 <= k < MEM_SIZE ==> #[trigger] self.ram@[k] == if start <= k < start + i {
                        buffer@[k - start]
                    } else {
                        old(self).ram@[k]
                    },
            decreases buffer@.len() - i,
        {
            self.ram[start + i] = buffer[i];
            i = i + 1;
        }
        self.program_counter = start_addr;
        assert(self.ram@ =~= with_rom(old(self)@.ram, start_addr as int, buffer@));
        Ok(())
    }

    pub fn fetch_byte(&mut self) -> (r: Result<u8, CoreError>)
        ensures
            match fetched_byte(old(self)@) {
                Ok((m, b)) => r == Ok::<u8, CoreError>(b) && final(self)@ == m,
                Err(e) => r == Err::<u8, CoreError>(e) && *final(self) == *old(self),
            },
    {
        if self.program_counter == 0xFFFF {
            return Err(CoreError::ProgramCounterOverflow);
        }
        let byte = self.ram[self.program_counter as usize];
        self.program_counter = self.program_counter + 1;
        Ok(byte)
    }

    /// Fetches a little-endian word: low byte first, then high byte.
    pub fn fetch_two_bytes(&mut self) -> (r: Result<u16, CoreError>)
        ensures
            match fetched_word(old(self)@) {
                Ok((m, w)) => r == Ok::<u16, CoreError>(w) && final(self)@ == m,
                Err(e) => r == Err::<u16, CoreError>(e) && *final(self) == *old(self),
            },
    {
        if self.program_counter >= 0xFFFE {
            return Err(CoreError::ProgramCounterOverflow);
        }
        let data_low = self.fetch_byte()?;
        let data_high = self.fetch_byte()?;
        proof {
            lemma_word_of(data_high, data_low);
        }
        Ok(((data_high as u16) << 8) | (data_low as u16))
    }

    pub fn read_byte(&self, address: u16) -> (r: Result<u8, CoreError>)
        ensures
            r == Ok::<u8, CoreError>(self@.ram[address as int]),
    {
        Ok(self.ram[address as usize])
    }

    pub fn read_two_bytes(&self, address: u16) -> (r: Result<u16, CoreError>)
        ensures
            r == read_word(self@, address),
    {
        if address == 0xFFFF {
            return Err(CoreError::IndexError { index: address });
        }
        let data_low = self.ram[address as usize];
        let data_high = self.ram[address as usize + 1];
        Ok(((data_high as u16) << 8) | (data_low as u16))
    }

    pub fn write_byte(&mut self, address: u16, data: u8) -> (r: Result<(), CoreError>)
        ensures
            r == Ok::<(), CoreError>(()),
            final(self)@ == (MemoryState { ram: old(self)@.ram.update(address as int, data), ..old(self)@ }),
    {
        self.ram[address as usize] = data;
        Ok(())
    }

    pub fn write_two_bytes(&mut self, address: u16, data: u16) -> (r: Result<(), CoreError>)
        ensures
            match written_word(old(self)@, address, data) {
                Ok(m) => r == Ok::<(), CoreError>(()) && final(self)@ == m,
                Err(e) => r == Err::<(), CoreError>(e) && *final(self) == *old(self),
            },
    {
        if address == 0xFFFF {
            return Err(CoreError::IndexError { index: address });
        }
        proof {
            lemma_split_join(data);
        }
        self.ram[address as usize] = (data & 0x00FF) as u8;
        self.ram[address as usize + 1] = (data >> 8) as u8;
        Ok(())
    }

    pub fn pop_stack(&mut self) -> (r: Result<u16, CoreError>)
        ensures
            match popped(old(self)@) {
                Ok((m, w)) => r == Ok::<u16, CoreError>(w) && final(self)@ == m,
                Err(e) => r == Err::<u16, CoreError>(e) && *final(self) == *old(self),
            },
    {
        let data = self.read_two_bytes(self.stack_pointer)?;
        if self.stack_pointer > 0xFFFD {
            return Err(CoreError::StackPointerOverflow);
        }
        self.stack_pointer = self.stack_pointer + 2;
        Ok(data)
    }

    pub fn push_stack(&mut self, data: u16) -> (r: Result<(), CoreError>)
        ensures
            match pushed(old(self)@, data) {
                Ok(m) => r == Ok::<(), CoreError>(()) && final(self)@ == m,
                Err(e) => r == Err::<(), CoreError>(e) && *final(self) == *old(self),
            },
    {
        if self.stack_pointer < 2 {
            return Err(CoreError::StackPointerOverflow);
        }
        self.stack_pointer = self.stack_pointer - 2;
        let w = self.write_two_bytes(self.stack_pointer, data);
        w
    }
}

} // verus!
