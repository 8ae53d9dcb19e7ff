use vstd::prelude::*;

verus! {

/// What a `ShiftRegister` holds: the 16-bit latch and the 3-bit offset.
pub struct ShiftState {
    pub register: u16,
    pub offset: u8,
}

/// The latch after `data` was written: it becomes the high byte and the old
/// high byte moves down to the low byte.
pub open spec fn shift_in(st: ShiftState, data: u8) -> ShiftState {
    ShiftState { register: ((st.register >> 8) | ((data as u16) << 8)) as u16, ..st }
}

/// The offset after `data` was written as the new offset: its low three bits.
pub open spec fn with_offset(st: ShiftState, data: u8) -> ShiftState {
    ShiftState { offset: data & 0x07, ..st }
}

/// The byte the peripheral presents: the top eight bits of the latch after a
/// 16-bit left shift by the offset.
pub open spec fn shift_out(st: ShiftState) -> u8 {
    (((st.register << st.offset) & 0xFF00) >> 8) as u8
}

/// The multiply-shift peripheral of the Space Invaders board.
pub struct ShiftRegister {
    register: u16,
    offset: u8,
}

impl View for ShiftRegister {
    type V = ShiftState;

    closed spec fn view(&self) -> ShiftState {
        ShiftState { register: self.register, offset: self.offset }
    }
}

impl ShiftRegister {
    #[verifier::type_invariant]
    spec fn offset_in_range(&self) -> bool {
        self.offset < 8
    }

    pub fn new() -> (r: Self)
        ensures
            r@ == (ShiftState { register: 0, offset: 0 }),
    {
        Self { register: 0x0000, offset: 0x00 }
    }

    /// Writes the next byte into the latch.
    pub fn load(&mut self, data: u8)
        ensures
            final(self)@ == shift_in(old(self)@, data),
    {
        proof {
            use_type_invariant(&*self);
        }
        self.register = (self.register >> 8) | ((data as u16) << 8);
    }

    pub fn set_offset(&mut self, offset: u8)
        ensures
            final(self)@ == with_offset(old(self)@, offset),
    {
        assert(offset & 0x07 < 8) by (bit_vector);
        self.offset = offset & 0x07;
    }

    pub fn get_shift(&self) -> (r: u8)
        ensures
            r == shift_out(self@),
    {
        proof {
            use_type_invariant(self);
        }
        (((self.register << self.offset) & 0xFF00) >> 8) as u8
    }
}

} // verus!
