use vstd::prelude::*;

verus! {

/// The 16-bit value of a register pair whose halves are `high` and `low`.
pub open spec fn word_of(high: u8, low: u8) -> u16 {
    ((high as u16) << 8) | (low as u16)
}

/// The high byte of a 16-bit word.
pub open spec fn high_byte(w: u16) -> u8 {
    (w >> 8) as u8
}

/// The low byte of a 16-bit word.
pub open spec fn low_byte(w: u16) -> u8 {
    (w & 0xFF) as u8
}

/// Two byte registers that can also be used together as one 16-bit register.
#[derive(Debug, Clone, Copy, PartialEq, Eq, Structural)]
pub struct RegisterPair {
    pub high: u8,
    pub low: u8,
}

impl RegisterPair {
    /// The pair seen as one 16-bit value.
    pub open spec fn value(self) -> u16 {
        word_of(self.high, self.low)
    }

    /// The pair whose 16-bit value is `w`.
    pub open spec fn from_word(w: u16) -> RegisterPair {
        RegisterPair { high: high_byte(w), low: low_byte(w) }
    }

    pub fn get_pair(&self) -> (r: u16)
        ensures
            r == self.value(),
            r as int == self.high as int * 256 + self.low as int,
    {
        proof {
            lemma_word_of(self.high, self.low);
        }
        ((self.high as u16) << 8) | (self.low as u16)
    }

    pub fn set_pair(&mut self, value: u16)
        ensures
            *final(self) == RegisterPair::from_word(value),
            final(self).value() == value,
    {
        proof {
            lemma_split_join(value);
        }
        self.high = (value >> 8) as u8;
        self.low = (value & 0xFF) as u8;
    }
}

/// Joining two halves gives `high * 256 + low`, and splitting that word again
/// gives back the same halves.
pub proof fn lemma_word_of(high: u8, low: u8)
    ensures
        word_of(high, low) as int == high as int * 256 + low as int,
        high_byte(word_of(high, low)) == high,
        low_byte(word_of(high, low)) == low,
{
    assert(((high as u16) << 8) | (low as u16) == (high as u16) * 256 + (low as u16)) by (bit_vector);
    assert((((((high as u16) << 8) | (low as u16)) >> 8) as u8) == high) by (bit_vector);
    assert((((((high as u16) << 8) | (low as u16)) & 0xFF) as u8) == low) by (bit_vector);
}

/// Splitting a word into its halves and joining them again gives the word back;
/// the halves are its quotient and remainder by 256.
pub proof fn lemma_split_join(w: u16)
    ensures
        word_of(high_byte(w), low_byte(w)) == w,
        high_byte(w) as int == w as int / 256,
        low_byte(w) as int == w as int % 256,
{
    assert(((((w >> 8) as u8) as u16) << 8) | (((w & 0xFF) as u8) as u16) == w) by (bit_vector);
    assert(((w >> 8) as u8) == w / 256) by (bit_vector);
    assert(((w & 0xFF) as u8) == w % 256) by (bit_vector);
}

/// The accumulator and the three register pairs BC, DE and HL.
#[derive(Debug, Clone, Copy, PartialEq, Eq, Structural)]
pub struct Registers {
    pub a_reg: u8,
    pub bc_reg: RegisterPair,
    pub de_reg: RegisterPair,
    pub hl_reg: RegisterPair,
}

impl Registers {
    pub fn new() -> (r: Self)
        ensures
            r.a_reg == 0,
            r.bc_reg.value() == 0 && r.de_reg.value() == 0 && r.hl_reg.value() == 0,
            r.bc_reg == (RegisterPair { high: 0, low: 0 }),
            r.de_reg == (RegisterPair { high: 0, low: 0 }),
            r.hl_reg == (RegisterPair { high: 0, low: 0 }),
    {
        proof {
            lemma_word_of(0, 0);
        }
        Self {
            a_reg: 0,
            bc_reg: RegisterPair { high: 0, low: 0 },
            de_reg: RegisterPair { high: 0, low: 0 },
            hl_reg: RegisterPair { high: 0, low: 0 },
        }
    }
}

} // verus!
