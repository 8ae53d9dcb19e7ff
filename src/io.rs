use vstd::prelude::*;

verus! {

/// The input bytes that the CPU reads with `IN`. The host sets them from the
/// controls; the CPU never writes them.
#[derive(Debug, Clone, Copy, PartialEq, Eq, Structural)]
pub struct Inputs {
    pub port0: u8,
    pub port1: u8,
    pub port2: u8,
}

/// Whether a control is held down.
#[derive(Debug, Clone, Copy, PartialEq, Eq, Structural)]
pub enum ButtonState {
    Pressed,
    Released,
}

/// `port` with the bits of `mask` set when pressed and cleared when released.
pub open spec fn with_button(port: u8, mask: u8, state: ButtonState) -> u8 {
    match state {
        ButtonState::Pressed => port | mask,
        ButtonState::Released => port & !mask,
    }
}

impl Default for Inputs {
    fn default() -> (r: Self)
        ensures
            r == (Inputs { port0: 0x0E, port1: 0x08, port2: 0x08 }),
    {
        Self::new()
    }
}

impl Inputs {
    /// All controls released, with the board's fixed bits set.
    pub fn new() -> (r: Self)
        ensures
            r == (Inputs { port0: 0x0E, port1: 0x08, port2: 0x08 }),
    {
        Self { port0: 0x0E, port1: 0x08, port2: 0x08 }
    }

    fn set_port1(&mut self, mask: u8, state: ButtonState)
        ensures
            *final(self) == (Inputs { port1: with_button(old(self).port1, mask, state), ..*old(self) }),
    {
        match state {
            ButtonState::Pressed => self.port1 = self.port1 | mask,
            ButtonState::Released => self.port1 = self.port1 & !mask,
        }
    }

    fn set_port2(&mut self, mask: u8, state: ButtonState)
        ensures
            *final(self) == (Inputs { port2: with_button(old(self).port2, mask, state), ..*old(self) }),
    {
        match state {
            ButtonState::Pressed => self.port2 = self.port2 | mask,
            ButtonState::Released => self.port2 = self.port2 & !mask,
        }
    }

    /// Port 1, bit 2.
    pub fn player1_start(&mut self, state: ButtonState)
        ensures
            *final(self) == (Inputs { port1: with_button(old(self).port1, 0x04, state), ..*old(self) }),
    {
        self.set_port1(0x04, state)
    }

    /// Port 1, bit 4.
    pub fn player1_fire(&mut self, state: ButtonState)
        ensures
            *final(self) == (Inputs { port1: with_button(old(self).port1, 0x10, state), ..*old(self) }),
    {
        self.set_port1(0x10, state)
    }

    /// Port 1, bit 5.
    pub fn player1_left(&mut self, state: ButtonState)
        ensures
            *final(self) == (Inputs { port1: with_button(old(self).port1, 0x20, state), ..*old(self) }),
    {
        self.set_port1(0x20, state)
    }

    /// Port 1, bit 6.
    pub fn player1_right(&mut self, state: ButtonState)
        ensures
            *final(self) == (Inputs { port1: with_button(old(self).port1, 0x40, state), ..*old(self) }),
    {
        self.set_port1(0x40, state)
    }

    /// Port 1, bit 1.
    pub fn player2_start(&mut self, state: ButtonState)
        ensures
            *final(self) == (Inputs { port1: with_button(old(self).port1, 0x02, state), ..*old(self) }),
    {
        self.set_port1(0x02, state)
    }

    /// Port 2, bit 4.
    pub fn player2_fire(&mut self, state: ButtonState)
        ensures
            *final(self) == (Inputs { port2: with_button(old(self).port2, 0x10, state), ..*old(self) }),
    {
        self.set_port2(0x10, state)
    }

    /// Port 2, bit 5.
    pub fn player2_left(&mut self, state: ButtonState)
        ensures
            *final(self) == (Inputs { port2: with_button(old(self).port2, 0x20, state), ..*old(self) }),
    {
        self.set_port2(0x20, state)
    }

    /// Port 2, bit 6.
    pub fn player2_right(&mut self, state: ButtonState)
        ensures
            *final(self) == (Inputs { port2: with_button(old(self).port2, 0x40, state), ..*old(self) }),
    {
        self.set_port2(0x40, state)
    }
}

} // verus!
