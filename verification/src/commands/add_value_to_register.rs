//! 7XNN: add an immediate into register X, wrapping at 8 bits, no flag.

use crate::Chip8;
use vstd::prelude::*;

verus! {

/// Register X receives the modulo-256 sum of itself and the immediate;
/// VF is not touched.
pub open spec fn add_value_to_register_post(pre: Chip8, post: Chip8, x: int, value: u8) -> bool {
    &&& post.registers@ == pre.registers@.update(
        x,
        ((pre.registers@[x] + value) % 256) as u8,
    )
    &&& post.same_except_registers(pre)
}

pub struct AddValueToRegister {
    pub register: u8,
    pub value: u8,
}

impl AddValueToRegister {
    pub fn new(register: u8, value: u8) -> (r: Self)
        ensures
            r == (AddValueToRegister { register, value }),
    {
        Self { register, value }
    }

    pub fn execute(&self, emulator: &mut Chip8)
        requires
            old(emulator).wf(),
            self.register < 16,
        ensures
            final(emulator).wf(),
            add_value_to_register_post(
                *old(emulator),
                *final(emulator),
                self.register as int,
                self.value,
            ),
    {
        let x = self.register as usize;
        let sum: u16 = emulator.registers[x] as u16 + self.value as u16;
        emulator.registers[x] = (sum % 256) as u8;
    }
}

} // verus!
