//! 6XNN: set register X to an immediate.

use crate::Chip8;
use vstd::prelude::*;

verus! {

/// Register X receives the immediate value.
pub open spec fn set_register_post(pre: Chip8, post: Chip8, x: int, value: u8) -> bool {
    &&& post.registers@ == pre.registers@.update(x, value)
    &&& post.same_except_registers(pre)
}

pub struct SetRegister {
    pub register: u8,
    pub value: u8,
}

impl SetRegister {
    pub fn new(register: u8, value: u8) -> (r: Self)
        ensures
            r == (SetRegister { register, value }),
    {
        Self { register, value }
    }

    pub fn execute(&self, emulator: &mut Chip8)
        requires
            old(emulator).wf(),
            self.register < 16,
        ensures
            final(emulator).wf(),
            set_register_post(*old(emulator), *final(emulator), self.register as int, self.value),
    {
        emulator.registers[self.register as usize] = self.value;
    }
}

} // verus!
