//! 8XY0: copy register Y into register X.

use crate::Chip8;
use vstd::prelude::*;

verus! {

/// Register X receives the value of register Y.
pub open spec fn load_post(pre: Chip8, post: Chip8, x: int, y: int) -> bool {
    &&& post.registers@ == pre.registers@.update(x, pre.registers@[y])
    &&& post.same_except_registers(pre)
}

pub struct Load {
    pub register_x: u8,
    pub register_y: u8,
}

impl Load {
    pub fn new(register_x: u8, register_y: u8) -> (r: Self)
        ensures
            r == (Load { register_x, register_y }),
    {
        Self { register_x, register_y }
    }

    pub fn execute(&self, emulator: &mut Chip8)
        requires
            old(emulator).wf(),
            self.register_x < 16,
            self.register_y < 16,
        ensures
            final(emulator).wf(),
            load_post(*old(emulator), *final(emulator), self.register_x as int, self.register_y as int),
    {
        let value = emulator.registers[self.register_y as usize];
        emulator.registers[self.register_x as usize] = value;
    }
}

} // verus!
