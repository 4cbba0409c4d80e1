//! 8XY2: bitwise AND register Y into register X.

use crate::Chip8;
use vstd::prelude::*;

verus! {

/// Register X receives the bitwise AND of registers X and Y.
pub open spec fn and_post(pre: Chip8, post: Chip8, x: int, y: int) -> bool {
    &&& post.registers@ == pre.registers@.update(x, pre.registers@[x] & pre.registers@[y])
    &&& post.same_except_registers(pre)
}

pub struct And {
    pub register_x: u8,
    pub register_y: u8,
}

impl And {
    pub fn new(register_x: u8, register_y: u8) -> (r: Self)
        ensures
            r == (And { register_x, register_y }),
    {
        Self { register_x, register_y }
    }

    pub fn execute(&self, emulator: &mut Chip8)
        requires
            old(emulator).wf(),
            self.register_x < 16,
            self.register_y < 16,
        ensures
            final(emulator).wf(),
            and_post(*old(emulator), *final(emulator), self.register_x as int, self.register_y as int),
    {
        let x = self.register_x as usize;
        let y = self.register_y as usize;
        let value = emulator.registers[x] & emulator.registers[y];
        emulator.registers[x] = value;
    }
}

} // verus!
