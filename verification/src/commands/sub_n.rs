//! 8XY7: store register Y minus register X into X, reporting "no borrow" in VF.

use crate::Chip8;
use vstd::prelude::*;

verus! {

/// Register X receives the modulo-256 difference Y - X, and VF becomes 1
/// exactly when Y >= X (no borrow). VF is written last.
pub open spec fn sub_n_post(pre: Chip8, post: Chip8, x: int, y: int) -> bool {
    let vx = pre.registers@[x];
    let vy = pre.registers@[y];
    let difference = ((vy + 256 - vx) % 256) as u8;
    let flag: u8 = if vy >= vx {
        1u8
    } else {
        0u8
    };
    &&& post.registers@ == pre.registers@.update(x, difference).update(15, flag)
    &&& post.same_except_registers(pre)
}

pub struct SubN {
    pub register_x: u8,
    pub register_y: u8,
}

impl SubN {
    pub fn new(register_x: u8, register_y: u8) -> (r: Self)
        ensures
            r == (SubN { register_x, register_y }),
    {
        Self { register_x, register_y }
    }

    pub fn execute(&self, emulator: &mut Chip8)
        requires
            old(emulator).wf(),
            self.register_x < 16,
            self.register_y < 16,
        ensures
            final(emulator).wf(),
            sub_n_post(*old(emulator), *final(emulator), self.register_x as int, self.register_y as int),
    {
        let x = self.register_x as usize;
        let y = self.register_y as usize;
        let vx = emulator.registers[x];
        let vy = emulator.registers[y];
        let difference: u16 = (vy as u16 + 256 - vx as u16) % 256;
        emulator.registers[x] = difference as u8;
        emulator.registers[0xF] = if vy >= vx {
            1
        } else {
            0
        };
    }
}

} // verus!
