//! 8XY5: subtract register Y from register X, reporting "no borrow" in VF.

use crate::Chip8;
use vstd::prelude::*;

verus! {

/// Register X receives the modulo-256 difference X - Y, and VF becomes 1
/// exactly when X >= Y (no borrow). VF is written last.
pub open spec fn sub_post(pre: Chip8, post: Chip8, x: int, y: int) -> bool {
    let vx = pre.registers@[x];
    let vy = pre.registers@[y];
    let difference = ((vx + 256 - vy) % 256) as u8;
    let flag: u8 = if vx >= vy {
        1u8
    } else {
        0u8
    };
    &&& post.registers@ == pre.registers@.update(x, difference).update(15, flag)
    &&& post.same_except_registers(pre)
}

pub struct Sub {
    pub register_x: u8,
    pub register_y: u8,
}

impl Sub {
    pub fn new(register_x: u8, register_y: u8) -> (r: Self)
        ensures
            r == (Sub { register_x, register_y }),
    {
        Self { register_x, register_y }
    }

    pub fn execute(&self, emulator: &mut Chip8)
        requires
            old(emulator).wf(),
            self.register_x < 16,
            self.register_y < 16,
        ensures
            final(emulator).wf(),
            sub_post(*old(emulator), *final(emulator), self.register_x as int, self.register_y as int),
    {
        let x = self.register_x as usize;
        let y = self.register_y as usize;
        let vx = emulator.registers[x];
        let vy = emulator.registers[y];
        let difference: u16 = (vx as u16 + 256 - vy as u16) % 256;
        emulator.registers[x] = difference as u8;
        emulator.registers[0xF] = if vx >= vy {
            1
        } else {
            0
        };
    }
}

} // verus!
