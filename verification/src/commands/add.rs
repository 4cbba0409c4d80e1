//! 8XY4: add register Y into register X, reporting the carry in VF.

use crate::Chip8;
use vstd::prelude::*;

verus! {

/// Register X receives the modulo-256 sum of registers X and Y, and VF
/// becomes 1 exactly when the true sum exceeds 255. VF is written last.
pub open spec fn add_post(pre: Chip8, post: Chip8, x: int, y: int) -> bool {
    let vx = pre.registers@[x];
    let vy = pre.registers@[y];
    let sum = ((vx + vy) % 256) as u8;
    let flag: u8 = if vx + vy > 255 {
        1u8
    } else {
        0u8
    };
    &&& post.registers@ == pre.registers@.update(x, sum).update(15, flag)
    &&& post.same_except_registers(pre)
}

pub struct Add {
    pub register_x: u8,
    pub register_y: u8,
}

impl Add {
    pub fn new(register_x: u8, register_y: u8) -> (r: Self)
        ensures
            r == (Add { register_x, register_y }),
    {
        Self { register_x, register_y }
    }

    pub fn execute(&self, emulator: &mut Chip8)
        requires
            old(emulator).wf(),
            self.register_x < 16,
            self.register_y < 16,
        ensures
            final(emulator).wf(),
            add_post(
                *old(emulator),
                *final(emulator),
                self.register_x as int,
                self.register_y as int,
            ),
    {
        let x = self.register_x as usize;
        let y = self.register_y as usize;
        let sum: u16 = emulator.registers[x] as u16 + emulator.registers[y] as u16;
        let value: u8 = (sum % 256) as u8;
        let overflow: bool = sum > 255;
        emulator.registers[x] = value;
        emulator.registers[0xF] = if overflow {
            1
        } else {
            0
        };
    }
}

} // verus!
