//! 8XYE: shift left by one bit, reporting the shifted-out high bit in VF.
//! The quirk flag selects the source: register Y (legacy) or X (modern).

use crate::Chip8;
use vstd::prelude::*;

verus! {

/// Register X receives the source shifted left by one (the high bit is
/// discarded), and VF receives that shifted-out high bit. The source is
/// register Y under the legacy quirk and register X otherwise. VF is
/// written last.
pub open spec fn shift_left_post(pre: Chip8, post: Chip8, x: int, y: int) -> bool {
    let source = if pre.use_old_bit_shift {
        pre.registers@[y]
    } else {
        pre.registers@[x]
    };
    &&& post.registers@ == pre.registers@.update(x, source << 1).update(15, (source & 0x80) >> 7)
    &&& post.same_except_registers(pre)
}

pub struct ShiftLeft {
    pub register_x: u8,
    pub register_y: u8,
}

impl ShiftLeft {
    pub fn new(register_x: u8, register_y: u8) -> (r: Self)
        ensures
            r == (ShiftLeft { register_x, register_y }),
    {
        Self { register_x, register_y }
    }

    pub fn execute(&self, emulator: &mut Chip8)
        requires
            old(emulator).wf(),
            self.register_x < 16,
            self.register_y < 16,
        ensures
            final(emulator).wf(),
            shift_left_post(
                *old(emulator),
                *final(emulator),
                self.register_x as int,
                self.register_y as int,
            ),
    {
        let source = if emulator.use_old_bit_shift {
            emulator.registers[self.register_y as usize]
        } else {
            emulator.registers[self.register_x as usize]
        };
        emulator.registers[self.register_x as usize] = source << 1;
        emulator.registers[0xF] = (source & 0x80) >> 7;
    }
}

} // verus!
