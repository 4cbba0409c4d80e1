//! 5XY0: skip the next instruction when registers X and Y are equal.

use crate::Chip8;
use vstd::prelude::*;

verus! {

/// The program counter advances by one instruction (2 bytes) exactly when
/// registers X and Y hold the same value.
pub open spec fn skip_equal_x_y_post(pre: Chip8, post: Chip8, x: int, y: int) -> bool {
    &&& post.program_counter == (if pre.registers@[x] == pre.registers@[y] {
        (pre.program_counter + 2) as u16
    } else {
        pre.program_counter
    })
    &&& post.same_except_program_counter(pre)
}

pub struct SkipEqualXY {
    pub register_x: u8,
    pub register_y: u8,
}

impl SkipEqualXY {
    pub fn new(register_x: u8, register_y: u8) -> (r: Self)
        ensures
            r == (SkipEqualXY { register_x, register_y }),
    {
        Self { register_x, register_y }
    }

    pub fn execute(&self, emulator: &mut Chip8)
        requires
            old(emulator).wf(),
            self.register_x < 16,
            self.register_y < 16,
            old(emulator).program_counter + 2 <= 0xFFFF,
        ensures
            final(emulator).wf(),
            skip_equal_x_y_post(
                *old(emulator),
                *final(emulator),
                self.register_x as int,
                self.register_y as int,
            ),
    {
        if emulator.registers[self.register_x as usize] == emulator.registers[self.register_y
            as usize] {
            emulator.program_counter += 2;
        }
    }
}

} // verus!
