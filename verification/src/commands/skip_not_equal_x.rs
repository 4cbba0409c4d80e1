//! 4XNN: skip the next instruction when register X differs from an immediate.

use crate::Chip8;
use vstd::prelude::*;

verus! {

/// The program counter advances by one instruction (2 bytes) exactly when
/// register X differs from the immediate.
pub open spec fn skip_not_equal_x_post(pre: Chip8, post: Chip8, x: int, value: u8) -> bool {
    &&& post.program_counter == (if pre.registers@[x] != value {
        (pre.program_counter + 2) as u16
    } else {
        pre.program_counter
    })
    &&& post.same_except_program_counter(pre)
}

pub struct SkipNotEqualX {
    pub register: u8,
    pub check_value: u8,
}

impl SkipNotEqualX {
    pub fn new(register: u8, check_value: u8) -> (r: Self)
        ensures
            r == (SkipNotEqualX { register, check_value }),
    {
        Self { register, check_value }
    }

    pub fn execute(&self, emulator: &mut Chip8)
        requires
            old(emulator).wf(),
            self.register < 16,
            old(emulator).program_counter + 2 <= 0xFFFF,
        ensures
            final(emulator).wf(),
            skip_not_equal_x_post(
                *old(emulator),
                *final(emulator),
                self.register as int,
                self.check_value,
            ),
    {
        if emulator.registers[self.register as usize] != self.check_value {
            emulator.program_counter += 2;
        }
    }
}

} // verus!
