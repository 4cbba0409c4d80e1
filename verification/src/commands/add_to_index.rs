//! FX1E: add register X into the index register, wrapping at 16 bits.

use crate::Chip8;
use vstd::prelude::*;

verus! {

/// The index register receives the 16-bit wrapping sum of itself and
/// register X; nothing else changes.
pub open spec fn add_to_index_post(pre: Chip8, post: Chip8, x: int) -> bool {
    &&& post.index_register == ((pre.index_register + pre.registers@[x]) % 0x10000) as u16
    &&& post.same_except_index_register(pre)
}

pub struct AddToIndex {
    pub register: u8,
}

impl AddToIndex {
    pub fn new(register: u8) -> (r: Self)
        ensures
            r == (AddToIndex { register }),
    {
        Self { register }
    }

    pub fn execute(&self, emulator: &mut Chip8)
        requires
            old(emulator).wf(),
            self.register < 16,
        ensures
            final(emulator).wf(),
            add_to_index_post(*old(emulator), *final(emulator), self.register as int),
    {
        let register_value = emulator.registers[self.register as usize] as u32;
        let sum: u32 = emulator.index_register as u32 + register_value;
        emulator.index_register = (sum % 0x10000) as u16;
    }
}

} // verus!
