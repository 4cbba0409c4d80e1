//! 1NNN: jump to a 12-bit address.

use crate::Chip8;
use vstd::prelude::*;

verus! {

/// The program counter receives the address.
pub open spec fn jump_post(pre: Chip8, post: Chip8, address: u16) -> bool {
    &&& post.program_counter == address
    &&& post.same_except_program_counter(pre)
}

pub struct Jump {
    pub address: u16,
}

impl Jump {
    pub fn new(address: u16) -> (r: Self)
        ensures
            r == (Jump { address }),
    {
        Self { address }
    }

    pub fn execute(&self, emulator: &mut Chip8)
        requires
            old(emulator).wf(),
        ensures
            final(emulator).wf(),
            jump_post(*old(emulator), *final(emulator), self.address),
    {
        emulator.program_counter = self.address;
    }
}

} // verus!
