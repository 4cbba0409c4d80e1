//! ANNN: set the index register to a 12-bit address.

use crate::Chip8;
use vstd::prelude::*;

verus! {

/// The index register receives the address.
pub open spec fn set_index_register_post(pre: Chip8, post: Chip8, index: u16) -> bool {
    &&& post.index_register == index
    &&& post.same_except_index_register(pre)
}

pub struct SetIndexRegister {
    pub index: u16,
}

impl SetIndexRegister {
    pub fn new(index: u16) -> (r: Self)
        ensures
            r == (SetIndexRegister { index }),
    {
        Self { index }
    }

    pub fn execute(&self, emulator: &mut Chip8)
        requires
            old(emulator).wf(),
        ensures
            final(emulator).wf(),
            set_index_register_post(*old(emulator), *final(emulator), self.index),
    {
        emulator.index_register = self.index;
    }
}

} // verus!
