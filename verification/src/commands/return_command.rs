//! 00EE: return to the most recently pushed address. Fatal on an empty
//! stack, so the precondition demands a prior Call.

use crate::Chip8;
use vstd::prelude::*;

verus! {

/// The program counter receives the most recent return address, which is
/// popped from the call stack.
pub open spec fn return_post(pre: Chip8, post: Chip8) -> bool {
    &&& pre.stack@.len() > 0
    &&& post.program_counter == pre.stack@.last()
    &&& post.stack@ == pre.stack@.drop_last()
    &&& post.same_except_control_flow(pre)
}

pub struct Return {}

impl Return {
    pub fn new() -> (r: Self)
        ensures
            r == (Return {  }),
    {
        Self {  }
    }

    pub fn execute(&self, emulator: &mut Chip8)
        requires
            old(emulator).wf(),
            old(emulator).stack@.len() > 0,
        ensures
            final(emulator).wf(),
            return_post(*old(emulator), *final(emulator)),
    {
        match emulator.stack.pop() {
            Some(address) => {
                emulator.program_counter = address;
            },
            None => {
                unreached()
            },
        }
    }
}

} // verus!
