//! FX65: load registers V0..VX inclusive from memory at the index register.

use crate::Chip8;
use vstd::prelude::*;

verus! {

/// Registers 0 through `x` inclusive receive the bytes at the index
/// register, in order; every other register is unchanged.
pub open spec fn read_into_registers_post(pre: Chip8, post: Chip8, x: int) -> bool {
    let address = pre.index_register as int;
    &&& post.registers@.len() == pre.registers@.len()
    &&& forall|j: int| 0 <= j <= x ==> post.registers@[j] == pre.memory@[address + j]
    &&& forall|j: int| x < j < 16 ==> post.registers@[j] == pre.registers@[j]
    &&& post.same_except_registers(pre)
}

pub struct ReadIntoRegisters {
    pub register: u8,
}

impl ReadIntoRegisters {
    pub fn new(register: u8) -> (r: Self)
        ensures
            r == (ReadIntoRegisters { register }),
    {
        Self { register }
    }

    pub fn execute(&self, emulator: &mut Chip8)
        requires
            old(emulator).wf(),
            self.register < 16,
            old(emulator).index_register + self.register + 1 <= 4096,
        ensures
            final(emulator).wf(),
            read_into_registers_post(*old(emulator), *final(emulator), self.register as int),
    {
        let address = emulator.index_register as usize;
        let last = self.register as usize;
        let mut i: usize = 0;
        while i <= last
            invariant
                old(emulator).wf(),
                emulator.wf(),
                i <= last + 1,
                last < 16,
                address + last + 1 <= 4096,
                address == old(emulator).index_register,
                forall|j: int| 0 <= j < i ==> emulator.registers@[j] == old(
                    emulator,
                ).memory@[address + j],
                forall|j: int| i <= j < 16 ==> emulator.registers@[j] == old(
                    emulator,
                ).registers@[j],
                emulator.same_except_registers(*old(emulator)),
            decreases last + 1 - i,
        {
            emulator.registers[i] = emulator.memory[address + i];
            i += 1;
        }
    }
}

} // verus!
