//! FX33: store the decimal digits of register X at the index register.

use crate::Chip8;
use vstd::prelude::*;

verus! {

/// Memory at the index register receives the hundreds, tens and units
/// digits of register X, in that order.
pub open spec fn binary_coded_decimal_post(pre: Chip8, post: Chip8, x: int) -> bool {
    let address = pre.index_register as int;
    let value = pre.registers@[x];
    &&& post.memory@ == pre.memory@.update(address, (value / 100) as u8).update(
        address + 1,
        ((value / 10) % 10) as u8,
    ).update(address + 2, (value % 10) as u8)
    &&& post.same_except_memory(pre)
}

pub struct BinaryCodedDecimal {
    pub register: u8,
}

impl BinaryCodedDecimal {
    pub fn new(register: u8) -> (r: Self)
        ensures
            r == (BinaryCodedDecimal { register }),
    {
        Self { register }
    }

    pub fn execute(&self, emulator: &mut Chip8)
        requires
            old(emulator).wf(),
            self.register < 16,
            old(emulator).index_register + 3 <= 4096,
        ensures
            final(emulator).wf(),
            binary_coded_decimal_post(*old(emulator), *final(emulator), self.register as int),
    {
        let address = emulator.index_register as usize;
        let value = emulator.registers[self.register as usize];
        emulator.memory[address] = value / 100;
        emulator.memory[address + 1] = (value / 10) % 10;
        emulator.memory[address + 2] = value % 10;
    }
}

} // verus!
