//! FX55: store registers V0..VX inclusive into memory at the index register.

use crate::commands::read_into_registers::read_into_registers_post;
use crate::Chip8;
use vstd::prelude::*;

verus! {

/// Memory at the index register receives registers 0 through `x`
/// inclusive, in order; every other byte is unchanged.
pub open spec fn store_registers_post(pre: Chip8, post: Chip8, x: int) -> bool {
    let address = pre.index_register as int;
    &&& post.memory@.len() == pre.memory@.len()
    &&& forall|j: int| 0 <= j <= x ==> post.memory@[address + j] == pre.registers@[j]
    &&& forall|a: int|
        0 <= a < pre.memory@.len() && !(address <= a <= address + x) ==> post.memory@[a]
            == pre.memory@[a]
    &&& post.same_except_memory(pre)
}

/// StoreRegisters(k) followed by ReadIntoRegisters(k) at the same
/// index-register address restores every register exactly.
pub proof fn lemma_store_then_read_round_trips(s0: Chip8, s1: Chip8, s2: Chip8, k: int)
    requires
        s0.wf(),
        s1.wf(),
        s2.wf(),
        0 <= k < 16,
        s0.index_register + k + 1 <= 4096,
        store_registers_post(s0, s1, k),
        read_into_registers_post(s1, s2, k),
    ensures
        s2.registers@ == s0.registers@,
{
    assert(s1.index_register == s0.index_register);
    assert(s1.registers == s0.registers);
    assert forall|j: int| 0 <= j < 16 implies s2.registers@[j] == s0.registers@[j] by {
        if j <= k {
            assert(s1.memory@[s1.index_register as int + j] == s0.registers@[j]);
        }
    }
    assert(s2.registers@ =~= s0.registers@);
}

pub struct StoreRegisters {
    pub register: u8,
}

impl StoreRegisters {
    pub fn new(register: u8) -> (r: Self)
        ensures
            r == (StoreRegisters { register }),
    {
        Self { register }
    }

    pub fn execute(&self, emulator: &mut Chip8)
        requires
            old(emulator).wf(),
            self.register < 16,
            old(emulator).index_register + self.register + 1 <= 4096,
        ensures
            final(emulator).wf(),
            store_registers_post(*old(emulator), *final(emulator), self.register as int),
    {
        let address = emulator.index_register as usize;
        let last = self.register as usize;
        let mut i: usize = 0;
        while i <= last
            invariant
                old(emulator).wf(),
                emulator.wf(),
                i <= last + 1,
                last < 16,
                address + last + 1 <= 4096,
                address == old(emulator).index_register,
                forall|j: int| 0 <= j < i ==> emulator.memory@[address + j] == old(
                    emulator,
                ).registers@[j],
                forall|a: int|
                    0 <= a < 4096 && !(address <= a < address + i) ==> emulator.memory@[a] == old(
                        emulator,
                    ).memory@[a],
                emulator.same_except_memory(*old(emulator)),
            decreases last + 1 - i,
        {
            emulator.memory[address + i] = emulator.registers[i];
            i += 1;
        }
    }
}

} // verus!
