//! 2NNN: push the post-fetch program counter and jump to a 12-bit address.

use crate::commands::return_command::return_post;
use crate::Chip8;
use vstd::prelude::*;

verus! {

/// The current program counter is pushed onto the call stack, then the
/// program counter receives the address.
pub open spec fn call_post(pre: Chip8, post: Chip8, address: u16) -> bool {
    &&& post.stack@ == pre.stack@.push(pre.program_counter)
    &&& post.program_counter == address
    &&& post.same_except_control_flow(pre)
}

/// n Calls followed by n Returns restore the original program counter and
/// the original call stack. `trace` is the chain of machine states: state
/// `i` steps to state `i + 1`, first through the Calls (to `addresses`, in
/// order), then through the Returns.
pub proof fn lemma_calls_then_returns(trace: Seq<Chip8>, addresses: Seq<u16>)
    requires
        trace.len() == 2 * addresses.len() + 1,
        forall|i: int|
            0 <= i < addresses.len() ==> call_post(trace[i], trace[i + 1], addresses[i]),
        forall|i: int|
            addresses.len() <= i < 2 * addresses.len()
                ==> #[trigger] return_post(trace[i], trace[i + 1]),
    ensures
        trace.last().program_counter == trace[0].program_counter,
        trace.last().stack@ == trace[0].stack@,
    decreases addresses.len(),
{
    if addresses.len() > 0 {
        let n = addresses.len() as int;
        let inner = trace.subrange(1, 2 * n);
        let inner_addresses = addresses.subrange(1, n);
        assert(call_post(trace[0], trace[1], addresses[0]));
        assert forall|i: int| 0 <= i < inner_addresses.len() implies call_post(
            inner[i],
            inner[i + 1],
            inner_addresses[i],
        ) by {
            let next = i + 1;
            assert(call_post(trace[next], trace[next + 1], addresses[next]));
        }
        assert forall|i: int|
            inner_addresses.len() <= i < 2 * inner_addresses.len()
                implies #[trigger] return_post(
            inner[i],
            inner[i + 1],
        ) by {
            let next = i + 1;
            assert(return_post(trace[next], trace[next + 1]));
        }
        lemma_calls_then_returns(inner, inner_addresses);
        assert(trace[2 * n - 1].stack@ == trace[0].stack@.push(trace[0].program_counter));
        let last_return = 2 * n - 1;
        assert(return_post(
            trace[last_return],
            trace[last_return + 1],
        ));
        assert(trace[2 * n].stack@ =~= trace[0].stack@);
    }
}

pub struct Call {
    pub address: u16,
}

impl Call {
    pub fn new(address: u16) -> (r: Self)
        ensures
            r == (Call { address }),
    {
        Self { address }
    }

    pub fn execute(&self, emulator: &mut Chip8)
        requires
            old(emulator).wf(),
        ensures
            final(emulator).wf(),
            call_post(*old(emulator), *final(emulator), self.address),
    {
        let return_address = emulator.program_counter;
        emulator.stack.push(return_address);
        emulator.program_counter = self.address;
    }
}

} // verus!
