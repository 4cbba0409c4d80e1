//! 00E0: turn every pixel of the frame buffer off.

use crate::Chip8;
use vstd::prelude::*;

verus! {

/// Every pixel is off afterwards; nothing else changes.
pub open spec fn clear_screen_post(pre: Chip8, post: Chip8) -> bool {
    &&& forall|x: int, y: int| 0 <= x < 64 && 0 <= y < 32 ==> !post.pixel(x, y)
    &&& post.same_except_display(pre)
}

pub struct ClearScreen {}

impl ClearScreen {
    pub fn new() -> (r: Self)
        ensures
            r == (ClearScreen {  }),
    {
        Self {  }
    }

    pub fn execute(&self, emulator: &mut Chip8)
        requires
            old(emulator).wf(),
        ensures
            final(emulator).wf(),
            clear_screen_post(*old(emulator), *final(emulator)),
    {
        let mut x: usize = 0;
        while x < 64
            invariant
                old(emulator).wf(),
                emulator.wf(),
                x <= 64,
                forall|i: int, j: int| 0 <= i < x && 0 <= j < 32 ==> !emulator.pixel(i, j),
                emulator.same_except_display(*old(emulator)),
            decreases 64 - x,
        {
            let mut y: usize = 0;
            while y < 32
                invariant
                    old(emulator).wf(),
                    emulator.wf(),
                    x < 64,
                    y <= 32,
                    forall|i: int, j: int| 0 <= i < x && 0 <= j < 32 ==> !emulator.pixel(i, j),
                    forall|j: int| 0 <= j < y ==> !emulator.pixel(x as int, j),
                    emulator.same_except_display(*old(emulator)),
                decreases 32 - y,
            {
                emulator.set_pixel(x, y, false);
                y += 1;
            }
            x += 1;
        }
    }
}

} // verus!
