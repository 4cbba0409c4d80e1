//! DXYN: XOR an 8-wide, N-tall sprite into the frame buffer, with the
//! origin wrapped once and out-of-bounds sprite bits clipped, reporting
//! collisions with already-lit pixels in VF.

use crate::Chip8;
use vstd::prelude::*;

verus! {

/// Bit `i` of a sprite row byte, most significant bit first (`i` = 0 is
/// the leftmost pixel of the row).
pub open spec fn sprite_bit(byte: u8, i: int) -> bool {
    (byte >> (7 - i) as u8) & 1 == 1
}

/// Whether a sprite of height `n` drawn with origin (`xs`, `ys`) covers
/// the pixel (`x`, `y`).
pub open spec fn covers(xs: int, ys: int, n: int, x: int, y: int) -> bool {
    xs <= x < xs + 8 && ys <= y < ys + n
}

/// Whether the sprite of height `n` at memory address `address`, drawn at
/// (`xs`, `ys`), puts an on bit onto an in-bounds pixel of `pre` that is
/// already lit.
pub open spec fn draw_collides(pre: Chip8, xs: int, ys: int, n: int, address: int) -> bool {
    exists|x: int, y: int|
        #![auto]
        0 <= x < 64 && 0 <= y < 32 && covers(xs, ys, n, x, y) && pre.pixel(x, y) && sprite_bit(
            pre.memory@[address + (y - ys)],
            x - xs,
        )
}

/// The effect of a draw. The origin is registers X and Y wrapped modulo
/// 64 and 32 (once, at the origin only); every in-bounds pixel the sprite
/// covers is XORed with its sprite bit and every other pixel is untouched
/// (out-of-bounds bits are clipped, never wrapped); VF becomes 1 exactly
/// when an already-lit covered pixel meets an on bit, and is written last;
/// the changed flag is set whether or not any pixel flipped.
pub open spec fn draw_post(pre: Chip8, post: Chip8, x: int, y: int, n: int) -> bool {
    let xs = pre.registers@[x] as int % 64;
    let ys = pre.registers@[y] as int % 32;
    let address = pre.index_register as int;
    &&& forall|i: int, j: int|
        0 <= i < 64 && 0 <= j < 32 ==> post.pixel(i, j) == (if covers(xs, ys, n, i, j) {
            pre.pixel(i, j) != sprite_bit(pre.memory@[address + (j - ys)], i - xs)
        } else {
            pre.pixel(i, j)
        })
    &&& post.registers@ == pre.registers@.update(
        15,
        if draw_collides(pre, xs, ys, n, address) {
            1u8
        } else {
            0u8
        },
    )
    &&& post.display_changed
    &&& post.memory == pre.memory
    &&& post.program_counter == pre.program_counter
    &&& post.index_register == pre.index_register
    &&& post.stack == pre.stack
    &&& post.delay_timer == pre.delay_timer
    &&& post.sound_timer == pre.sound_timer
    &&& post.use_old_bit_shift == pre.use_old_bit_shift
}

/// Drawing the same sprite twice at the same position restores every pixel
/// to its pre-draw state: XOR compositing is an involution. The origin
/// registers must not be VF, which the first draw overwrites.
pub proof fn lemma_draw_twice_restores(s0: Chip8, s1: Chip8, s2: Chip8, x: int, y: int, n: int)
    requires
        s0.wf(),
        s1.wf(),
        s2.wf(),
        0 <= x < 16,
        0 <= y < 16,
        x != 15,
        y != 15,
        draw_post(s0, s1, x, y, n),
        draw_post(s1, s2, x, y, n),
    ensures
        forall|i: int, j: int| 0 <= i < 64 && 0 <= j < 32 ==> s2.pixel(i, j) == s0.pixel(i, j),
{
    let xs = s0.registers@[x] as int % 64;
    let ys = s0.registers@[y] as int % 32;
    let address = s0.index_register as int;
    assert(s1.registers@[x] == s0.registers@[x]);
    assert(s1.registers@[y] == s0.registers@[y]);
    assert forall|i: int, j: int| 0 <= i < 64 && 0 <= j < 32 implies s2.pixel(i, j) == s0.pixel(
        i,
        j,
    ) by {
        if covers(xs, ys, n, i, j) {
            let bit = sprite_bit(s0.memory@[address + (j - ys)], i - xs);
            assert(s1.pixel(i, j) == (s0.pixel(i, j) != bit));
            assert(s2.pixel(i, j) == (s1.pixel(i, j) != bit));
        } else {
            assert(s1.pixel(i, j) == s0.pixel(i, j));
            assert(s2.pixel(i, j) == s1.pixel(i, j));
        }
    }
}

pub struct Draw {
    pub register_x: u8,
    pub register_y: u8,
    pub bytes: u8,
}

impl Draw {
    pub fn new(register_x: u8, register_y: u8, bytes: u8) -> (r: Self)
        ensures
            r == (Draw { register_x, register_y, bytes }),
    {
        Self { register_x, register_y, bytes }
    }

    pub fn execute(&self, emulator: &mut Chip8)
        requires
            old(emulator).wf(),
            self.register_x < 16,
            self.register_y < 16,
            self.bytes < 16,
            old(emulator).index_register + self.bytes <= 4096,
        ensures
            final(emulator).wf(),
            draw_post(
                *old(emulator),
                *final(emulator),
                self.register_x as int,
                self.register_y as int,
                self.bytes as int,
            ),
    {
        let ghost pre = *old(emulator);
        let x_start = (emulator.registers[self.register_x as usize] % 64) as usize;
        let y_start = (emulator.registers[self.register_y as usize] % 32) as usize;
        let address = emulator.index_register as usize;
        let n = self.bytes as usize;
        let mut collision = false;
        let mut row: usize = 0;
        while row < n
            invariant
                pre.wf(),
                emulator.wf(),
                row <= n,
                n < 16,
                x_start < 64,
                y_start < 32,
                x_start == pre.registers@[self.register_x as int] % 64,
                y_start == pre.registers@[self.register_y as int] % 32,
                address == pre.index_register,
                address + n <= 4096,
                forall|i: int, j: int|
                    0 <= i < 64 && 0 <= j < 32 ==> emulator.pixel(i, j) == (if covers(
                        x_start as int,
                        y_start as int,
                        row as int,
                        i,
                        j,
                    ) {
                        pre.pixel(i, j) != sprite_bit(pre.memory@[address + (j - y_start)], i - x_start)
                    } else {
                        pre.pixel(i, j)
                    }),
                collision <==> draw_collides(
                    pre,
                    x_start as int,
                    y_start as int,
                    row as int,
                    address as int,
                ),
                emulator.same_except_display(pre),
            decreases n - row,
        {
            let byte = emulator.memory[address + row];
            let mut i: usize = 0;
            while i < 8
                invariant
                    pre.wf(),
                    emulator.wf(),
                    row < n,
                    n < 16,
                    i <= 8,
                    x_start < 64,
                    y_start < 32,
                    x_start == pre.registers@[self.register_x as int] % 64,
                    y_start == pre.registers@[self.register_y as int] % 32,
                    address == pre.index_register,
                    address + n <= 4096,
                    byte == pre.memory@[address + row],
                    forall|ii: int, jj: int|
                        0 <= ii < 64 && 0 <= jj < 32 ==> emulator.pixel(ii, jj) == (if covers(
                            x_start as int,
                            y_start as int,
                            row as int,
                            ii,
                            jj,
                        ) || (jj == y_start + row && x_start <= ii < x_start + i) {
                            pre.pixel(ii, jj) != sprite_bit(
                                pre.memory@[address + (jj - y_start)],
                                ii - x_start,
                            )
                        } else {
                            pre.pixel(ii, jj)
                        }),
                    collision <==> (exists|ii: int, jj: int|
                        #![auto]
                        0 <= ii < 64 && 0 <= jj < 32 && (covers(
                            x_start as int,
                            y_start as int,
                            row as int,
                            ii,
                            jj,
                        ) || (jj == y_start + row && x_start <= ii < x_start + i)) && pre.pixel(
                            ii,
                            jj,
                        ) && sprite_bit(pre.memory@[address + (jj - y_start)], ii - x_start)),
                    emulator.same_except_display(pre),
                decreases 8 - i,
            {
                let shift: u8 = (7 - i) as u8;
                let bit = (byte >> shift) & 1 == 1;
                let x_pos = x_start + i;
                let y_pos = y_start + row;
                if x_pos < 64 && y_pos < 32 {
                    let current = emulator.display_data[x_pos][y_pos];
                    proof {
                        assert(current == pre.pixel(x_pos as int, y_pos as int));
                        assert(bit == sprite_bit(pre.memory@[address + row], i as int));
                    }
                    if current && bit {
                        collision = true;
                        proof {
                            assert(0 <= x_pos < 64 && 0 <= y_pos < 32 && y_pos == y_start + row
                                && x_start <= x_pos < x_start + (i + 1) && pre.pixel(
                                x_pos as int,
                                y_pos as int,
                            ) && sprite_bit(
                                pre.memory@[address + (y_pos - y_start)],
                                x_pos - x_start,
                            ));
                        }
                    } else {
                        proof {
                            assert(!(pre.pixel(x_pos as int, y_pos as int) && sprite_bit(
                                pre.memory@[address + (y_pos - y_start)],
                                x_pos - x_start,
                            )));
                        }
                    }
                    emulator.set_pixel(x_pos, y_pos, current != bit);
                }
                i += 1;
            }
            row += 1;
        }
        emulator.registers[0xF] = if collision {
            1
        } else {
            0
        };
        emulator.display_changed = true;
    }
}

} // verus!
