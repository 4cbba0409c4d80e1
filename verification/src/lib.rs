//! A verified CHIP-8 virtual machine: a 16-bit opcode decoder, an execution
//! engine over registers, memory, stack and a monochrome frame buffer, and a
//! single-step scheduler core. Rendering, ROM loading, pacing and signal
//! handling are left to the embedding program.

pub mod chip8_commands;
pub mod commands;

use vstd::prelude::*;

verus! {

/// The fatal conditions the engine can report: each carries the
/// diagnostic values the failing cycle saw.
#[derive(Clone, Copy, Debug, PartialEq, Eq, Structural)]
pub enum Chip8Error {
    /// A 0NNN machine-code call, which depends on specific hardware.
    UnsupportedMachineCall { byte0: u8, byte1: u8 },
    /// A nibble combination no instruction is mapped to.
    UnknownInstruction { byte0: u8, byte1: u8 },
    /// A fetch would read past the end of memory.
    ProgramCounterOutOfBounds { program_counter: u16 },
    /// A Return with no prior Call.
    StackUnderflow,
    /// An index-register-relative access of `span` bytes would pass address 4095.
    MemoryOutOfBounds { index_register: u16, span: u16 },
}

/// The machine state: 4096 bytes of memory, sixteen 8-bit registers,
/// a 64x32 frame buffer addressed `[x][y]`, a call stack of return
/// addresses, timers, and the shift-quirk configuration flag.
#[verifier::ext_equal]
pub struct Chip8 {
    pub memory: Vec<u8>,
    pub display_data: Vec<Vec<bool>>,
    pub program_counter: u16,
    pub index_register: u16,
    pub stack: Vec<u16>,
    pub delay_timer: u8,
    pub sound_timer: u8,
    pub registers: Vec<u8>,
    pub display_changed: bool,
    pub use_old_bit_shift: bool,
}

/// The sixteen five-byte hexadecimal digit glyphs installed at 0x050.
pub open spec fn font_data() -> Seq<u8> {
    seq![
        0xF0u8, 0x90u8, 0x90u8, 0x90u8, 0xF0u8, // 0
        0x20u8, 0x60u8, 0x20u8, 0x20u8, 0x70u8, // 1
        0xF0u8, 0x10u8, 0xF0u8, 0x80u8, 0xF0u8, // 2
        0xF0u8, 0x10u8, 0xF0u8, 0x10u8, 0xF0u8, // 3
        0x90u8, 0x90u8, 0xF0u8, 0x10u8, 0x10u8, // 4
        0xF0u8, 0x80u8, 0xF0u8, 0x10u8, 0xF0u8, // 5
        0xF0u8, 0x80u8, 0xF0u8, 0x90u8, 0xF0u8, // 6
        0xF0u8, 0x10u8, 0x20u8, 0x40u8, 0x40u8, // 7
        0xF0u8, 0x90u8, 0xF0u8, 0x90u8, 0xF0u8, // 8
        0xF0u8, 0x90u8, 0xF0u8, 0x10u8, 0xF0u8, // 9
        0xF0u8, 0x90u8, 0xF0u8, 0x90u8, 0x90u8, // A
        0xE0u8, 0x90u8, 0xE0u8, 0x90u8, 0xE0u8, // B
        0xF0u8, 0x80u8, 0x80u8, 0x80u8, 0xF0u8, // C
        0xE0u8, 0x90u8, 0x90u8, 0x90u8, 0xE0u8, // D
        0xF0u8, 0x80u8, 0xF0u8, 0x80u8, 0xF0u8, // E
        0xF0u8, 0x80u8, 0xF0u8, 0x80u8, 0x80u8, // F
    ]
}

impl Chip8 {
    /// The structural invariant: fixed memory, register and frame buffer sizes.
    pub open spec fn wf(self) -> bool {
        &&& self.memory@.len() == 4096
        &&& self.registers@.len() == 16
        &&& self.display_data@.len() == 64
        &&& forall|x: int| 0 <= x < 64 ==> (#[trigger] self.display_data@[x])@.len() == 32
    }

    /// The pixel at column `x`, row `y` of the frame buffer.
    pub open spec fn pixel(self, x: int, y: int) -> bool {
        self.display_data@[x]@[y]
    }

    /// Everything except the general-purpose registers is unchanged.
    pub open spec fn same_except_registers(self, other: Chip8) -> bool {
        &&& self.memory == other.memory
        &&& self.display_data == other.display_data
        &&& self.program_counter == other.program_counter
        &&& self.index_register == other.index_register
        &&& self.stack == other.stack
        &&& self.delay_timer == other.delay_timer
        &&& self.sound_timer == other.sound_timer
        &&& self.display_changed == other.display_changed
        &&& self.use_old_bit_shift == other.use_old_bit_shift
    }

    /// Everything except the program counter is unchanged.
    pub open spec fn same_except_program_counter(self, other: Chip8) -> bool {
        &&& self.memory == other.memory
        &&& self.display_data == other.display_data
        &&& self.index_register == other.index_register
        &&& self.stack == other.stack
        &&& self.delay_timer == other.delay_timer
        &&& self.sound_timer == other.sound_timer
        &&& self.registers == other.registers
        &&& self.display_changed == other.display_changed
        &&& self.use_old_bit_shift == other.use_old_bit_shift
    }

    /// Everything except the program counter and the call stack is unchanged.
    pub open spec fn same_except_control_flow(self, other: Chip8) -> bool {
        &&& self.memory == other.memory
        &&& self.display_data == other.display_data
        &&& self.index_register == other.index_register
        &&& self.delay_timer == other.delay_timer
        &&& self.sound_timer == other.sound_timer
        &&& self.registers == other.registers
        &&& self.display_changed == other.display_changed
        &&& self.use_old_bit_shift == other.use_old_bit_shift
    }

    /// Everything except memory is unchanged.
    pub open spec fn same_except_memory(self, other: Chip8) -> bool {
        &&& self.display_data == other.display_data
        &&& self.program_counter == other.program_counter
        &&& self.index_register == other.index_register
        &&& self.stack == other.stack
        &&& self.delay_timer == other.delay_timer
        &&& self.sound_timer == other.sound_timer
        &&& self.registers == other.registers
        &&& self.display_changed == other.display_changed
        &&& self.use_old_bit_shift == other.use_old_bit_shift
    }

    /// Everything except the index register is unchanged.
    pub open spec fn same_except_index_register(self, other: Chip8) -> bool {
        &&& self.memory == other.memory
        &&& self.display_data == other.display_data
        &&& self.program_counter == other.program_counter
        &&& self.stack == other.stack
        &&& self.delay_timer == other.delay_timer
        &&& self.sound_timer == other.sound_timer
        &&& self.registers == other.registers
        &&& self.display_changed == other.display_changed
        &&& self.use_old_bit_shift == other.use_old_bit_shift
    }

    /// Everything except the frame buffer is unchanged.
    pub open spec fn same_except_display(self, other: Chip8) -> bool {
        &&& self.memory == other.memory
        &&& self.program_counter == other.program_counter
        &&& self.index_register == other.index_register
        &&& self.stack == other.stack
        &&& self.delay_timer == other.delay_timer
        &&& self.sound_timer == other.sound_timer
        &&& self.registers == other.registers
        &&& self.display_changed == other.display_changed
        &&& self.use_old_bit_shift == other.use_old_bit_shift
    }

    /// Whether a 2-byte fetch at the program counter stays inside memory.
    pub open spec fn fetch_ok(self) -> bool {
        self.program_counter + 2 <= 4096
    }

    /// The first byte of the instruction word at the program counter.
    pub open spec fn fetched_byte0(self) -> u8 {
        self.memory@[self.program_counter as int]
    }

    /// The second byte of the instruction word at the program counter.
    pub open spec fn fetched_byte1(self) -> u8 {
        self.memory@[self.program_counter as int + 1]
    }

    /// The state after the fetch, before execution: the program counter
    /// advanced by one instruction, everything else untouched.
    pub open spec fn advanced(self) -> Chip8 {
        Chip8 { program_counter: (self.program_counter + 2) as u16, ..self }
    }

    /// One cycle of the engine: fetch the 2 bytes at the program counter,
    /// advance the counter by 2 (before execution, so control flow sees the
    /// post-fetch value), decode, and execute. Every fatal condition comes
    /// back as the exact error, with the machine left at the post-fetch
    /// state; decode and execution never panic and are never retried.
    pub fn step(&mut self) -> (r: Result<(), Chip8Error>)
        requires
            old(self).wf(),
        ensures
            final(self).wf(),
            !old(self).fetch_ok() ==> r == Err::<(), Chip8Error>(
                Chip8Error::ProgramCounterOutOfBounds {
                    program_counter: old(self).program_counter,
                },
            ) && *final(self) == *old(self),
            old(self).fetch_ok() ==> match chip8_commands::spec_decode(
                old(self).fetched_byte0(),
                old(self).fetched_byte1(),
            ) {
                Err(e) => r == Err::<(), Chip8Error>(e) && *final(self) == old(self).advanced(),
                Ok(command) => if chip8_commands::exec_pre(old(self).advanced(), command) {
                    r == Ok::<(), Chip8Error>(()) && chip8_commands::exec_post(
                        old(self).advanced(),
                        *final(self),
                        command,
                    )
                } else {
                    r == Err::<(), Chip8Error>(
                        chip8_commands::exec_err(old(self).advanced(), command),
                    ) && *final(self) == old(self).advanced()
                },
            },
    {
        let pc = self.program_counter as usize;
        if pc + 2 > 4096 {
            return Err(
                Chip8Error::ProgramCounterOutOfBounds { program_counter: self.program_counter },
            );
        }
        let byte0 = self.memory[pc];
        let byte1 = self.memory[pc + 1];
        self.program_counter = self.program_counter + 2;
        proof {
            assert(*self =~= old(self).advanced());
        }
        let word: [u8; 2] = [byte0, byte1];
        let command = match commands::command_parser::parse_command(word.as_slice()) {
            Ok(command) => command,
            Err(e) => {
                return Err(e);
            },
        };
        proof {
            chip8_commands::lemma_decode_wf(byte0, byte1);
        }
        match command {
            chip8_commands::Chip8Commands::Return => {
                if self.stack.len() == 0 {
                    return Err(Chip8Error::StackUnderflow);
                }
            },
            chip8_commands::Chip8Commands::Draw(_x, _y, n) => {
                if self.index_register as usize + n as usize > 4096 {
                    return Err(
                        Chip8Error::MemoryOutOfBounds {
                            index_register: self.index_register,
                            span: n as u16,
                        },
                    );
                }
            },
            chip8_commands::Chip8Commands::BinaryCodedDecimal(_x) => {
                if self.index_register as usize + 3 > 4096 {
                    return Err(
                        Chip8Error::MemoryOutOfBounds {
                            index_register: self.index_register,
                            span: 3,
                        },
                    );
                }
            },
            chip8_commands::Chip8Commands::StoreRegisters(x) => {
                if self.index_register as usize + x as usize + 1 > 4096 {
                    return Err(
                        Chip8Error::MemoryOutOfBounds {
                            index_register: self.index_register,
                            span: x as u16 + 1,
                        },
                    );
                }
            },
            chip8_commands::Chip8Commands::ReadIntoRegisters(x) => {
                if self.index_register as usize + x as usize + 1 > 4096 {
                    return Err(
                        Chip8Error::MemoryOutOfBounds {
                            index_register: self.index_register,
                            span: x as u16 + 1,
                        },
                    );
                }
            },
            _ => {},
        }
        command.execute(self);
        Ok(())
    }

    /// Writes one pixel of the frame buffer, leaving every other pixel alone.
    pub(crate) fn set_pixel(&mut self, x: usize, y: usize, value: bool)
        requires
            old(self).wf(),
            x < 64,
            y < 32,
        ensures
            final(self).wf(),
            forall|i: int|
                0 <= i < 64 && i != x ==> final(self).display_data@[i] == old(
                    self,
                ).display_data@[i],
            final(self).display_data@[x as int]@ == old(self).display_data@[x as int]@.update(
                y as int,
                value,
            ),
            forall|i: int, j: int|
                0 <= i < 64 && 0 <= j < 32 && !(i == x && j == y) ==> final(self).pixel(i, j)
                    == old(self).pixel(i, j),
            final(self).pixel(x as int, y as int) == value,
            final(self).same_except_display(*old(self)),
    {
        let row = &mut self.display_data[x];
        row[y] = value;
    }

    /// A fresh machine: memory zeroed except the font glyphs at 0x050,
    /// display cleared, registers and timers zeroed, program counter at 0x200.
    pub fn new() -> (r: Chip8)
        ensures
            r.wf(),
            forall|a: int|
                0 <= a < 4096 ==> r.memory@[a] == (if 0x50 <= a < 0xA0 {
                    font_data()[a - 0x50]
                } else {
                    0u8
                }),
            forall|x: int, y: int| 0 <= x < 64 && 0 <= y < 32 ==> !r.pixel(x, y),
            r.program_counter == 0x200,
            r.index_register == 0,
            r.stack@.len() == 0,
            r.delay_timer == 0,
            r.sound_timer == 0,
            forall|i: int| 0 <= i < 16 ==> r.registers@[i] == 0,
            !r.display_changed,
            !r.use_old_bit_shift,
    {
        let mut display_data: Vec<Vec<bool>> = Vec::new();
        let mut x: usize = 0;
        while x < 64
            invariant
                x <= 64,
                display_data@.len() == x,
                forall|i: int|
                    0 <= i < x ==> (#[trigger] display_data@[i])@ =~= Seq::new(
                        32,
                        |j: int| false,
                    ),
            decreases 64 - x,
        {
            display_data.push(vec![false; 32]);
            x += 1;
        }

        let mut new_chip8 = Chip8 {
            memory: vec![0u8; 4096],
            display_data,
            program_counter: 0x200,
            index_register: 0,
            stack: Vec::new(),
            delay_timer: 0,
            sound_timer: 0,
            registers: vec![0u8; 16],
            display_changed: false,
            use_old_bit_shift: false,
        };

        new_chip8.set_defaults();
        new_chip8
    }

    fn set_defaults(&mut self)
        requires
            old(self).wf(),
        ensures
            final(self).wf(),
            forall|a: int|
                0 <= a < 4096 ==> final(self).memory@[a] == (if 0x50 <= a < 0xA0 {
                    font_data()[a - 0x50]
                } else {
                    old(self).memory@[a]
                }),
            final(self).same_except_memory(*old(self)),
    {
        self.set_fonts();
    }

    /// Loads a program image at 0x200. Oversized images do not fit in memory
    /// and are refused by the precondition; the caller must check first.
    pub fn load_program(&mut self, program: &[u8])
        requires
            old(self).wf(),
            program@.len() <= 4096 - 0x200,
        ensures
            final(self).wf(),
            forall|a: int|
                0x200 <= a < 0x200 + program@.len() ==> final(self).memory@[a] == program@[a
                    - 0x200],
            forall|a: int|
                0 <= a < 4096 && !(0x200 <= a < 0x200 + program@.len())
                    ==> final(self).memory@[a] == old(self).memory@[a],
            final(self).same_except_memory(*old(self)),
    {
        let mut i: usize = 0;
        while i < program.len()
            invariant
                old(self).wf(),
                self.wf(),
                i <= program@.len(),
                program@.len() <= 4096 - 0x200,
                forall|a: int| 0x200 <= a < 0x200 + i ==> self.memory@[a] == program@[a - 0x200],
                forall|a: int|
                    0 <= a < 4096 && !(0x200 <= a < 0x200 + i) ==> self.memory@[a] == old(
                        self,
                    ).memory@[a],
                self.same_except_memory(*old(self)),
            decreases program@.len() - i,
        {
            self.memory[0x200 + i] = program[i];
            i += 1;
        }
    }

    fn set_fonts(&mut self)
        requires
            old(self).wf(),
        ensures
            final(self).wf(),
            forall|a: int|
                0 <= a < 4096 ==> final(self).memory@[a] == (if 0x50 <= a < 0xA0 {
                    font_data()[a - 0x50]
                } else {
                    old(self).memory@[a]
                }),
            final(self).same_except_memory(*old(self)),
    {
        let font: [u8; 80] = [
            0xF0, 0x90, 0x90, 0x90, 0xF0, // 0
            0x20, 0x60, 0x20, 0x20, 0x70, // 1
            0xF0, 0x10, 0xF0, 0x80, 0xF0, // 2
            0xF0, 0x10, 0xF0, 0x10, 0xF0, // 3
            0x90, 0x90, 0xF0, 0x10, 0x10, // 4
            0xF0, 0x80, 0xF0, 0x10, 0xF0, // 5
            0xF0, 0x80, 0xF0, 0x90, 0xF0, // 6
            0xF0, 0x10, 0x20, 0x40, 0x40, // 7
            0xF0, 0x90, 0xF0, 0x90, 0xF0, // 8
            0xF0, 0x90, 0xF0, 0x10, 0xF0, // 9
            0xF0, 0x90, 0xF0, 0x90, 0x90, // A
            0xE0, 0x90, 0xE0, 0x90, 0xE0, // B
            0xF0, 0x80, 0x80, 0x80, 0xF0, // C
            0xE0, 0x90, 0x90, 0x90, 0xE0, // D
            0xF0, 0x80, 0xF0, 0x80, 0xF0, // E
            0xF0, 0x80, 0xF0, 0x80, 0x80, // F
        ];
        proof {
            assert(font@ =~= font_data());
        }
        let mut i: usize = 0;
        while i < 80
            invariant
                old(self).wf(),
                self.wf(),
                i <= 80,
                font@ =~= font_data(),
                forall|a: int|
                    0x50 <= a < 0x50 + i ==> self.memory@[a] == font_data()[a - 0x50],
                forall|a: int|
                    0 <= a < 4096 && !(0x50 <= a < 0x50 + i) ==> self.memory@[a] == old(
                        self,
                    ).memory@[a],
                self.same_except_memory(*old(self)),
            decreases 80 - i,
        {
            self.memory[0x50 + i] = font[i];
            i += 1;
        }
    }
}

} // verus!
