//! The instruction set: a closed tagged union of the decoded commands,
//! the decode table mapping a 2-byte instruction word onto it, and the
//! dispatcher executing a command against the machine state.

use crate::commands::add::{add_post, Add};
use crate::commands::add_to_index::{add_to_index_post, AddToIndex};
use crate::commands::add_value_to_register::{add_value_to_register_post, AddValueToRegister};
use crate::commands::and::{and_post, And};
use crate::commands::binary_coded_decimal::{binary_coded_decimal_post, BinaryCodedDecimal};
use crate::commands::call::{call_post, Call};
use crate::commands::clear_screen::{clear_screen_post, ClearScreen};
use crate::commands::draw::{draw_post, Draw};
use crate::commands::jump::{jump_post, Jump};
use crate::commands::load::{load_post, Load};
use crate::commands::or::{or_post, Or};
use crate::commands::read_into_registers::{read_into_registers_post, ReadIntoRegisters};
use crate::commands::return_command::{return_post, Return};
use crate::commands::set_index_register::{set_index_register_post, SetIndexRegister};
use crate::commands::set_register::{set_register_post, SetRegister};
use crate::commands::shift_left::{shift_left_post, ShiftLeft};
use crate::commands::shift_right::{shift_right_post, ShiftRight};
use crate::commands::skip_equal_x::{skip_equal_x_post, SkipEqualX};
use crate::commands::skip_equal_x_y::{skip_equal_x_y_post, SkipEqualXY};
use crate::commands::skip_not_equal_x::{skip_not_equal_x_post, SkipNotEqualX};
use crate::commands::skip_not_equal_xy::{skip_not_equal_xy_post, SkipNotEqualXY};
use crate::commands::store_registers::{store_registers_post, StoreRegisters};
use crate::commands::sub::{sub_post, Sub};
use crate::commands::sub_n::{sub_n_post, SubN};
use crate::commands::xor::{xor_post, Xor};
use crate::Chip8;
use crate::Chip8Error;
use vstd::prelude::*;

verus! {

/// A decoded instruction. Operands are register indices (one nibble),
/// immediates (one byte) or 12-bit addresses, as the comments note.
#[derive(Clone, Copy, Debug, PartialEq, Eq, Structural)]
pub enum Chip8Commands {
    ClearScreen,                // 00E0
    Return,                     // 00EE
    Jump(u16),                  // 1NNN
    Call(u16),                  // 2NNN
    SkipEqualX(u8, u8),         // 3XNN
    SkipNotEqualX(u8, u8),      // 4XNN
    SkipEqualXY(u8, u8),        // 5XY0
    SetRegister(u8, u8),        // 6XNN
    AddValueToRegister(u8, u8), // 7XNN
    Load(u8, u8),               // 8XY0
    OR(u8, u8),                 // 8XY1
    AND(u8, u8),                // 8XY2
    XOR(u8, u8),                // 8XY3
    ADD(u8, u8),                // 8XY4
    SUB(u8, u8),                // 8XY5
    ShiftRight(u8, u8),         // 8XY6
    SUBN(u8, u8),               // 8XY7
    ShiftLeft(u8, u8),          // 8XYE
    SkipNotEqualXY(u8, u8),     // 9XY0
    SetIndexRegister(u16),      // ANNN
    AddToIndex(u8),             // FX1E
    Draw(u8, u8, u8),           // DXYN
    BinaryCodedDecimal(u8),     // FX33
    StoreRegisters(u8),         // FX55
    ReadIntoRegisters(u8),      // FX65
}

/// What a 2-byte instruction word decodes to: a command, or the exact
/// fatal error for the 0NNN family and for unmapped nibble combinations.
pub open spec fn spec_decode(byte0: u8, byte1: u8) -> Result<Chip8Commands, Chip8Error> {
    let opcode = byte0 >> 4;
    let x = byte0 & 0xF;
    let y = byte1 >> 4;
    let address = (((byte0 & 0xF) as u16) << 8) | (byte1 as u16);
    if opcode == 0 {
        if byte0 == 0x00 && byte1 == 0xE0 {
            Ok(Chip8Commands::ClearScreen)
        } else if byte0 == 0x00 && byte1 == 0xEE {
            Ok(Chip8Commands::Return)
        } else {
            Err(Chip8Error::UnsupportedMachineCall { byte0, byte1 })
        }
    } else if opcode == 1 {
        Ok(Chip8Commands::Jump(address))
    } else if opcode == 2 {
        Ok(Chip8Commands::Call(address))
    } else if opcode == 3 {
        Ok(Chip8Commands::SkipEqualX(x, byte1))
    } else if opcode == 4 {
        Ok(Chip8Commands::SkipNotEqualX(x, byte1))
    } else if opcode == 5 {
        Ok(Chip8Commands::SkipEqualXY(x, y))
    } else if opcode == 6 {
        Ok(Chip8Commands::SetRegister(x, byte1))
    } else if opcode == 7 {
        Ok(Chip8Commands::AddValueToRegister(x, byte1))
    } else if opcode == 8 {
        let identifier = byte1 & 0xF;
        if identifier == 0x0 {
            Ok(Chip8Commands::Load(x, y))
        } else if identifier == 0x1 {
            Ok(Chip8Commands::OR(x, y))
        } else if identifier == 0x2 {
            Ok(Chip8Commands::AND(x, y))
        } else if identifier == 0x3 {
            Ok(Chip8Commands::XOR(x, y))
        } else if identifier == 0x4 {
            Ok(Chip8Commands::ADD(x, y))
        } else if identifier == 0x5 {
            Ok(Chip8Commands::SUB(x, y))
        } else if identifier == 0x6 {
            Ok(Chip8Commands::ShiftRight(x, y))
        } else if identifier == 0x7 {
            Ok(Chip8Commands::SUBN(x, y))
        } else if identifier == 0xE {
            Ok(Chip8Commands::ShiftLeft(x, y))
        } else {
            Err(Chip8Error::UnknownInstruction { byte0, byte1 })
        }
    } else if opcode == 9 {
        Ok(Chip8Commands::SkipNotEqualXY(x, y))
    } else if opcode == 0xA {
        Ok(Chip8Commands::SetIndexRegister(address))
    } else if opcode == 0xD {
        Ok(Chip8Commands::Draw(x, y, byte1 & 0xF))
    } else if opcode == 0xF {
        if byte1 == 0x1E {
            Ok(Chip8Commands::AddToIndex(x))
        } else if byte1 == 0x33 {
            Ok(Chip8Commands::BinaryCodedDecimal(x))
        } else if byte1 == 0x55 {
            Ok(Chip8Commands::StoreRegisters(x))
        } else if byte1 == 0x65 {
            Ok(Chip8Commands::ReadIntoRegisters(x))
        } else {
            Err(Chip8Error::UnknownInstruction { byte0, byte1 })
        }
    } else {
        Err(Chip8Error::UnknownInstruction { byte0, byte1 })
    }
}

impl Chip8Commands {
    /// Operand ranges every decoded command satisfies: register indices and
    /// sprite heights are one nibble, addresses are 12 bits.
    pub open spec fn wf(self) -> bool {
        match self {
            Chip8Commands::ClearScreen => true,
            Chip8Commands::Return => true,
            Chip8Commands::Jump(address) => address < 0x1000,
            Chip8Commands::Call(address) => address < 0x1000,
            Chip8Commands::SkipEqualX(x, _nn) => x < 16,
            Chip8Commands::SkipNotEqualX(x, _nn) => x < 16,
            Chip8Commands::SkipEqualXY(x, y) => x < 16 && y < 16,
            Chip8Commands::SetRegister(x, _nn) => x < 16,
            Chip8Commands::AddValueToRegister(x, _nn) => x < 16,
            Chip8Commands::Load(x, y) => x < 16 && y < 16,
            Chip8Commands::OR(x, y) => x < 16 && y < 16,
            Chip8Commands::AND(x, y) => x < 16 && y < 16,
            Chip8Commands::XOR(x, y) => x < 16 && y < 16,
            Chip8Commands::ADD(x, y) => x < 16 && y < 16,
            Chip8Commands::SUB(x, y) => x < 16 && y < 16,
            Chip8Commands::ShiftRight(x, y) => x < 16 && y < 16,
            Chip8Commands::SUBN(x, y) => x < 16 && y < 16,
            Chip8Commands::ShiftLeft(x, y) => x < 16 && y < 16,
            Chip8Commands::SkipNotEqualXY(x, y) => x < 16 && y < 16,
            Chip8Commands::SetIndexRegister(address) => address < 0x1000,
            Chip8Commands::AddToIndex(x) => x < 16,
            Chip8Commands::Draw(x, y, n) => x < 16 && y < 16 && n < 16,
            Chip8Commands::BinaryCodedDecimal(x) => x < 16,
            Chip8Commands::StoreRegisters(x) => x < 16,
            Chip8Commands::ReadIntoRegisters(x) => x < 16,
        }
    }
}

/// Every successfully decoded command has in-range operands.
pub proof fn lemma_decode_wf(byte0: u8, byte1: u8)
    ensures
        spec_decode(byte0, byte1) matches Ok(c) ==> c.wf(),
{
    assert(byte0 & 0xF < 16) by (bit_vector);
    assert(byte1 >> 4 < 16) by (bit_vector);
    assert(byte1 & 0xF < 16) by (bit_vector);
    assert((((byte0 & 0xF) as u16) << 8) | (byte1 as u16) < 0x1000) by (bit_vector);
}

/// Whether `c` can execute against `pre` without hitting a fatal
/// condition: Return needs a non-empty stack, index-register-relative
/// accesses must stay below address 4096, and a skip must not push the
/// program counter past 16 bits.
pub open spec fn exec_pre(pre: Chip8, c: Chip8Commands) -> bool {
    match c {
        Chip8Commands::Return => pre.stack@.len() > 0,
        Chip8Commands::SkipEqualX(_x, _nn) => pre.program_counter + 2 <= 0xFFFF,
        Chip8Commands::SkipNotEqualX(_x, _nn) => pre.program_counter + 2 <= 0xFFFF,
        Chip8Commands::SkipEqualXY(_x, _y) => pre.program_counter + 2 <= 0xFFFF,
        Chip8Commands::SkipNotEqualXY(_x, _y) => pre.program_counter + 2 <= 0xFFFF,
        Chip8Commands::Draw(_x, _y, n) => pre.index_register + n <= 4096,
        Chip8Commands::BinaryCodedDecimal(_x) => pre.index_register + 3 <= 4096,
        Chip8Commands::StoreRegisters(x) => pre.index_register + x + 1 <= 4096,
        Chip8Commands::ReadIntoRegisters(x) => pre.index_register + x + 1 <= 4096,
        _ => true,
    }
}

/// The error a command whose `exec_pre` fails is reported with. Only the
/// commands with a nontrivial `exec_pre` can reach it.
pub open spec fn exec_err(pre: Chip8, c: Chip8Commands) -> Chip8Error {
    match c {
        Chip8Commands::Return => Chip8Error::StackUnderflow,
        Chip8Commands::SkipEqualX(_x, _nn) => Chip8Error::ProgramCounterOutOfBounds {
            program_counter: pre.program_counter,
        },
        Chip8Commands::SkipNotEqualX(_x, _nn) => Chip8Error::ProgramCounterOutOfBounds {
            program_counter: pre.program_counter,
        },
        Chip8Commands::SkipEqualXY(_x, _y) => Chip8Error::ProgramCounterOutOfBounds {
            program_counter: pre.program_counter,
        },
        Chip8Commands::SkipNotEqualXY(_x, _y) => Chip8Error::ProgramCounterOutOfBounds {
            program_counter: pre.program_counter,
        },
        Chip8Commands::Draw(_x, _y, n) => Chip8Error::MemoryOutOfBounds {
            index_register: pre.index_register,
            span: n as u16,
        },
        Chip8Commands::BinaryCodedDecimal(_x) => Chip8Error::MemoryOutOfBounds {
            index_register: pre.index_register,
            span: 3,
        },
        Chip8Commands::StoreRegisters(x) => Chip8Error::MemoryOutOfBounds {
            index_register: pre.index_register,
            span: (x + 1) as u16,
        },
        Chip8Commands::ReadIntoRegisters(x) => Chip8Error::MemoryOutOfBounds {
            index_register: pre.index_register,
            span: (x + 1) as u16,
        },
        _ => arbitrary(),
    }
}

/// How `post` relates to `pre` when `c` executes: the per-command
/// execution relation, selected by one exhaustive match.
pub open spec fn exec_post(pre: Chip8, post: Chip8, c: Chip8Commands) -> bool {
    match c {
        Chip8Commands::ClearScreen => clear_screen_post(pre, post),
        Chip8Commands::Return => return_post(pre, post),
        Chip8Commands::Jump(address) => jump_post(pre, post, address),
        Chip8Commands::Call(address) => call_post(pre, post, address),
        Chip8Commands::SkipEqualX(x, nn) => skip_equal_x_post(pre, post, x as int, nn),
        Chip8Commands::SkipNotEqualX(x, nn) => skip_not_equal_x_post(pre, post, x as int, nn),
        Chip8Commands::SkipEqualXY(x, y) => skip_equal_x_y_post(pre, post, x as int, y as int),
        Chip8Commands::SetRegister(x, nn) => set_register_post(pre, post, x as int, nn),
        Chip8Commands::AddValueToRegister(x, nn) => add_value_to_register_post(
            pre,
            post,
            x as int,
            nn,
        ),
        Chip8Commands::Load(x, y) => load_post(pre, post, x as int, y as int),
        Chip8Commands::OR(x, y) => or_post(pre, post, x as int, y as int),
        Chip8Commands::AND(x, y) => and_post(pre, post, x as int, y as int),
        Chip8Commands::XOR(x, y) => xor_post(pre, post, x as int, y as int),
        Chip8Commands::ADD(x, y) => add_post(pre, post, x as int, y as int),
        Chip8Commands::SUB(x, y) => sub_post(pre, post, x as int, y as int),
        Chip8Commands::ShiftRight(x, y) => shift_right_post(pre, post, x as int, y as int),
        Chip8Commands::SUBN(x, y) => sub_n_post(pre, post, x as int, y as int),
        Chip8Commands::ShiftLeft(x, y) => shift_left_post(pre, post, x as int, y as int),
        Chip8Commands::SkipNotEqualXY(x, y) => skip_not_equal_xy_post(pre, post, x as int, y as int),
        Chip8Commands::SetIndexRegister(address) => set_index_register_post(pre, post, address),
        Chip8Commands::AddToIndex(x) => add_to_index_post(pre, post, x as int),
        Chip8Commands::Draw(x, y, n) => draw_post(pre, post, x as int, y as int, n as int),
        Chip8Commands::BinaryCodedDecimal(x) => binary_coded_decimal_post(pre, post, x as int),
        Chip8Commands::StoreRegisters(x) => store_registers_post(pre, post, x as int),
        Chip8Commands::ReadIntoRegisters(x) => read_into_registers_post(pre, post, x as int),
    }
}

impl Chip8Commands {
    /// Executes this command against the machine state, establishing its
    /// per-command execution relation.
    pub fn execute(&self, emulator: &mut Chip8)
        requires
            old(emulator).wf(),
            self.wf(),
            exec_pre(*old(emulator), *self),
        ensures
            final(emulator).wf(),
            exec_post(*old(emulator), *final(emulator), *self),
    {
        match *self {
            Chip8Commands::ClearScreen => ClearScreen::new().execute(emulator),
            Chip8Commands::Return => Return::new().execute(emulator),
            Chip8Commands::Jump(address) => Jump::new(address).execute(emulator),
            Chip8Commands::Call(address) => Call::new(address).execute(emulator),
            Chip8Commands::SkipEqualX(x, nn) => SkipEqualX::new(x, nn).execute(emulator),
            Chip8Commands::SkipNotEqualX(x, nn) => SkipNotEqualX::new(x, nn).execute(emulator),
            Chip8Commands::SkipEqualXY(x, y) => SkipEqualXY::new(x, y).execute(emulator),
            Chip8Commands::SetRegister(x, nn) => SetRegister::new(x, nn).execute(emulator),
            Chip8Commands::AddValueToRegister(x, nn) => AddValueToRegister::new(x, nn).execute(
                emulator,
            ),
            Chip8Commands::Load(x, y) => Load::new(x, y).execute(emulator),
            Chip8Commands::OR(x, y) => Or::new(x, y).execute(emulator),
            Chip8Commands::AND(x, y) => And::new(x, y).execute(emulator),
            Chip8Commands::XOR(x, y) => Xor::new(x, y).execute(emulator),
            Chip8Commands::ADD(x, y) => Add::new(x, y).execute(emulator),
            Chip8Commands::SUB(x, y) => Sub::new(x, y).execute(emulator),
            Chip8Commands::ShiftRight(x, y) => ShiftRight::new(x, y).execute(emulator),
            Chip8Commands::SUBN(x, y) => SubN::new(x, y).execute(emulator),
            Chip8Commands::ShiftLeft(x, y) => ShiftLeft::new(x, y).execute(emulator),
            Chip8Commands::SkipNotEqualXY(x, y) => SkipNotEqualXY::new(x, y).execute(emulator),
            Chip8Commands::SetIndexRegister(address) => SetIndexRegister::new(address).execute(
                emulator,
            ),
            Chip8Commands::AddToIndex(x) => AddToIndex::new(x).execute(emulator),
            Chip8Commands::Draw(x, y, n) => Draw::new(x, y, n).execute(emulator),
            Chip8Commands::BinaryCodedDecimal(x) => BinaryCodedDecimal::new(x).execute(emulator),
            Chip8Commands::StoreRegisters(x) => StoreRegisters::new(x).execute(emulator),
            Chip8Commands::ReadIntoRegisters(x) => ReadIntoRegisters::new(x).execute(emulator),
        }
    }

    /// Decodes an instruction word known to be legal; the embedding
    /// scheduler uses the total decoder instead.
    pub fn new(command: &[u8]) -> (r: Chip8Commands)
        requires
            command@.len() == 2,
            spec_decode(command@[0], command@[1]) is Ok,
        ensures
            Ok::<Chip8Commands, Chip8Error>(r) == spec_decode(command@[0], command@[1]),
    {
        match crate::commands::command_parser::parse_command(command) {
            Ok(c) => c,
            Err(_) => unreached(),
        }
    }
}

} // verus!
