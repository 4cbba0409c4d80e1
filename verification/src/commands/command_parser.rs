//! The total decoder: a 2-byte instruction word to a command, or the
//! exact fatal error for illegal words.

use crate::chip8_commands::{spec_decode, Chip8Commands};
use crate::Chip8Error;
use vstd::prelude::*;

verus! {

/// Decodes the 2-byte instruction word. Deterministic and total: legal words
/// give exactly the command of the decode table, the 0NNN family gives
/// `UnsupportedMachineCall`, and unmapped words give `UnknownInstruction`.
pub fn parse_command(command: &[u8]) -> (r: Result<Chip8Commands, Chip8Error>)
    requires
        command@.len() == 2,
    ensures
        r == spec_decode(command@[0], command@[1]),
{
    let byte0 = command[0];
    let byte1 = command[1];
    let opcode = (byte0 & 0xF0) >> 4;
    proof {
        assert((byte0 & 0xF0) >> 4 == byte0 >> 4) by (bit_vector);
    }
    let x = byte0 & 0xF;
    let y = (byte1 >> 4) & 0xF;
    proof {
        assert((byte1 >> 4) & 0xF == byte1 >> 4) by (bit_vector);
    }
    let address = ((byte0 as u16 & 0xF) << 8) | byte1 as u16;
    proof {
        assert((byte0 as u16 & 0xF) << 8 == (((byte0 & 0xF) as u16) << 8)) by (bit_vector);
    }
    match opcode {
        0 => {
            if byte0 == 0x00 && byte1 == 0xE0 {
                Ok(Chip8Commands::ClearScreen)
            } else if byte0 == 0x00 && byte1 == 0xEE {
                Ok(Chip8Commands::Return)
            } else {
                Err(Chip8Error::UnsupportedMachineCall { byte0, byte1 })
            }
        },
        1 => Ok(Chip8Commands::Jump(address)),
        2 => Ok(Chip8Commands::Call(address)),
        3 => Ok(Chip8Commands::SkipEqualX(x, byte1)),
        4 => Ok(Chip8Commands::SkipNotEqualX(x, byte1)),
        5 => Ok(Chip8Commands::SkipEqualXY(x, y)),
        6 => Ok(Chip8Commands::SetRegister(x, byte1)),
        7 => Ok(Chip8Commands::AddValueToRegister(x, byte1)),
        8 => {
            let identifier = byte1 & 0xF;
            match identifier {
                0x0 => Ok(Chip8Commands::Load(x, y)),
                0x1 => Ok(Chip8Commands::OR(x, y)),
                0x2 => Ok(Chip8Commands::AND(x, y)),
                0x3 => Ok(Chip8Commands::XOR(x, y)),
                0x4 => Ok(Chip8Commands::ADD(x, y)),
                0x5 => Ok(Chip8Commands::SUB(x, y)),
                0x6 => Ok(Chip8Commands::ShiftRight(x, y)),
                0x7 => Ok(Chip8Commands::SUBN(x, y)),
                0xE => Ok(Chip8Commands::ShiftLeft(x, y)),
                _ => Err(Chip8Error::UnknownInstruction { byte0, byte1 }),
            }
        },
        9 => Ok(Chip8Commands::SkipNotEqualXY(x, y)),
        0xA => Ok(Chip8Commands::SetIndexRegister(address)),
        0xD => Ok(Chip8Commands::Draw(x, y, byte1 & 0xF)),
        0xF => {
            match byte1 {
                0x1E => Ok(Chip8Commands::AddToIndex(x)),
                0x33 => Ok(Chip8Commands::BinaryCodedDecimal(x)),
                0x55 => Ok(Chip8Commands::StoreRegisters(x)),
                0x65 => Ok(Chip8Commands::ReadIntoRegisters(x)),
                _ => Err(Chip8Error::UnknownInstruction { byte0, byte1 }),
            }
        },
        _ => Err(Chip8Error::UnknownInstruction { byte0, byte1 }),
    }
}

} // verus!
