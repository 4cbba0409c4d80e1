use chip8::chip8_commands::Chip8Commands;

#[test]
fn test_command_decode() {
    let commands: [[u8; 2]; 24] = [
        [0x00, 0xE0],
        [0x00, 0xEE],
        [0x11, 0x11],
        [0x63, 0x69],
        [0x75, 0x53],
        [0xAD, 0xFF],
        [0xD3, 0x28],
        [0x30, 0x05],
        [0x41, 0x45],
        [0x5A, 0xD0],
        [0x87, 0xA0],
        [0x89, 0x21],
        [0x8A, 0x32],
        [0x8B, 0x43],
        [0x8C, 0x54],
        [0x8D, 0x65],
        [0x8E, 0x76],
        [0x8F, 0x8E],
        [0x90, 0x90],
        [0xF3, 0x33],
        [0xF6, 0x55],
        [0x2A, 0x53],
        [0x83, 0x67],
        [0xF1, 0x65],
    ];
    let expected = [
        Chip8Commands::ClearScreen,
        Chip8Commands::Return,
        Chip8Commands::Jump(0x111),
        Chip8Commands::SetRegister(3, 0x69),
        Chip8Commands::AddValueToRegister(5, 0x53),
        Chip8Commands::SetIndexRegister(0xDFF),
        Chip8Commands::Draw(3, 2, 8),
        Chip8Commands::SkipEqualX(0, 5),
        Chip8Commands::SkipNotEqualX(1, 0x45),
        Chip8Commands::SkipEqualXY(0xA, 0xD),
        Chip8Commands::Load(7, 0xA),
        Chip8Commands::OR(9, 2),
        Chip8Commands::AND(0xA, 3),
        Chip8Commands::XOR(0xB, 4),
        Chip8Commands::ADD(0xC, 5),
        Chip8Commands::SUB(0xD, 6),
        Chip8Commands::ShiftRight(0xE, 7),
        Chip8Commands::ShiftLeft(0xF, 8),
        Chip8Commands::SkipNotEqualXY(0x0, 9),
        Chip8Commands::BinaryCodedDecimal(3),
        Chip8Commands::StoreRegisters(6),
        Chip8Commands::Call(0xA53),
        Chip8Commands::SUBN(3, 6),
        Chip8Commands::ReadIntoRegisters(1),
    ];

    for (i, command) in commands.into_iter().enumerate() {
        let result = Chip8Commands::new(&command);
        let expected = &expected[i];

        assert_eq!(result, *expected)
    }
}
