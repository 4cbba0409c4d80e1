use chip8::commands::add::Add;
use chip8::commands::add_to_index::AddToIndex;
use chip8::commands::add_value_to_register::AddValueToRegister;
use chip8::commands::and::And;
use chip8::commands::binary_coded_decimal::BinaryCodedDecimal;
use chip8::commands::call::Call;
use chip8::commands::clear_screen::ClearScreen;
use chip8::commands::draw::Draw;
use chip8::commands::jump::Jump;
use chip8::commands::load::Load;
use chip8::commands::or::Or;
use chip8::commands::read_into_registers::ReadIntoRegisters;
use chip8::commands::return_command::Return;
use chip8::commands::set_index_register::SetIndexRegister;
use chip8::commands::set_register::SetRegister;
use chip8::commands::shift_left::ShiftLeft;
use chip8::commands::skip_equal_x::SkipEqualX;
use chip8::commands::skip_equal_x_y::SkipEqualXY;
use chip8::commands::skip_not_equal_x::SkipNotEqualX;
use chip8::commands::skip_not_equal_xy::SkipNotEqualXY;
use chip8::commands::store_registers::StoreRegisters;
use chip8::commands::sub::Sub;
use chip8::commands::sub_n::SubN;
use chip8::commands::xor::Xor;
use chip8::Chip8;

#[test]
fn add_test_add_registers() {
    let mut emulator = Chip8::new();
    emulator.registers[0] = 6;
    emulator.registers[5] = 5;

    Add::new(0, 5).execute(&mut emulator);

    assert_eq!(emulator.registers[0], 11);
}

#[test]
fn add_test_add_registers_overflow() {
    let mut emulator = Chip8::new();
    emulator.registers[0] = 255;
    emulator.registers[5] = 5;

    Add::new(0, 5).execute(&mut emulator);

    assert_eq!(emulator.registers[0], 4);
    assert_eq!(emulator.registers[0xF], 1);
}

#[test]
fn add_to_index_test_add_to_index() {
    let mut emulator = Chip8::new();
    emulator.index_register = 0x200;
    emulator.registers[5] = 10;

    AddToIndex::new(5).execute(&mut emulator);

    assert_eq!(emulator.index_register, 0x20A);
}

#[test]
fn add_value_to_register_test_add_to_register() {
    let mut emulator = Chip8::new();

    AddValueToRegister::new(2, 6).execute(&mut emulator);
    AddValueToRegister::new(2, 9).execute(&mut emulator);

    assert_eq!(emulator.registers[2], 15);
}

#[test]
fn add_value_to_register_test_add_to_register_overflow_shouldnt_fail() {
    let mut emulator = Chip8::new();

    AddValueToRegister::new(2, 129).execute(&mut emulator);
    AddValueToRegister::new(2, 128).execute(&mut emulator);

    assert_eq!(emulator.registers[2], 1);
}

#[test]
fn and_test_bitwise_and() {
    let mut emulator = Chip8::new();
    emulator.registers[0] = 0b10101111;
    emulator.registers[5] = 0b01010001;

    And::new(0, 5).execute(&mut emulator);

    assert_eq!(emulator.registers[0], 1)
}

#[test]
fn binary_coded_decimal_test_binary_coded_decimal_htu() {
    let mut emulator = Chip8::new();
    emulator.index_register = 0x200;
    emulator.registers[0] = 235;

    BinaryCodedDecimal::new(0).execute(&mut emulator);

    assert_eq!(emulator.memory[0x200], 2);
    assert_eq!(emulator.memory[0x201], 3);
    assert_eq!(emulator.memory[0x202], 5);
}

#[test]
fn binary_coded_decimal_test_binary_coded_decimal_hu() {
    let mut emulator = Chip8::new();
    emulator.index_register = 0x200;
    emulator.registers[0] = 205;

    BinaryCodedDecimal::new(0).execute(&mut emulator);

    assert_eq!(emulator.memory[0x200], 2);
    assert_eq!(emulator.memory[0x201], 0);
    assert_eq!(emulator.memory[0x202], 5);
}

#[test]
fn binary_coded_decimal_test_binary_coded_decimal_u() {
    let mut emulator = Chip8::new();
    emulator.index_register = 0x200;
    emulator.registers[0] = 5;

    BinaryCodedDecimal::new(0).execute(&mut emulator);

    assert_eq!(emulator.memory[0x200], 0);
    assert_eq!(emulator.memory[0x201], 0);
    assert_eq!(emulator.memory[0x202], 5);
}

#[test]
fn binary_coded_decimal_test_binary_coded_decimal_h() {
    let mut emulator = Chip8::new();
    emulator.index_register = 0x200;
    emulator.registers[0] = 200;

    BinaryCodedDecimal::new(0).execute(&mut emulator);

    assert_eq!(emulator.memory[0x200], 2);
    assert_eq!(emulator.memory[0x201], 0);
    assert_eq!(emulator.memory[0x202], 0);
}

#[test]
fn binary_coded_decimal_test_binary_coded_decimal_t() {
    let mut emulator = Chip8::new();
    emulator.index_register = 0x200;
    emulator.registers[0] = 30;

    BinaryCodedDecimal::new(0).execute(&mut emulator);

    assert_eq!(emulator.memory[0x200], 0);
    assert_eq!(emulator.memory[0x201], 3);
    assert_eq!(emulator.memory[0x202], 0);
}

#[test]
fn call_test_call_function() {
    let mut emulator = Chip8::new();
    emulator.program_counter = 0x200;

    Call::new(0x543).execute(&mut emulator);

    assert_eq!(emulator.stack.len(), 1);
    assert_eq!(emulator.stack[0], 0x200);
    assert_eq!(emulator.program_counter, 0x543);
}

#[test]
fn test_clear_screen() {
    let mut emulator = Chip8::new();
    for x in 0..64 {
        for y in 0..32 {
            emulator.display_data[x][y] = true;
        }
    }

    ClearScreen::new().execute(&mut emulator);

    for row in emulator.display_data {
        for pixel in row {
            assert!(!pixel)
        }
    }
}

#[test]
fn draw_test_draw_command() {
    let mut emulator = Chip8::new();
    emulator.memory[0x200] = 0xFF;
    emulator.memory[0x201] = 0xFF;
    emulator.memory[0x202] = 0xFF;
    emulator.memory[0x203] = 0xFF;
    emulator.index_register = 0x200;
    emulator.registers[0] = 3;
    emulator.registers[1] = 2;

    let command = Draw::new(0, 1, 4);

    command.execute(&mut emulator);

    for x in 0..64 {
        for y in 0..32 {
            if (3..11).contains(&x) && (2..6).contains(&y) {
                assert!(
                    emulator.display_data[x][y],
                    "pixel {}, {} not set correctly",
                    x, y
                );
            } else {
                assert!(
                    !emulator.display_data[x][y],
                    "pixel {}, {} not set correctly",
                    x, y
                );
            }
        }
    }
}

#[test]
fn draw_test_draw_ovewrite() {
    let mut emulator = Chip8::new();
    emulator.memory[0x200] = 0xFF;
    emulator.memory[0x201] = 0xFF;
    emulator.memory[0x202] = 0xFF;
    emulator.memory[0x203] = 0xFF;
    emulator.index_register = 0x200;
    emulator.display_data[3][2] = true;
    emulator.registers[0] = 3;
    emulator.registers[1] = 2;

    let command = Draw::new(0, 1, 4);

    command.execute(&mut emulator);

    for x in 0..64 {
        for y in 0..32 {
            if (3..11).contains(&x) && (2..6).contains(&y) {
                if x == 3 && y == 2 {
                    assert!(
                        !emulator.display_data[x][y],
                        "pixel {}, {} not set correctly",
                        x, y
                    );
                } else {
                    assert!(
                        emulator.display_data[x][y],
                        "pixel {}, {} not set correctly",
                        x, y
                    );
                }
            } else {
                assert!(
                    !emulator.display_data[x][y],
                    "pixel {}, {} not set correctly",
                    x, y
                );
            }
        }
    }
    assert_eq!(emulator.registers[0xF], 1);
    assert!(emulator.display_changed);
}

#[test]
fn draw_test_sprite_position_does_wrap() {
    let mut emulator = Chip8::new();
    emulator.memory[0x200] = 0xFF;
    emulator.memory[0x201] = 0xFF;
    emulator.memory[0x202] = 0xFF;
    emulator.memory[0x203] = 0xFF;
    emulator.index_register = 0x200;
    emulator.registers[0] = 66;
    emulator.registers[1] = 33;

    let command = Draw::new(0, 1, 4);

    command.execute(&mut emulator);

    for x in 0..64 {
        for y in 0..32 {
            if (2..10).contains(&x) && (1..5).contains(&y) {
                assert!(
                    emulator.display_data[x][y],
                    "pixel {}, {} not set correctly",
                    x, y
                );
            } else {
                assert!(
                    !emulator.display_data[x][y],
                    "pixel {}, {} not set correctly",
                    x, y
                );
            }
        }
    }
    assert!(emulator.display_changed);
}

#[test]
fn draw_test_draw_sprite_does_not_wrap() {
    let mut emulator = Chip8::new();
    emulator.memory[0x200] = 0xFF;
    emulator.memory[0x201] = 0xFF;
    emulator.memory[0x202] = 0xFF;
    emulator.memory[0x203] = 0xFF;
    emulator.index_register = 0x200;
    emulator.registers[0] = 62;
    emulator.registers[1] = 30;

    let command = Draw::new(0, 1, 4);

    command.execute(&mut emulator);

    for x in 0..64 {
        for y in 0..32 {
            if (62..64).contains(&x) && (30..32).contains(&y) {
                assert!(
                    emulator.display_data[x][y],
                    "pixel {}, {} not set correctly",
                    x, y
                );
            } else {
                assert!(
                    !emulator.display_data[x][y],
                    "pixel {}, {} not set correctly",
                    x, y
                );
            }
        }
    }
    assert!(emulator.display_changed);
}

#[test]
fn draw_test_draw_bit_order() {
    let mut emulator = Chip8::new();
    emulator.memory[0x200] = 0b11110000;
    emulator.index_register = 0x200;
    emulator.registers[0] = 0;
    emulator.registers[1] = 0;

    let command = Draw::new(0, 1, 1);

    command.execute(&mut emulator);

    for x in 0..64 {
        for y in 0..32 {
            if y == 0 && (0..4).contains(&x) {
                assert!(
                    emulator.display_data[x][y],
                    "pixel {}, {} not set correctly",
                    x, y
                );
            } else {
                assert!(
                    !emulator.display_data[x][y],
                    "pixel {}, {} not set correctly",
                    x, y
                );
            }
        }
    }
    assert!(emulator.display_changed);
}

#[test]
fn jump_test_jump() {
    let mut emulator = Chip8::new();

    Jump::new(0x22A).execute(&mut emulator);

    assert_eq!(emulator.program_counter, 0x22a);
}

#[test]
fn load_test_load_register_to_register() {
    let mut emulator = Chip8::new();
    emulator.registers[0] = 0;
    emulator.registers[5] = 70;
    Load::new(0, 5).execute(&mut emulator);

    assert_eq!(emulator.registers[0], 70);
}

#[test]
fn or_test_bitwise_or() {
    let mut emulator = Chip8::new();
    emulator.registers[0] = 0b10101110;
    emulator.registers[5] = 0b01010000;

    Or::new(0, 5).execute(&mut emulator);

    assert_eq!(emulator.registers[0], 0xFE)
}

#[test]
fn read_into_registers_test_command_read_into_registers() {
    let mut emulator = Chip8::new();
    emulator.index_register = 0x200;
    emulator.registers[0] = 0;
    emulator.registers[1] = 0;

    emulator.memory[0x200] = 20;
    emulator.memory[0x201] = 21;

    ReadIntoRegisters::new(1).execute(&mut emulator);

    assert_eq!(emulator.registers[0], 20);
    assert_eq!(emulator.registers[1], 21);
}

#[test]
fn return_command_test_return() {
    let mut emulator = Chip8::new();
    emulator.stack = vec![0x208];
    emulator.program_counter = 0x500;

    Return::new().execute(&mut emulator);

    assert_eq!(emulator.program_counter, 0x208);
}

#[test]
fn set_index_register_test_set_index_register() {
    let mut emulator = Chip8::new();

    SetIndexRegister::new(0xFFF).execute(&mut emulator);

    assert_eq!(emulator.index_register, 0xFFF);
}

#[test]
fn set_register_test_set_register() {
    let mut emulator = Chip8::new();

    SetRegister::new(2, 69).execute(&mut emulator);

    assert_eq!(emulator.registers[2], 69);
}

#[test]
fn shift_left_test_shift_left_bit_1() {
    let mut emulator = Chip8::new();
    emulator.registers[0] = 0xFF;
    ShiftLeft::new(0, 5).execute(&mut emulator);

    assert_eq!(emulator.registers[0], 0xFE);
    assert_eq!(emulator.registers[0xF], 1);
}

#[test]
fn shift_left_test_shift_left_bit_0() {
    let mut emulator = Chip8::new();
    emulator.registers[0] = 0x7F;

    ShiftLeft::new(0, 5).execute(&mut emulator);

    assert_eq!(emulator.registers[0], 0xFE);
    assert_eq!(emulator.registers[0xF], 0);
}

#[test]
fn shift_left_test_shift_left_bit_1_vy_used() {
    let mut emulator = Chip8::new();
    emulator.use_old_bit_shift = true;
    emulator.registers[5] = 0xFF;

    ShiftLeft::new(0, 5).execute(&mut emulator);

    assert_eq!(emulator.registers[0], 0xFE);
    assert_eq!(emulator.registers[0xF], 1);
}

#[test]
fn shift_left_test_shift_left_bit_0_vy_used() {
    let mut emulator = Chip8::new();
    emulator.use_old_bit_shift = true;
    emulator.registers[5] = 0x7F;

    ShiftLeft::new(0, 5).execute(&mut emulator);

    assert_eq!(emulator.registers[0], 0xFE);
    assert_eq!(emulator.registers[0xF], 0);
}

#[test]
fn skip_equal_x_test_skip_equal_to_register() {
    let mut emulator = Chip8::new();
    emulator.registers[0] = 6;
    emulator.program_counter = 0x200;
    let command = SkipEqualX::new(0, 0x6);

    command.execute(&mut emulator);

    assert_eq!(emulator.program_counter, 0x202)
}

#[test]
fn skip_equal_x_test_skip_equal_to_register_not_equal() {
    let mut emulator = Chip8::new();
    emulator.registers[0] = 7;
    emulator.program_counter = 0x200;
    let command = SkipEqualX::new(0, 0x6);

    command.execute(&mut emulator);

    assert_eq!(emulator.program_counter, 0x200)
}

#[test]
fn skip_equal_x_y_test_not_equal_to_registers() {
    let mut emulator = Chip8::new();
    emulator.registers[0] = 6;
    emulator.registers[1] = 6;
    emulator.program_counter = 0x200;
    SkipEqualXY::new(0, 1).execute(&mut emulator);

    assert_eq!(emulator.program_counter, 0x202)
}

#[test]
fn skip_equal_x_y_test_skip_equal_to_registers_not_equal() {
    let mut emulator = Chip8::new();
    emulator.registers[0] = 7;
    emulator.registers[1] = 6;
    emulator.program_counter = 0x200;
    SkipEqualXY::new(0, 1).execute(&mut emulator);

    assert_eq!(emulator.program_counter, 0x200)
}

#[test]
fn skip_not_equal_x_test_not_skip_equal_to_register() {
    let mut emulator = Chip8::new();
    emulator.registers[0] = 6;
    emulator.program_counter = 0x200;
    SkipNotEqualX::new(0, 0x7).execute(&mut emulator);

    assert_eq!(emulator.program_counter, 0x202)
}

#[test]
fn skip_not_equal_x_test_skip_not_equal_to_register_equal() {
    let mut emulator = Chip8::new();
    emulator.registers[0] = 7;
    emulator.program_counter = 0x200;
    SkipNotEqualX::new(0, 0x7).execute(&mut emulator);

    assert_eq!(emulator.program_counter, 0x200)
}

#[test]
fn skip_not_equal_xy_test_not_not_equal_to_registers() {
    let mut emulator = Chip8::new();
    emulator.registers[0] = 6;
    emulator.registers[1] = 6;
    emulator.program_counter = 0x200;
    SkipNotEqualXY::new(0, 1).execute(&mut emulator);

    assert_eq!(emulator.program_counter, 0x200)
}

#[test]
fn skip_not_equal_xy_test_skip_not_equal_to_registers_equal() {
    let mut emulator = Chip8::new();
    emulator.registers[0] = 7;
    emulator.registers[1] = 6;
    emulator.program_counter = 0x200;
    SkipNotEqualXY::new(0, 1).execute(&mut emulator);

    assert_eq!(emulator.program_counter, 0x202)
}

#[test]
fn store_registers_test_store_registers_in_memory() {
    let mut emulator = Chip8::new();
    emulator.index_register = 0x200;
    emulator.registers[0] = 30;
    emulator.registers[1] = 12;
    emulator.registers[2] = 89;
    emulator.registers[3] = 23;
    emulator.registers[4] = 65;
    emulator.registers[5] = 34;
    emulator.registers[6] = 67;
    emulator.registers[7] = 88;

    StoreRegisters::new(7).execute(&mut emulator);

    assert_eq!(emulator.memory[0x200], 30);
    assert_eq!(emulator.memory[0x201], 12);
    assert_eq!(emulator.memory[0x202], 89);
    assert_eq!(emulator.memory[0x203], 23);
    assert_eq!(emulator.memory[0x204], 65);
    assert_eq!(emulator.memory[0x205], 34);
    assert_eq!(emulator.memory[0x206], 67);
    assert_eq!(emulator.memory[0x207], 88);
}

#[test]
fn sub_test_sub_registers() {
    let mut emulator = Chip8::new();
    emulator.registers[0] = 6;
    emulator.registers[5] = 5;

    Sub::new(0, 5).execute(&mut emulator);

    assert_eq!(emulator.registers[0], 1);
    assert_eq!(emulator.registers[0xF], 1);
}

#[test]
fn sub_test_sub_registers_borrow() {
    let mut emulator = Chip8::new();
    emulator.registers[0] = 5;
    emulator.registers[5] = 6;

    Sub::new(0, 5).execute(&mut emulator);

    assert_eq!(emulator.registers[0], 255);
    assert_eq!(emulator.registers[0xF], 0);
}

#[test]
fn sub_n_test_sub_reverse_registers() {
    let mut emulator = Chip8::new();
    emulator.registers[0] = 5;
    emulator.registers[5] = 6;

    SubN::new(0, 5).execute(&mut emulator);

    assert_eq!(emulator.registers[0], 1);
    assert_eq!(emulator.registers[0xF], 1);
}

#[test]
fn sub_n_test_sub_reverse_registers_borrow() {
    let mut emulator = Chip8::new();
    emulator.registers[0] = 6;
    emulator.registers[5] = 5;

    SubN::new(0, 5).execute(&mut emulator);

    assert_eq!(emulator.registers[0], 255);
    assert_eq!(emulator.registers[0xF], 0);
}

#[test]
fn xor_test_bitwise_xor() {
    let mut emulator = Chip8::new();
    emulator.registers[0] = 0b10101111;
    emulator.registers[5] = 0b01010001;

    Xor::new(0, 5).execute(&mut emulator);

    assert_eq!(emulator.registers[0], 0b11111110);
}
