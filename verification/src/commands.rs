//! One module per instruction: the command value, its exact execution
//! contract, and the spec-level relation the contract is stated with.

pub mod add;
pub mod add_to_index;
pub mod add_value_to_register;
pub mod and;
pub mod binary_coded_decimal;
pub mod call;
pub mod clear_screen;
pub mod command_parser;
pub mod draw;
pub mod jump;
pub mod load;
pub mod or;
pub mod read_into_registers;
pub mod return_command;
pub mod set_index_register;
pub mod set_register;
pub mod shift_left;
pub mod shift_right;
pub mod skip_equal_x;
pub mod skip_equal_x_y;
pub mod skip_not_equal_x;
pub mod skip_not_equal_xy;
pub mod store_registers;
pub mod sub;
pub mod sub_n;
pub mod xor;
