use vstd::prelude::*;

pub mod bits;
pub mod emulator;

verus! {

/// Print serial output.
pub const PRINT_SERIAL: bool = false;
/// Print the CPU state after each instruction.
pub const PRINT_STATE: bool = false;
/// Print the cartridge information.
pub const PRINT_CART_INFO: bool = false;

} // verus!
