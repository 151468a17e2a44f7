//! An interpreter for the classic 8-bit CHIP-8 virtual machine: memory,
//! registers, call stack, keypad latch, monochrome framebuffer and the two
//! countdown timers, with every instruction's effect stated as a contract.

mod decode;
mod machine;
mod semantics;
mod ops;
mod instructions;
mod exec;
mod keypad;
mod laws;

pub use decode::{
    convert_to_16bit, get_nibble, get_byte, get_reg_x, get_reg_y, get_byte_value, get_jump_addr,
    op_class, op_x, op_y, op_n, op_kk, op_nnn,
};
pub use machine::{
    Core, VmError, VmState, font, RAM_SIZE, STACK_SIZE, NUM_REGISTERS, NUM_KEYS, DISP_WIDTH,
    DISP_HEIGHT, PROGRAM_START, FONT_GLYPH_BYTES, TIMER_PERIOD_MS, FLAG_REGISTER,
};
pub use semantics::{
    in_memory, sprite_bit, pixel_index, wrapped_offset, sprite_covers, sprite_collides,
    bcd_digits, flag, outcome_matches,
};
pub use keypad::{KeyAction, QUIT_KEY, key_action, keypad_layout};
pub use laws::{
    lemma_alu_results, lemma_call_then_return, lemma_skip_advance, lemma_key_press_consumed,
    skip_condition,
};
