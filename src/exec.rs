use vstd::prelude::*;
use rand::Rng;
use crate::decode::{convert_to_16bit, get_byte, get_nibble, op_class, op_n, op_kk};
use crate::machine::{
    Core, VmState, VmError, font, RAM_SIZE, NUM_KEYS, DISP_WIDTH, DISP_HEIGHT, PROGRAM_START,
    TIMER_PERIOD_MS,
};
use crate::semantics::outcome_matches;

verus! {

/// Relies on `rand::thread_rng` and `Rng::gen::<u8>`: a byte drawn from the
/// thread-local generator. Nothing is known of its value.
#[verifier::external_body]
fn random_byte() -> (r: u8) {
    rand::thread_rng().gen::<u8>()
}

impl Core {
    /// Executes the instruction word `op`, with `random` as the byte that
    /// `Cxkk` masks. Fails, leaving the state as it was, on a word that names
    /// no operation and on the fatal conditions of the operation itself.
    pub fn execute(&mut self, op: u16, random: u8) -> (r: Result<(), VmError>)
        requires
            old(self).wf(),
            old(self)@.fetchable(),
        ensures
            final(self).wf(),
            outcome_matches(old(self)@, final(self)@, r, old(self)@.execute_spec(op, random)),
    {
        let class = op / 0x1000;
        let n = get_nibble(&op);
        let kk = get_byte(&op);
        assert(class == op_class(op) && n == op_n(op) && kk == op_kk(op));
        if class == 0x0 {
            if op == 0x00E0 {
                self.clear_screen();
                Ok(())
            } else if op == 0x00EE {
                self.ret()
            } else {
                Err(self.not_implemented(op))
            }
        } else if class == 0x1 {
            self.jump(op);
            Ok(())
        } else if class == 0x2 {
            self.call(op)
        } else if class == 0x3 {
            self.inc_pc_eq(op);
            Ok(())
        } else if class == 0x4 {
            self.inc_pc_ne(op);
            Ok(())
        } else if class == 0x5 && n == 0 {
            self.inc_pc_reg_eq(op);
            Ok(())
        } else if class == 0x6 {
            self.set_register(op);
            Ok(())
        } else if class == 0x7 {
            self.add_val_to_reg(op);
            Ok(())
        } else if class == 0x8 && n == 0x0 {
            self.set_reg_to_reg(op);
            Ok(())
        } else if class == 0x8 && n == 0x1 {
            self.or(op);
            Ok(())
        } else if class == 0x8 && n == 0x2 {
            self.and(op);
            Ok(())
        } else if class == 0x8 && n == 0x3 {
            self.xor(op);
            Ok(())
        } else if class == 0x8 && n == 0x4 {
            self.add(op);
            Ok(())
        } else if class == 0x8 && n == 0x5 {
            self.sub(op);
            Ok(())
        } else if class == 0x8 && n == 0x6 {
            self.shr(op);
            Ok(())
        } else if class == 0x8 && n == 0x7 {
            self.subn(op);
            Ok(())
        } else if class == 0x8 && n == 0xE {
            self.shl(op);
            Ok(())
        } else if class == 0x9 && n == 0 {
            self.inc_pc_reg_ne(op);
            Ok(())
        } else if class == 0xA {
            self.load_reg_i(op);
            Ok(())
        } else if class == 0xC {
            self.get_rand_byte(op, random);
            Ok(())
        } else if class == 0xD {
            self.display_sprite(op)
        } else if class == 0xE && kk == 0x9E {
            self.skip_if_pressed(op)
        } else if class == 0xE && kk == 0xA1 {
            self.skip_if_not_pressed(op)
        } else if class == 0xF && kk == 0x07 {
            self.load_delay_timer(op);
            Ok(())
        } else if class == 0xF && kk == 0x15 {
            self.set_delay_timer(op);
            Ok(())
        } else if class == 0xF && kk == 0x18 {
            self.set_sound_timer(op);
            Ok(())
        } else if class == 0xF && kk == 0x1E {
            self.add_reg_to_i(op);
            Ok(())
        } else if class == 0xF && kk == 0x29 {
            self.set_digit_addr(op);
            Ok(())
        } else if class == 0xF && kk == 0x33 {
            self.store_bcd(op)
        } else if class == 0xF && kk == 0x55 {
            self.store_registers(op)
        } else if class == 0xF && kk == 0x65 {
            self.load_registers(op)
        } else {
            Err(self.not_implemented(op))
        }
    }

    /// One fetch-decode-execute cycle with `random` as the byte for `Cxkk`:
    /// fetches the big-endian word at the program counter and executes it.
    /// Fails, leaving the state as it was, when the word does not lie in
    /// memory or its execution fails.
    pub fn run_next_with(&mut self, random: u8) -> (r: Result<(), VmError>)
        requires
            old(self).wf(),
        ensures
            final(self).wf(),
            outcome_matches(old(self)@, final(self)@, r, old(self)@.step_spec(random)),
    {
        if self.pc + 1 >= RAM_SIZE {
            return Err(VmError::PcOutOfBounds(self.pc));
        }
        let op = convert_to_16bit(&self.memory[self.pc], &self.memory[self.pc + 1]);
        self.execute(op, random)
    }

    /// One fetch-decode-execute cycle, drawing a fresh random byte for
    /// `Cxkk`. The outcome is that of `run_next_with` for some byte.
    pub fn run_next(&mut self) -> (r: Result<(), VmError>)
        requires
            old(self).wf(),
        ensures
            final(self).wf(),
            exists|random: u8|
                outcome_matches(old(self)@, final(self)@, r, #[trigger] old(self)@.step_spec(random)),
    {
        let random = random_byte();
        let r = self.run_next_with(random);
        assert(outcome_matches(old(self)@, self@, r, old(self)@.step_spec(random)));
        r
    }
}

} // verus!
