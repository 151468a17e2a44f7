use vstd::prelude::*;
use crate::decode::{
    get_reg_x, get_reg_y, get_byte_value, get_jump_addr, op_x, op_y, op_kk, op_nnn,
};
use crate::machine::{
    Core, VmState, VmError, RAM_SIZE, STACK_SIZE, NUM_KEYS, DISP_WIDTH, DISP_HEIGHT,
    FLAG_REGISTER, FONT_GLYPH_BYTES,
};
use crate::semantics::{flag, outcome_matches, bcd_digits};

verus! {

impl Core {
    /// Moves the program counter on to the next instruction.
    pub fn inc_pc(&mut self)
        requires
            old(self).wf(),
            old(self).pc <= RAM_SIZE,
        ensures
            final(self).wf(),
            final(self)@ == old(self)@.advance(2),
    {
        self.pc = self.pc + 2;
    }

    /// The error for an instruction word that names no operation.
    pub fn not_implemented(&self, op: u16) -> (r: VmError)
        ensures
            r == VmError::UnknownOpcode(op),
    {
        VmError::UnknownOpcode(op)
    }

    /// `00E0`: turns every pixel off and marks the display changed.
    pub fn clear_screen(&mut self)
        requires
            old(self).wf(),
            old(self)@.fetchable(),
        ensures
            final(self).wf(),
            final(self)@ == old(self)@.clear_spec(),
    {
        self.display = vec![false; DISP_WIDTH * DISP_HEIGHT];
        self.update_display = true;
        self.inc_pc();
        assert(self.display@ =~= old(self)@.clear_spec().display);
    }

    /// `00EE`: returns to the address on top of the stack and pops it;
    /// fails on an empty stack.
    pub fn ret(&mut self) -> (r: Result<(), VmError>)
        requires
            old(self).wf(),
        ensures
            final(self).wf(),
            outcome_matches(old(self)@, final(self)@, r, old(self)@.ret_spec()),
    {
        if self.sp == 0 {
            return Err(VmError::StackUnderflow);
        }
        self.pc = self.stack[self.sp];
        self.sp = self.sp - 1;
        Ok(())
    }

    /// `1nnn`: continues at address `nnn`.
    pub fn jump(&mut self, op: u16)
        requires
            old(self).wf(),
        ensures
            final(self).wf(),
            final(self)@ == old(self)@.jump_spec(op),
    {
        self.pc = get_jump_addr(&op);
    }

    /// `2nnn`: pushes the address of the next instruction and continues at
    /// `nnn`; fails when the stack is full.
    pub fn call(&mut self, op: u16) -> (r: Result<(), VmError>)
        requires
            old(self).wf(),
            old(self)@.fetchable(),
        ensures
            final(self).wf(),
            outcome_matches(old(self)@, final(self)@, r, old(self)@.call_spec(op)),
    {
        if self.sp + 1 >= STACK_SIZE {
            return Err(VmError::StackOverflow);
        }
        self.inc_pc();
        self.sp = self.sp + 1;
        self.stack.set(self.sp, self.pc);
        self.pc = get_jump_addr(&op);
        Ok(())
    }

    /// `3xkk`: skips the next instruction if `Vx == kk`.
    pub fn inc_pc_eq(&mut self, op: u16)
        requires
            old(self).wf(),
            old(self)@.fetchable(),
        ensures
            final(self).wf(),
            final(self)@ == old(self)@.skip_if(old(self)@.reg(op_x(op)) == op_kk(op)),
            final(self).pc == old(self).pc + if old(self)@.reg(op_x(op)) == op_kk(op) {
                4int
            } else {
                2int
            },
    {
        let reg_x = get_reg_x(&op);
        let reg_val = self.registers[reg_x];
        let op_val = get_byte_value(&op);
        if reg_val == op_val {
            self.inc_pc();
        }
        self.inc_pc();
    }

    /// `4xkk`: skips the next instruction if `Vx != kk`.
    pub fn inc_pc_ne(&mut self, op: u16)
        requires
            old(self).wf(),
            old(self)@.fetchable(),
        ensures
            final(self).wf(),
            final(self)@ == old(self)@.skip_if(old(self)@.reg(op_x(op)) != op_kk(op)),
            final(self).pc == old(self).pc + if old(self)@.reg(op_x(op)) != op_kk(op) {
                4int
            } else {
                2int
            },
    {
        let reg_x = get_reg_x(&op);
        let reg_val = self.registers[reg_x];
        let op_val = get_byte_value(&op);
        if reg_val != op_val {
            self.inc_pc();
        }
        self.inc_pc();
    }

    /// `5xy0`: skips the next instruction if `Vx == Vy`.
    pub fn inc_pc_reg_eq(&mut self, op: u16)
        requires
            old(self).wf(),
            old(self)@.fetchable(),
        ensures
            final(self).wf(),
            final(self)@ == old(self)@.skip_if(
                old(self)@.reg(op_x(op)) == old(self)@.reg(op_y(op)),
            ),
            final(self).pc == old(self).pc + if old(self)@.reg(op_x(op)) == old(self)@.reg(
                op_y(op),
            ) {
                4int
            } else {
                2int
            },
    {
        let reg_x = get_reg_x(&op);
        let reg_y = get_reg_y(&op);
        if self.registers[reg_x] == self.registers[reg_y] {
            self.inc_pc();
        }
        self.inc_pc();
    }

    /// `9xy0`: skips the next instruction if `Vx != Vy`.
    pub fn inc_pc_reg_ne(&mut self, op: u16)
        requires
            old(self).wf(),
            old(self)@.fetchable(),
        ensures
            final(self).wf(),
            final(self)@ == old(self)@.skip_if(
                old(self)@.reg(op_x(op)) != old(self)@.reg(op_y(op)),
            ),
            final(self).pc == old(self).pc + if old(self)@.reg(op_x(op)) != old(self)@.reg(
                op_y(op),
            ) {
                4int
            } else {
                2int
            },
    {
        let reg_x = get_reg_x(&op);
        let reg_y = get_reg_y(&op);
        if self.registers[reg_x] != self.registers[reg_y] {
            self.inc_pc();
        }
        self.inc_pc();
    }

    /// `6xkk`: `Vx = kk`.
    pub fn set_register(&mut self, op: u16)
        requires
            old(self).wf(),
            old(self)@.fetchable(),
        ensures
            final(self).wf(),
            final(self)@ == old(self)@.set_reg(op_x(op), op_kk(op) as u8).advance(2),
    {
        let reg_x = get_reg_x(&op);
        let val = get_byte_value(&op);
        self.registers.set(reg_x, val);
        self.inc_pc();
    }

    /// `7xkk`: `Vx = Vx + kk`, wrapping at 256, `VF` untouched.
    pub fn add_val_to_reg(&mut self, op: u16)
        requires
            old(self).wf(),
            old(self)@.fetchable(),
        ensures
            final(self).wf(),
            final(self)@ == old(self)@.set_reg(
                op_x(op),
                ((old(self)@.reg(op_x(op)) + op_kk(op)) % 256) as u8,
            ).advance(2),
    {
        let reg_x = get_reg_x(&op);
        let val = get_byte_value(&op) as u16;
        self.registers.set(reg_x, ((self.registers[reg_x] as u16 + val) % 256) as u8);
        self.inc_pc();
    }

    /// `8xy0`: `Vx = Vy`.
    pub fn set_reg_to_reg(&mut self, op: u16)
        requires
            old(self).wf(),
            old(self)@.fetchable(),
        ensures
            final(self).wf(),
            final(self)@ == old(self)@.set_reg(op_x(op), old(self)@.reg(op_y(op)) as u8).advance(
                2,
            ),
    {
        let reg_x = get_reg_x(&op);
        let reg_y = get_reg_y(&op);
        let v = self.registers[reg_y];
        self.registers.set(reg_x, v);
        self.inc_pc();
    }

    /// `8xy1`: `Vx = Vx | Vy`.
    pub fn or(&mut self, op: u16)
        requires
            old(self).wf(),
            old(self)@.fetchable(),
        ensures
            final(self).wf(),
            final(self)@ == old(self)@.set_reg(
                op_x(op),
                old(self)@.reg(op_x(op)) as u8 | old(self)@.reg(op_y(op)) as u8,
            ).advance(2),
    {
        let reg_x = get_reg_x(&op);
        let reg_y = get_reg_y(&op);
        let v = self.registers[reg_x] | self.registers[reg_y];
        self.registers.set(reg_x, v);
        self.inc_pc();
    }

    /// `8xy2`: `Vx = Vx & Vy`.
    pub fn and(&mut self, op: u16)
        requires
            old(self).wf(),
            old(self)@.fetchable(),
        ensures
            final(self).wf(),
            final(self)@ == old(self)@.set_reg(
                op_x(op),
                old(self)@.reg(op_x(op)) as u8 & old(self)@.reg(op_y(op)) as u8,
            ).advance(2),
    {
        let reg_x = get_reg_x(&op);
        let reg_y = get_reg_y(&op);
        let v = self.registers[reg_x] & self.registers[reg_y];
        self.registers.set(reg_x, v);
        self.inc_pc();
    }

    /// `8xy3`: `Vx = Vx ^ Vy`.
    pub fn xor(&mut self, op: u16)
        requires
            old(self).wf(),
            old(self)@.fetchable(),
        ensures
            final(self).wf(),
            final(self)@ == old(self)@.set_reg(
                op_x(op),
                old(self)@.reg(op_x(op)) as u8 ^ old(self)@.reg(op_y(op)) as u8,
            ).advance(2),
    {
        let reg_x = get_reg_x(&op);
        let reg_y = get_reg_y(&op);
        let v = self.registers[reg_x] ^ self.registers[reg_y];
        self.registers.set(reg_x, v);
        self.inc_pc();
    }

    /// `8xy4`: `Vx = (Vx + Vy) mod 256`; `VF` is 1 exactly when the full sum
    /// exceeds 255. `VF` is written first, so a result in `VF` wins.
    pub fn add(&mut self, op: u16)
        requires
            old(self).wf(),
            old(self)@.fetchable(),
        ensures
            final(self).wf(),
            final(self)@ == old(self)@.alu(
                op_x(op),
                ((old(self)@.reg(op_x(op)) + old(self)@.reg(op_y(op))) % 256) as u8,
                flag(old(self)@.reg(op_x(op)) + old(self)@.reg(op_y(op)) > 255),
            ),
    {
        let x_reg = get_reg_x(&op);
        let y_reg = get_reg_y(&op);
        let sum: u16 = self.registers[x_reg] as u16 + self.registers[y_reg] as u16;
        if sum > 255 {
            self.registers.set(FLAG_REGISTER, 1);
        } else {
            self.registers.set(FLAG_REGISTER, 0);
        }
        self.registers.set(x_reg, (sum % 256) as u8);
        self.inc_pc();
    }

    /// `8xy5`: `Vx = (Vx - Vy) mod 256`; `VF` is 1 exactly when `Vx > Vy`.
    pub fn sub(&mut self, op: u16)
        requires
            old(self).wf(),
            old(self)@.fetchable(),
        ensures
            final(self).wf(),
            final(self)@ == old(self)@.alu(
                op_x(op),
                ((old(self)@.reg(op_x(op)) - old(self)@.reg(op_y(op))) % 256) as u8,
                flag(old(self)@.reg(op_x(op)) > old(self)@.reg(op_y(op))),
            ),
    {
        let x_reg = get_reg_x(&op);
        let y_reg = get_reg_y(&op);
        let x_term = self.registers[x_reg] as u16;
        let y_term = self.registers[y_reg] as u16;
        self.registers.set(FLAG_REGISTER, if x_term > y_term { 1 } else { 0 });
        self.registers.set(x_reg, ((x_term + 256 - y_term) % 256) as u8);
        self.inc_pc();
    }

    /// `8xy7`: `Vx = (Vy - Vx) mod 256`; `VF` is 1 exactly when `Vy > Vx`.
    pub fn subn(&mut self, op: u16)
        requires
            old(self).wf(),
            old(self)@.fetchable(),
        ensures
            final(self).wf(),
            final(self)@ == old(self)@.alu(
                op_x(op),
                ((old(self)@.reg(op_y(op)) - old(self)@.reg(op_x(op))) % 256) as u8,
                flag(old(self)@.reg(op_y(op)) > old(self)@.reg(op_x(op))),
            ),
    {
        let x_reg = get_reg_x(&op);
        let y_reg = get_reg_y(&op);
        let x_term = self.registers[x_reg] as u16;
        let y_term = self.registers[y_reg] as u16;
        self.registers.set(FLAG_REGISTER, if y_term > x_term { 1 } else { 0 });
        self.registers.set(x_reg, ((y_term + 256 - x_term) % 256) as u8);
        self.inc_pc();
    }

    /// `8xy6`: `Vx = Vx >> 1`; `VF` is the bit shifted out.
    pub fn shr(&mut self, op: u16)
        requires
            old(self).wf(),
            old(self)@.fetchable(),
        ensures
            final(self).wf(),
            final(self)@ == old(self)@.alu(
                op_x(op),
                (old(self)@.reg(op_x(op)) / 2) as u8,
                (old(self)@.reg(op_x(op)) % 2) as u8,
            ),
    {
        let x_reg = get_reg_x(&op);
        let val = self.registers[x_reg];
        let low = val & 1;
        let shifted = val >> 1;
        assert(low == val % 2 && shifted == val / 2) by (bit_vector)
            requires
                low == val & 1,
                shifted == val >> 1,
        ;
        self.registers.set(FLAG_REGISTER, low);
        self.registers.set(x_reg, shifted);
        self.inc_pc();
    }

    /// `8xyE`: `Vx = Vx << 1`, dropping the top bit; `VF` is 1 exactly when
    /// that bit (mask `0x80`) was set.
    pub fn shl(&mut self, op: u16)
        requires
            old(self).wf(),
            old(self)@.fetchable(),
        ensures
            final(self).wf(),
            final(self)@ == old(self)@.alu(
                op_x(op),
                ((old(self)@.reg(op_x(op)) * 2) % 256) as u8,
                flag(old(self)@.reg(op_x(op)) >= 0x80),
            ),
    {
        let x_reg = get_reg_x(&op);
        let val = self.registers[x_reg];
        let high = val & 0x80 != 0;
        let shifted = val << 1;
        assert(high == (val >= 0x80) && shifted as int == (val as int * 2) % 256) by (bit_vector)
            requires
                high == (val & 0x80 != 0),
                shifted == val << 1,
        ;
        self.registers.set(FLAG_REGISTER, if high { 1 } else { 0 });
        self.registers.set(x_reg, shifted);
        self.inc_pc();
    }

    /// `Annn`: `I = nnn`.
    pub fn load_reg_i(&mut self, op: u16)
        requires
            old(self).wf(),
            old(self)@.fetchable(),
        ensures
            final(self).wf(),
            final(self)@ == old(self)@.load_i_spec(op),
    {
        self.i_register = get_jump_addr(&op) as u16;
        self.inc_pc();
    }

    /// `Cxkk`: `Vx = random & kk`, for the byte `random` drawn for it.
    pub fn get_rand_byte(&mut self, op: u16, random: u8)
        requires
            old(self).wf(),
            old(self)@.fetchable(),
        ensures
            final(self).wf(),
            final(self)@ == old(self)@.set_reg(op_x(op), random & (op_kk(op) as u8)).advance(2),
    {
        let x_reg = get_reg_x(&op);
        let bit_mask = get_byte_value(&op);
        self.registers.set(x_reg, random & bit_mask);
        self.inc_pc();
    }

    /// `Ex9E`: skips the next instruction if the key numbered by `Vx` is
    /// pressed, and consumes the press; fails if `Vx` is no key.
    pub fn skip_if_pressed(&mut self, op: u16) -> (r: Result<(), VmError>)
        requires
            old(self).wf(),
            old(self)@.fetchable(),
        ensures
            final(self).wf(),
            outcome_matches(old(self)@, final(self)@, r, old(self)@.skip_pressed_spec(op)),
    {
        let x_reg = get_reg_x(&op);
        let key = self.registers[x_reg];
        if key as usize >= NUM_KEYS {
            return Err(VmError::KeyOutOfRange(key));
        }
        if self.inputs[key as usize] {
            self.inputs.set(key as usize, false);
            self.inc_pc();
        }
        self.inc_pc();
        Ok(())
    }

    /// `ExA1`: skips the next instruction if the key numbered by `Vx` is not
    /// pressed; a press is consumed instead. Fails if `Vx` is no key.
    pub fn skip_if_not_pressed(&mut self, op: u16) -> (r: Result<(), VmError>)
        requires
            old(self).wf(),
            old(self)@.fetchable(),
        ensures
            final(self).wf(),
            outcome_matches(old(self)@, final(self)@, r, old(self)@.skip_not_pressed_spec(op)),
    {
        let x_reg = get_reg_x(&op);
        let key = self.registers[x_reg];
        if key as usize >= NUM_KEYS {
            return Err(VmError::KeyOutOfRange(key));
        }
        if self.inputs[key as usize] {
            self.inputs.set(key as usize, false);
        } else {
            self.inc_pc();
        }
        self.inc_pc();
        Ok(())
    }

    /// `Fx07`: `Vx` = the delay timer.
    pub fn load_delay_timer(&mut self, op: u16)
        requires
            old(self).wf(),
            old(self)@.fetchable(),
        ensures
            final(self).wf(),
            final(self)@ == old(self)@.set_reg(op_x(op), old(self).delay_timer).advance(2),
    {
        let x_reg = get_reg_x(&op);
        let t = self.delay_timer;
        self.registers.set(x_reg, t);
        self.inc_pc();
    }

    /// `Fx15`: the delay timer = `Vx`.
    pub fn set_delay_timer(&mut self, op: u16)
        requires
            old(self).wf(),
            old(self)@.fetchable(),
        ensures
            final(self).wf(),
            final(self)@ == (VmState {
                delay_timer: old(self)@.reg(op_x(op)) as u8,
                ..old(self)@
            }).advance(2),
    {
        let x_reg = get_reg_x(&op);
        self.delay_timer = self.registers[x_reg];
        self.inc_pc();
    }

    /// `Fx18`: the sound timer = `Vx`.
    pub fn set_sound_timer(&mut self, op: u16)
        requires
            old(self).wf(),
            old(self)@.fetchable(),
        ensures
            final(self).wf(),
            final(self)@ == (VmState {
                sound_timer: old(self)@.reg(op_x(op)) as u8,
                ..old(self)@
            }).advance(2),
    {
        let x_reg = get_reg_x(&op);
        self.sound_timer = self.registers[x_reg];
        self.inc_pc();
    }

    /// `Fx1E`: `I = I + Vx`, wrapping at the register's 16 bits, no flag.
    pub fn add_reg_to_i(&mut self, op: u16)
        requires
            old(self).wf(),
            old(self)@.fetchable(),
        ensures
            final(self).wf(),
            final(self)@ == (VmState {
                i_register: ((old(self).i_register + old(self)@.reg(op_x(op))) % 0x10000) as u16,
                ..old(self)@
            }).advance(2),
    {
        let x_reg = get_reg_x(&op);
        let sum: u32 = self.i_register as u32 + self.registers[x_reg] as u32;
        self.i_register = (sum % 0x10000) as u16;
        self.inc_pc();
    }

    /// `Fx29`: `I` = address of the font glyph for digit `Vx` (five bytes
    /// per glyph).
    pub fn set_digit_addr(&mut self, op: u16)
        requires
            old(self).wf(),
            old(self)@.fetchable(),
        ensures
            final(self).wf(),
            final(self)@ == (VmState {
                i_register: (old(self)@.reg(op_x(op)) * FONT_GLYPH_BYTES) as u16,
                ..old(self)@
            }).advance(2),
    {
        let x_reg = get_reg_x(&op);
        self.i_register = self.registers[x_reg] as u16 * FONT_GLYPH_BYTES as u16;
        self.inc_pc();
    }

    /// `Fx33`: writes the hundreds, tens and ones digits of `Vx` at `I`,
    /// `I + 1` and `I + 2`; fails if they leave memory.
    pub fn store_bcd(&mut self, op: u16) -> (r: Result<(), VmError>)
        requires
            old(self).wf(),
            old(self)@.fetchable(),
        ensures
            final(self).wf(),
            outcome_matches(old(self)@, final(self)@, r, old(self)@.bcd_spec(op)),
    {
        let x_reg = get_reg_x(&op);
        let value = self.registers[x_reg];
        let i = self.i_register as usize;
        if i + 3 > RAM_SIZE {
            return Err(VmError::MemoryOutOfBounds(self.i_register));
        }
        let one_digit = value % 10;
        let tens_digit = value % 100 / 10;
        let hundreds_digit = value / 100;
        self.memory.set(i, hundreds_digit);
        self.memory.set(i + 1, tens_digit);
        self.memory.set(i + 2, one_digit);
        self.inc_pc();
        assert(self.memory@ =~= old(self)@.bcd_spec(op).get_Ok_0().memory);
        Ok(())
    }

    /// `Fx55`: copies `V0` to `Vx` into memory from `I` on; fails if that
    /// leaves memory.
    pub fn store_registers(&mut self, op: u16) -> (r: Result<(), VmError>)
        requires
            old(self).wf(),
            old(self)@.fetchable(),
        ensures
            final(self).wf(),
            outcome_matches(old(self)@, final(self)@, r, old(self)@.store_regs_spec(op)),
    {
        let ghost pre = self@;
        let x_reg = get_reg_x(&op);
        let base = self.i_register as usize;
        if base + x_reg + 1 > RAM_SIZE {
            return Err(VmError::MemoryOutOfBounds(self.i_register));
        }
        let mut k: usize = 0;
        while k <= x_reg
            invariant
                pre == old(self)@,
                pre.wf(),
                x_reg == op_x(op),
                base == pre.i_register,
                base + x_reg + 1 <= RAM_SIZE,
                0 <= k <= x_reg + 1,
                self@ == (VmState { memory: self@.memory, ..pre }),
                self.memory@.len() == RAM_SIZE,
                forall|a: int|
                    0 <= a < RAM_SIZE ==> #[trigger] self.memory@[a] == if base <= a < base + k {
                        pre.registers[a - base]
                    } else {
                        pre.memory[a]
                    },
            decreases x_reg + 1 - k,
        {
            let v = self.registers[k];
            self.memory.set(base + k, v);
            k += 1;
        }
        self.inc_pc();
        assert(self.memory@ =~= pre.store_regs_spec(op).get_Ok_0().memory);
        Ok(())
    }

    /// `Fx65`: loads `V0` to `Vx` from memory from `I` on; fails if that
    /// leaves memory.
    pub fn load_registers(&mut self, op: u16) -> (r: Result<(), VmError>)
        requires
            old(self).wf(),
            old(self)@.fetchable(),
        ensures
            final(self).wf(),
            outcome_matches(old(self)@, final(self)@, r, old(self)@.load_regs_spec(op)),
    {
        let ghost pre = self@;
        let x_reg = get_reg_x(&op);
        let base = self.i_register as usize;
        if base + x_reg + 1 > RAM_SIZE {
            return Err(VmError::MemoryOutOfBounds(self.i_register));
        }
        let mut k: usize = 0;
        while k <= x_reg
            invariant
                pre == old(self)@,
                pre.wf(),
                x_reg == op_x(op),
                base == pre.i_register,
                base + x_reg + 1 <= RAM_SIZE,
                0 <= k <= x_reg + 1,
                self@ == (VmState { registers: self@.registers, ..pre }),
                self.registers@.len() == 16,
                forall|j: int|
                    0 <= j < 16 ==> #[trigger] self.registers@[j] == if j < k {
                        pre.memory[base + j]
                    } else {
                        pre.registers[j]
                    },
            decreases x_reg + 1 - k,
        {
            let v = self.memory[base + k];
            self.registers.set(k, v);
            k += 1;
        }
        self.inc_pc();
        assert(self.registers@ =~= pre.load_regs_spec(op).get_Ok_0().registers);
        Ok(())
    }
}

} // verus!
