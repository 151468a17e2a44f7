use vstd::prelude::*;
use crate::decode::{op_class, op_x, op_y, op_n, op_kk, op_nnn};
use crate::machine::{
    VmState, VmError, RAM_SIZE, STACK_SIZE, DISP_WIDTH, DISP_HEIGHT, NUM_KEYS, FONT_GLYPH_BYTES,
};

verus! {

/// Whether `count` bytes from address `i` on lie in memory (no bytes always do).
pub open spec fn in_memory(i: u16, count: int) -> bool {
    count == 0 || i + count <= RAM_SIZE
}

/// Bit `b` of a sprite row, counted from the most significant bit.
pub open spec fn sprite_bit(byte: u8, b: int) -> bool {
    (byte >> ((7 - b) as u8)) & 1u8 == 1u8
}

/// Framebuffer index of the pixel at column `x`, row `y`, both wrapped
/// around the screen's edges.
pub open spec fn pixel_index(x: int, y: int) -> int {
    (y % DISP_HEIGHT as int) * DISP_WIDTH as int + x % DISP_WIDTH as int
}

/// How far `p` lies past `origin` on a circle of `m` positions.
pub open spec fn wrapped_offset(p: int, origin: int, m: int) -> int {
    (p + m - origin % m) % m
}

/// Whether a sprite of `n` rows read from memory at `i`, drawn with its
/// top-left corner at column `vx`, row `vy`, has a lit pixel on the
/// framebuffer pixel `p`.
pub open spec fn sprite_covers(memory: Seq<u8>, i: u16, vx: int, vy: int, n: int, p: int) -> bool {
    let row = wrapped_offset(p / DISP_WIDTH as int, vy, DISP_HEIGHT as int);
    let col = wrapped_offset(p % DISP_WIDTH as int, vx, DISP_WIDTH as int);
    row < n && col < 8 && sprite_bit(memory[i + row], col)
}

/// Whether the sprite has a lit pixel that lands on a lit pixel of `display`.
pub open spec fn sprite_collides(
    memory: Seq<u8>,
    display: Seq<bool>,
    i: u16,
    vx: int,
    vy: int,
    n: int,
) -> bool {
    exists|r: int, c: int|
        0 <= r < n && 0 <= c < 8 && #[trigger] sprite_bit(memory[i + r], c)
            && display[#[trigger] pixel_index(vx + c, vy + r)]
}

/// The digits of a byte: hundreds, tens, ones.
pub open spec fn bcd_digits(v: u8) -> Seq<u8> {
    seq![(v / 100) as u8, (v % 100 / 10) as u8, (v % 10) as u8]
}

/// The value of `VF` after an operation: 1 if `flag` holds, else 0.
pub open spec fn flag(b: bool) -> u8 {
    if b { 1 } else { 0 }
}

impl VmState {
    /// The instruction word at the program counter.
    pub open spec fn fetch(self) -> u16 {
        (self.memory[self.pc as int] as int * 256 + self.memory[self.pc + 1] as int) as u16
    }

    /// Whether the program counter addresses a whole instruction in memory.
    pub open spec fn fetchable(self) -> bool {
        self.pc + 1 < RAM_SIZE
    }

    /// An arithmetic result: `VF` set to `f`, then `Vx` to `v`, then on to
    /// the next instruction.
    pub open spec fn alu(self, x: int, v: u8, f: u8) -> VmState {
        self.set_reg(0xF, f).set_reg(x, v).advance(2)
    }

    /// `00E0`: every pixel off, display marked changed.
    pub open spec fn clear_spec(self) -> VmState {
        VmState {
            display: Seq::new((DISP_WIDTH * DISP_HEIGHT) as nat, |p: int| false),
            dirty: true,
            ..self
        }.advance(2)
    }

    /// `00EE`: back to the address on top of the stack.
    pub open spec fn ret_spec(self) -> Result<VmState, VmError> {
        if self.sp == 0 {
            Err(VmError::StackUnderflow)
        } else {
            Ok(VmState { pc: self.stack[self.sp as int], sp: (self.sp - 1) as usize, ..self })
        }
    }

    /// `1nnn`: continue at `nnn`.
    pub open spec fn jump_spec(self, op: u16) -> VmState {
        VmState { pc: op_nnn(op) as usize, ..self }
    }

    /// `2nnn`: push the address of the next instruction, continue at `nnn`.
    pub open spec fn call_spec(self, op: u16) -> Result<VmState, VmError> {
        if self.sp + 1 >= STACK_SIZE {
            Err(VmError::StackOverflow)
        } else {
            Ok(
                VmState {
                    sp: (self.sp + 1) as usize,
                    stack: self.stack.update(self.sp + 1, (self.pc + 2) as usize),
                    pc: op_nnn(op) as usize,
                    ..self
                },
            )
        }
    }

    /// Skip the next instruction (move on by 4) if `cond`, else move on by 2.
    pub open spec fn skip_if(self, cond: bool) -> VmState {
        self.advance(if cond { 4 } else { 2 })
    }

    /// `Annn`: `I` set to `nnn`.
    pub open spec fn load_i_spec(self, op: u16) -> VmState {
        VmState { i_register: op_nnn(op) as u16, ..self }.advance(2)
    }

    /// `Dxyn`: the sprite of `n` rows at `I` XOR-ed onto the framebuffer at
    /// (`Vx`, `Vy`) with wrap-around, `VF` set on collision.
    pub open spec fn draw_spec(self, op: u16) -> Result<VmState, VmError> {
        let vx = self.reg(op_x(op));
        let vy = self.reg(op_y(op));
        let n = op_n(op);
        if !in_memory(self.i_register, n) {
            Err(VmError::MemoryOutOfBounds(self.i_register))
        } else {
            Ok(
                VmState {
                    display: Seq::new(
                        self.display.len(),
                        |p: int|
                            self.display[p] != sprite_covers(
                                self.memory,
                                self.i_register,
                                vx,
                                vy,
                                n,
                                p,
                            ),
                    ),
                    dirty: true,
                    ..self
                }.set_reg(
                    0xF,
                    flag(sprite_collides(self.memory, self.display, self.i_register, vx, vy, n)),
                ).advance(2),
            )
        }
    }

    /// `Ex9E`: skip if the key in `Vx` is pressed, consuming the press.
    pub open spec fn skip_pressed_spec(self, op: u16) -> Result<VmState, VmError> {
        let k = self.reg(op_x(op));
        if k >= NUM_KEYS {
            Err(VmError::KeyOutOfRange(k as u8))
        } else if self.keys[k] {
            Ok(VmState { keys: self.keys.update(k, false), ..self }.advance(4))
        } else {
            Ok(self.advance(2))
        }
    }

    /// `ExA1`: skip if the key in `Vx` is not pressed; a press is consumed.
    pub open spec fn skip_not_pressed_spec(self, op: u16) -> Result<VmState, VmError> {
        let k = self.reg(op_x(op));
        if k >= NUM_KEYS {
            Err(VmError::KeyOutOfRange(k as u8))
        } else if self.keys[k] {
            Ok(VmState { keys: self.keys.update(k, false), ..self }.advance(2))
        } else {
            Ok(self.advance(4))
        }
    }

    /// `Fx33`: the decimal digits of `Vx` at `I`, `I + 1`, `I + 2`.
    pub open spec fn bcd_spec(self, op: u16) -> Result<VmState, VmError> {
        let i = self.i_register as int;
        if !in_memory(self.i_register, 3) {
            Err(VmError::MemoryOutOfBounds(self.i_register))
        } else {
            Ok(
                VmState {
                    memory: self.memory.subrange(0, i) + bcd_digits(self.registers[op_x(op)])
                        + self.memory.subrange(i + 3, RAM_SIZE as int),
                    ..self
                }.advance(2),
            )
        }
    }

    /// `Fx55`: `V0` to `Vx` copied to memory from `I` on.
    pub open spec fn store_regs_spec(self, op: u16) -> Result<VmState, VmError> {
        let i = self.i_register as int;
        let count = op_x(op) + 1;
        if !in_memory(self.i_register, count) {
            Err(VmError::MemoryOutOfBounds(self.i_register))
        } else {
            Ok(
                VmState {
                    memory: self.memory.subrange(0, i) + self.registers.subrange(0, count)
                        + self.memory.subrange(i + count, RAM_SIZE as int),
                    ..self
                }.advance(2),
            )
        }
    }

    /// `Fx65`: `V0` to `Vx` loaded from memory from `I` on.
    pub open spec fn load_regs_spec(self, op: u16) -> Result<VmState, VmError> {
        let i = self.i_register as int;
        let count = op_x(op) + 1;
        if !in_memory(self.i_register, count) {
            Err(VmError::MemoryOutOfBounds(self.i_register))
        } else {
            Ok(
                VmState {
                    registers: self.memory.subrange(i, i + count) + self.registers.subrange(
                        count,
                        self.registers.len() as int,
                    ),
                    ..self
                }.advance(2),
            )
        }
    }

    /// The effect of executing instruction `op`, with `random` as the byte
    /// drawn by `Cxkk`.
    pub open spec fn execute_spec(self, op: u16, random: u8) -> Result<VmState, VmError> {
        let x = op_x(op);
        let y = op_y(op);
        let vx = self.reg(x);
        let vy = self.reg(y);
        let kk = op_kk(op);
        let n = op_n(op);
        let class = op_class(op);
        if class == 0x0 {
            if op == 0x00E0 {
                Ok(self.clear_spec())
            } else if op == 0x00EE {
                self.ret_spec()
            } else {
                Err(VmError::UnknownOpcode(op))
            }
        } else if class == 0x1 {
            Ok(self.jump_spec(op))
        } else if class == 0x2 {
            self.call_spec(op)
        } else if class == 0x3 {
            Ok(self.skip_if(vx == kk))
        } else if class == 0x4 {
            Ok(self.skip_if(vx != kk))
        } else if class == 0x5 && n == 0 {
            Ok(self.skip_if(vx == vy))
        } else if class == 0x6 {
            Ok(self.set_reg(x, kk as u8).advance(2))
        } else if class == 0x7 {
            Ok(self.set_reg(x, ((vx + kk) % 256) as u8).advance(2))
        } else if class == 0x8 && n == 0x0 {
            Ok(self.set_reg(x, vy as u8).advance(2))
        } else if class == 0x8 && n == 0x1 {
            Ok(self.set_reg(x, vx as u8 | vy as u8).advance(2))
        } else if class == 0x8 && n == 0x2 {
            Ok(self.set_reg(x, vx as u8 & vy as u8).advance(2))
        } else if class == 0x8 && n == 0x3 {
            Ok(self.set_reg(x, vx as u8 ^ vy as u8).advance(2))
        } else if class == 0x8 && n == 0x4 {
            Ok(self.alu(x, ((vx + vy) % 256) as u8, flag(vx + vy > 255)))
        } else if class == 0x8 && n == 0x5 {
            Ok(self.alu(x, ((vx - vy) % 256) as u8, flag(vx > vy)))
        } else if class == 0x8 && n == 0x6 {
            Ok(self.alu(x, (vx / 2) as u8, (vx % 2) as u8))
        } else if class == 0x8 && n == 0x7 {
            Ok(self.alu(x, ((vy - vx) % 256) as u8, flag(vy > vx)))
        } else if class == 0x8 && n == 0xE {
            Ok(self.alu(x, ((vx * 2) % 256) as u8, flag(vx >= 0x80)))
        } else if class == 0x9 && n == 0 {
            Ok(self.skip_if(vx != vy))
        } else if class == 0xA {
            Ok(self.load_i_spec(op))
        } else if class == 0xC {
            Ok(self.set_reg(x, random & (kk as u8)).advance(2))
        } else if class == 0xD {
            self.draw_spec(op)
        } else if class == 0xE && kk == 0x9E {
            self.skip_pressed_spec(op)
        } else if class == 0xE && kk == 0xA1 {
            self.skip_not_pressed_spec(op)
        } else if class == 0xF && kk == 0x07 {
            Ok(self.set_reg(x, self.delay_timer).advance(2))
        } else if class == 0xF && kk == 0x15 {
            Ok(VmState { delay_timer: vx as u8, ..self }.advance(2))
        } else if class == 0xF && kk == 0x18 {
            Ok(VmState { sound_timer: vx as u8, ..self }.advance(2))
        } else if class == 0xF && kk == 0x1E {
            Ok(VmState { i_register: ((self.i_register + vx) % 0x10000) as u16, ..self }.advance(2))
        } else if class == 0xF && kk == 0x29 {
            Ok(VmState { i_register: (vx * FONT_GLYPH_BYTES) as u16, ..self }.advance(2))
        } else if class == 0xF && kk == 0x33 {
            self.bcd_spec(op)
        } else if class == 0xF && kk == 0x55 {
            self.store_regs_spec(op)
        } else if class == 0xF && kk == 0x65 {
            self.load_regs_spec(op)
        } else {
            Err(VmError::UnknownOpcode(op))
        }
    }

    /// One fetch-decode-execute cycle.
    pub open spec fn step_spec(self, random: u8) -> Result<VmState, VmError> {
        if !self.fetchable() {
            Err(VmError::PcOutOfBounds(self.pc))
        } else {
            self.execute_spec(self.fetch(), random)
        }
    }
}

/// How a fallible operation's result and final state meet its specification:
/// on success the new state is the specified one; on failure the error is
/// the specified one and the state is unchanged.
pub open spec fn outcome_matches(
    before: VmState,
    after: VmState,
    r: Result<(), VmError>,
    expected: Result<VmState, VmError>,
) -> bool {
    match r {
        Ok(_) => expected == Ok::<VmState, VmError>(after),
        Err(e) => expected == Err::<VmState, VmError>(e) && after == before,
    }
}

} // verus!
