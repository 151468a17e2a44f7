use vstd::prelude::*;
use crate::decode::{get_reg_x, get_reg_y, get_nibble, op_x, op_y, op_n};
use crate::machine::{Core, VmState, VmError, RAM_SIZE, DISP_WIDTH, DISP_HEIGHT, FLAG_REGISTER};
use crate::semantics::{
    in_memory, sprite_bit, pixel_index, wrapped_offset, sprite_covers, sprite_collides, flag,
    outcome_matches,
};

verus! {

/// Going `k` steps past `v` on a circle of `m` positions and measuring the
/// offset back from `v` gives `k`.
proof fn lemma_offset_of_step(v: int, k: int, m: int)
    requires
        0 <= v,
        0 <= k < m,
        m == 32 || m == 64,
    ensures
        wrapped_offset((v + k) % m, v, m) == k,
{
    if m == 32 {
        assert(((v + k) % 32 + 32 - v % 32) % 32 == k);
    } else {
        assert(((v + k) % 64 + 64 - v % 64) % 64 == k);
    }
}

/// Every position `q` on the circle is reached from `v` by its offset.
proof fn lemma_step_of_offset(v: int, q: int, m: int)
    requires
        0 <= v,
        0 <= q < m,
        m == 32 || m == 64,
    ensures
        (v + wrapped_offset(q, v, m)) % m == q,
{
    if m == 32 {
        assert((v + (q + 32 - v % 32) % 32) % 32 == q);
    } else {
        assert((v + (q + 64 - v % 64) % 64) % 64 == q);
    }
}

/// The framebuffer pixel `p` splits into a row and a column.
proof fn lemma_pixel_split(x: int, y: int)
    requires
        0 <= x,
        0 <= y,
    ensures
        0 <= pixel_index(x, y) < DISP_WIDTH * DISP_HEIGHT,
        pixel_index(x, y) / DISP_WIDTH as int == y % DISP_HEIGHT as int,
        pixel_index(x, y) % DISP_WIDTH as int == x % DISP_WIDTH as int,
{
}

/// Whether the sprite pixel that lands on `p` comes before row `i`,
/// column `b` of the sprite, in drawing order.
spec fn drawn_before(p: int, vx: int, vy: int, i: int, b: int) -> bool {
    let row = wrapped_offset(p / DISP_WIDTH as int, vy, DISP_HEIGHT as int);
    let col = wrapped_offset(p % DISP_WIDTH as int, vx, DISP_WIDTH as int);
    col < 8 && (row < i || (row == i && col < b))
}

/// Whether a lit sprite pixel before row `i`, column `b` landed on a lit
/// pixel of `display`.
spec fn collided_before(
    memory: Seq<u8>,
    display: Seq<bool>,
    i_reg: u16,
    vx: int,
    vy: int,
    n: int,
    i: int,
    b: int,
) -> bool {
    exists|r: int, c: int|
        0 <= r < n && 0 <= c < 8 && (r < i || (r == i && c < b)) && #[trigger] sprite_bit(
            memory[i_reg + r],
            c,
        ) && display[#[trigger] pixel_index(vx + c, vy + r)]
}

impl Core {
    /// `Dxyn`: XOR-draws the `n`-row sprite at `I` onto the framebuffer at
    /// (`Vx`, `Vy`), wrapping around both edges; `VF` becomes 1 exactly when
    /// a lit pixel was turned off. Marks the display changed.
    pub fn display_sprite(&mut self, op: u16) -> (r: Result<(), VmError>)
        requires
            old(self).wf(),
            old(self)@.fetchable(),
        ensures
            final(self).wf(),
            outcome_matches(old(self)@, final(self)@, r, old(self)@.draw_spec(op)),
    {
        let ghost pre = self@;
        let reg_x = get_reg_x(&op);
        let reg_y = get_reg_y(&op);
        let x_start = self.registers[reg_x] as usize;
        let y_start = self.registers[reg_y] as usize;
        let bytes = get_nibble(&op) as usize;
        let i_reg = self.i_register as usize;
        if bytes > 0 && i_reg + bytes > RAM_SIZE {
            return Err(VmError::MemoryOutOfBounds(self.i_register));
        }
        let ghost vx = x_start as int;
        let ghost vy = y_start as int;
        let ghost n = bytes as int;
        let mut collided = false;
        let mut i: usize = 0;
        while i < bytes
            invariant
                pre.wf(),
                pre == old(self)@,
                0 <= i <= bytes,
                bytes == op_n(op),
                n == bytes,
                vx == pre.reg(op_x(op)),
                vy == pre.reg(op_y(op)),
                vx == x_start,
                vy == y_start,
                x_start < 256,
                y_start < 256,
                bytes == 0 || i_reg + bytes <= RAM_SIZE,
                i_reg == pre.i_register,
                in_memory(pre.i_register, n),
                self@ == (VmState { display: self@.display, ..pre }),
                self.display@.len() == DISP_WIDTH * DISP_HEIGHT,
                forall|p: int|
                    0 <= p < DISP_WIDTH * DISP_HEIGHT ==> #[trigger] self.display@[p] == (
                    pre.display[p] != (sprite_covers(pre.memory, pre.i_register, vx, vy, n, p)
                        && drawn_before(p, vx, vy, i as int, 0))),
                collided == collided_before(
                    pre.memory,
                    pre.display,
                    pre.i_register,
                    vx,
                    vy,
                    n,
                    i as int,
                    0,
                ),
            decreases bytes - i,
        {
            let mem_byte = self.memory[i_reg + i];
            let mut b: usize = 0;
            while b < 8
                invariant
                    pre.wf(),
                    pre == old(self)@,
                    0 <= i < bytes,
                    0 <= b <= 8,
                    bytes == op_n(op),
                    n == bytes,
                n == bytes,
                    bytes <= 15,
                    vx == x_start,
                    vy == y_start,
                    x_start < 256,
                    y_start < 256,
                    i_reg + bytes <= RAM_SIZE,
                    i_reg == pre.i_register,
                    in_memory(pre.i_register, n),
                    mem_byte == pre.memory[i_reg + i],
                    self@ == (VmState { display: self@.display, ..pre }),
                    self.display@.len() == DISP_WIDTH * DISP_HEIGHT,
                    forall|p: int|
                        0 <= p < DISP_WIDTH * DISP_HEIGHT ==> #[trigger] self.display@[p] == (
                        pre.display[p] != (sprite_covers(pre.memory, pre.i_register, vx, vy, n, p)
                            && drawn_before(p, vx, vy, i as int, b as int))),
                    collided == collided_before(
                        pre.memory,
                        pre.display,
                        pre.i_register,
                        vx,
                        vy,
                        n,
                        i as int,
                        b as int,
                    ),
                decreases 8 - b,
            {
                let idx = ((y_start + i) % DISP_HEIGHT) * DISP_WIDTH + (x_start + b) % DISP_WIDTH;
                proof {
                    lemma_pixel_split(vx + b, vy + i);
                    lemma_offset_of_step(vy, i as int, DISP_HEIGHT as int);
                    lemma_offset_of_step(vx, b as int, DISP_WIDTH as int);
                    assert(idx == pixel_index(vx + b, vy + i));
                    assert forall|p: int|
                        0 <= p < DISP_WIDTH * DISP_HEIGHT && p != idx implies drawn_before(
                        p,
                        vx,
                        vy,
                        i as int,
                        b as int + 1,
                    ) == drawn_before(p, vx, vy, i as int, b as int) by {
                        lemma_step_of_offset(vy, p / DISP_WIDTH as int, DISP_HEIGHT as int);
                        lemma_step_of_offset(vx, p % DISP_WIDTH as int, DISP_WIDTH as int);
                    }
                }
                let old_bit = self.display[idx];
                let lit = (mem_byte >> ((7 - b) as u8)) & 1 == 1;
                let new_bit = old_bit != lit;
                if old_bit && !new_bit {
                    collided = true;
                }
                self.display.set(idx, new_bit);
                proof {
                    assert(lit == sprite_bit(pre.memory[i_reg + i], b as int));
                    assert(old_bit == pre.display[pixel_index(vx + b, vy + i)]);
                    if old_bit && lit {
                        assert(sprite_bit(pre.memory[pre.i_register + i], b as int));
                        assert(pre.display[pixel_index(vx + b, vy + i)]);
                        let r = i as int;
                        let c = b as int;
                        assert(0 <= r < n && 0 <= c < 8 && (r < i || (r == i && c < b + 1)));
                        assert(sprite_bit(pre.memory[pre.i_register + r], c) && pre.display[pixel_index(vx + c, vy + r)]);
                        assert(collided_before(
                            pre.memory,
                            pre.display,
                            pre.i_register,
                            vx,
                            vy,
                            n,
                            i as int,
                            b as int + 1,
                        ));
                    }
                    assert(collided == collided_before(
                        pre.memory,
                        pre.display,
                        pre.i_register,
                        vx,
                        vy,
                        n,
                        i as int,
                        b as int + 1,
                    ));
                    assert(idx as int / DISP_WIDTH as int == (vy + i) % DISP_HEIGHT as int);
                    assert(wrapped_offset(idx as int / DISP_WIDTH as int, vy, DISP_HEIGHT as int) == i);
                    assert(wrapped_offset(idx as int % DISP_WIDTH as int, vx, DISP_WIDTH as int) == b);
                    assert(sprite_covers(pre.memory, pre.i_register, vx, vy, n, idx as int) == lit);
                    assert(drawn_before(idx as int, vx, vy, i as int, b as int + 1));
                    assert(!drawn_before(idx as int, vx, vy, i as int, b as int));
                    assert forall|p: int| 0 <= p < DISP_WIDTH * DISP_HEIGHT implies #[trigger] self.display@[p] == (
                        pre.display[p] != (sprite_covers(pre.memory, pre.i_register, vx, vy, n, p)
                            && drawn_before(p, vx, vy, i as int, b as int + 1))) by {
                        if p != idx {
                            lemma_step_of_offset(vy, p / DISP_WIDTH as int, DISP_HEIGHT as int);
                            lemma_step_of_offset(vx, p % DISP_WIDTH as int, DISP_WIDTH as int);
                        }
                    }
                }
                b += 1;
            }
            proof {
                assert forall|p: int| 0 <= p < DISP_WIDTH * DISP_HEIGHT implies drawn_before(
                    p,
                    vx,
                    vy,
                    i as int + 1,
                    0,
                ) == drawn_before(p, vx, vy, i as int, 8) by {
                    lemma_pixel_split(p % DISP_WIDTH as int, p / DISP_WIDTH as int);
                }
                assert(collided == collided_before(
                    pre.memory,
                    pre.display,
                    pre.i_register,
                    vx,
                    vy,
                    n,
                    i as int + 1,
                    0,
                ));
            }
            i += 1;
        }
        self.registers.set(FLAG_REGISTER, if collided { 1 } else { 0 });
        self.update_display = true;
        self.pc = self.pc + 2;
        proof {
            let post = pre.draw_spec(op);
            assert(collided == sprite_collides(pre.memory, pre.display, pre.i_register, vx, vy, n));
            assert(self.display@ =~= post.get_Ok_0().display);
            assert(self.registers@ =~= post.get_Ok_0().registers);
        }
        Ok(())
    }
}

} // verus!
