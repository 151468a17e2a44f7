use vstd::prelude::*;
use crate::decode::{op_class, op_x, op_y, op_n, op_kk, op_nnn};
use crate::machine::{VmState, VmError, STACK_SIZE, NUM_KEYS};

verus! {

/// A `call` to address `addr` followed at once by a `return` resumes at the
/// instruction after the call, with the stack pointer as it was before.
pub proof fn lemma_call_then_return(s: VmState, addr: u16, r1: u8, r2: u8)
    requires
        s.wf(),
        s.fetchable(),
        s.sp + 1 < STACK_SIZE,
        addr < 0x1000,
    ensures
        s.execute_spec((0x2000 + addr) as u16, r1) is Ok,
        s.execute_spec((0x2000 + addr) as u16, r1)->Ok_0.pc == addr,
        s.execute_spec((0x2000 + addr) as u16, r1)->Ok_0.execute_spec(0x00EE, r2) is Ok,
        s.execute_spec((0x2000 + addr) as u16, r1)->Ok_0.execute_spec(0x00EE, r2)->Ok_0.pc
            == s.pc + 2,
        s.execute_spec((0x2000 + addr) as u16, r1)->Ok_0.execute_spec(0x00EE, r2)->Ok_0.sp
            == s.sp,
{
    let op = (0x2000 + addr) as u16;
    assert(op_class(op) == 2);
    assert(op_nnn(op) == addr);
}

/// The conditional skips `3xkk`, `4xkk`, `5xy0` and `9xy0` move the program
/// counter on by exactly 4 when their condition holds and by 2 otherwise,
/// changing nothing else.
pub proof fn lemma_skip_advance(s: VmState, op: u16, random: u8)
    requires
        s.wf(),
        s.fetchable(),
        op_class(op) == 3 || op_class(op) == 4 || ((op_class(op) == 5 || op_class(op) == 9)
            && op_n(op) == 0),
    ensures
        s.execute_spec(op, random) == Ok::<VmState, VmError>(
            VmState {
                pc: (s.pc + if skip_condition(s, op) {
                    4int
                } else {
                    2int
                }) as usize,
                ..s
            },
        ),
{
}

/// The condition under which a conditional skip instruction skips.
pub open spec fn skip_condition(s: VmState, op: u16) -> bool {
    let vx = s.reg(op_x(op));
    let vy = s.reg(op_y(op));
    if op_class(op) == 3 {
        vx == op_kk(op)
    } else if op_class(op) == 4 {
        vx != op_kk(op)
    } else if op_class(op) == 5 {
        vx == vy
    } else {
        vx != vy
    }
}

/// A key press is consumed exactly once: after key `k` is set pressed,
/// `Ex9E` with `Vx == k` skips and clears the latch, so the same
/// instruction run again right after does not skip.
pub proof fn lemma_key_press_consumed(s: VmState, op: u16, r1: u8, r2: u8)
    requires
        s.wf(),
        op_class(op) == 0xE,
        op_kk(op) == 0x9E,
        s.reg(op_x(op)) < NUM_KEYS,
    ensures
        ({
            let k = s.reg(op_x(op));
            let pressed = VmState { keys: s.keys.update(k, true), ..s };
            let first = pressed.execute_spec(op, r1);
            &&& first is Ok
            &&& first->Ok_0.pc == s.pc + 4
            &&& !first->Ok_0.keys[k]
            &&& first->Ok_0.execute_spec(op, r2) is Ok
            &&& first->Ok_0.execute_spec(op, r2)->Ok_0.pc == s.pc + 6
        }),
{
}

/// The arithmetic instructions `8xy4`, `8xy5`, `8xy6`, `8xy7` and `8xyE`
/// leave in `Vx` (for `x` other than `F`) the full-width result truncated
/// to 8 bits, and in `VF` their own flag: carry out of the sum; `Vx > Vy`
/// for `sub`; `Vy > Vx` for `subn`; the bit shifted out by `shr`; the top bit
/// (mask `0x80`) for `shl`.
pub proof fn lemma_alu_results(s: VmState, op: u16, random: u8)
    requires
        s.wf(),
        s.fetchable(),
        op_class(op) == 8,
        op_x(op) != 0xF,
    ensures
        ({
            let vx = s.reg(op_x(op));
            let vy = s.reg(op_y(op));
            let t = s.execute_spec(op, random)->Ok_0;
            &&& op_n(op) == 0x4 ==> t.reg(op_x(op)) == (vx + vy) % 256 && t.reg(0xF) == if vx
                + vy > 255 {
                1int
            } else {
                0int
            }
            &&& op_n(op) == 0x5 ==> t.reg(op_x(op)) == (vx - vy) % 256 && t.reg(0xF) == if vx
                > vy {
                1int
            } else {
                0int
            }
            &&& op_n(op) == 0x6 ==> t.reg(op_x(op)) == vx / 2 && t.reg(0xF) == vx % 2
            &&& op_n(op) == 0x7 ==> t.reg(op_x(op)) == (vy - vx) % 256 && t.reg(0xF) == if vy
                > vx {
                1int
            } else {
                0int
            }
            &&& op_n(op) == 0xE ==> t.reg(op_x(op)) == (vx * 2) % 256 && t.reg(0xF) == if vx
                >= 0x80 {
                1int
            } else {
                0int
            }
        }),
{
}

} // verus!
