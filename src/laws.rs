use vstd::prelude::*;

use crate::execute::{drawn_screen, first_pressed, first_pressed_from, step_spec};
use crate::instruction::{
    address, decode_spec, family, low_byte, low_nibble, reg_x, reg_y, Instruction,
};
use crate::machine::{FaultKind, Machine, MEMORY_SIZE, REGISTER_COUNT};

verus! {

proof fn lemma_nibbles(op: u16, f: int, x: int, y: int, n: int)
    requires
        0 <= f < 16,
        0 <= x < 16,
        0 <= y < 16,
        0 <= n < 16,
        op == f * 4096 + x * 256 + y * 16 + n,
    ensures
        family(op) == f,
        reg_x(op) == x,
        reg_y(op) == y,
        low_nibble(op) == n,
        low_byte(op) == y * 16 + n,
        address(op) == x * 256 + y * 16 + n,
{
    assert(op / 4096 == f) by (nonlinear_arith)
        requires op == f * 4096 + x * 256 + y * 16 + n, 0 <= x < 16, 0 <= y < 16, 0 <= n < 16;
    assert(op / 256 == f * 16 + x) by (nonlinear_arith)
        requires op == f * 4096 + x * 256 + y * 16 + n, 0 <= y < 16, 0 <= n < 16;
    assert(op / 16 == f * 256 + x * 16 + y) by (nonlinear_arith)
        requires op == f * 4096 + x * 256 + y * 16 + n, 0 <= n < 16;
    assert((f * 16 + x) % 16 == x) by (nonlinear_arith)
        requires 0 <= x < 16, 0 <= f;
    assert((f * 256 + x * 16 + y) % 16 == y) by (nonlinear_arith)
        requires 0 <= y < 16, 0 <= f, 0 <= x;
    assert(op % 16 == n) by (nonlinear_arith)
        requires op == f * 4096 + x * 256 + y * 16 + n, 0 <= n < 16, 0 <= f, 0 <= x, 0 <= y;
    assert(op % 256 == y * 16 + n) by (nonlinear_arith)
        requires op == f * 4096 + x * 256 + y * 16 + n, 0 <= n < 16, 0 <= f, 0 <= x, 0 <= y < 16;
    assert(op % 4096 == x * 256 + y * 16 + n) by (nonlinear_arith)
        requires op == f * 4096 + x * 256 + y * 16 + n, 0 <= n < 16, 0 <= f, 0 <= x < 16, 0 <= y < 16;
}

/// A jump `1nnn` sets the program counter to `nnn` and changes nothing else.
pub proof fn lemma_jump_sets_pc(m: Machine, nnn: u16, rnd: u8)
    requires
        m.wf(),
        nnn < 0x1000,
    ensures
        step_spec(m, (0x1000 + nnn) as u16, rnd) == Ok::<Machine, FaultKind>(
            Machine { pc: nnn, ..m },
        ),
{
    assert(decode_spec((0x1000 + nnn) as u16) == Instruction::Jump { nnn });
}

/// A call `2nnn` with room on the stack, followed
/// by a return, leaves the stack as deep as before and resumes at the
/// instruction after the call.
pub proof fn lemma_call_then_return(m: Machine, nnn: u16, rnd: u8)
    requires
        m.wf(),
        nnn < 0x1000,
        m.sp < 12,
    ensures
        ({
            let called = step_spec(m, (0x2000 + nnn) as u16, rnd);
            &&& called is Ok
            &&& called->Ok_0.pc == nnn
            &&& called->Ok_0.sp == m.sp + 1
            &&& ({
                let back = step_spec(called->Ok_0, 0x00EE, rnd);
                &&& back is Ok
                &&& back->Ok_0.sp == m.sp
                &&& back->Ok_0.pc == (m.pc + 2) as u16
            })
        }),
{
    assert(decode_spec((0x2000 + nnn) as u16) == Instruction::Call { nnn });
    assert(decode_spec(0x00EE) == Instruction::Return);
}

/// `8xy4` with `x` other than the flag register leaves `(Vx + Vy) mod 256` in
/// `Vx` and sets `VF` to 1 exactly when the sum exceeds 255.
pub proof fn lemma_add_carry(m: Machine, x: u8, y: u8, rnd: u8)
    requires
        m.wf(),
        x < 15,
        y < 16,
    ensures
        ({
            let r = step_spec(m, (0x8004 + x * 256 + y * 16) as u16, rnd);
            let sum = m.v[x as int] + m.v[y as int];
            &&& r is Ok
            &&& r->Ok_0.v[x as int] == sum % 256
            &&& r->Ok_0.v[15] == if sum > 255 { 1u8 } else { 0u8 }
        }),
{
    let op = (0x8004 + x * 256 + y * 16) as u16;
    lemma_nibbles(op, 8, x as int, y as int, 4);
    assert(decode_spec(op) == Instruction::AddReg { x, y });
}

/// Drawing the same sprite twice at the same place gives back the display as
/// it was; neither position register may be the flag register, which the
/// first draw overwrites.
pub proof fn lemma_draw_twice_restores(m: Machine, x: u8, y: u8, n: u8, rnd: u8)
    requires
        m.wf(),
        x < 15,
        y < 15,
        n < 16,
        m.i + n <= MEMORY_SIZE,
    ensures
        ({
            let op = (0xD000 + x * 256 + y * 16 + n) as u16;
            let once = step_spec(m, op, rnd);
            &&& once is Ok
            &&& ({
                let twice = step_spec(once->Ok_0, op, rnd);
                &&& twice is Ok
                &&& twice->Ok_0.screen == m.screen
            })
        }),
{
    let op = (0xD000 + x * 256 + y * 16 + n) as u16;
    lemma_nibbles(op, 0xD, x as int, y as int, n as int);
    assert(decode_spec(op) == Instruction::Draw { x, y, n });
    let m1 = step_spec(m, op, rnd)->Ok_0;
    let (px, py) = (m.v[x as int] as int, m.v[y as int] as int);
    assert(m1.v[x as int] == m.v[x as int]);
    assert(m1.v[y as int] == m.v[y as int]);
    assert(drawn_screen(m1, px, py, n as int) =~= m.screen);
}

proof fn lemma_none_pressed(keys: Seq<bool>, k: int)
    requires
        0 <= k <= REGISTER_COUNT,
        forall|j: int| k <= j < REGISTER_COUNT ==> !keys[j],
    ensures
        first_pressed_from(keys, k) == REGISTER_COUNT,
    decreases REGISTER_COUNT - k,
{
    if k < REGISTER_COUNT {
        lemma_none_pressed(keys, k + 1);
    }
}

proof fn lemma_first_pressed(keys: Seq<bool>, k: int, start: int)
    requires
        0 <= start <= k < REGISTER_COUNT,
        keys[k],
        forall|j: int| start <= j < k ==> !keys[j],
    ensures
        first_pressed_from(keys, start) == k,
    decreases k - start,
{
    if start < k {
        lemma_first_pressed(keys, k, start + 1);
    }
}

/// `Fx0A` with no key down changes nothing, the program counter included, so
/// the same instruction runs again on the next cycle.
pub proof fn lemma_wait_key_waits(m: Machine, x: u8, rnd: u8)
    requires
        m.wf(),
        x < 16,
        forall|k: int| 0 <= k < REGISTER_COUNT ==> !m.keys[k],
    ensures
        step_spec(m, (0xF00A + x * 256) as u16, rnd) == Ok::<Machine, FaultKind>(m),
{
    let op = (0xF00A + x * 256) as u16;
    lemma_nibbles(op, 0xF, x as int, 0, 0xA);
    assert(decode_spec(op) == Instruction::WaitKey { x });
    lemma_none_pressed(m.keys, 0);
}

/// `Fx0A` with key `k` the lowest one down stores `k` in `Vx` and moves on to
/// the next instruction.
pub proof fn lemma_wait_key_takes_key(m: Machine, x: u8, k: u8, rnd: u8)
    requires
        m.wf(),
        x < 16,
        k < 16,
        m.keys[k as int],
        forall|j: int| 0 <= j < k ==> !m.keys[j],
    ensures
        step_spec(m, (0xF00A + x * 256) as u16, rnd) == Ok::<Machine, FaultKind>(
            Machine { v: m.v.update(x as int, k), pc: (m.pc + 2) as u16, ..m },
        ),
{
    let op = (0xF00A + x * 256) as u16;
    lemma_nibbles(op, 0xF, x as int, 0, 0xA);
    assert(decode_spec(op) == Instruction::WaitKey { x });
    lemma_first_pressed(m.keys, k as int, 0);
    assert(first_pressed(m.keys) == k);
}

} // verus!
