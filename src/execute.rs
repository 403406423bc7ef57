use vstd::prelude::*;

use crate::instruction::{decode_spec, operands_in_range, Instruction};
use crate::machine::{
    Chip8State, Fault, FaultKind, Machine, MEMORY_SIZE, REGISTER_COUNT, SCREEN_CELLS,
    SCREEN_HEIGHT, SCREEN_WIDTH, STACK_CAPACITY,
};

verus! {

/// What an instruction does to the program counter.
#[derive(Clone, Copy, Debug, PartialEq, Eq, Structural)]
pub enum Flow {
    /// Go on with the following instruction.
    Next,
    /// Skip the following instruction.
    Skip,
    /// Continue at the given address.
    Jump(u16),
    /// Run the same instruction again on the next cycle.
    Wait,
}

/// The program counter after an instruction at `pc` with the given flow.
pub open spec fn next_pc(pc: u16, flow: Flow) -> u16 {
    match flow {
        Flow::Next => (pc + 2) as u16,
        Flow::Skip => (pc + 4) as u16,
        Flow::Jump(a) => a,
        Flow::Wait => pc,
    }
}

/// `m` with register `x` set to `val`.
pub open spec fn with_reg(m: Machine, x: u8, val: u8) -> Machine {
    Machine { v: m.v.update(x as int, val), ..m }
}

/// `m` with register `x` set to `val` and then the flag register to `flag`.
pub open spec fn with_flag(m: Machine, x: u8, val: u8, flag: u8) -> Machine {
    Machine { v: m.v.update(x as int, val).update(15, flag), ..m }
}

/// Whether sprite byte `b` has its pixel at column `c` (0 is the leftmost) set.
pub open spec fn sprite_bit(b: u8, c: u8) -> bool {
    (b >> (7 - c) as u8) & 1u8 == 1u8
}

/// Whether drawing the `n`-row sprite at `m.i` with its top left corner at
/// (`px`, `py`) flips the cell at `row`, `col`.
pub open spec fn sprite_hits(m: Machine, px: int, py: int, n: int, row: int, col: int) -> bool {
    let r = row - py;
    let c = col - px;
    &&& 0 <= r < n
    &&& 0 <= c < 8
    &&& sprite_bit(m.memory[m.i + r], c as u8)
}

/// The display after drawing: each cell that the sprite covers with a set bit
/// flips; cells past the right or bottom edge are not drawn.
pub open spec fn drawn_screen(m: Machine, px: int, py: int, n: int) -> Seq<bool> {
    Seq::new(
        SCREEN_CELLS as nat,
        |p: int|
            if sprite_hits(m, px, py, n, p / SCREEN_WIDTH as int, p % SCREEN_WIDTH as int) {
                !m.screen[p]
            } else {
                m.screen[p]
            },
    )
}

/// Whether drawing turns off a cell that was on.
pub open spec fn collides(m: Machine, px: int, py: int, n: int) -> bool {
    exists|p: int|
        0 <= p < SCREEN_CELLS && #[trigger] m.screen[p] && sprite_hits(
            m,
            px,
            py,
            n,
            p / SCREEN_WIDTH as int,
            p % SCREEN_WIDTH as int,
        )
}

/// The lowest pressed key from `k` on, or the keypad's size when none is.
pub open spec fn first_pressed_from(keys: Seq<bool>, k: int) -> int
    decreases REGISTER_COUNT - k,
{
    if k >= REGISTER_COUNT {
        REGISTER_COUNT as int
    } else if keys[k] {
        k
    } else {
        first_pressed_from(keys, k + 1)
    }
}

/// The lowest pressed key, or the keypad's size when none is.
pub open spec fn first_pressed(keys: Seq<bool>) -> int {
    first_pressed_from(keys, 0)
}

/// Whether the block of `len` bytes from `start` lies inside memory.
pub open spec fn in_memory(start: int, len: int) -> bool {
    start + len <= MEMORY_SIZE
}

/// The skip flow when `cond` holds, else the next one.
pub open spec fn skip_if(cond: bool) -> Flow {
    if cond {
        Flow::Skip
    } else {
        Flow::Next
    }
}

/// The effect of one instruction on a machine whose program counter points at
/// it, save for the program counter itself, which the flow gives; or the fault
/// it raises, in which case nothing changes.
///
/// Register-register arithmetic takes both operands from before the
/// instruction and writes the flag register last. Adding to `I` wraps at
/// sixteen bits; an address out of memory faults only when it is accessed.
pub open spec fn effect(m: Machine, ins: Instruction, rnd: u8) -> Result<(Machine, Flow), FaultKind> {
    match ins {
        Instruction::ClearScreen => Ok(
            (Machine { screen: Seq::new(SCREEN_CELLS as nat, |p: int| false), ..m }, Flow::Next),
        ),
        Instruction::Return => if m.sp == 0 {
            Err(FaultKind::StackUnderflow)
        } else {
            Ok(
                (
                    Machine { sp: (m.sp - 1) as u8, ..m },
                    Flow::Jump(m.stack[m.sp - 1]),
                ),
            )
        },
        Instruction::Jump { nnn } => Ok((m, Flow::Jump(nnn))),
        Instruction::Call { nnn } => if m.sp >= STACK_CAPACITY {
            Err(FaultKind::StackOverflow)
        } else {
            Ok(
                (
                    Machine {
                        stack: m.stack.update(m.sp as int, (m.pc + 2) as u16),
                        sp: (m.sp + 1) as u8,
                        ..m
                    },
                    Flow::Jump(nnn),
                ),
            )
        },
        Instruction::SkipEqByte { x, kk } => Ok((m, skip_if(m.v[x as int] == kk))),
        Instruction::SkipNeByte { x, kk } => Ok((m, skip_if(m.v[x as int] != kk))),
        Instruction::SkipEqReg { x, y } => Ok((m, skip_if(m.v[x as int] == m.v[y as int]))),
        Instruction::SkipNeReg { x, y } => Ok((m, skip_if(m.v[x as int] != m.v[y as int]))),
        Instruction::LoadByte { x, kk } => Ok((with_reg(m, x, kk), Flow::Next)),
        Instruction::AddByte { x, kk } => Ok(
            (with_reg(m, x, ((m.v[x as int] + kk) % 256) as u8), Flow::Next),
        ),
        Instruction::Move { x, y } => Ok((with_reg(m, x, m.v[y as int]), Flow::Next)),
        Instruction::Or { x, y } => Ok((with_reg(m, x, m.v[x as int] | m.v[y as int]), Flow::Next)),
        Instruction::And { x, y } => Ok(
            (with_reg(m, x, m.v[x as int] & m.v[y as int]), Flow::Next),
        ),
        Instruction::Xor { x, y } => Ok(
            (with_reg(m, x, m.v[x as int] ^ m.v[y as int]), Flow::Next),
        ),
        Instruction::AddReg { x, y } => {
            let sum = m.v[x as int] + m.v[y as int];
            Ok((with_flag(m, x, (sum % 256) as u8, if sum > 255 { 1 } else { 0 }), Flow::Next))
        },
        Instruction::SubReg { x, y } => {
            let (a, b) = (m.v[x as int], m.v[y as int]);
            Ok(
                (
                    with_flag(m, x, ((a - b + 256) % 256) as u8, if a >= b { 1 } else { 0 }),
                    Flow::Next,
                ),
            )
        },
        Instruction::ShiftRight { x, y } => Ok(
            (with_flag(m, x, m.v[y as int] / 2, m.v[x as int] % 2), Flow::Next),
        ),
        Instruction::SubReverse { x, y } => {
            let (a, b) = (m.v[x as int], m.v[y as int]);
            Ok(
                (
                    with_flag(m, x, ((b - a + 256) % 256) as u8, if b >= a { 1 } else { 0 }),
                    Flow::Next,
                ),
            )
        },
        Instruction::ShiftLeft { x, y } => Ok(
            (with_flag(m, x, ((m.v[y as int] * 2) % 256) as u8, m.v[x as int] / 128), Flow::Next),
        ),
        Instruction::LoadI { nnn } => Ok((Machine { i: nnn, ..m }, Flow::Next)),
        Instruction::JumpV0 { nnn } => Ok((m, Flow::Jump((nnn + m.v[0]) as u16))),
        Instruction::Random { x, kk } => Ok((with_reg(m, x, rnd & kk), Flow::Next)),
        Instruction::Draw { x, y, n } => if n > 0 && !in_memory(m.i as int, n as int) {
            Err(FaultKind::MemoryOutOfRange)
        } else {
            let (px, py) = (m.v[x as int] as int, m.v[y as int] as int);
            let flag: u8 = if collides(m, px, py, n as int) { 1 } else { 0 };
            Ok(
                (
                    Machine {
                        screen: drawn_screen(m, px, py, n as int),
                        v: m.v.update(15, flag),
                        ..m
                    },
                    Flow::Next,
                ),
            )
        },
        Instruction::SkipKey { x } => if m.v[x as int] >= REGISTER_COUNT {
            Err(FaultKind::MemoryOutOfRange)
        } else {
            Ok((m, skip_if(m.keys[m.v[x as int] as int])))
        },
        Instruction::SkipNotKey { x } => if m.v[x as int] >= REGISTER_COUNT {
            Err(FaultKind::MemoryOutOfRange)
        } else {
            Ok((m, skip_if(!m.keys[m.v[x as int] as int])))
        },
        Instruction::LoadDelay { x } => Ok((with_reg(m, x, m.delay), Flow::Next)),
        Instruction::WaitKey { x } => {
            let k = first_pressed(m.keys);
            if k < REGISTER_COUNT {
                Ok((with_reg(m, x, k as u8), Flow::Next))
            } else {
                Ok((m, Flow::Wait))
            }
        },
        Instruction::SetDelay { x } => Ok((Machine { delay: m.v[x as int], ..m }, Flow::Next)),
        Instruction::SetSound { x } => Ok((Machine { sound: m.v[x as int], ..m }, Flow::Next)),
        Instruction::AddI { x } => Ok(
            (Machine { i: ((m.i + m.v[x as int]) % 0x10000) as u16, ..m }, Flow::Next),
        ),
        Instruction::LoadFont { x } => Ok(
            (Machine { i: (m.v[x as int] * 5) as u16, ..m }, Flow::Next),
        ),
        Instruction::StoreBcd { x } => if !in_memory(m.i as int, 3) {
            Err(FaultKind::MemoryOutOfRange)
        } else {
            let val = m.v[x as int];
            Ok(
                (
                    Machine {
                        memory: m.memory.update(m.i as int, val / 100).update(
                            m.i + 1,
                            (val / 10) % 10,
                        ).update(m.i + 2, val % 10),
                        ..m
                    },
                    Flow::Next,
                ),
            )
        },
        Instruction::StoreRegs { x } => if !in_memory(m.i as int, x + 1) {
            Err(FaultKind::MemoryOutOfRange)
        } else {
            Ok(
                (
                    Machine {
                        memory: Seq::new(
                            MEMORY_SIZE as nat,
                            |a: int|
                                if m.i <= a <= m.i + x {
                                    m.v[a - m.i]
                                } else {
                                    m.memory[a]
                                },
                        ),
                        i: (m.i + x + 1) as u16,
                        ..m
                    },
                    Flow::Next,
                ),
            )
        },
        Instruction::LoadRegs { x } => if !in_memory(m.i as int, x + 1) {
            Err(FaultKind::MemoryOutOfRange)
        } else {
            Ok(
                (
                    Machine {
                        v: Seq::new(
                            REGISTER_COUNT as nat,
                            |j: int|
                                if j <= x {
                                    m.memory[m.i + j]
                                } else {
                                    m.v[j]
                                },
                        ),
                        i: (m.i + x + 1) as u16,
                        ..m
                    },
                    Flow::Next,
                ),
            )
        },
        Instruction::Unsupported => Err(FaultKind::UnsupportedInstruction),
    }
}

/// The state after executing the word `op` at the program counter, with `rnd`
/// as the random byte; or the fault it raises, in which case nothing changes.
pub open spec fn step_spec(m: Machine, op: u16, rnd: u8) -> Result<Machine, FaultKind> {
    match effect(m, decode_spec(op), rnd) {
        Ok((m2, flow)) => Ok(Machine { pc: next_pc(m.pc, flow), ..m2 }),
        Err(k) => Err(k),
    }
}


/// Whether result `r` and state `after` are what the effect `e` prescribes for a
/// machine that was `before`.
pub open spec fn agrees(
    r: Result<Flow, FaultKind>,
    before: Machine,
    after: Machine,
    e: Result<(Machine, Flow), FaultKind>,
) -> bool {
    match e {
        Ok((m, f)) => r == Ok::<Flow, FaultKind>(f) && after == m,
        Err(k) => r == Err::<Flow, FaultKind>(k) && after == before,
    }
}

/// Cells the draw loop has flipped once it reaches sprite row `r`, column `c`.
spec fn drawn_before(m: Machine, px: int, py: int, n: int, r: int, c: int, p: int) -> bool {
    let row = p / SCREEN_WIDTH as int;
    let col = p % SCREEN_WIDTH as int;
    &&& sprite_hits(m, px, py, n, row, col)
    &&& (row - py < r || (row - py == r && col - px < c))
}

proof fn lemma_cell_index(row: int, col: int)
    requires
        0 <= row,
        0 <= col < SCREEN_WIDTH,
    ensures
        (row * SCREEN_WIDTH + col) / SCREEN_WIDTH as int == row,
        (row * SCREEN_WIDTH + col) % SCREEN_WIDTH as int == col,
{
}

impl Chip8State {
    fn draw_sprite(&mut self, x: u8, y: u8, n: u8) -> (r: Result<Flow, FaultKind>)
        requires
            old(self).wf(),
            x < 16,
            y < 16,
            n < 16,
        ensures
            final(self).wf(),
            agrees(r, old(self)@, final(self)@, effect(old(self)@, Instruction::Draw { x, y, n }, 0)),
    {
        let i: usize = self.i_register as usize;
        let nn: usize = n as usize;
        if n > 0 && i + nn > MEMORY_SIZE {
            return Err(FaultKind::MemoryOutOfRange);
        }
        let px: usize = self.registers[x as usize] as usize;
        let py: usize = self.registers[y as usize] as usize;
        let ghost m = self@;
        let mut collision = false;
        let mut r: usize = 0;
        while r < nn
            invariant
                m == old(self)@,
                m.wf(),
                r <= nn < 16,
                nn > 0 ==> i + nn <= MEMORY_SIZE,
                i == m.i,
                px == m.v[x as int],
                py == m.v[y as int],
                self@ == (Machine { screen: self@.screen, ..m }),
                self.video_buf@.len() == SCREEN_CELLS,
                forall|p: int|
                    0 <= p < SCREEN_CELLS ==> #[trigger] self.video_buf@[p] == if drawn_before(
                        m,
                        px as int,
                        py as int,
                        nn as int,
                        r as int,
                        0,
                        p,
                    ) {
                        !m.screen[p]
                    } else {
                        m.screen[p]
                    },
                collision == exists|p: int|
                    0 <= p < SCREEN_CELLS && m.screen[p] && #[trigger] drawn_before(
                        m,
                        px as int,
                        py as int,
                        nn as int,
                        r as int,
                        0,
                        p,
                    ),
            decreases nn - r,
        {
            let row_byte: u8 = self.memory[i + r];
            let mut c: u8 = 0;
            while c < 8
                invariant
                    m == old(self)@,
                    m.wf(),
                    r < nn < 16,
                    c <= 8,
                    i + nn <= MEMORY_SIZE,
                    i == m.i,
                    row_byte == m.memory[i + r],
                    px == m.v[x as int],
                    py == m.v[y as int],
                    self@ == (Machine { screen: self@.screen, ..m }),
                    self.video_buf@.len() == SCREEN_CELLS,
                    forall|p: int|
                        0 <= p < SCREEN_CELLS ==> #[trigger] self.video_buf@[p] == if drawn_before(
                            m,
                            px as int,
                            py as int,
                            nn as int,
                            r as int,
                            c as int,
                            p,
                        ) {
                            !m.screen[p]
                        } else {
                            m.screen[p]
                        },
                    collision == exists|p: int|
                        0 <= p < SCREEN_CELLS && m.screen[p] && #[trigger] drawn_before(
                            m,
                            px as int,
                            py as int,
                            nn as int,
                            r as int,
                            c as int,
                            p,
                        ),
                decreases 8 - c,
            {
                let ghost old_buf = self.video_buf@;
                let ghost old_collision = collision;
                let bit = (row_byte >> (7 - c)) & 1 == 1;
                let on_screen = py + r < SCREEN_HEIGHT && px + (c as usize) < SCREEN_WIDTH;
                let ghost target = (py + r) * SCREEN_WIDTH + px + c;
                proof {
                    if on_screen {
                        lemma_cell_index((py + r) as int, (px + c) as int);
                    }
                    assert forall|p: int| 0 <= p < SCREEN_CELLS implies (drawn_before(
                        m,
                        px as int,
                        py as int,
                        nn as int,
                        r as int,
                        c + 1,
                        p,
                    ) <==> (drawn_before(m, px as int, py as int, nn as int, r as int, c as int, p)
                        || (on_screen && bit && p == target))) by {
                        lemma_cell_index(p / SCREEN_WIDTH as int, p % SCREEN_WIDTH as int);
                    }
                }
                if on_screen && bit {
                    let idx: usize = (py + r) * SCREEN_WIDTH + px + c as usize;
                    let was_on = self.video_buf[idx];
                    if was_on {
                        collision = true;
                    }
                    self.video_buf[idx] = !was_on;
                }
                c = c + 1;
                proof {
                    if collision && old_collision {
                        let w = choose|p: int|
                            0 <= p < SCREEN_CELLS && m.screen[p] && #[trigger] drawn_before(
                                m,
                                px as int,
                                py as int,
                                nn as int,
                                r as int,
                                (c - 1) as int,
                                p,
                            );
                        assert(drawn_before(m, px as int, py as int, nn as int, r as int, c as int, w));
                    } else if collision {
                        assert(drawn_before(m, px as int, py as int, nn as int, r as int, c as int, target));
                    } else {
                        assert forall|p: int|
                            0 <= p < SCREEN_CELLS && m.screen[p] implies !drawn_before(
                            m,
                            px as int,
                            py as int,
                            nn as int,
                            r as int,
                            c as int,
                            p,
                        ) by {
                            if p == target && on_screen && bit {
                                assert(old_buf[p] == m.screen[p]);
                            } else {
                                assert(!drawn_before(m, px as int, py as int, nn as int, r as int, (c - 1) as int, p));
                            }
                        }
                    }
                }
            }
            r = r + 1;
            proof {
                assert forall|p: int| 0 <= p < SCREEN_CELLS implies (drawn_before(
                    m,
                    px as int,
                    py as int,
                    nn as int,
                    r as int,
                    0,
                    p,
                ) == drawn_before(m, px as int, py as int, nn as int, (r - 1) as int, 8, p)) by {
                    lemma_cell_index(p / SCREEN_WIDTH as int, p % SCREEN_WIDTH as int);
                }
                if collision {
                    let w = choose|p: int|
                        0 <= p < SCREEN_CELLS && m.screen[p] && #[trigger] drawn_before(
                            m,
                            px as int,
                            py as int,
                            nn as int,
                            (r - 1) as int,
                            8,
                            p,
                        );
                    assert(drawn_before(m, px as int, py as int, nn as int, r as int, 0, w));
                } else {
                    assert forall|p: int|
                        0 <= p < SCREEN_CELLS && m.screen[p] implies !drawn_before(
                        m,
                        px as int,
                        py as int,
                        nn as int,
                        r as int,
                        0,
                        p,
                    ) by {
                        assert(!drawn_before(m, px as int, py as int, nn as int, (r - 1) as int, 8, p));
                    }
                }
            }
        }
        proof {
            assert forall|p: int| 0 <= p < SCREEN_CELLS implies (drawn_before(
                m,
                px as int,
                py as int,
                nn as int,
                r as int,
                0,
                p,
            ) == sprite_hits(
                m,
                px as int,
                py as int,
                nn as int,
                p / SCREEN_WIDTH as int,
                p % SCREEN_WIDTH as int,
            )) by {}
            assert(self.video_buf@ =~= drawn_screen(m, px as int, py as int, nn as int));
            if collision {
                let w = choose|p: int|
                    0 <= p < SCREEN_CELLS && m.screen[p] && #[trigger] drawn_before(
                        m,
                        px as int,
                        py as int,
                        nn as int,
                        r as int,
                        0,
                        p,
                    );
                assert(m.screen[w]);
                assert(collides(m, px as int, py as int, nn as int));
            } else if collides(m, px as int, py as int, nn as int) {
                let w = choose|p: int|
                    0 <= p < SCREEN_CELLS && #[trigger] m.screen[p] && sprite_hits(
                        m,
                        px as int,
                        py as int,
                        nn as int,
                        p / SCREEN_WIDTH as int,
                        p % SCREEN_WIDTH as int,
                    );
                assert(drawn_before(m, px as int, py as int, nn as int, r as int, 0, w));
            }
        }
        self.registers[15] = if collision { 1 } else { 0 };
        assert(self@ =~= (Machine {
            screen: drawn_screen(m, px as int, py as int, nn as int),
            v: m.v.update(15, if collides(m, px as int, py as int, nn as int) { 1u8 } else { 0u8 }),
            ..m
        }));
        Ok(Flow::Next)
    }

    fn clear_screen(&mut self)
        requires
            old(self).wf(),
        ensures
            final(self)@ == (Machine {
                screen: Seq::new(SCREEN_CELLS as nat, |p: int| false),
                ..old(self)@
            }),
    {
        let mut p: usize = 0;
        while p < SCREEN_CELLS
            invariant
                p <= SCREEN_CELLS,
                old(self).wf(),
                self@ == (Machine { screen: self@.screen, ..old(self)@ }),
                self.video_buf@.len() == SCREEN_CELLS,
                forall|q: int| 0 <= q < p ==> !self.video_buf@[q],
            decreases SCREEN_CELLS - p,
        {
            self.video_buf[p] = false;
            p = p + 1;
        }
        assert(self.video_buf@ =~= Seq::new(SCREEN_CELLS as nat, |q: int| false));
    }

    fn wait_key(&mut self, x: u8) -> (r: Result<Flow, FaultKind>)
        requires
            old(self).wf(),
            x < 16,
        ensures
            final(self).wf(),
            agrees(r, old(self)@, final(self)@, effect(old(self)@, Instruction::WaitKey { x }, 0)),
    {
        let mut k: usize = 0;
        while k < REGISTER_COUNT
            invariant
                k <= REGISTER_COUNT,
                x < 16,
                old(self).wf(),
                self@ == old(self)@,
                first_pressed(self.keys@) == first_pressed_from(self.keys@, k as int),
            decreases REGISTER_COUNT - k,
        {
            if self.keys[k] {
                self.registers[x as usize] = k as u8;
                return Ok(Flow::Next);
            }
            k = k + 1;
        }
        Ok(Flow::Wait)
    }

    fn store_registers(&mut self, x: u8) -> (r: Result<Flow, FaultKind>)
        requires
            old(self).wf(),
            x < 16,
        ensures
            final(self).wf(),
            agrees(r, old(self)@, final(self)@, effect(old(self)@, Instruction::StoreRegs { x }, 0)),
    {
        let base: usize = self.i_register as usize;
        let count: usize = x as usize + 1;
        if base + count > MEMORY_SIZE {
            return Err(FaultKind::MemoryOutOfRange);
        }
        let ghost m = self@;
        let mut j: usize = 0;
        while j < count
            invariant
                j <= count <= 16,
                base + count <= MEMORY_SIZE,
                base == m.i,
                m == old(self)@,
                m.wf(),
                self@ == (Machine { memory: self@.memory, ..m }),
                self.memory@.len() == MEMORY_SIZE,
                forall|a: int|
                    0 <= a < MEMORY_SIZE ==> #[trigger] self.memory@[a] == if base <= a < base + j {
                        m.v[a - base]
                    } else {
                        m.memory[a]
                    },
            decreases count - j,
        {
            self.memory[base + j] = self.registers[j];
            j = j + 1;
        }
        self.i_register = (base + count) as u16;
        assert(self.memory@ =~= Seq::new(
            MEMORY_SIZE as nat,
            |a: int|
                if m.i <= a <= m.i + x {
                    m.v[a - m.i]
                } else {
                    m.memory[a]
                },
        ));
        Ok(Flow::Next)
    }

    fn load_registers(&mut self, x: u8) -> (r: Result<Flow, FaultKind>)
        requires
            old(self).wf(),
            x < 16,
        ensures
            final(self).wf(),
            agrees(r, old(self)@, final(self)@, effect(old(self)@, Instruction::LoadRegs { x }, 0)),
    {
        let base: usize = self.i_register as usize;
        let count: usize = x as usize + 1;
        if base + count > MEMORY_SIZE {
            return Err(FaultKind::MemoryOutOfRange);
        }
        let ghost m = self@;
        let mut j: usize = 0;
        while j < count
            invariant
                j <= count <= 16,
                base + count <= MEMORY_SIZE,
                base == m.i,
                m == old(self)@,
                m.wf(),
                self@ == (Machine { v: self@.v, ..m }),
                self.registers@.len() == REGISTER_COUNT,
                forall|k: int|
                    0 <= k < REGISTER_COUNT ==> #[trigger] self.registers@[k] == if k < j {
                        m.memory[base + k]
                    } else {
                        m.v[k]
                    },
            decreases count - j,
        {
            self.registers[j] = self.memory[base + j];
            j = j + 1;
        }
        self.i_register = (base + count) as u16;
        assert(self.registers@ =~= Seq::new(
            REGISTER_COUNT as nat,
            |k: int|
                if k <= x {
                    m.memory[m.i + k]
                } else {
                    m.v[k]
                },
        ));
        Ok(Flow::Next)
    }

    fn set_with_flag(&mut self, x: u8, val: u8, flag: u8)
        requires
            old(self).wf(),
            x < 16,
        ensures
            final(self)@ == with_flag(old(self)@, x, val, flag),
    {
        self.registers[x as usize] = val;
        self.registers[15] = flag;
    }

    /// Register loads and arithmetic.
    fn execute_register_op(&mut self, ins: Instruction, rnd: u8) -> (r: Result<Flow, FaultKind>)
        requires
            old(self).wf(),
            operands_in_range(ins),
            old(self).pc + 1 < MEMORY_SIZE,
            ins is LoadByte || ins is AddByte || ins is Move || ins is Or || ins is And
                || ins is Xor || ins is AddReg || ins is SubReg || ins is ShiftRight
                || ins is SubReverse || ins is ShiftLeft || ins is Random,
        ensures
            final(self).wf(),
            agrees(r, old(self)@, final(self)@, effect(old(self)@, ins, rnd)),
    {
        match ins {
            Instruction::LoadByte { x, kk } => {
                self.registers[x as usize] = kk;
                Ok(Flow::Next)
            },
            Instruction::AddByte { x, kk } => {
                let sum: u16 = self.registers[x as usize] as u16 + kk as u16;
                self.registers[x as usize] = (sum % 256) as u8;
                Ok(Flow::Next)
            },
            Instruction::Move { x, y } => {
                let val = self.registers[y as usize];
                self.registers[x as usize] = val;
                Ok(Flow::Next)
            },
            Instruction::Or { x, y } => {
                let val = self.registers[x as usize] | self.registers[y as usize];
                self.registers[x as usize] = val;
                Ok(Flow::Next)
            },
            Instruction::And { x, y } => {
                let val = self.registers[x as usize] & self.registers[y as usize];
                self.registers[x as usize] = val;
                Ok(Flow::Next)
            },
            Instruction::Xor { x, y } => {
                let val = self.registers[x as usize] ^ self.registers[y as usize];
                self.registers[x as usize] = val;
                Ok(Flow::Next)
            },
            Instruction::AddReg { x, y } => {
                let sum: u16 = self.registers[x as usize] as u16 + self.registers[y as usize] as u16;
                self.set_with_flag(x, (sum % 256) as u8, if sum > 255 { 1 } else { 0 });
                Ok(Flow::Next)
            },
            Instruction::SubReg { x, y } => {
                let a: u16 = self.registers[x as usize] as u16;
                let b: u16 = self.registers[y as usize] as u16;
                self.set_with_flag(x, ((a + 256 - b) % 256) as u8, if a >= b { 1 } else { 0 });
                Ok(Flow::Next)
            },
            Instruction::ShiftRight { x, y } => {
                let a: u8 = self.registers[x as usize];
                let b: u8 = self.registers[y as usize];
                self.set_with_flag(x, b / 2, a % 2);
                Ok(Flow::Next)
            },
            Instruction::SubReverse { x, y } => {
                let a: u16 = self.registers[x as usize] as u16;
                let b: u16 = self.registers[y as usize] as u16;
                self.set_with_flag(x, ((b + 256 - a) % 256) as u8, if b >= a { 1 } else { 0 });
                Ok(Flow::Next)
            },
            Instruction::ShiftLeft { x, y } => {
                let a: u8 = self.registers[x as usize];
                let b: u16 = self.registers[y as usize] as u16;
                self.set_with_flag(x, ((b * 2) % 256) as u8, a / 128);
                Ok(Flow::Next)
            },
            Instruction::Random { x, kk } => {
                self.registers[x as usize] = rnd & kk;
                Ok(Flow::Next)
            },
            _ => Err(FaultKind::UnsupportedInstruction),
        }
    }

    /// Keypad, timer and `I`-relative instructions.
    fn execute_key_timer_index_op(&mut self, ins: Instruction, rnd: u8) -> (r: Result<Flow, FaultKind>)
        requires
            old(self).wf(),
            operands_in_range(ins),
            old(self).pc + 1 < MEMORY_SIZE,
            ins is SkipKey || ins is SkipNotKey || ins is LoadDelay || ins is WaitKey
                || ins is SetDelay || ins is SetSound || ins is AddI || ins is LoadFont
                || ins is StoreBcd || ins is StoreRegs || ins is LoadRegs,
        ensures
            final(self).wf(),
            agrees(r, old(self)@, final(self)@, effect(old(self)@, ins, rnd)),
    {
        match ins {
            Instruction::SkipKey { x } => {
                let k: u8 = self.registers[x as usize];
                if k as usize >= REGISTER_COUNT {
                    return Err(FaultKind::MemoryOutOfRange);
                }
                Ok(
                    if self.keys[k as usize] {
                        Flow::Skip
                    } else {
                        Flow::Next
                    },
                )
            },
            Instruction::SkipNotKey { x } => {
                let k: u8 = self.registers[x as usize];
                if k as usize >= REGISTER_COUNT {
                    return Err(FaultKind::MemoryOutOfRange);
                }
                Ok(
                    if !self.keys[k as usize] {
                        Flow::Skip
                    } else {
                        Flow::Next
                    },
                )
            },
            Instruction::LoadDelay { x } => {
                self.registers[x as usize] = self.delay_timer;
                Ok(Flow::Next)
            },
            Instruction::WaitKey { x } => self.wait_key(x),
            Instruction::SetDelay { x } => {
                self.delay_timer = self.registers[x as usize];
                Ok(Flow::Next)
            },
            Instruction::SetSound { x } => {
                self.sound_timer = self.registers[x as usize];
                Ok(Flow::Next)
            },
            Instruction::AddI { x } => {
                let sum: u32 = self.i_register as u32 + self.registers[x as usize] as u32;
                self.i_register = (sum % 0x10000) as u16;
                Ok(Flow::Next)
            },
            Instruction::LoadFont { x } => {
                self.i_register = self.registers[x as usize] as u16 * 5;
                Ok(Flow::Next)
            },
            Instruction::StoreBcd { x } => {
                let base: usize = self.i_register as usize;
                if base + 3 > MEMORY_SIZE {
                    return Err(FaultKind::MemoryOutOfRange);
                }
                let val: u8 = self.registers[x as usize];
                self.memory[base] = val / 100;
                self.memory[base + 1] = (val / 10) % 10;
                self.memory[base + 2] = val % 10;
                Ok(Flow::Next)
            },
            Instruction::StoreRegs { x } => self.store_registers(x),
            Instruction::LoadRegs { x } => self.load_registers(x),
            _ => Err(FaultKind::UnsupportedInstruction),
        }
    }

    /// Applies one decoded instruction, save for the program counter, and
    /// says how the program counter moves on.
    pub fn execute(&mut self, ins: Instruction, rnd: u8) -> (r: Result<Flow, FaultKind>)
        requires
            old(self).wf(),
            operands_in_range(ins),
            old(self).pc + 1 < MEMORY_SIZE,
        ensures
            final(self).wf(),
            agrees(r, old(self)@, final(self)@, effect(old(self)@, ins, rnd)),
    {
        match ins {
            Instruction::ClearScreen => {
                self.clear_screen();
                Ok(Flow::Next)
            },
            Instruction::Return => {
                if self.sp == 0 {
                    return Err(FaultKind::StackUnderflow);
                }
                self.sp = self.sp - 1;
                Ok(Flow::Jump(self.stack[self.sp as usize]))
            },
            Instruction::Jump { nnn } => Ok(Flow::Jump(nnn)),
            Instruction::Call { nnn } => {
                if self.sp as usize >= STACK_CAPACITY {
                    return Err(FaultKind::StackOverflow);
                }
                let ret: u16 = self.pc + 2;
                self.stack[self.sp as usize] = ret;
                self.sp = self.sp + 1;
                Ok(Flow::Jump(nnn))
            },
            Instruction::SkipEqByte { x, kk } => Ok(
                if self.registers[x as usize] == kk {
                    Flow::Skip
                } else {
                    Flow::Next
                },
            ),
            Instruction::SkipNeByte { x, kk } => Ok(
                if self.registers[x as usize] != kk {
                    Flow::Skip
                } else {
                    Flow::Next
                },
            ),
            Instruction::SkipEqReg { x, y } => Ok(
                if self.registers[x as usize] == self.registers[y as usize] {
                    Flow::Skip
                } else {
                    Flow::Next
                },
            ),
            Instruction::SkipNeReg { x, y } => Ok(
                if self.registers[x as usize] != self.registers[y as usize] {
                    Flow::Skip
                } else {
                    Flow::Next
                },
            ),
            Instruction::LoadI { nnn } => {
                self.i_register = nnn;
                Ok(Flow::Next)
            },
            Instruction::JumpV0 { nnn } => Ok(Flow::Jump(nnn + self.registers[0] as u16)),
            Instruction::Draw { x, y, n } => self.draw_sprite(x, y, n),
            Instruction::LoadByte { .. } | Instruction::AddByte { .. } | Instruction::Move { .. }
            | Instruction::Or { .. } | Instruction::And { .. } | Instruction::Xor { .. }
            | Instruction::AddReg { .. } | Instruction::SubReg { .. } | Instruction::ShiftRight { .. }
            | Instruction::SubReverse { .. } | Instruction::ShiftLeft { .. } | Instruction::Random {
                ..
            } => self.execute_register_op(ins, rnd),
            Instruction::SkipKey { .. } | Instruction::SkipNotKey { .. } | Instruction::LoadDelay { .. }
            | Instruction::WaitKey { .. } | Instruction::SetDelay { .. } | Instruction::SetSound { .. }
            | Instruction::AddI { .. } | Instruction::LoadFont { .. } | Instruction::StoreBcd { .. }
            | Instruction::StoreRegs { .. } | Instruction::LoadRegs { .. } => self.execute_key_timer_index_op(ins, rnd),
            Instruction::Unsupported => Err(FaultKind::UnsupportedInstruction),

        }
    }
}

} // verus!
