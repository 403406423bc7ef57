use vstd::prelude::*;

use crate::execute::{next_pc, step_spec, Flow};
use crate::instruction::decode;
use crate::machine::{Chip8State, Fault, FaultKind, Machine, MEMORY_SIZE, REGISTER_COUNT};
use crate::random::random_below;

verus! {

/// The big-endian word at the program counter.
pub open spec fn fetch(m: Machine) -> u16 {
    (m.memory[m.pc as int] * 256 + m.memory[m.pc + 1]) as u16
}

/// `m` after one timer tick: each timer above zero goes down by one.
pub open spec fn ticked(m: Machine) -> Machine {
    Machine {
        delay: if m.delay > 0 { (m.delay - 1) as u8 } else { 0 },
        sound: if m.sound > 0 { (m.sound - 1) as u8 } else { 0 },
        ..m
    }
}

/// One cycle: fetch the word at the program counter, execute it with `rnd` as
/// the random byte, then tick the timers. The result says whether a beep is
/// due, that is whether the sound timer was running. On a fault nothing changes.
pub open spec fn cycle_spec(m: Machine, rnd: u8) -> Result<(Machine, bool), Fault> {
    if m.pc + 1 >= MEMORY_SIZE {
        Err(Fault { kind: FaultKind::MemoryOutOfRange, opcode: 0, pc: m.pc })
    } else {
        let op = fetch(m);
        match step_spec(m, op, rnd) {
            Ok(m2) => Ok((ticked(m2), m2.sound > 0)),
            Err(kind) => Err(Fault { kind, opcode: op, pc: m.pc }),
        }
    }
}

/// Whether result `r` and state `after` are what `c` prescribes for a machine
/// that was `before`.
pub open spec fn cycle_agrees(
    r: Result<bool, Fault>,
    before: Machine,
    after: Machine,
    c: Result<(Machine, bool), Fault>,
) -> bool {
    match c {
        Ok((m, beep)) => r == Ok::<bool, Fault>(beep) && after == m,
        Err(f) => r == Err::<bool, Fault>(f) && after == before,
    }
}

impl Chip8State {
    /// Executes `opcode` as the instruction at the program counter, with
    /// `random` as the byte a random-number instruction draws, and moves the
    /// program counter on. On a fault the state is left as it was.
    pub fn process_opcode(&mut self, opcode: u16, random: u8) -> (r: Result<(), Fault>)
        requires
            old(self).wf(),
            old(self).pc + 1 < MEMORY_SIZE,
        ensures
            final(self).wf(),
            match step_spec(old(self)@, opcode, random) {
                Ok(m) => r is Ok && final(self)@ == m,
                Err(kind) => r == Err::<(), Fault>(Fault { kind, opcode, pc: old(self).pc })
                    && final(self)@ == old(self)@,
            },
    {
        let pc: u16 = self.pc;
        let ins = decode(opcode);
        match self.execute(ins, random) {
            Ok(flow) => {
                self.pc = match flow {
                    Flow::Next => pc + 2,
                    Flow::Skip => pc + 4,
                    Flow::Jump(a) => a,
                    Flow::Wait => pc,
                };
                assert(self.pc == next_pc(pc, flow));
                Ok(())
            },
            Err(kind) => Err(Fault { kind, opcode, pc }),
        }
    }

    /// Counts both timers down by one where above zero; returns whether the
    /// sound timer was running, that is whether a beep is due.
    pub fn tick_timers(&mut self) -> (beep: bool)
        ensures
            final(self)@ == ticked(old(self)@),
            beep == (old(self).sound_timer > 0),
    {
        if self.delay_timer > 0 {
            self.delay_timer = self.delay_timer - 1;
        }
        let beep = self.sound_timer > 0;
        if beep {
            self.sound_timer = self.sound_timer - 1;
        }
        beep
    }

    /// One cycle with `random` as the random byte: fetch, execute, tick the
    /// timers. Returns whether a beep is due, or the fault with its word and
    /// program counter, in which case the state is left as it was.
    pub fn cycle(&mut self, random: u8) -> (r: Result<bool, Fault>)
        requires
            old(self).wf(),
        ensures
            final(self).wf(),
            cycle_agrees(r, old(self)@, final(self)@, cycle_spec(old(self)@, random)),
    {
        if self.pc as usize + 1 >= MEMORY_SIZE {
            return Err(Fault { kind: FaultKind::MemoryOutOfRange, opcode: 0, pc: self.pc });
        }
        let opcode = self.get_opcode();
        match self.process_opcode(opcode, random) {
            Ok(()) => Ok(self.tick_timers()),
            Err(f) => Err(f),
        }
    }

    /// One cycle, drawing the random byte from the thread's generator as a
    /// value below 255.
    pub fn run_cycle(&mut self) -> (r: Result<bool, Fault>)
        requires
            old(self).wf(),
        ensures
            final(self).wf(),
            exists|rnd: u8|
                rnd < 255 && cycle_agrees(r, old(self)@, final(self)@, cycle_spec(old(self)@, rnd)),
    {
        let rnd = random_below(255);
        self.cycle(rnd)
    }

    /// Records that key `index` of the keypad went down or up.
    pub fn set_key(&mut self, index: u8, pressed: bool)
        requires
            old(self).wf(),
            index < REGISTER_COUNT,
        ensures
            final(self)@ == (Machine { keys: old(self)@.keys.update(index as int, pressed), ..old(self)@ }),
    {
        self.keys[index as usize] = pressed;
    }
}

} // verus!
