use vstd::prelude::*;

verus! {

/// Bytes of addressable memory.
pub const MEMORY_SIZE: usize = 4096;
/// Address at which a program image is loaded and execution starts.
pub const PROGRAM_START: u16 = 0x200;
/// Display width in cells.
pub const SCREEN_WIDTH: usize = 64;
/// Display height in cells.
pub const SCREEN_HEIGHT: usize = 32;
/// Number of display cells, stored row after row.
pub const SCREEN_CELLS: usize = 2048;
/// Return addresses the call stack can hold.
pub const STACK_CAPACITY: usize = 12;
/// General registers, and keys on the keypad.
pub const REGISTER_COUNT: usize = 16;
/// Bytes of font data: five per hexadecimal digit.
pub const FONT_SIZE: usize = 80;

/// The kinds of fault the machine reports instead of carrying on.
#[derive(Clone, Copy, Debug, PartialEq, Eq, Structural)]
pub enum FaultKind {
    /// The word has no defined meaning (legacy native-routine calls included).
    UnsupportedInstruction,
    /// A call with the stack full.
    StackOverflow,
    /// A return with the stack empty.
    StackUnderflow,
    /// An address outside memory, or a key number outside the keypad.
    MemoryOutOfRange,
    /// A program image larger than the space from the load address on.
    ProgramTooLarge,
}

/// A fault raised by one cycle, with the word and the program counter it came at.
/// When the fetch itself fails, `opcode` is 0.
#[derive(Clone, Copy, Debug, PartialEq, Eq, Structural)]
pub struct Fault {
    pub kind: FaultKind,
    pub opcode: u16,
    pub pc: u16,
}

/// The abstract state of the machine.
pub struct Machine {
    pub memory: Seq<u8>,
    pub pc: u16,
    pub v: Seq<u8>,
    pub i: u16,
    pub stack: Seq<u16>,
    pub sp: u8,
    pub delay: u8,
    pub sound: u8,
    pub keys: Seq<bool>,
    pub screen: Seq<bool>,
}

impl Machine {
    pub open spec fn wf(self) -> bool {
        &&& self.memory.len() == MEMORY_SIZE
        &&& self.v.len() == REGISTER_COUNT
        &&& self.stack.len() == STACK_CAPACITY
        &&& self.sp <= STACK_CAPACITY
        &&& self.keys.len() == REGISTER_COUNT
        &&& self.screen.len() == SCREEN_CELLS
    }

    /// The display cell at `row`, `col`.
    pub open spec fn cell(self, row: int, col: int) -> bool {
        self.screen[row * SCREEN_WIDTH + col]
    }
}

/// The glyphs of the hexadecimal digits 0 to F, five rows each.
pub open spec fn font_glyphs() -> Seq<u8> {
    seq![
        0xF0u8, 0x90, 0x90, 0x90, 0xF0, 0x20, 0x60, 0x20, 0x20, 0x70,
        0xF0, 0x10, 0xF0, 0x80, 0xF0, 0xF0, 0x10, 0xF0, 0x10, 0xF0,
        0x90, 0x90, 0xF0, 0x10, 0x10, 0xF0, 0x80, 0xF0, 0x10, 0xF0,
        0xF0, 0x80, 0xF0, 0x90, 0xF0, 0xF0, 0x10, 0x20, 0x40, 0x40,
        0xF0, 0x90, 0xF0, 0x90, 0xF0, 0xF0, 0x90, 0xF0, 0x10, 0xF0,
        0xF0, 0x90, 0xF0, 0x90, 0x90, 0xE0, 0x90, 0xE0, 0x90, 0xE0,
        0xF0, 0x80, 0x80, 0x80, 0xF0, 0xE0, 0x90, 0x90, 0x90, 0xE0,
        0xF0, 0x80, 0xF0, 0x80, 0xF0, 0xF0, 0x80, 0xF0, 0x80, 0x80
    ]
}

/// Memory after loading `program`: the font at the bottom, the program from
/// the load address on, zero elsewhere.
pub open spec fn initial_memory(program: Seq<u8>) -> Seq<u8> {
    Seq::new(
        MEMORY_SIZE as nat,
        |a: int|
            if a < FONT_SIZE {
                font_glyphs()[a]
            } else if PROGRAM_START <= a < PROGRAM_START + program.len() {
                program[a - PROGRAM_START]
            } else {
                0u8
            },
    )
}

/// The state of a freshly started machine running `program`.
pub open spec fn initial_machine(program: Seq<u8>) -> Machine {
    Machine {
        memory: initial_memory(program),
        pc: PROGRAM_START,
        v: Seq::new(REGISTER_COUNT as nat, |j: int| 0u8),
        i: 0,
        stack: Seq::new(STACK_CAPACITY as nat, |j: int| 0u16),
        sp: 0,
        delay: 0,
        sound: 0,
        keys: Seq::new(REGISTER_COUNT as nat, |j: int| false),
        screen: Seq::new(SCREEN_CELLS as nat, |j: int| false),
    }
}

/// Memory, registers, stack, timers, keypad and display of one machine.
/// The display holds its cells row after row.
pub struct Chip8State {
    pub memory: Vec<u8>,
    pub pc: u16,
    pub registers: Vec<u8>,
    pub i_register: u16,
    pub stack: Vec<u16>,
    pub sp: u8,
    pub delay_timer: u8,
    pub sound_timer: u8,
    pub keys: Vec<bool>,
    pub video_buf: Vec<bool>,
}

impl View for Chip8State {
    type V = Machine;

    open spec fn view(&self) -> Machine {
        Machine {
            memory: self.memory@,
            pc: self.pc,
            v: self.registers@,
            i: self.i_register,
            stack: self.stack@,
            sp: self.sp,
            delay: self.delay_timer,
            sound: self.sound_timer,
            keys: self.keys@,
            screen: self.video_buf@,
        }
    }
}

fn filled<T: Copy>(value: T, len: usize) -> (r: Vec<T>)
    ensures
        r@ == Seq::new(len as nat, |j: int| value),
{
    let mut r: Vec<T> = Vec::new();
    let mut k: usize = 0;
    while k < len
        invariant
            k <= len,
            r@ == Seq::new(k as nat, |j: int| value),
        decreases len - k,
    {
        r.push(value);
        k = k + 1;
        assert(r@ =~= Seq::new(k as nat, |j: int| value));
    }
    r
}

impl Chip8State {
    pub open spec fn wf(&self) -> bool {
        self@.wf()
    }

    /// A machine with the font loaded and `program` copied in from the load
    /// address; fails when the program does not fit.
    pub fn new(program: &[u8]) -> (r: Result<Chip8State, FaultKind>)
        ensures
            program@.len() <= MEMORY_SIZE - PROGRAM_START ==> (r matches Ok(s) && s.wf()
                && s@ == initial_machine(program@)),
            program@.len() > MEMORY_SIZE - PROGRAM_START ==> r == Err::<Chip8State, FaultKind>(
                FaultKind::ProgramTooLarge,
            ),
    {
        let mut s = Chip8State {
            memory: filled(0u8, MEMORY_SIZE),
            pc: PROGRAM_START,
            registers: filled(0u8, REGISTER_COUNT),
            i_register: 0,
            stack: filled(0u16, STACK_CAPACITY),
            sp: 0,
            delay_timer: 0,
            sound_timer: 0,
            keys: filled(false, REGISTER_COUNT),
            video_buf: filled(false, SCREEN_CELLS),
        };
        s.load_sprites();
        match s.load_program(program) {
            Ok(()) => {
                assert(s.memory@ =~= initial_memory(program@));
                Ok(s)
            },
            Err(e) => Err(e),
        }
    }

    /// Writes the font glyphs to the bottom of memory.
    pub fn load_sprites(&mut self)
        requires
            old(self).wf(),
        ensures
            final(self).wf(),
            final(self)@ == (Machine {
                memory: font_glyphs() + old(self)@.memory.skip(FONT_SIZE as int),
                ..old(self)@
            }),
    {
        let sprites: [u8; 80] = [
            0xF0, 0x90, 0x90, 0x90, 0xF0, 0x20, 0x60, 0x20, 0x20, 0x70,
            0xF0, 0x10, 0xF0, 0x80, 0xF0, 0xF0, 0x10, 0xF0, 0x10, 0xF0,
            0x90, 0x90, 0xF0, 0x10, 0x10, 0xF0, 0x80, 0xF0, 0x10, 0xF0,
            0xF0, 0x80, 0xF0, 0x90, 0xF0, 0xF0, 0x10, 0x20, 0x40, 0x40,
            0xF0, 0x90, 0xF0, 0x90, 0xF0, 0xF0, 0x90, 0xF0, 0x10, 0xF0,
            0xF0, 0x90, 0xF0, 0x90, 0x90, 0xE0, 0x90, 0xE0, 0x90, 0xE0,
            0xF0, 0x80, 0x80, 0x80, 0xF0, 0xE0, 0x90, 0x90, 0x90, 0xE0,
            0xF0, 0x80, 0xF0, 0x80, 0xF0, 0xF0, 0x80, 0xF0, 0x80, 0x80,
        ];
        assert(sprites@ =~= font_glyphs());
        let ghost before = self.memory@;
        let mut k: usize = 0;
        while k < FONT_SIZE
            invariant
                k <= FONT_SIZE,
                sprites@ == font_glyphs(),
                self.memory@.len() == MEMORY_SIZE,
                forall|a: int| 0 <= a < k ==> self.memory@[a] == font_glyphs()[a],
                forall|a: int| k <= a < MEMORY_SIZE ==> self.memory@[a] == before[a],
                self.pc == old(self).pc,
                self.registers == old(self).registers,
                self.i_register == old(self).i_register,
                self.stack == old(self).stack,
                self.sp == old(self).sp,
                self.delay_timer == old(self).delay_timer,
                self.sound_timer == old(self).sound_timer,
                self.keys == old(self).keys,
                self.video_buf == old(self).video_buf,
                before == old(self).memory@,
                old(self).wf(),
            decreases FONT_SIZE - k,
        {
            self.memory[k] = sprites[k];
            k = k + 1;
        }
        assert(self.memory@ =~= font_glyphs() + before.skip(FONT_SIZE as int));
    }

    /// Copies `program` into memory from the load address on; fails, and
    /// changes nothing, when it does not fit.
    pub fn load_program(&mut self, program: &[u8]) -> (r: Result<(), FaultKind>)
        requires
            old(self).wf(),
        ensures
            final(self).wf(),
            program@.len() <= MEMORY_SIZE - PROGRAM_START ==> r is Ok && final(self)@ == (
            Machine {
                memory: old(self)@.memory.take(PROGRAM_START as int) + program@
                    + old(self)@.memory.skip(PROGRAM_START + program@.len()),
                ..old(self)@
            }),
            program@.len() > MEMORY_SIZE - PROGRAM_START ==> r == Err::<(), FaultKind>(
                FaultKind::ProgramTooLarge,
            ) && *final(self) == *old(self),
    {
        if program.len() > MEMORY_SIZE - PROGRAM_START as usize {
            return Err(FaultKind::ProgramTooLarge);
        }
        let ghost before = self.memory@;
        let base: usize = PROGRAM_START as usize;
        let mut k: usize = 0;
        while k < program.len()
            invariant
                k <= program@.len() <= MEMORY_SIZE - PROGRAM_START,
                base == PROGRAM_START,
                self.memory@.len() == MEMORY_SIZE,
                forall|a: int| 0 <= a < MEMORY_SIZE ==> self.memory@[a] == (
                if base <= a < base + k { program@[a - base] } else { before[a] }),
                self.pc == old(self).pc,
                self.registers == old(self).registers,
                self.i_register == old(self).i_register,
                self.stack == old(self).stack,
                self.sp == old(self).sp,
                self.delay_timer == old(self).delay_timer,
                self.sound_timer == old(self).sound_timer,
                self.keys == old(self).keys,
                self.video_buf == old(self).video_buf,
                before == old(self).memory@,
                old(self).wf(),
            decreases program@.len() - k,
        {
            self.memory[base + k] = program[k];
            k = k + 1;
        }
        assert(self.memory@ =~= before.take(PROGRAM_START as int) + program@ + before.skip(
            PROGRAM_START + program@.len(),
        ));
        Ok(())
    }

    /// The big-endian word at the program counter.
    pub fn get_opcode(&self) -> (r: u16)
        requires
            self.wf(),
            self.pc + 1 < MEMORY_SIZE,
        ensures
            r == self@.memory[self.pc as int] * 256 + self@.memory[self.pc + 1],
    {
        let hi: u16 = self.memory[self.pc as usize] as u16;
        let lo: u16 = self.memory[self.pc as usize + 1] as u16;
        hi * 256 + lo
    }
}

} // verus!
