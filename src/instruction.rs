use vstd::prelude::*;

verus! {

/// One decoded instruction word. Register operands `x`, `y` and the row count `n`
/// are nibbles (`0..16`); `kk` is the low byte and `nnn` the low twelve bits.
#[derive(Clone, Copy, Debug, PartialEq, Eq, Structural)]
pub enum Instruction {
    ClearScreen,
    Return,
    Jump { nnn: u16 },
    Call { nnn: u16 },
    SkipEqByte { x: u8, kk: u8 },
    SkipNeByte { x: u8, kk: u8 },
    SkipEqReg { x: u8, y: u8 },
    SkipNeReg { x: u8, y: u8 },
    LoadByte { x: u8, kk: u8 },
    AddByte { x: u8, kk: u8 },
    Move { x: u8, y: u8 },
    Or { x: u8, y: u8 },
    And { x: u8, y: u8 },
    Xor { x: u8, y: u8 },
    AddReg { x: u8, y: u8 },
    SubReg { x: u8, y: u8 },
    ShiftRight { x: u8, y: u8 },
    SubReverse { x: u8, y: u8 },
    ShiftLeft { x: u8, y: u8 },
    LoadI { nnn: u16 },
    JumpV0 { nnn: u16 },
    Random { x: u8, kk: u8 },
    Draw { x: u8, y: u8, n: u8 },
    SkipKey { x: u8 },
    SkipNotKey { x: u8 },
    LoadDelay { x: u8 },
    WaitKey { x: u8 },
    SetDelay { x: u8 },
    SetSound { x: u8 },
    AddI { x: u8 },
    LoadFont { x: u8 },
    StoreBcd { x: u8 },
    StoreRegs { x: u8 },
    LoadRegs { x: u8 },
    /// A word with no defined meaning, legacy native-routine calls (`0nnn`) included.
    Unsupported,
}

/// The first nibble of an instruction word: the instruction family.
pub open spec fn family(op: u16) -> u16 {
    op / 4096
}

/// The second nibble: the first register operand.
pub open spec fn reg_x(op: u16) -> u8 {
    ((op / 256) % 16) as u8
}

/// The third nibble: the second register operand.
pub open spec fn reg_y(op: u16) -> u8 {
    ((op / 16) % 16) as u8
}

/// The last nibble.
pub open spec fn low_nibble(op: u16) -> u8 {
    (op % 16) as u8
}

/// The low byte: an immediate value.
pub open spec fn low_byte(op: u16) -> u8 {
    (op % 256) as u8
}

/// The low twelve bits: an address.
pub open spec fn address(op: u16) -> u16 {
    op % 4096
}

/// The instruction that a word stands for.
pub open spec fn decode_spec(op: u16) -> Instruction {
    let (f, x, y, n, kk, nnn) = (
        family(op),
        reg_x(op),
        reg_y(op),
        low_nibble(op),
        low_byte(op),
        address(op),
    );
    if op == 0x00E0 {
        Instruction::ClearScreen
    } else if op == 0x00EE {
        Instruction::Return
    } else if f == 1 {
        Instruction::Jump { nnn }
    } else if f == 2 {
        Instruction::Call { nnn }
    } else if f == 3 {
        Instruction::SkipEqByte { x, kk }
    } else if f == 4 {
        Instruction::SkipNeByte { x, kk }
    } else if f == 5 && n == 0 {
        Instruction::SkipEqReg { x, y }
    } else if f == 6 {
        Instruction::LoadByte { x, kk }
    } else if f == 7 {
        Instruction::AddByte { x, kk }
    } else if f == 8 && n == 0 {
        Instruction::Move { x, y }
    } else if f == 8 && n == 1 {
        Instruction::Or { x, y }
    } else if f == 8 && n == 2 {
        Instruction::And { x, y }
    } else if f == 8 && n == 3 {
        Instruction::Xor { x, y }
    } else if f == 8 && n == 4 {
        Instruction::AddReg { x, y }
    } else if f == 8 && n == 5 {
        Instruction::SubReg { x, y }
    } else if f == 8 && n == 6 {
        Instruction::ShiftRight { x, y }
    } else if f == 8 && n == 7 {
        Instruction::SubReverse { x, y }
    } else if f == 8 && n == 0xE {
        Instruction::ShiftLeft { x, y }
    } else if f == 9 && n == 0 {
        Instruction::SkipNeReg { x, y }
    } else if f == 0xA {
        Instruction::LoadI { nnn }
    } else if f == 0xB {
        Instruction::JumpV0 { nnn }
    } else if f == 0xC {
        Instruction::Random { x, kk }
    } else if f == 0xD {
        Instruction::Draw { x, y, n }
    } else if f == 0xE && kk == 0x9E {
        Instruction::SkipKey { x }
    } else if f == 0xE && kk == 0xA1 {
        Instruction::SkipNotKey { x }
    } else if f == 0xF && kk == 0x07 {
        Instruction::LoadDelay { x }
    } else if f == 0xF && kk == 0x0A {
        Instruction::WaitKey { x }
    } else if f == 0xF && kk == 0x15 {
        Instruction::SetDelay { x }
    } else if f == 0xF && kk == 0x18 {
        Instruction::SetSound { x }
    } else if f == 0xF && kk == 0x1E {
        Instruction::AddI { x }
    } else if f == 0xF && kk == 0x29 {
        Instruction::LoadFont { x }
    } else if f == 0xF && kk == 0x33 {
        Instruction::StoreBcd { x }
    } else if f == 0xF && kk == 0x55 {
        Instruction::StoreRegs { x }
    } else if f == 0xF && kk == 0x65 {
        Instruction::LoadRegs { x }
    } else {
        Instruction::Unsupported
    }
}

/// Every operand of a decoded instruction lies in its field's range.
pub open spec fn operands_in_range(ins: Instruction) -> bool {
    match ins {
        Instruction::Jump { nnn } | Instruction::Call { nnn } | Instruction::LoadI { nnn }
        | Instruction::JumpV0 { nnn } => nnn < 4096,
        Instruction::SkipEqByte { x, .. } | Instruction::SkipNeByte { x, .. }
        | Instruction::LoadByte { x, .. } | Instruction::AddByte { x, .. }
        | Instruction::Random { x, .. } => x < 16,
        Instruction::SkipEqReg { x, y } | Instruction::SkipNeReg { x, y }
        | Instruction::Move { x, y } | Instruction::Or { x, y } | Instruction::And { x, y }
        | Instruction::Xor { x, y } | Instruction::AddReg { x, y } | Instruction::SubReg { x, y }
        | Instruction::ShiftRight { x, y } | Instruction::SubReverse { x, y }
        | Instruction::ShiftLeft { x, y } => x < 16 && y < 16,
        Instruction::Draw { x, y, n } => x < 16 && y < 16 && n < 16,
        Instruction::SkipKey { x } | Instruction::SkipNotKey { x } | Instruction::LoadDelay { x }
        | Instruction::WaitKey { x } | Instruction::SetDelay { x } | Instruction::SetSound { x }
        | Instruction::AddI { x } | Instruction::LoadFont { x } | Instruction::StoreBcd { x }
        | Instruction::StoreRegs { x } | Instruction::LoadRegs { x } => x < 16,
        _ => true,
    }
}

/// Splits a word into its nibbles and names the instruction it encodes.
pub fn decode(op: u16) -> (r: Instruction)
    ensures
        r == decode_spec(op),
        operands_in_range(r),
{
    let f: u16 = op / 4096;
    let x: u8 = ((op / 256) % 16) as u8;
    let y: u8 = ((op / 16) % 16) as u8;
    let n: u8 = (op % 16) as u8;
    let kk: u8 = (op % 256) as u8;
    let nnn: u16 = op % 4096;
    if op == 0x00E0 {
        Instruction::ClearScreen
    } else if op == 0x00EE {
        Instruction::Return
    } else if f == 1 {
        Instruction::Jump { nnn }
    } else if f == 2 {
        Instruction::Call { nnn }
    } else if f == 3 {
        Instruction::SkipEqByte { x, kk }
    } else if f == 4 {
        Instruction::SkipNeByte { x, kk }
    } else if f == 5 && n == 0 {
        Instruction::SkipEqReg { x, y }
    } else if f == 6 {
        Instruction::LoadByte { x, kk }
    } else if f == 7 {
        Instruction::AddByte { x, kk }
    } else if f == 8 && n == 0 {
        Instruction::Move { x, y }
    } else if f == 8 && n == 1 {
        Instruction::Or { x, y }
    } else if f == 8 && n == 2 {
        Instruction::And { x, y }
    } else if f == 8 && n == 3 {
        Instruction::Xor { x, y }
    } else if f == 8 && n == 4 {
        Instruction::AddReg { x, y }
    } else if f == 8 && n == 5 {
        Instruction::SubReg { x, y }
    } else if f == 8 && n == 6 {
        Instruction::ShiftRight { x, y }
    } else if f == 8 && n == 7 {
        Instruction::SubReverse { x, y }
    } else if f == 8 && n == 0xE {
        Instruction::ShiftLeft { x, y }
    } else if f == 9 && n == 0 {
        Instruction::SkipNeReg { x, y }
    } else if f == 0xA {
        Instruction::LoadI { nnn }
    } else if f == 0xB {
        Instruction::JumpV0 { nnn }
    } else if f == 0xC {
        Instruction::Random { x, kk }
    } else if f == 0xD {
        Instruction::Draw { x, y, n }
    } else if f == 0xE && kk == 0x9E {
        Instruction::SkipKey { x }
    } else if f == 0xE && kk == 0xA1 {
        Instruction::SkipNotKey { x }
    } else if f == 0xF && kk == 0x07 {
        Instruction::LoadDelay { x }
    } else if f == 0xF && kk == 0x0A {
        Instruction::WaitKey { x }
    } else if f == 0xF && kk == 0x15 {
        Instruction::SetDelay { x }
    } else if f == 0xF && kk == 0x18 {
        Instruction::SetSound { x }
    } else if f == 0xF && kk == 0x1E {
        Instruction::AddI { x }
    } else if f == 0xF && kk == 0x29 {
        Instruction::LoadFont { x }
    } else if f == 0xF && kk == 0x33 {
        Instruction::StoreBcd { x }
    } else if f == 0xF && kk == 0x55 {
        Instruction::StoreRegs { x }
    } else if f == 0xF && kk == 0x65 {
        Instruction::LoadRegs { x }
    } else {
        Instruction::Unsupported
    }
}

} // verus!
