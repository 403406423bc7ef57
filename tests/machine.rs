use chip8::{decode, keypad_index, Chip8State, Fault, FaultKind, Flow, Instruction};

fn machine(program: &[u8]) -> Chip8State {
    Chip8State::new(program).unwrap()
}

fn run(s: &mut Chip8State, op: u16) -> Result<(), Fault> {
    s.process_opcode(op, 0)
}

#[test]
fn two_immediate_instructions_add_up() {
    let mut s = machine(&[0x6A, 0x02, 0x7A, 0x05]);
    let start = s.pc;
    assert_eq!(s.cycle(0), Ok(false));
    assert_eq!(s.cycle(0), Ok(false));
    assert_eq!(s.registers[0xA], 7);
    assert_eq!(s.pc, start + 4);
}

#[test]
fn single_row_sprite_drawn_twice() {
    let mut s = machine(&[]);
    s.memory[0x300] = 0xFF;
    s.i_register = 0x300;
    run(&mut s, 0xD011).unwrap();
    for col in 0..8 {
        assert!(s.pixel(0, col));
    }
    assert!(!s.pixel(0, 8));
    assert!(!s.pixel(1, 0));
    assert_eq!(s.registers[0xF], 0);
    run(&mut s, 0xD011).unwrap();
    for col in 0..64 {
        assert!(!s.pixel(0, col));
    }
    assert_eq!(s.registers[0xF], 1);
}

#[test]
fn bcd_of_157() {
    let mut s = machine(&[]);
    s.registers[3] = 157;
    s.i_register = 0x300;
    run(&mut s, 0xF333).unwrap();
    assert_eq!(&s.memory[0x300..0x303], &[1, 5, 7]);
    assert_eq!(s.i_register, 0x300);
}

#[test]
fn jump_sets_pc_exactly() {
    for nnn in [0x000u16, 0x2A4, 0xFFF] {
        let mut s = machine(&[]);
        run(&mut s, 0x1000 | nnn).unwrap();
        assert_eq!(s.pc, nnn);
    }
}

#[test]
fn call_then_return_resumes_after_call() {
    let mut s = machine(&[0x23, 0x00]);
    s.memory[0x300] = 0x00;
    s.memory[0x301] = 0xEE;
    assert_eq!(s.cycle(0), Ok(false));
    assert_eq!(s.pc, 0x300);
    assert_eq!(s.sp, 1);
    assert_eq!(s.stack[0], 0x202);
    assert_eq!(s.cycle(0), Ok(false));
    assert_eq!(s.pc, 0x202);
    assert_eq!(s.sp, 0);
}

#[test]
fn add_with_carry_sets_flag() {
    let mut s = machine(&[]);
    s.registers[1] = 200;
    s.registers[2] = 100;
    run(&mut s, 0x8124).unwrap();
    assert_eq!(s.registers[1], 44);
    assert_eq!(s.registers[0xF], 1);
}

#[test]
fn add_without_carry_clears_flag() {
    let mut s = machine(&[]);
    s.registers[1] = 200;
    s.registers[2] = 55;
    s.registers[0xF] = 1;
    run(&mut s, 0x8124).unwrap();
    assert_eq!(s.registers[1], 255);
    assert_eq!(s.registers[0xF], 0);
}

#[test]
fn subtract_flags_follow_comparison() {
    let mut s = machine(&[]);
    s.registers[1] = 5;
    s.registers[2] = 5;
    run(&mut s, 0x8125).unwrap();
    assert_eq!(s.registers[1], 0);
    assert_eq!(s.registers[0xF], 1);
    s.registers[1] = 3;
    s.registers[2] = 5;
    run(&mut s, 0x8125).unwrap();
    assert_eq!(s.registers[1], 254);
    assert_eq!(s.registers[0xF], 0);
    s.registers[1] = 3;
    s.registers[2] = 5;
    run(&mut s, 0x8127).unwrap();
    assert_eq!(s.registers[1], 2);
    assert_eq!(s.registers[0xF], 1);
    s.registers[1] = 9;
    s.registers[2] = 5;
    run(&mut s, 0x8127).unwrap();
    assert_eq!(s.registers[1], 252);
    assert_eq!(s.registers[0xF], 0);
}

#[test]
fn shifts_take_value_from_second_operand_and_flag_from_first() {
    let mut s = machine(&[]);
    s.registers[1] = 0b1000_0001;
    s.registers[2] = 0b0000_0110;
    run(&mut s, 0x8126).unwrap();
    assert_eq!(s.registers[1], 0b0000_0011);
    assert_eq!(s.registers[0xF], 1);
    s.registers[1] = 0b1000_0000;
    s.registers[2] = 0b1100_0001;
    run(&mut s, 0x812E).unwrap();
    assert_eq!(s.registers[1], 0b1000_0010);
    assert_eq!(s.registers[0xF], 1);
    s.registers[1] = 0b0111_1111;
    run(&mut s, 0x812E).unwrap();
    assert_eq!(s.registers[0xF], 0);
}

#[test]
fn logic_and_move() {
    let mut s = machine(&[]);
    s.registers[1] = 0b1100;
    s.registers[2] = 0b1010;
    run(&mut s, 0x8121).unwrap();
    assert_eq!(s.registers[1], 0b1110);
    s.registers[1] = 0b1100;
    run(&mut s, 0x8122).unwrap();
    assert_eq!(s.registers[1], 0b1000);
    s.registers[1] = 0b1100;
    run(&mut s, 0x8123).unwrap();
    assert_eq!(s.registers[1], 0b0110);
    run(&mut s, 0x8120).unwrap();
    assert_eq!(s.registers[1], 0b1010);
}

#[test]
fn add_immediate_wraps() {
    let mut s = machine(&[]);
    s.registers[4] = 0xFF;
    run(&mut s, 0x7402).unwrap();
    assert_eq!(s.registers[4], 1);
    assert_eq!(s.registers[0xF], 0);
}

#[test]
fn skips_advance_by_four() {
    let mut s = machine(&[]);
    s.registers[1] = 7;
    run(&mut s, 0x3107).unwrap();
    assert_eq!(s.pc, 0x204);
    run(&mut s, 0x3108).unwrap();
    assert_eq!(s.pc, 0x206);
    run(&mut s, 0x4108).unwrap();
    assert_eq!(s.pc, 0x20A);
    s.registers[2] = 7;
    run(&mut s, 0x5120).unwrap();
    assert_eq!(s.pc, 0x20E);
    run(&mut s, 0x9120).unwrap();
    assert_eq!(s.pc, 0x210);
}

#[test]
fn jump_plus_v0() {
    let mut s = machine(&[]);
    s.registers[0] = 4;
    run(&mut s, 0xB200).unwrap();
    assert_eq!(s.pc, 0x204);
}

#[test]
fn font_is_loaded_and_addressed() {
    let mut s = machine(&[]);
    assert_eq!(&s.memory[0..5], &[0xF0, 0x90, 0x90, 0x90, 0xF0]);
    assert_eq!(&s.memory[75..80], &[0xF0, 0x80, 0xF0, 0x80, 0x80]);
    s.registers[2] = 0xA;
    run(&mut s, 0xF229).unwrap();
    assert_eq!(s.i_register, 50);
    assert_eq!(s.memory[50], 0xF0);
}

#[test]
fn index_add_wraps_at_sixteen_bits() {
    let mut s = machine(&[]);
    s.i_register = 0xFFFF;
    s.registers[1] = 2;
    run(&mut s, 0xF11E).unwrap();
    assert_eq!(s.i_register, 1);
    run(&mut s, 0xA123).unwrap();
    assert_eq!(s.i_register, 0x123);
}

#[test]
fn register_block_store_and_load() {
    let mut s = machine(&[]);
    for k in 0..4 {
        s.registers[k] = 10 + k as u8;
    }
    s.i_register = 0x400;
    run(&mut s, 0xF355).unwrap();
    assert_eq!(&s.memory[0x400..0x405], &[10, 11, 12, 13, 0]);
    assert_eq!(s.i_register, 0x404);
    s.memory[0x404] = 99;
    s.i_register = 0x401;
    run(&mut s, 0xF465).unwrap();
    assert_eq!(&s.registers[0..6], &[11, 12, 13, 99, 0, 0]);
    assert_eq!(s.i_register, 0x406);
}

#[test]
fn timers_count_down_and_beep() {
    let mut s = machine(&[0x61, 0x02, 0xF1, 0x15, 0xF1, 0x18, 0xF2, 0x07]);
    assert_eq!(s.cycle(0), Ok(false));
    assert_eq!(s.cycle(0), Ok(false));
    assert_eq!(s.delay_timer, 1);
    assert_eq!(s.cycle(0), Ok(true));
    assert_eq!(s.sound_timer, 1);
    assert_eq!(s.delay_timer, 0);
    assert_eq!(s.cycle(0), Ok(true));
    assert_eq!(s.registers[2], 0);
    assert_eq!(s.sound_timer, 0);
    assert_eq!(s.tick_timers(), false);
}

#[test]
fn wait_key_holds_until_pressed() {
    let mut s = machine(&[0xF3, 0x0A]);
    for _ in 0..3 {
        assert_eq!(s.cycle(0), Ok(false));
        assert_eq!(s.pc, 0x200);
    }
    s.set_key(9, true);
    s.set_key(5, true);
    assert_eq!(s.cycle(0), Ok(false));
    assert_eq!(s.registers[3], 5);
    assert_eq!(s.pc, 0x202);
}

#[test]
fn key_skips() {
    let mut s = machine(&[]);
    s.registers[1] = 0xE;
    run(&mut s, 0xE19E).unwrap();
    assert_eq!(s.pc, 0x202);
    run(&mut s, 0xE1A1).unwrap();
    assert_eq!(s.pc, 0x206);
    s.key_event('f', true);
    assert!(s.keys[0xE]);
    run(&mut s, 0xE19E).unwrap();
    assert_eq!(s.pc, 0x20A);
    s.key_event('f', false);
    assert!(!s.keys[0xE]);
}

#[test]
fn keypad_layout() {
    let expected = [
        ('1', 0x1), ('2', 0x2), ('3', 0x3), ('4', 0xC), ('q', 0x4), ('w', 0x5), ('e', 0x6),
        ('r', 0xD), ('a', 0x7), ('s', 0x8), ('d', 0x9), ('f', 0xE), ('z', 0xA), ('x', 0x0),
        ('c', 0xB), ('v', 0xF),
    ];
    for (c, k) in expected {
        assert_eq!(keypad_index(c), Some(k));
    }
    assert_eq!(keypad_index('5'), None);
    assert_eq!(keypad_index('Q'), None);
    let mut s = machine(&[]);
    s.key_event('5', true);
    assert!(s.keys.iter().all(|k| !k));
}

#[test]
fn draw_twice_restores_display() {
    let mut s = machine(&[]);
    for p in 0..s.video_buf.len() {
        s.video_buf[p] = p % 3 == 0;
    }
    let before = s.video_buf.clone();
    s.registers[4] = 10;
    s.registers[5] = 20;
    s.i_register = 0;
    run(&mut s, 0xD455).unwrap();
    assert_ne!(s.video_buf, before);
    run(&mut s, 0xD455).unwrap();
    assert_eq!(s.video_buf, before);
}

#[test]
fn draw_clips_at_edges() {
    let mut s = machine(&[]);
    s.memory[0x300] = 0xFF;
    s.memory[0x301] = 0xFF;
    s.i_register = 0x300;
    s.registers[0] = 60;
    s.registers[1] = 31;
    run(&mut s, 0xD012).unwrap();
    for col in 60..64 {
        assert!(s.pixel(31, col));
    }
    for col in 0..8 {
        assert!(!s.pixel(0, col));
        assert!(!s.pixel(31, col));
    }
    assert_eq!(s.video_buf.iter().filter(|c| **c).count(), 4);
}

#[test]
fn clear_screen_turns_every_cell_off() {
    let mut s = machine(&[]);
    s.video_buf[5] = true;
    s.video_buf[2047] = true;
    run(&mut s, 0x00E0).unwrap();
    assert!(s.video_buf.iter().all(|c| !c));
    assert_eq!(s.pc, 0x202);
}

#[test]
fn unsupported_words_fault() {
    for op in [0x0123u16, 0x5121, 0x812F, 0xE1FF, 0xF1FF] {
        let mut s = machine(&[]);
        assert_eq!(
            run(&mut s, op),
            Err(Fault { kind: FaultKind::UnsupportedInstruction, opcode: op, pc: 0x200 })
        );
        assert_eq!(s.pc, 0x200);
    }
}

#[test]
fn stack_overflow_and_underflow() {
    let mut s = machine(&[]);
    assert_eq!(
        run(&mut s, 0x00EE),
        Err(Fault { kind: FaultKind::StackUnderflow, opcode: 0x00EE, pc: 0x200 })
    );
    for _ in 0..12 {
        s.pc = 0x200;
        run(&mut s, 0x2200).unwrap();
    }
    assert_eq!(s.sp, 12);
    assert_eq!(
        run(&mut s, 0x2200),
        Err(Fault { kind: FaultKind::StackOverflow, opcode: 0x2200, pc: 0x200 })
    );
    assert_eq!(s.sp, 12);
}

#[test]
fn memory_out_of_range_faults() {
    let mut s = machine(&[]);
    s.i_register = 0xFFE;
    let before = s.memory.clone();
    assert_eq!(run(&mut s, 0xF033).unwrap_err().kind, FaultKind::MemoryOutOfRange);
    assert_eq!(s.memory, before);
    assert_eq!(run(&mut s, 0xF255).unwrap_err().kind, FaultKind::MemoryOutOfRange);
    assert_eq!(run(&mut s, 0xF265).unwrap_err().kind, FaultKind::MemoryOutOfRange);
    s.i_register = 0xFFF;
    assert_eq!(run(&mut s, 0xD012).unwrap_err().kind, FaultKind::MemoryOutOfRange);
    run(&mut s, 0xD011).unwrap();
    s.registers[0] = 16;
    assert_eq!(run(&mut s, 0xE09E).unwrap_err().kind, FaultKind::MemoryOutOfRange);
    s.pc = 0xFFF;
    assert_eq!(
        s.cycle(0),
        Err(Fault { kind: FaultKind::MemoryOutOfRange, opcode: 0, pc: 0xFFF })
    );
}

#[test]
fn program_size_limit() {
    assert_eq!(Chip8State::new(&vec![0u8; 3585]).err(), Some(FaultKind::ProgramTooLarge));
    let s = machine(&vec![0xAB; 3584]);
    assert_eq!(s.memory[0x200], 0xAB);
    assert_eq!(s.memory[0xFFF], 0xAB);
    assert_eq!(s.memory[0x1FF], 0);
    let mut t = machine(&[1, 2]);
    assert_eq!(t.load_program(&vec![0u8; 3585]), Err(FaultKind::ProgramTooLarge));
    assert_eq!(t.memory[0x200], 1);
}

#[test]
fn random_byte_is_masked() {
    let mut s = machine(&[]);
    s.process_opcode(0xC30F, 0xAB).unwrap();
    assert_eq!(s.registers[3], 0x0B);
}

#[test]
fn run_cycle_draws_below_255() {
    let mut s = machine(&[0xC0, 0xFF, 0x12, 0x00]);
    let mut seen = [false; 256];
    for _ in 0..2000 {
        s.run_cycle().unwrap();
        seen[s.registers[0] as usize] = true;
    }
    assert!(!seen[255]);
    assert!(seen.iter().filter(|b| **b).count() > 100);
}

#[test]
fn decode_names_instructions() {
    assert_eq!(decode(0x00E0), Instruction::ClearScreen);
    assert_eq!(decode(0x00EE), Instruction::Return);
    assert_eq!(decode(0xD123), Instruction::Draw { x: 1, y: 2, n: 3 });
    assert_eq!(decode(0x7A05), Instruction::AddByte { x: 0xA, kk: 5 });
    assert_eq!(decode(0xF565), Instruction::LoadRegs { x: 5 });
    assert_eq!(decode(0x0FFF), Instruction::Unsupported);
}

#[test]
fn execute_reports_flow() {
    let mut s = machine(&[]);
    assert_eq!(s.execute(Instruction::Jump { nnn: 0x345 }, 0), Ok(Flow::Jump(0x345)));
    assert_eq!(s.execute(Instruction::WaitKey { x: 0 }, 0), Ok(Flow::Wait));
    assert_eq!(s.execute(Instruction::SkipEqByte { x: 0, kk: 0 }, 0), Ok(Flow::Skip));
    assert_eq!(s.pc, 0x200);
}
