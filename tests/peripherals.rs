use gbcore::apu::{FrameSequencer, LengthCounter, Timer as AudioTimer, VolumeEnvelope, Channel1, AudioSource, AudioStep, AudioProcess};
use gbcore::chip8::{Cpu as Chip8Cpu, Graphics, Input, KeyEvent, Memory, Timer, NSECS_PER_TICK};
use gbcore::mos6502::Cpu as Mos6502;
use gbcore::chip8::Memory as Ram;
use gbcore::nes::{map_addr, Addr, Cart, CartError, Instruction, Opcode, RegStatus, AddressMode};

#[test]
fn frame_sequencer_clocks() {
    let mut fs = FrameSequencer::default();
    let mut seen = Vec::new();
    for _ in 0..8 {
        seen.push((fs.length_clock(), fs.volume_clock(), fs.sweep_clock()));
        fs.step();
    }
    assert_eq!(seen[0], (true, false, false));
    assert_eq!(seen[2], (true, false, true));
    assert_eq!(seen[6], (true, false, true));
    assert_eq!(seen[7], (false, true, false));
    assert_eq!(seen[1], (false, false, false));
}

#[test]
fn audio_timer_fires() {
    let mut t = AudioTimer::default();
    t.set_frequency(0xffff);
    let fs = FrameSequencer::default();
    let mut fired = 0;
    for _ in 0..200 {
        t.step(&fs);
        if t.clock() {
            fired += 1;
        }
    }
    assert_eq!(fired, 3);
    assert_eq!(t.generate(), if t.clock() { 1 } else { 0 });
}

#[test]
fn audio_timer_fires_on_period() {
    let fs = FrameSequencer::default();
    let mut t = AudioTimer::default();
    t.set_frequency(0x1000);
    // 0x400000 / 0x1000 = 1024: the counter passes the period on step 1025
    for k in 1..=1025u32 {
        t.step(&fs);
        assert_eq!(t.clock(), k == 1025, "step {}", k);
    }
    assert_eq!(t.generate(), 1);
    assert_eq!(t.process(0), 1);
    t.step(&fs);
    assert!(!t.clock());
}

#[test]
fn envelope_and_length() {
    let mut down = VolumeEnvelope::default();
    down.set_volume(1, false);
    let mut fs7 = FrameSequencer::default();
    for _ in 0..7 {
        fs7.step();
    }
    down.step(&fs7);
    assert_eq!(down.process(5), 0);
    down.step(&fs7);
    assert_eq!(down.process(5), 0);
    let mut v = VolumeEnvelope::default();
    v.set_volume(14, true);
    assert_eq!(v.process(3), 14);
    let mut fs = FrameSequencer::default();
    for _ in 0..7 {
        fs.step();
    }
    v.step(&fs);
    assert_eq!(v.process(1), 15);
    v.step(&fs);
    assert_eq!(v.process(1), 15);
    assert_eq!(v.process(0), 0);
    let mut l = LengthCounter::default();
    l.set_counter(3);
    assert_eq!(l.process(1), 0);
    let mut ch = Channel1::new();
    ch.step(&fs);
    assert_eq!(ch.generate(), 0);
}

#[test]
fn countdown_timer() {
    let mut t = Timer::new();
    assert_eq!(t.get(), 0);
    t.set(10);
    assert_eq!(t.get(), 10);
    t.update();
    assert!(t.get() <= 10);
}

#[test]
fn countdown_timer_advance() {
    let mut t = Timer::new();
    t.set(10);
    // a fixed reading far past any clock value: many ticks at once
    t.advance_to(u64::MAX);
    assert_eq!(t.get(), 0);
}

#[test]
fn countdown_timer_ticks() {
    let mut t = Timer::new();
    t.set(10);
    // a reading before the last one counts as no time passed
    t.advance_to(0);
    assert_eq!(t.get(), 10);
    // four whole ticks, one nanosecond left over
    t.advance_to(4 * NSECS_PER_TICK + 1);
    assert_eq!(t.get(), 6);
    t.advance_to(4 * NSECS_PER_TICK + 2);
    assert_eq!(t.get(), 6);
}

#[test]
fn keypad_events() {
    let mut input = Input::new();
    input.handle_input(&vec![KeyEvent::KeyDown(3), KeyEvent::KeyDown(9), KeyEvent::KeyUp(3), KeyEvent::KeyDown(20)]);
    assert!(!input.key_pressed(3));
    assert!(input.key_pressed(9));
    assert_eq!(input.any_key_pressed(), Some(9));
    assert!(!input.quit);
    input.handle_input(&vec![KeyEvent::Quit]);
    assert!(input.quit);
    let empty = Input::new();
    assert_eq!(empty.any_key_pressed(), None);
}

#[test]
fn sprite_drawing_and_collision() {
    let mut g = Graphics::new();
    assert_eq!(g.draw(62, 31, vec![0b0000_0111, 0b0000_0001]), 0);
    let pts = g.render();
    assert_eq!(pts, vec![(62, 0), (0, 31), (62, 31), (63, 31)]);
    assert_eq!(g.draw(62, 31, vec![0b0000_0001]), 1);
    assert_eq!(g.render(), vec![(62, 0), (0, 31), (63, 31)]);
    g.clear();
    assert!(g.render().is_empty());
}

#[test]
fn ram_read_write() {
    let mut m = Memory::new();
    assert_eq!(m.read_byte(0x7ff), 0);
    m.write_byte(0x123, 0x45);
    assert_eq!(m.read_byte(0x123), 0x45);
}

#[test]
fn chip8_return_stack() {
    let mut c = Chip8Cpu::new();
    c.push(0x202);
    c.push(0x300);
    assert_eq!(c.pop(), 0x300);
    assert_eq!(c.pop(), 0x202);
    c.handle_timers();
    assert!(!c.sound_active());
}

#[test]
fn mos6502_flag_ops() {
    let mut cpu = Mos6502::default();
    assert_eq!(cpu.reg_pc, 0xc000);
    assert_eq!(cpu.reg_status.to_byte(), 0x24);
    cpu.lda(0x50);
    cpu.reg_status.carry = false;
    cpu.adc(0x50);
    assert_eq!(cpu.reg_a, 0xa0);
    assert!(cpu.reg_status.overflow);
    assert!(cpu.reg_status.negative);
    assert!(!cpu.reg_status.carry);
    cpu.cmp(0xa0);
    assert!(cpu.reg_status.zero && cpu.reg_status.carry);
    let r = cpu.rol(0x80);
    assert_eq!(r, 0x01);
    assert!(cpu.reg_status.carry);
    let r = cpu.ror(0x01);
    assert_eq!(r, 0x80);
    assert!(cpu.reg_status.carry);
    assert_eq!(cpu.asl(0x81), 0x02);
    assert_eq!(cpu.lsr(0x03), 0x01);
    cpu.reg_status.zero = true;
    assert!(cpu.take_branch(0xf0));
    assert!(!cpu.take_branch(0xd0));
    let mut ram = Ram::new();
    cpu.reg_s = 0xfd;
    cpu.stack_push(&mut ram, 0x42);
    assert_eq!(cpu.reg_s, 0xfc);
    assert_eq!(ram.read_byte(0x1fd), 0x42);
    cpu.reg_s = 0xfd;
    assert_eq!(cpu.stack_peek(&ram), 0x42);
}

#[test]
fn status_register_bytes() {
    let s = RegStatus::from_byte(0xc3);
    assert!(s.carry && s.zero && s.overflow && s.negative && !s.decimal);
    assert_eq!(s.to_byte(), 0xe3);
}

#[test]
fn cpu_address_map() {
    assert_eq!(map_addr(0x0010), Addr::Ram(0x10));
    assert_eq!(map_addr(0x8001), Addr::PrgRom1(1));
    assert_eq!(map_addr(0xfffc), Addr::PrgRom2(0x3ffc));
}

fn ines(prg: u8, chr: u8, mapper: u8) -> Vec<u8> {
    let mut rom = vec![0x4e, 0x45, 0x53, 0x1a, prg, chr, mapper, 0];
    rom.resize(16 + prg as usize * 16384 + chr as usize * 8192, 0);
    rom
}

#[test]
fn cartridge_header() {
    assert!(matches!(Cart::new(vec![1, 2]), Err(CartError::TooShort)));
    let mut bad = ines(1, 0, 0);
    bad[0] = 0;
    assert!(matches!(Cart::new(bad), Err(CartError::BadMagic)));
    assert!(matches!(Cart::new(ines(1, 0, 1)), Err(CartError::UnrecognisedMapper)));
    let mut rom = ines(2, 1, 0);
    rom[16 + 0x10] = 0x34;
    rom[16 + 0x11] = 0x12;
    let cart = Cart::new(rom).ok().unwrap();
    assert_eq!(cart.read_prg_byte(0, 0x10), 0x34);
    assert_eq!(cart.read_prg_word(0, 0x10), 0x1234);
    assert_eq!(cart.read_prg_word(1, 0x11), 0x0012);
}

#[test]
fn instruction_decoding() {
    let i = Instruction::from_u8(0x4c, 0xc5f5).unwrap();
    assert_eq!(*i.opcode(), Opcode::Jmp);
    assert_eq!(i.addr(0, 0, 0), Some(0xc5f5));
    assert_eq!(i.imm(0, 0, 0), None);
    assert_eq!(i.length(), 3);
    assert!(Instruction::from_u8(0x00, 0).is_none());
    let _ = AddressMode::Implicit;
}

use gbcore::chip8::{Chip8Error, Interconnect as Chip8Bus};

fn chip8_with(program: &[u8]) -> (Chip8Cpu, Chip8Bus) {
    let mut bus = Chip8Bus::new();
    bus.load_rom(&program.to_vec());
    (Chip8Cpu::new(), bus)
}

#[test]
fn chip8_arithmetic_program() {
    // V0 = 0xF0; V1 = 0x20; V0 += V1 (carry); VA = 7; VA += 3
    let (mut cpu, mut bus) = chip8_with(&[0x60, 0xf0, 0x61, 0x20, 0x80, 0x14, 0x6a, 0x07, 0x7a, 0x03]);
    for _ in 0..5 {
        cpu.step(&mut bus).unwrap();
    }
    assert_eq!(cpu.reg(0), 0x10);
    assert_eq!(cpu.reg(15), 1);
    assert_eq!(cpu.reg(10), 10);
    assert_eq!(cpu.pc(), 0x20a);
}

#[test]
fn chip8_call_return_and_skip() {
    // 0x200: CALL 0x206; 0x202: SE V0,0 (skips); 0x204: JP 0x204; 0x206: RET
    let (mut cpu, mut bus) = chip8_with(&[0x22, 0x06, 0x30, 0x00, 0x12, 0x04, 0x00, 0xee]);
    cpu.step(&mut bus).unwrap();
    assert_eq!(cpu.pc(), 0x206);
    cpu.step(&mut bus).unwrap();
    assert_eq!(cpu.pc(), 0x202);
    cpu.step(&mut bus).unwrap();
    assert_eq!(cpu.pc(), 0x206);
    // a second return finds the stack empty
    assert_eq!(cpu.step(&mut bus), Err(Chip8Error::StackUnderflow));
}

#[test]
fn chip8_bcd_store_and_load() {
    // V0 = 234; I = 0x300; LD B,V0; LD V2,[I]
    let (mut cpu, mut bus) = chip8_with(&[0x60, 0xea, 0xa3, 0x00, 0xf0, 0x33, 0xf2, 0x65]);
    for _ in 0..4 {
        cpu.step(&mut bus).unwrap();
    }
    assert_eq!(bus.mem.read_byte(0x300), 2);
    assert_eq!(bus.mem.read_byte(0x301), 3);
    assert_eq!(bus.mem.read_byte(0x302), 4);
    assert_eq!((cpu.reg(0), cpu.reg(1), cpu.reg(2)), (2, 3, 4));
    assert_eq!(cpu.index(), 0x300);
}

#[test]
fn chip8_draw_collision_and_random_mask() {
    // I = 0x20A (the 0xFF byte below); V0 = 0; DRW V0,V0,1 twice; RND V3,0x00
    let (mut cpu, mut bus) = chip8_with(&[0xa2, 0x0a, 0x60, 0x00, 0xd0, 0x01, 0xd0, 0x01, 0xc3, 0x00, 0xff]);
    cpu.step(&mut bus).unwrap();
    cpu.step(&mut bus).unwrap();
    cpu.step(&mut bus).unwrap();
    assert_eq!(cpu.reg(15), 0);
    assert_eq!(bus.graphics.render().len(), 8);
    cpu.step(&mut bus).unwrap();
    assert_eq!(cpu.reg(15), 1);
    assert!(bus.graphics.render().is_empty());
    cpu.step(&mut bus).unwrap();
    assert_eq!(cpu.reg(3), 0);
}

#[test]
fn chip8_unknown_instruction() {
    let (mut cpu, mut bus) = chip8_with(&[0x80, 0x08]);
    assert_eq!(cpu.step(&mut bus), Err(Chip8Error::UnknownInstruction(0x8008)));
    let (mut cpu, mut bus) = chip8_with(&[0xe0, 0x9e]);
    assert_eq!(cpu.step(&mut bus), Ok(false));
    let (mut cpu, mut bus) = chip8_with(&[0x60, 0x20, 0xe0, 0x9e]);
    cpu.step(&mut bus).unwrap();
    assert_eq!(cpu.step(&mut bus), Err(Chip8Error::KeyOutOfRange(0x20)));
}

#[test]
fn chip8_wait_for_key() {
    let (mut cpu, mut bus) = chip8_with(&[0xf5, 0x0a]);
    cpu.step(&mut bus).unwrap();
    assert_eq!(cpu.pc(), 0x200);
    bus.input.handle_input(&vec![KeyEvent::KeyDown(7)]);
    cpu.step(&mut bus).unwrap();
    assert_eq!(cpu.reg(5), 7);
    assert_eq!(cpu.pc(), 0x202);
}

#[test]
fn chip8_sound_timer() {
    // V0 = 30; LD ST,V0
    let (mut cpu, mut bus) = chip8_with(&[0x60, 0x1e, 0xf0, 0x18]);
    cpu.step(&mut bus).unwrap();
    assert_eq!(cpu.step(&mut bus), Ok(true));
}
