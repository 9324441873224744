use gbcore::bus::Interconnect;
use gbcore::cpu::{Cpu, HaltState, StepError, CB_CYCLE_COUNTS, CYCLE_COUNTS, INTERRUPT_CYCLES};

fn rom_with(code: &[u8]) -> Vec<u8> {
    let mut rom = vec![0u8; 0x8000];
    for (i, b) in code.iter().enumerate() {
        rom[0x100 + i] = *b;
    }
    rom
}

#[test]
fn load_load_halt_program() {
    let mut bus = Interconnect::new(rom_with(&[0x3e, 0x42, 0x47, 0x76]));
    let mut cpu = Cpu::new();
    let start = cpu.total_cycles;
    assert_eq!(cpu.step(&mut bus), Ok(8));
    assert_eq!(cpu.step(&mut bus), Ok(4));
    // the base table gives HALT itself no cycles
    assert_eq!(cpu.step(&mut bus), Ok(0));
    assert_eq!(cpu.a, 0x42);
    assert_eq!(cpu.b, 0x42);
    assert_eq!(cpu.halted, HaltState::Halted);
    assert_eq!(cpu.total_cycles - start, 12);
    assert_eq!(cpu.total_cycles - start, (CYCLE_COUNTS[0x3e] + CYCLE_COUNTS[0x47] + CYCLE_COUNTS[0x76]) as u32);
    assert_eq!(cpu.pc, 0x104);
    // halted with nothing pending: an idle step
    assert_eq!(cpu.step(&mut bus), Ok(4));
    assert_eq!(cpu.pc, 0x104);
}

#[test]
fn vblank_request_services_interrupt() {
    let mut bus = Interconnect::new(rom_with(&[0x00, 0x00]));
    let mut cpu = Cpu::new();
    cpu.interrupts_enabled = true;
    bus.write_byte(0xffff, 0x01);
    // 0xE0 sets only the three unused high bits; the vblank request is bit 0.
    bus.write_byte(0xff0f, 0xe1);
    let pc_before = cpu.pc;
    let sp_before = cpu.sp;
    let r = cpu.step(&mut bus);
    assert_eq!(r, Ok(INTERRUPT_CYCLES + 4));
    assert_eq!(cpu.sp, sp_before - 2);
    assert_eq!(bus.read_halfword(cpu.sp), pc_before);
    assert_eq!(bus.read_byte(0xff0f), 0xe0);
    assert!(!cpu.interrupts_enabled);
    // the vector 0x40 holds a NOP, which ran in the same step
    assert_eq!(cpu.pc, 0x41);
}

#[test]
fn high_bits_alone_request_nothing() {
    let mut bus = Interconnect::new(rom_with(&[0x00]));
    let mut cpu = Cpu::new();
    bus.write_byte(0xffff, 0x01);
    bus.write_byte(0xff0f, 0xe0);
    assert_eq!(cpu.step(&mut bus), Ok(4));
    assert_eq!(cpu.pc, 0x101);
    assert_eq!(bus.read_byte(0xff0f), 0xe0);
}

#[test]
fn lowest_source_first() {
    let mut bus = Interconnect::new(rom_with(&[0x00]));
    let mut cpu = Cpu::new();
    bus.write_byte(0xffff, 0x1f);
    bus.write_byte(0xff0f, 0x1f);
    cpu.step(&mut bus).unwrap();
    assert_eq!(bus.read_byte(0xff0f), 0x1e);
    assert_eq!(cpu.pc, 0x41);

    let mut bus = Interconnect::new(rom_with(&[0x00]));
    let mut cpu = Cpu::new();
    bus.write_byte(0xffff, 0x1f);
    bus.write_byte(0xff0f, 0x0c);
    cpu.step(&mut bus).unwrap();
    assert_eq!(bus.read_byte(0xff0f), 0x08);
    assert_eq!(cpu.pc, 0x51);

    let mut bus = Interconnect::new(rom_with(&[0x00]));
    let mut cpu = Cpu::new();
    bus.write_byte(0xffff, 0x10);
    bus.write_byte(0xff0f, 0x1f);
    cpu.step(&mut bus).unwrap();
    assert_eq!(bus.read_byte(0xff0f), 0x0f);
    assert_eq!(cpu.pc, 0x61);
}

#[test]
fn halt_bug_repeats_next_byte() {
    // HALT; INC A; NOP
    let mut bus = Interconnect::new(rom_with(&[0x76, 0x3c, 0x00]));
    let mut cpu = Cpu::new();
    cpu.interrupts_enabled = false;
    cpu.a = 0x10;
    bus.write_byte(0xffff, 0x04);
    bus.write_byte(0xff0f, 0x04);
    let mut trace = Vec::new();
    for _ in 0..4 {
        cpu.step(&mut bus).unwrap();
        trace.push((cpu.pc, cpu.a));
    }
    assert_eq!(trace, vec![(0x101, 0x10), (0x101, 0x11), (0x102, 0x12), (0x103, 0x12)]);
    assert_eq!(cpu.halted, HaltState::Running);
}

#[test]
fn halt_with_interrupts_disabled_and_nothing_pending_waits() {
    let mut bus = Interconnect::new(rom_with(&[0x76, 0x3c]));
    let mut cpu = Cpu::new();
    cpu.interrupts_enabled = false;
    cpu.step(&mut bus).unwrap();
    assert_eq!(cpu.halted, HaltState::Halted);
    assert_eq!(cpu.step(&mut bus), Ok(4));
    assert_eq!(cpu.pc, 0x101);
    // a request wakes it without servicing
    bus.write_byte(0xffff, 0x01);
    bus.write_byte(0xff0f, 0x01);
    cpu.step(&mut bus).unwrap();
    assert_eq!(cpu.halted, HaltState::Running);
    assert_eq!(cpu.pc, 0x102);
    assert_eq!(bus.read_byte(0xff0f), 0x01);
}

#[test]
fn undefined_opcode_is_reported() {
    let mut bus = Interconnect::new(rom_with(&[0x00, 0xd3]));
    let mut cpu = Cpu::new();
    cpu.step(&mut bus).unwrap();
    assert_eq!(cpu.step(&mut bus), Err(StepError { opcode: 0xd3, addr: 0x101 }));
}

#[test]
fn all_undefined_opcodes() {
    for op in [0x10u8, 0xd3, 0xdb, 0xdd, 0xe3, 0xe4, 0xeb, 0xec, 0xed, 0xf4, 0xfc, 0xfd] {
        let mut bus = Interconnect::new(rom_with(&[op]));
        let mut cpu = Cpu::new();
        assert_eq!(cpu.step(&mut bus), Err(StepError { opcode: op, addr: 0x100 }));
    }
}

fn taken_extra(op: u8, z: bool, c: bool) -> u16 {
    let cond = match (op >> 3) & 3 {
        0 => !z,
        1 => z,
        2 => !c,
        _ => c,
    };
    match op {
        0x20 | 0x28 | 0x30 | 0x38 | 0xc2 | 0xca | 0xd2 | 0xda => if cond { 4 } else { 0 },
        0xc0 | 0xc8 | 0xd0 | 0xd8 | 0xc4 | 0xcc | 0xd4 | 0xdc => if cond { 12 } else { 0 },
        _ => 0,
    }
}

#[test]
fn base_table_cycle_costs() {
    let undefined = [0x10u8, 0xd3, 0xdb, 0xdd, 0xe3, 0xe4, 0xeb, 0xec, 0xed, 0xf4, 0xfc, 0xfd, 0xcb];
    for op in 0..=255u8 {
        if undefined.contains(&op) {
            continue;
        }
        for (z, c) in [(false, false), (true, true), (true, false), (false, true)] {
            let mut bus = Interconnect::new(rom_with(&[op, 0x00, 0x00]));
            let mut cpu = Cpu::new();
            cpu.f.z = z;
            cpu.f.c = c;
            cpu.sp = 0xdff0;
            let r = cpu.step(&mut bus);
            assert_eq!(r, Ok(CYCLE_COUNTS[op as usize] + taken_extra(op, z, c)), "opcode {:02x}", op);
        }
    }
}

#[test]
fn extended_table_cycle_costs() {
    for sub in 0..=255u8 {
        let mut bus = Interconnect::new(rom_with(&[0xcb, sub]));
        let mut cpu = Cpu::new();
        cpu.set_hl(0xc000);
        let r = cpu.step(&mut bus);
        assert_eq!(r, Ok(CB_CYCLE_COUNTS[sub as usize]), "sub-opcode {:02x}", sub);
    }
}

#[test]
fn conditional_branch_costs() {
    // JR NZ,+2 with Zero clear: taken, 12 cycles
    let mut bus = Interconnect::new(rom_with(&[0x20, 0x02]));
    let mut cpu = Cpu::new();
    cpu.f.z = false;
    assert_eq!(cpu.step(&mut bus), Ok(12));
    assert_eq!(cpu.pc, 0x104);
    // JR NZ with Zero set: not taken, 8 cycles
    let mut bus = Interconnect::new(rom_with(&[0x20, 0x02]));
    let mut cpu = Cpu::new();
    cpu.f.z = true;
    assert_eq!(cpu.step(&mut bus), Ok(8));
    assert_eq!(cpu.pc, 0x102);
    // JR -2 loops onto itself
    let mut bus = Interconnect::new(rom_with(&[0x18, 0xfe]));
    let mut cpu = Cpu::new();
    assert_eq!(cpu.step(&mut bus), Ok(12));
    assert_eq!(cpu.pc, 0x100);
}

#[test]
fn call_and_return() {
    // CALL 0x0110; at 0x110: RET
    let mut code = vec![0xcd, 0x10, 0x01];
    code.resize(0x10, 0);
    code.push(0xc9);
    let mut bus = Interconnect::new(rom_with(&code));
    let mut cpu = Cpu::new();
    assert_eq!(cpu.step(&mut bus), Ok(24));
    assert_eq!(cpu.pc, 0x110);
    assert_eq!(cpu.sp, 0xfffc);
    assert_eq!(bus.read_halfword(0xfffc), 0x103);
    assert_eq!(cpu.step(&mut bus), Ok(16));
    assert_eq!(cpu.pc, 0x103);
    assert_eq!(cpu.sp, 0xfffe);
}

#[test]
fn push_pop_af_masks_low_flag_bits() {
    // LD BC,0x12FF; PUSH BC; POP AF
    let mut bus = Interconnect::new(rom_with(&[0x01, 0xff, 0x12, 0xc5, 0xf1]));
    let mut cpu = Cpu::new();
    for _ in 0..3 {
        cpu.step(&mut bus).unwrap();
    }
    assert_eq!(cpu.a, 0x12);
    assert_eq!(cpu.af(), 0x12f0);
}

#[test]
fn accumulator_rotate_clears_zero() {
    // RLCA on 0x00 keeps 0 but Zero stays clear; CB RLC A sets it
    let mut bus = Interconnect::new(rom_with(&[0x07, 0xcb, 0x07]));
    let mut cpu = Cpu::new();
    cpu.a = 0;
    cpu.step(&mut bus).unwrap();
    assert_eq!(cpu.a, 0);
    assert!(!cpu.f.z);
    cpu.step(&mut bus).unwrap();
    assert!(cpu.f.z);
}

#[test]
fn daa_after_add_instruction() {
    // LD A,0x45; ADD A,0x38; DAA
    let mut bus = Interconnect::new(rom_with(&[0x3e, 0x45, 0xc6, 0x38, 0x27]));
    let mut cpu = Cpu::new();
    for _ in 0..3 {
        cpu.step(&mut bus).unwrap();
    }
    assert_eq!(cpu.a, 0x83);
    assert!(!cpu.f.c);
}

#[test]
fn di_takes_effect_after_the_next_instruction() {
    // DI; NOP; EI; NOP; NOP
    let mut bus = Interconnect::new(rom_with(&[0xf3, 0x00, 0xfb, 0x00, 0x00]));
    let mut cpu = Cpu::new();
    assert!(cpu.interrupts_enabled);
    cpu.step(&mut bus).unwrap();
    assert!(cpu.interrupts_enabled);
    cpu.step(&mut bus).unwrap();
    assert!(!cpu.interrupts_enabled);
    cpu.step(&mut bus).unwrap();
    assert!(!cpu.interrupts_enabled);
    cpu.step(&mut bus).unwrap();
    assert!(cpu.interrupts_enabled);
}

#[test]
fn ei_services_only_after_the_next_instruction() {
    // EI; INC A; NOP; a vblank request is pending and enabled throughout
    let mut bus = Interconnect::new(rom_with(&[0xfb, 0x3c, 0x00]));
    let mut cpu = Cpu::new();
    cpu.interrupts_enabled = false;
    cpu.a = 0;
    bus.write_byte(0xffff, 0x01);
    bus.write_byte(0xff0f, 0x01);
    assert_eq!(cpu.step(&mut bus), Ok(4));
    assert_eq!(cpu.pc, 0x101);
    // the instruction after EI runs without a dispatch
    assert_eq!(cpu.step(&mut bus), Ok(4));
    assert_eq!(cpu.a, 1);
    assert_eq!(cpu.pc, 0x102);
    assert!(cpu.interrupts_enabled);
    // now the request is serviced
    assert_eq!(cpu.step(&mut bus), Ok(INTERRUPT_CYCLES + 4));
    assert_eq!(bus.read_halfword(cpu.sp), 0x102);
    assert_eq!(cpu.pc, 0x41);
}

#[test]
fn add_then_daa_instructions() {
    // LD A,0x58; LD B,0x47; ADD A,B; DAA -> 105 -> 0x05 with Carry
    let mut bus = Interconnect::new(rom_with(&[0x3e, 0x58, 0x06, 0x47, 0x80, 0x27]));
    let mut cpu = Cpu::new();
    for _ in 0..4 {
        cpu.step(&mut bus).unwrap();
    }
    assert_eq!(cpu.a, 0x05);
    assert!(cpu.f.c && !cpu.f.h && !cpu.f.n && !cpu.f.z);
}

#[test]
fn sub_then_daa_instructions() {
    // LD A,0x12; LD B,0x34; SUB A,B; DAA -> 12 - 34 = -22 -> 0x78 with Carry
    let mut bus = Interconnect::new(rom_with(&[0x3e, 0x12, 0x06, 0x34, 0x90, 0x27]));
    let mut cpu = Cpu::new();
    for _ in 0..4 {
        cpu.step(&mut bus).unwrap();
    }
    assert_eq!(cpu.a, 0x78);
    assert!(cpu.f.c && !cpu.f.h && cpu.f.n && !cpu.f.z);
}

#[test]
fn register_pairs() {
    let mut cpu = Cpu::new();
    cpu.set_bc(0x1234);
    cpu.set_de(0xabcd);
    cpu.set_hl(0x0102);
    assert_eq!((cpu.b, cpu.c), (0x12, 0x34));
    assert_eq!(cpu.bc(), 0x1234);
    assert_eq!(cpu.de(), 0xabcd);
    assert_eq!(cpu.hl(), 0x0102);
    assert_eq!((cpu.h, cpu.l), (0x01, 0x02));
}

#[test]
fn post_boot_registers() {
    let cpu = Cpu::new();
    assert_eq!(cpu.pc, 0x100);
    assert_eq!(cpu.sp, 0xfffe);
    assert_eq!(cpu.af(), 0x01b0);
    assert_eq!(cpu.bc(), 0x0013);
    assert_eq!(cpu.de(), 0x00d8);
    assert_eq!(cpu.hl(), 0x014d);
    assert_eq!(cpu.halted, HaltState::Running);
}
