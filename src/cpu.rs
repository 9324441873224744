use vstd::prelude::*;
use crate::alu::{
    add8_spec, sub8_spec, and8_spec, or8_spec, xor8_spec, inc8_spec, dec8_spec, add16_spec,
    rlc_spec, rrc_spec, rl_spec, rr_spec, sla_spec, sra_spec, srl_spec, swap_spec, bit_spec,
    set_spec, res_spec, daa_spec, add8, sub8, and8, or8, xor8, inc8, dec8, add16, rlc, rrc, rl, rr,
    sla, sra, srl, swap, bit, set_bit, res_bit, daa,
};
use crate::bus::{BusView, Interconnect, IF_REGISTER, IE_REGISTER, is_plain_ram, lemma_write16_read16};
use crate::alu::{is_bcd, bcd_value, to_bcd, lemma_daa_after_add, lemma_daa_after_sub};
use crate::decode::{
    AluOp, CbOp, Cond, Ind, Instr, R16, R8, StackPair, decode_spec, decode_cb_spec, decode, decode_cb,
};
use crate::flags::Flags;

verus! {

/// Extra cycles that servicing an interrupt costs, on top of the instruction
/// that then runs.
pub const INTERRUPT_CYCLES: u16 = 20;

/// Cycles that a halted processor spends waiting in one step.
pub const HALT_IDLE_CYCLES: u16 = 4;

/// Base cycle cost of each base-table opcode; 0 where the opcode is undefined
/// or is the extended-table prefix.
pub const CYCLE_COUNTS: [u16; 256] = [
     4, 12,  8,  8,  4,  4,  8,  4, 20,  8,  8,  8,  4,  4,  8,  4,
     0, 12,  8,  8,  4,  4,  8,  4, 12,  8,  8,  8,  4,  4,  8,  4,
     8, 12,  8,  8,  4,  4,  8,  4,  8,  8,  8,  8,  4,  4,  8,  4,
     8, 12,  8,  8, 12, 12, 12,  4,  8,  8,  8,  8,  4,  4,  8,  4,
     4,  4,  4,  4,  4,  4,  8,  4,  4,  4,  4,  4,  4,  4,  8,  4,
     4,  4,  4,  4,  4,  4,  8,  4,  4,  4,  4,  4,  4,  4,  8,  4,
     4,  4,  4,  4,  4,  4,  8,  4,  4,  4,  4,  4,  4,  4,  8,  4,
     8,  8,  8,  8,  8,  8,  0,  8,  4,  4,  4,  4,  4,  4,  8,  4,
     4,  4,  4,  4,  4,  4,  8,  4,  4,  4,  4,  4,  4,  4,  8,  4,
     4,  4,  4,  4,  4,  4,  8,  4,  4,  4,  4,  4,  4,  4,  8,  4,
     4,  4,  4,  4,  4,  4,  8,  4,  4,  4,  4,  4,  4,  4,  8,  4,
     4,  4,  4,  4,  4,  4,  8,  4,  4,  4,  4,  4,  4,  4,  8,  4,
     8, 12, 12, 16, 12, 16,  8, 16,  8, 16, 12,  0, 12, 24,  8, 16,
     8, 12, 12,  0, 12, 16,  8, 16,  8, 16, 12,  0, 12,  0,  8, 16,
    12, 12,  8,  0,  0, 16,  8, 16, 16,  4, 16,  0,  0,  0,  8, 16,
    12, 12,  8,  4,  0, 16,  8, 16, 12,  8, 16,  4,  0,  0,  8, 16,
];

/// Cycle cost of each extended-table opcode, added to the prefix's.
pub const CB_CYCLE_COUNTS: [u16; 256] = [
     8,  8,  8,  8,  8,  8, 16,  8,  8,  8,  8,  8,  8,  8, 16,  8,
     8,  8,  8,  8,  8,  8, 16,  8,  8,  8,  8,  8,  8,  8, 16,  8,
     8,  8,  8,  8,  8,  8, 16,  8,  8,  8,  8,  8,  8,  8, 16,  8,
     8,  8,  8,  8,  8,  8, 16,  8,  8,  8,  8,  8,  8,  8, 16,  8,
     8,  8,  8,  8,  8,  8, 12,  8,  8,  8,  8,  8,  8,  8, 12,  8,
     8,  8,  8,  8,  8,  8, 12,  8,  8,  8,  8,  8,  8,  8, 12,  8,
     8,  8,  8,  8,  8,  8, 12,  8,  8,  8,  8,  8,  8,  8, 12,  8,
     8,  8,  8,  8,  8,  8, 12,  8,  8,  8,  8,  8,  8,  8, 12,  8,
     8,  8,  8,  8,  8,  8, 16,  8,  8,  8,  8,  8,  8,  8, 16,  8,
     8,  8,  8,  8,  8,  8, 16,  8,  8,  8,  8,  8,  8,  8, 16,  8,
     8,  8,  8,  8,  8,  8, 16,  8,  8,  8,  8,  8,  8,  8, 16,  8,
     8,  8,  8,  8,  8,  8, 16,  8,  8,  8,  8,  8,  8,  8, 16,  8,
     8,  8,  8,  8,  8,  8, 16,  8,  8,  8,  8,  8,  8,  8, 16,  8,
     8,  8,  8,  8,  8,  8, 16,  8,  8,  8,  8,  8,  8,  8, 16,  8,
     8,  8,  8,  8,  8,  8, 16,  8,  8,  8,  8,  8,  8,  8, 16,  8,
     8,  8,  8,  8,  8,  8, 16,  8,  8,  8,  8,  8,  8,  8, 16,  8,
];

/// Whether the processor runs, waits in HALT, or has hit the HALT bug (the
/// next fetch does not advance the program counter).
#[derive(Clone, Copy, PartialEq, Eq, Structural, Debug)]
pub enum HaltState {
    Running,
    Halted,
    HaltBug,
}

/// An opcode with no defined behaviour, and the address it was fetched from.
#[derive(Clone, Copy, PartialEq, Eq, Structural, Debug)]
pub struct StepError {
    pub opcode: u8,
    pub addr: u16,
}

/// The register file and interrupt state of the processor.
#[derive(Clone, Copy, Debug)]
pub struct Cpu {
    pub a: u8,
    pub f: Flags,
    pub b: u8,
    pub c: u8,
    pub d: u8,
    pub e: u8,
    pub h: u8,
    pub l: u8,
    pub sp: u16,
    pub pc: u16,
    /// Instructions left, counting the current one, before a scheduled
    /// disable of interrupts applies; 0 when none is scheduled.
    pub instructions_to_di: u8,
    /// The same for a scheduled enable.
    pub instructions_to_ei: u8,
    pub interrupts_enabled: bool,
    pub halted: HaltState,
    pub total_cycles: u32,
}

/// Big-endian pair of two bytes.
pub open spec fn pair(hi: u8, lo: u8) -> u16 {
    (hi as int * 256 + lo as int) as u16
}

pub open spec fn hi_byte(v: u16) -> u8 {
    (v / 256) as u8
}

pub open spec fn lo_byte(v: u16) -> u8 {
    (v % 256) as u8
}

/// `x` modulo 2^16.
pub open spec fn wrap16(x: int) -> u16 {
    (x % 65536) as u16
}

/// A byte read as a two's complement signed offset.
pub open spec fn sext(n: u8) -> int {
    if n < 128 {
        n as int
    } else {
        n as int - 256
    }
}

/// The enabled and requested interrupts of the five sources.
pub open spec fn pending_spec(b: BusView) -> u8 {
    b.if_reg & b.ie_reg & 0x1f
}

/// The lowest set bit of `p`, for `p` in 1..=0x1f.
pub open spec fn lowest_bit(p: u8) -> u8 {
    if p & 1 != 0 {
        0
    } else if p & 2 != 0 {
        1
    } else if p & 4 != 0 {
        2
    } else if p & 8 != 0 {
        3
    } else {
        4
    }
}

/// Accumulator operation on `a` and `v` with flags `f`.
pub open spec fn alu_spec(op: AluOp, a: u8, v: u8, f: Flags) -> (u8, Flags) {
    match op {
        AluOp::Add => add8_spec(a, v, false),
        AluOp::Adc => add8_spec(a, v, f.c),
        AluOp::Sub => sub8_spec(a, v, false),
        AluOp::Sbc => sub8_spec(a, v, f.c),
        AluOp::And => and8_spec(a, v),
        AluOp::Xor => xor8_spec(a, v),
        AluOp::Or => or8_spec(a, v),
        AluOp::Cp => (a, sub8_spec(a, v, false).1),
    }
}

/// Flags of the two instructions that add a signed byte to SP: carries out
/// of bits 3 and 7 of the unsigned low byte.
pub open spec fn sp_offset_flags(sp: u16, n: u8) -> Flags {
    Flags {
        z: false,
        n: false,
        h: (sp % 16) as int + (n % 16) as int > 15,
        c: (sp % 256) as int + n as int > 255,
    }
}

pub open spec fn cond_holds(f: Flags, cc: Cond) -> bool {
    match cc {
        Cond::NZ => !f.z,
        Cond::Z => f.z,
        Cond::NC => !f.c,
        Cond::C => f.c,
    }
}

/// Extra cycles of a conditional branch, call or return when its condition
/// holds.
pub open spec fn branch_extra(i: Instr, f: Flags) -> u16 {
    match i {
        Instr::JrCond(cc) => if cond_holds(f, cc) {
            4
        } else {
            0
        },
        Instr::JpCond(cc) => if cond_holds(f, cc) {
            4
        } else {
            0
        },
        Instr::CallCond(cc) => if cond_holds(f, cc) {
            12
        } else {
            0
        },
        Instr::RetCond(cc) => if cond_holds(f, cc) {
            12
        } else {
            0
        },
        _ => 0,
    }
}

impl Cpu {
    pub open spec fn bc_spec(self) -> u16 {
        pair(self.b, self.c)
    }

    pub open spec fn de_spec(self) -> u16 {
        pair(self.d, self.e)
    }

    pub open spec fn hl_spec(self) -> u16 {
        pair(self.h, self.l)
    }

    pub open spec fn af_spec(self) -> u16 {
        pair(self.a, self.f.byte_spec())
    }

    pub open spec fn with_hl(self, v: u16) -> Cpu {
        Cpu { h: hi_byte(v), l: lo_byte(v), ..self }
    }

    pub open spec fn reg16_spec(self, r: R16) -> u16 {
        match r {
            R16::BC => self.bc_spec(),
            R16::DE => self.de_spec(),
            R16::HL => self.hl_spec(),
            R16::SP => self.sp,
        }
    }

    pub open spec fn with_reg16(self, r: R16, v: u16) -> Cpu {
        match r {
            R16::BC => Cpu { b: hi_byte(v), c: lo_byte(v), ..self },
            R16::DE => Cpu { d: hi_byte(v), e: lo_byte(v), ..self },
            R16::HL => self.with_hl(v),
            R16::SP => Cpu { sp: v, ..self },
        }
    }

    /// Reads the byte at PC and advances PC, except right after the HALT bug,
    /// where PC stays and the bug is cleared.
    pub open spec fn fetch_spec(self, b: BusView) -> (Cpu, u8) {
        let v = b.read(self.pc);
        if self.halted == HaltState::HaltBug {
            (Cpu { halted: HaltState::Running, ..self }, v)
        } else {
            (Cpu { pc: wrap16(self.pc + 1), ..self }, v)
        }
    }

    /// Two fetches, low byte first.
    pub open spec fn fetch16_spec(self, b: BusView) -> (Cpu, u16) {
        let (c1, lo) = self.fetch_spec(b);
        let (c2, hi) = c1.fetch_spec(b);
        (c2, pair(hi, lo))
    }

    pub open spec fn read8_spec(self, b: BusView, r: R8) -> u8 {
        match r {
            R8::B => self.b,
            R8::C => self.c,
            R8::D => self.d,
            R8::E => self.e,
            R8::H => self.h,
            R8::L => self.l,
            R8::HlInd => b.read(self.hl_spec()),
            R8::A => self.a,
        }
    }

    pub open spec fn write8_spec(self, b: BusView, r: R8, v: u8) -> (Cpu, BusView) {
        match r {
            R8::B => (Cpu { b: v, ..self }, b),
            R8::C => (Cpu { c: v, ..self }, b),
            R8::D => (Cpu { d: v, ..self }, b),
            R8::E => (Cpu { e: v, ..self }, b),
            R8::H => (Cpu { h: v, ..self }, b),
            R8::L => (Cpu { l: v, ..self }, b),
            R8::HlInd => (self, b.write(self.hl_spec(), v)),
            R8::A => (Cpu { a: v, ..self }, b),
        }
    }

    /// SP drops by two and the value is stored there, low byte first.
    pub open spec fn push_spec(self, b: BusView, v: u16) -> (Cpu, BusView) {
        let sp = wrap16(self.sp - 2);
        (Cpu { sp, ..self }, b.write16(sp, v))
    }

    pub open spec fn pop_spec(self, b: BusView) -> (Cpu, u16) {
        (Cpu { sp: wrap16(self.sp + 2), ..self }, b.read16(self.sp))
    }

    pub open spec fn ind_addr(self, i: Ind) -> u16 {
        match i {
            Ind::BC => self.bc_spec(),
            Ind::DE => self.de_spec(),
            _ => self.hl_spec(),
        }
    }

    pub open spec fn ind_after(self, i: Ind) -> Cpu {
        match i {
            Ind::HLInc => self.with_hl(wrap16(self.hl_spec() + 1)),
            Ind::HLDec => self.with_hl(wrap16(self.hl_spec() - 1)),
            _ => self,
        }
    }

    pub open spec fn stack_pair_spec(self, p: StackPair) -> u16 {
        match p {
            StackPair::BC => self.bc_spec(),
            StackPair::DE => self.de_spec(),
            StackPair::HL => self.hl_spec(),
            StackPair::AF => self.af_spec(),
        }
    }

    /// POP AF keeps only bits 7 to 4 of the flags byte.
    pub open spec fn with_stack_pair(self, p: StackPair, v: u16) -> Cpu {
        match p {
            StackPair::BC => self.with_reg16(R16::BC, v),
            StackPair::DE => self.with_reg16(R16::DE, v),
            StackPair::HL => self.with_reg16(R16::HL, v),
            StackPair::AF => Cpu { a: hi_byte(v), f: Flags::from_byte_spec(lo_byte(v)), ..self },
        }
    }

    pub open spec fn call_spec(self, b: BusView, addr: u16) -> (Cpu, BusView) {
        let (c1, b1) = self.push_spec(b, self.pc);
        (Cpu { pc: addr, ..c1 }, b1)
    }

    /// An extended-table operation on an operand.
    pub open spec fn cb_spec(self, b: BusView, op: CbOp, r: R8) -> (Cpu, BusView) {
        let v = self.read8_spec(b, r);
        match op {
            CbOp::TestBit(n) => (Cpu { f: bit_spec(v, n, self.f), ..self }, b),
            CbOp::ResBit(n) => self.write8_spec(b, r, res_spec(v, n)),
            CbOp::SetBit(n) => self.write8_spec(b, r, set_spec(v, n)),
            _ => {
                let (x, f) = match op {
                    CbOp::Rlc => rlc_spec(v),
                    CbOp::Rrc => rrc_spec(v),
                    CbOp::Rl => rl_spec(v, self.f.c),
                    CbOp::Rr => rr_spec(v, self.f.c),
                    CbOp::Sla => sla_spec(v),
                    CbOp::Sra => sra_spec(v),
                    CbOp::Swap => swap_spec(v),
                    _ => srl_spec(v),
                };
                Cpu { f, ..self }.write8_spec(b, r, x)
            },
        }
    }

    /// What an instruction does, once its opcode has been fetched.
    #[verifier::opaque]
    pub open spec fn exec_spec(self, b: BusView, i: Instr) -> (Cpu, BusView) {
        let c = self;
        match i {
            Instr::LdR16Imm(r) => {
                let (c1, v) = c.fetch16_spec(b);
                (c1.with_reg16(r, v), b)
            },
            Instr::StIndA(ind) => (c.ind_after(ind), b.write(c.ind_addr(ind), c.a)),
            Instr::LdAInd(ind) => (Cpu { a: b.read(c.ind_addr(ind)), ..c.ind_after(ind) }, b),
            Instr::IncR16(r) => (c.with_reg16(r, wrap16(c.reg16_spec(r) + 1)), b),
            Instr::DecR16(r) => (c.with_reg16(r, wrap16(c.reg16_spec(r) - 1)), b),
            Instr::IncR8(r) => {
                let (v, f) = inc8_spec(c.read8_spec(b, r), c.f);
                Cpu { f, ..c }.write8_spec(b, r, v)
            },
            Instr::DecR8(r) => {
                let (v, f) = dec8_spec(c.read8_spec(b, r), c.f);
                Cpu { f, ..c }.write8_spec(b, r, v)
            },
            Instr::LdR8Imm(r) => {
                let (c1, v) = c.fetch_spec(b);
                c1.write8_spec(b, r, v)
            },
            Instr::Rlca => {
                let (v, f) = rlc_spec(c.a);
                (Cpu { a: v, f: Flags { z: false, ..f }, ..c }, b)
            },
            Instr::Rrca => {
                let (v, f) = rrc_spec(c.a);
                (Cpu { a: v, f: Flags { z: false, ..f }, ..c }, b)
            },
            Instr::Rla => {
                let (v, f) = rl_spec(c.a, c.f.c);
                (Cpu { a: v, f: Flags { z: false, ..f }, ..c }, b)
            },
            Instr::Rra => {
                let (v, f) = rr_spec(c.a, c.f.c);
                (Cpu { a: v, f: Flags { z: false, ..f }, ..c }, b)
            },
            Instr::StSpAbs => {
                let (c1, addr) = c.fetch16_spec(b);
                (c1, b.write16(addr, c.sp))
            },
            Instr::AddHl(r) => {
                let (v, f) = add16_spec(c.hl_spec(), c.reg16_spec(r), c.f);
                (Cpu { f, ..c.with_hl(v) }, b)
            },
            Instr::Jr => {
                let (c1, n) = c.fetch_spec(b);
                (Cpu { pc: wrap16(c1.pc + sext(n)), ..c1 }, b)
            },
            Instr::JrCond(cc) => {
                let (c1, n) = c.fetch_spec(b);
                if cond_holds(c.f, cc) {
                    (Cpu { pc: wrap16(c1.pc + sext(n)), ..c1 }, b)
                } else {
                    (c1, b)
                }
            },
            Instr::Daa => {
                let (v, f) = daa_spec(c.a, c.f);
                (Cpu { a: v, f, ..c }, b)
            },
            Instr::Cpl => (Cpu { a: !c.a, f: Flags { n: true, h: true, ..c.f }, ..c }, b),
            Instr::Scf => (Cpu { f: Flags { n: false, h: false, c: true, ..c.f }, ..c }, b),
            Instr::Ccf => (Cpu { f: Flags { n: false, h: false, c: !c.f.c, ..c.f }, ..c }, b),
            Instr::Halt => {
                let halted = if !c.interrupts_enabled && pending_spec(b) != 0 {
                    HaltState::HaltBug
                } else {
                    HaltState::Halted
                };
                (Cpu { halted, ..c }, b)
            },
            Instr::LdR8R8(d, s) => c.write8_spec(b, d, c.read8_spec(b, s)),
            Instr::AluR8(op, r) => {
                let (v, f) = alu_spec(op, c.a, c.read8_spec(b, r), c.f);
                (Cpu { a: v, f, ..c }, b)
            },
            Instr::AluImm(op) => {
                let (c1, n) = c.fetch_spec(b);
                let (v, f) = alu_spec(op, c1.a, n, c1.f);
                (Cpu { a: v, f, ..c1 }, b)
            },
            Instr::Ret => {
                let (c1, addr) = c.pop_spec(b);
                (Cpu { pc: addr, ..c1 }, b)
            },
            Instr::RetCond(cc) => if cond_holds(c.f, cc) {
                let (c1, addr) = c.pop_spec(b);
                (Cpu { pc: addr, ..c1 }, b)
            } else {
                (c, b)
            },
            Instr::Reti => {
                let (c1, addr) = c.pop_spec(b);
                (Cpu { pc: addr, interrupts_enabled: true, ..c1 }, b)
            },
            Instr::Pop(p) => {
                let (c1, v) = c.pop_spec(b);
                (c1.with_stack_pair(p, v), b)
            },
            Instr::Push(p) => c.push_spec(b, c.stack_pair_spec(p)),
            Instr::Jp => {
                let (c1, addr) = c.fetch16_spec(b);
                (Cpu { pc: addr, ..c1 }, b)
            },
            Instr::JpCond(cc) => {
                let (c1, addr) = c.fetch16_spec(b);
                if cond_holds(c.f, cc) {
                    (Cpu { pc: addr, ..c1 }, b)
                } else {
                    (c1, b)
                }
            },
            Instr::JpHl => (Cpu { pc: c.hl_spec(), ..c }, b),
            Instr::Call => {
                let (c1, addr) = c.fetch16_spec(b);
                c1.call_spec(b, addr)
            },
            Instr::CallCond(cc) => {
                let (c1, addr) = c.fetch16_spec(b);
                if cond_holds(c.f, cc) {
                    c1.call_spec(b, addr)
                } else {
                    (c1, b)
                }
            },
            Instr::Rst(v) => c.call_spec(b, v),
            Instr::Prefix => {
                let (c1, sub) = c.fetch_spec(b);
                let (op, r) = decode_cb_spec(sub);
                c1.cb_spec(b, op, r)
            },
            Instr::LdhImmA => {
                let (c1, n) = c.fetch_spec(b);
                (c1, b.write((0xff00 + n) as u16, c.a))
            },
            Instr::LdhAImm => {
                let (c1, n) = c.fetch_spec(b);
                (Cpu { a: b.read((0xff00 + n) as u16), ..c1 }, b)
            },
            Instr::LdhCA => (c, b.write((0xff00 + c.c) as u16, c.a)),
            Instr::LdhAC => (Cpu { a: b.read((0xff00 + c.c) as u16), ..c }, b),
            Instr::AddSpImm => {
                let (c1, n) = c.fetch_spec(b);
                (Cpu { sp: wrap16(c.sp + sext(n)), f: sp_offset_flags(c.sp, n), ..c1 }, b)
            },
            Instr::LdHlSpImm => {
                let (c1, n) = c.fetch_spec(b);
                (Cpu { f: sp_offset_flags(c.sp, n), ..c1.with_hl(wrap16(c.sp + sext(n))) }, b)
            },
            Instr::LdSpHl => (Cpu { sp: c.hl_spec(), ..c }, b),
            Instr::StAbsA => {
                let (c1, addr) = c.fetch16_spec(b);
                (c1, b.write(addr, c.a))
            },
            Instr::LdAAbs => {
                let (c1, addr) = c.fetch16_spec(b);
                (Cpu { a: b.read(addr), ..c1 }, b)
            },
            Instr::Di => (Cpu { instructions_to_di: 2, ..c }, b),
            Instr::Ei => (Cpu { instructions_to_ei: 2, ..c }, b),
            _ => (c, b),
        }
    }

    /// Services the highest-priority pending interrupt: clears its flag bit,
    /// pushes PC, jumps to its vector, disables interrupts and leaves HALT.
    #[verifier::opaque]
    pub open spec fn dispatch_spec(self, b: BusView) -> (Cpu, BusView) {
        let k = lowest_bit(pending_spec(b));
        let b1 = b.write(IF_REGISTER, b.if_reg & !(1u8 << k));
        let (c1, b2) = self.call_spec(b1, (0x40 + 8 * k) as u16);
        (Cpu { interrupts_enabled: false, halted: HaltState::Running, ..c1 }, b2)
    }

    /// The end of an executed instruction: a scheduled enable, then a
    /// scheduled disable, of interrupts counts down and applies when it
    /// reaches zero. EI and DI schedule with a count of 2, so they take
    /// effect once the instruction after them has completed.
    pub open spec fn countdown_spec(self) -> Cpu {
        let c1 = if self.instructions_to_ei > 0 {
            let n = (self.instructions_to_ei - 1) as u8;
            Cpu {
                instructions_to_ei: n,
                interrupts_enabled: if n == 0 {
                    true
                } else {
                    self.interrupts_enabled
                },
                ..self
            }
        } else {
            self
        };
        if c1.instructions_to_di > 0 {
            let n = (c1.instructions_to_di - 1) as u8;
            Cpu {
                instructions_to_di: n,
                interrupts_enabled: if n == 0 {
                    false
                } else {
                    c1.interrupts_enabled
                },
                ..c1
            }
        } else {
            c1
        }
    }

    /// State before the opcode fetch: HALT is left when interrupts are
    /// disabled, and a due interrupt is serviced; with the cycles that the
    /// service costs.
    #[verifier::opaque]
    pub open spec fn pre_fetch_spec(self, b: BusView) -> (Cpu, BusView, u16) {
        let p = pending_spec(b);
        let c1 = if self.halted == HaltState::Halted && !self.interrupts_enabled {
            Cpu { halted: HaltState::Running, ..self }
        } else {
            self
        };
        if c1.interrupts_enabled && p != 0 {
            let (c2, b2) = c1.dispatch_spec(b);
            (c2, b2, INTERRUPT_CYCLES)
        } else {
            (c1, b, 0)
        }
    }

    /// Cycles of one executed instruction: the base table, the extended
    /// table after the prefix, and the extra cost of a taken branch.
    pub open spec fn instr_cycles(op: u8, sub: u8, f: Flags) -> int {
        CYCLE_COUNTS@[op as int] + (if op == 0xcb {
            CB_CYCLE_COUNTS@[sub as int]
        } else {
            0
        }) + branch_extra(decode_spec(op), f)
    }

    /// One step of the processor: the state afterwards, and the cycles it
    /// took, or the undefined opcode that stopped it.
    pub open spec fn step_spec(self, b: BusView) -> (Cpu, BusView, Result<u16, StepError>) {
        if self.halted == HaltState::Halted && pending_spec(b) == 0 {
            (self, b, Ok(HALT_IDLE_CYCLES))
        } else {
            let (c2, b2, d) = self.pre_fetch_spec(b);
            let (c3, op) = c2.fetch_spec(b2);
            let i = decode_spec(op);
            if i == Instr::Invalid {
                (c3, b2, Err(StepError { opcode: op, addr: c2.pc }))
            } else {
                let (c4, b4) = c3.exec_spec(b2, i);
                let c5 = c4.countdown_spec();
                let cycles = (d + Cpu::instr_cycles(op, b2.read(c3.pc), c3.f)) as u16;
                (
                    Cpu { total_cycles: ((c5.total_cycles + cycles) % 0x1_0000_0000) as u32, ..c5 },
                    b4,
                    Ok(cycles),
                )
            }
        }
    }
}

/// The instruction is a load, a store, or an 8- or 16-bit increment or
/// decrement.
pub open spec fn is_load_instr(i: Instr) -> bool {
    match i {
        Instr::LdR16Imm(_)
        | Instr::StIndA(_)
        | Instr::LdAInd(_)
        | Instr::IncR16(_)
        | Instr::DecR16(_)
        | Instr::IncR8(_)
        | Instr::DecR8(_)
        | Instr::LdR8Imm(_)
        | Instr::LdR8R8(_, _)
        | Instr::StSpAbs
        | Instr::LdhImmA
        | Instr::LdhAImm
        | Instr::LdhCA
        | Instr::LdhAC
        | Instr::StAbsA
        | Instr::LdAAbs
        | Instr::LdSpHl => true,
        _ => false,
    }
}

/// The instruction is an arithmetic, rotate or flag operation, or the
/// extended-table prefix.
pub open spec fn is_arith_instr(i: Instr) -> bool {
    match i {
        Instr::Rlca
        | Instr::Rrca
        | Instr::Rla
        | Instr::Rra
        | Instr::AddHl(_)
        | Instr::Daa
        | Instr::Cpl
        | Instr::Scf
        | Instr::Ccf
        | Instr::AluR8(_, _)
        | Instr::AluImm(_)
        | Instr::AddSpImm
        | Instr::LdHlSpImm
        | Instr::Prefix => true,
        _ => false,
    }
}

/// The instruction is a jump.
pub open spec fn is_jump_instr(i: Instr) -> bool {
    match i {
        Instr::Jr
        | Instr::JrCond(_)
        | Instr::Jp
        | Instr::JpCond(_)
        | Instr::JpHl => true,
        _ => false,
    }
}

/// The instruction is a call, a return, or a stack push or pop.
pub open spec fn is_stack_instr(i: Instr) -> bool {
    match i {
        Instr::Ret
        | Instr::RetCond(_)
        | Instr::Reti
        | Instr::Pop(_)
        | Instr::Push(_)
        | Instr::Call
        | Instr::CallCond(_)
        | Instr::Rst(_) => true,
        _ => false,
    }
}

/// The instruction is HALT, DI or EI.
pub open spec fn is_control_instr(i: Instr) -> bool {
    match i {
        Instr::Halt
        | Instr::Di
        | Instr::Ei => true,
        _ => false,
    }
}

fn wrap_inc(x: u16) -> (r: u16)
    ensures
        r == wrap16(x + 1),
{
    ((x as u32 + 1) % 65536) as u16
}

fn wrap_dec(x: u16) -> (r: u16)
    ensures
        r == wrap16(x - 1),
{
    ((x as u32 + 65535) % 65536) as u16
}

/// `x` plus the signed offset `n`, modulo 2^16.
fn add_offset(x: u16, n: u8) -> (r: u16)
    ensures
        r == wrap16(x + sext(n)),
{
    let ext: u32 = if n >= 128 {
        0xff00
    } else {
        0
    };
    ((x as u32 + n as u32 + ext) % 65536) as u16
}

fn alu(op: AluOp, a: u8, v: u8, f: Flags) -> (r: (u8, Flags))
    ensures
        r == alu_spec(op, a, v, f),
{
    match op {
        AluOp::Add => add8(a, v, false),
        AluOp::Adc => add8(a, v, f.c),
        AluOp::Sub => sub8(a, v, false),
        AluOp::Sbc => sub8(a, v, f.c),
        AluOp::And => and8(a, v),
        AluOp::Xor => xor8(a, v),
        AluOp::Or => or8(a, v),
        AluOp::Cp => (a, sub8(a, v, false).1),
    }
}

fn cond(f: Flags, cc: Cond) -> (r: bool)
    ensures
        r == cond_holds(f, cc),
{
    match cc {
        Cond::NZ => !f.z,
        Cond::Z => f.z,
        Cond::NC => !f.c,
        Cond::C => f.c,
    }
}

fn sp_flags(sp: u16, n: u8) -> (r: Flags)
    ensures
        r == sp_offset_flags(sp, n),
{
    Flags { z: false, n: false, h: (sp % 16) + (n % 16) as u16 > 15, c: (sp % 256) + n as u16 > 255 }
}

fn branch_cycles(i: Instr, f: Flags) -> (r: u16)
    ensures
        r == branch_extra(i, f),
{
    match i {
        Instr::JrCond(cc) => if cond(f, cc) {
            4
        } else {
            0
        },
        Instr::JpCond(cc) => if cond(f, cc) {
            4
        } else {
            0
        },
        Instr::CallCond(cc) => if cond(f, cc) {
            12
        } else {
            0
        },
        Instr::RetCond(cc) => if cond(f, cc) {
            12
        } else {
            0
        },
        _ => 0,
    }
}

/// Index of the lowest set bit of a non-zero pending mask.
fn lowest_set_bit(p: u8) -> (r: u8)
    ensures
        r == lowest_bit(p),
{
    if p & 1 != 0 {
        0
    } else if p & 2 != 0 {
        1
    } else if p & 4 != 0 {
        2
    } else if p & 8 != 0 {
        3
    } else {
        4
    }
}

impl Cpu {
    /// The register file after the boot sequence: PC at the cartridge entry
    /// point 0x100, SP at the top of high RAM, AF = 0x01B0 (Zero, Half-carry
    /// and Carry set), BC = 0x0013, DE = 0x00D8, HL = 0x014D, interrupts
    /// enabled, running.
    pub open spec fn initial() -> Cpu {
        Cpu {
            a: 0x01,
            f: Flags { z: true, n: false, h: true, c: true },
            b: 0x00,
            c: 0x13,
            d: 0x00,
            e: 0xd8,
            h: 0x01,
            l: 0x4d,
            sp: 0xfffe,
            pc: 0x100,
            instructions_to_di: 0,
            instructions_to_ei: 0,
            interrupts_enabled: true,
            halted: HaltState::Running,
            total_cycles: 0,
        }
    }

    pub fn new() -> (r: Cpu)
        ensures
            r == Cpu::initial(),
    {
        Cpu {
            a: 0x01,
            f: Flags { z: true, n: false, h: true, c: true },
            b: 0x00,
            c: 0x13,
            d: 0x00,
            e: 0xd8,
            h: 0x01,
            l: 0x4d,
            sp: 0xfffe,
            pc: 0x100,
            instructions_to_di: 0,
            instructions_to_ei: 0,
            interrupts_enabled: true,
            halted: HaltState::Running,
            total_cycles: 0,
        }
    }

    pub fn af(&self) -> (r: u16)
        ensures
            r == self.af_spec(),
    {
        (self.a as u16) * 256 + self.f.to_byte() as u16
    }

    pub fn bc(&self) -> (r: u16)
        ensures
            r == self.bc_spec(),
    {
        (self.b as u16) * 256 + self.c as u16
    }

    pub fn de(&self) -> (r: u16)
        ensures
            r == self.de_spec(),
    {
        (self.d as u16) * 256 + self.e as u16
    }

    pub fn hl(&self) -> (r: u16)
        ensures
            r == self.hl_spec(),
    {
        (self.h as u16) * 256 + self.l as u16
    }

    pub fn set_bc(&mut self, val: u16)
        ensures
            *final(self) == old(self).with_reg16(R16::BC, val),
    {
        self.b = (val / 256) as u8;
        self.c = (val % 256) as u8;
    }

    pub fn set_de(&mut self, val: u16)
        ensures
            *final(self) == old(self).with_reg16(R16::DE, val),
    {
        self.d = (val / 256) as u8;
        self.e = (val % 256) as u8;
    }

    pub fn set_hl(&mut self, val: u16)
        ensures
            *final(self) == old(self).with_hl(val),
    {
        self.h = (val / 256) as u8;
        self.l = (val % 256) as u8;
    }

    fn reg16(&self, r: R16) -> (v: u16)
        ensures
            v == self.reg16_spec(r),
    {
        match r {
            R16::BC => self.bc(),
            R16::DE => self.de(),
            R16::HL => self.hl(),
            R16::SP => self.sp,
        }
    }

    fn set_reg16(&mut self, r: R16, v: u16)
        ensures
            *final(self) == old(self).with_reg16(r, v),
    {
        match r {
            R16::BC => self.set_bc(v),
            R16::DE => self.set_de(v),
            R16::HL => self.set_hl(v),
            R16::SP => self.sp = v,
        }
    }

    fn read_pc_byte(&mut self, bus: &Interconnect) -> (v: u8)
        requires
            bus.wf(),
        ensures
            (*final(self), v) == old(self).fetch_spec(bus@),
    {
        let val = bus.read_byte(self.pc);
        if self.halted == HaltState::HaltBug {
            self.halted = HaltState::Running;
        } else {
            self.pc = wrap_inc(self.pc);
        }
        val
    }

    fn read_pc_halfword(&mut self, bus: &Interconnect) -> (v: u16)
        requires
            bus.wf(),
        ensures
            (*final(self), v) == old(self).fetch16_spec(bus@),
    {
        let lsb = self.read_pc_byte(bus);
        let msb = self.read_pc_byte(bus);
        (msb as u16) * 256 + lsb as u16
    }

    fn read_r8(&self, bus: &Interconnect, r: R8) -> (v: u8)
        requires
            bus.wf(),
        ensures
            v == self.read8_spec(bus@, r),
    {
        match r {
            R8::B => self.b,
            R8::C => self.c,
            R8::D => self.d,
            R8::E => self.e,
            R8::H => self.h,
            R8::L => self.l,
            R8::HlInd => bus.read_byte(self.hl()),
            R8::A => self.a,
        }
    }

    fn write_r8(&mut self, bus: &mut Interconnect, r: R8, v: u8)
        requires
            old(bus).wf(),
        ensures
            final(bus).wf(),
            (*final(self), final(bus)@) == old(self).write8_spec(old(bus)@, r, v),
    {
        match r {
            R8::B => self.b = v,
            R8::C => self.c = v,
            R8::D => self.d = v,
            R8::E => self.e = v,
            R8::H => self.h = v,
            R8::L => self.l = v,
            R8::HlInd => bus.write_byte(self.hl(), v),
            R8::A => self.a = v,
        }
    }

    fn push_halfword(&mut self, bus: &mut Interconnect, v: u16)
        requires
            old(bus).wf(),
        ensures
            final(bus).wf(),
            (*final(self), final(bus)@) == old(self).push_spec(old(bus)@, v),
    {
        self.sp = ((self.sp as u32 + 65534) % 65536) as u16;
        bus.write_halfword(self.sp, v);
    }

    fn pop_halfword(&mut self, bus: &Interconnect) -> (v: u16)
        requires
            bus.wf(),
        ensures
            (*final(self), v) == old(self).pop_spec(bus@),
    {
        let v = bus.read_halfword(self.sp);
        self.sp = ((self.sp as u32 + 2) % 65536) as u16;
        v
    }

    fn call(&mut self, bus: &mut Interconnect, addr: u16)
        requires
            old(bus).wf(),
        ensures
            final(bus).wf(),
            (*final(self), final(bus)@) == old(self).call_spec(old(bus)@, addr),
    {
        let pc = self.pc;
        self.push_halfword(bus, pc);
        self.pc = addr;
    }

    fn execute_cb(&mut self, bus: &mut Interconnect, op: CbOp, r: R8)
        requires
            old(bus).wf(),
            op matches CbOp::TestBit(n) ==> n < 8,
            op matches CbOp::ResBit(n) ==> n < 8,
            op matches CbOp::SetBit(n) ==> n < 8,
        ensures
            final(bus).wf(),
            (*final(self), final(bus)@) == old(self).cb_spec(old(bus)@, op, r),
    {
        let v = self.read_r8(bus, r);
        match op {
            CbOp::TestBit(n) => {
                self.f = bit(v, n, self.f);
            },
            CbOp::ResBit(n) => {
                self.write_r8(bus, r, res_bit(v, n));
            },
            CbOp::SetBit(n) => {
                self.write_r8(bus, r, set_bit(v, n));
            },
            _ => {
                let (x, f) = match op {
                    CbOp::Rlc => rlc(v),
                    CbOp::Rrc => rrc(v),
                    CbOp::Rl => rl(v, self.f.c),
                    CbOp::Rr => rr(v, self.f.c),
                    CbOp::Sla => sla(v),
                    CbOp::Sra => sra(v),
                    CbOp::Swap => swap(v),
                    _ => srl(v),
                };
                self.f = f;
                self.write_r8(bus, r, x);
            },
        }
    }

    /// Carries out an instruction whose opcode has been fetched.
    fn execute(&mut self, bus: &mut Interconnect, i: Instr)
        requires
            old(bus).wf(),
        ensures
            final(bus).wf(),
            (*final(self), final(bus)@) == old(self).exec_spec(old(bus)@, i),
    {
        match i {
            Instr::LdR16Imm(_)
            | Instr::StIndA(_)
            | Instr::LdAInd(_)
            | Instr::IncR16(_)
            | Instr::DecR16(_)
            | Instr::IncR8(_)
            | Instr::DecR8(_)
            | Instr::LdR8Imm(_)
            | Instr::LdR8R8(_, _)
            | Instr::StSpAbs
            | Instr::LdhImmA
            | Instr::LdhAImm
            | Instr::LdhCA
            | Instr::LdhAC
            | Instr::StAbsA
            | Instr::LdAAbs
            | Instr::LdSpHl => self.execute_load(bus, i),
            Instr::Rlca
            | Instr::Rrca
            | Instr::Rla
            | Instr::Rra
            | Instr::AddHl(_)
            | Instr::Daa
            | Instr::Cpl
            | Instr::Scf
            | Instr::Ccf
            | Instr::AluR8(_, _)
            | Instr::AluImm(_)
            | Instr::AddSpImm
            | Instr::LdHlSpImm
            | Instr::Prefix => self.execute_arith(bus, i),
            Instr::Jr
            | Instr::JrCond(_)
            | Instr::Jp
            | Instr::JpCond(_)
            | Instr::JpHl => self.execute_jump(bus, i),
            Instr::Ret
            | Instr::RetCond(_)
            | Instr::Reti
            | Instr::Pop(_)
            | Instr::Push(_)
            | Instr::Call
            | Instr::CallCond(_)
            | Instr::Rst(_) => self.execute_stack(bus, i),
            Instr::Halt
            | Instr::Di
            | Instr::Ei => self.execute_control(bus, i),
            _ => {
                proof {
                    reveal(Cpu::exec_spec);
                }
            },
        }
    }

    fn execute_load(&mut self, bus: &mut Interconnect, i: Instr)
        requires
            old(bus).wf(),
            is_load_instr(i),
        ensures
            final(bus).wf(),
            (*final(self), final(bus)@) == old(self).exec_spec(old(bus)@, i),
    {
        proof {
            reveal(Cpu::exec_spec);
        }
        match i {
            Instr::LdR16Imm(r) => {
                let v = self.read_pc_halfword(bus);
                self.set_reg16(r, v);
            },
            Instr::StIndA(ind) => {
                let addr = match ind {
                    Ind::BC => self.bc(),
                    Ind::DE => self.de(),
                    _ => self.hl(),
                };
                bus.write_byte(addr, self.a);
                self.step_hl(ind);
            },
            Instr::LdAInd(ind) => {
                let addr = match ind {
                    Ind::BC => self.bc(),
                    Ind::DE => self.de(),
                    _ => self.hl(),
                };
                let v = bus.read_byte(addr);
                self.step_hl(ind);
                self.a = v;
            },
            Instr::IncR16(r) => {
                let v = wrap_inc(self.reg16(r));
                self.set_reg16(r, v);
            },
            Instr::DecR16(r) => {
                let v = wrap_dec(self.reg16(r));
                self.set_reg16(r, v);
            },
            Instr::IncR8(r) => {
                let (v, f) = inc8(self.read_r8(bus, r), self.f);
                self.f = f;
                self.write_r8(bus, r, v);
            },
            Instr::DecR8(r) => {
                let (v, f) = dec8(self.read_r8(bus, r), self.f);
                self.f = f;
                self.write_r8(bus, r, v);
            },
            Instr::LdR8Imm(r) => {
                let v = self.read_pc_byte(bus);
                self.write_r8(bus, r, v);
            },
            Instr::LdR8R8(d, s) => {
                let v = self.read_r8(bus, s);
                self.write_r8(bus, d, v);
            },
            Instr::StSpAbs => {
                let addr = self.read_pc_halfword(bus);
                bus.write_halfword(addr, self.sp);
            },
            Instr::LdhImmA => {
                let n = self.read_pc_byte(bus);
                bus.write_byte(0xff00 + n as u16, self.a);
            },
            Instr::LdhAImm => {
                let n = self.read_pc_byte(bus);
                self.a = bus.read_byte(0xff00 + n as u16);
            },
            Instr::LdhCA => {
                bus.write_byte(0xff00 + self.c as u16, self.a);
            },
            Instr::LdhAC => {
                self.a = bus.read_byte(0xff00 + self.c as u16);
            },
            Instr::StAbsA => {
                let addr = self.read_pc_halfword(bus);
                bus.write_byte(addr, self.a);
            },
            Instr::LdAAbs => {
                let addr = self.read_pc_halfword(bus);
                self.a = bus.read_byte(addr);
            },
            Instr::LdSpHl => {
                self.sp = self.hl();
            },
            _ => {},
        }
    }

    fn execute_arith(&mut self, bus: &mut Interconnect, i: Instr)
        requires
            old(bus).wf(),
            is_arith_instr(i),
        ensures
            final(bus).wf(),
            (*final(self), final(bus)@) == old(self).exec_spec(old(bus)@, i),
    {
        proof {
            reveal(Cpu::exec_spec);
        }
        match i {
            Instr::Rlca => {
                let (v, f) = rlc(self.a);
                self.a = v;
                self.f = Flags { z: false, ..f };
            },
            Instr::Rrca => {
                let (v, f) = rrc(self.a);
                self.a = v;
                self.f = Flags { z: false, ..f };
            },
            Instr::Rla => {
                let (v, f) = rl(self.a, self.f.c);
                self.a = v;
                self.f = Flags { z: false, ..f };
            },
            Instr::Rra => {
                let (v, f) = rr(self.a, self.f.c);
                self.a = v;
                self.f = Flags { z: false, ..f };
            },
            Instr::AddHl(r) => {
                let (v, f) = add16(self.hl(), self.reg16(r), self.f);
                self.set_hl(v);
                self.f = f;
            },
            Instr::Daa => {
                let (v, f) = daa(self.a, self.f);
                self.a = v;
                self.f = f;
            },
            Instr::Cpl => {
                self.a = !self.a;
                self.f = Flags { n: true, h: true, ..self.f };
            },
            Instr::Scf => {
                self.f = Flags { n: false, h: false, c: true, ..self.f };
            },
            Instr::Ccf => {
                self.f = Flags { n: false, h: false, c: !self.f.c, ..self.f };
            },
            Instr::AluR8(op, r) => {
                let (v, f) = alu(op, self.a, self.read_r8(bus, r), self.f);
                self.a = v;
                self.f = f;
            },
            Instr::AluImm(op) => {
                let n = self.read_pc_byte(bus);
                let (v, f) = alu(op, self.a, n, self.f);
                self.a = v;
                self.f = f;
            },
            Instr::AddSpImm => {
                let sp = self.sp;
                let n = self.read_pc_byte(bus);
                self.sp = add_offset(sp, n);
                self.f = sp_flags(sp, n);
            },
            Instr::LdHlSpImm => {
                let sp = self.sp;
                let n = self.read_pc_byte(bus);
                self.set_hl(add_offset(sp, n));
                self.f = sp_flags(sp, n);
            },
            Instr::Prefix => {
                let sub = self.read_pc_byte(bus);
                let (op, r) = decode_cb(sub);
                self.execute_cb(bus, op, r);
            },
            _ => {},
        }
    }

    fn execute_jump(&mut self, bus: &mut Interconnect, i: Instr)
        requires
            old(bus).wf(),
            is_jump_instr(i),
        ensures
            final(bus).wf(),
            (*final(self), final(bus)@) == old(self).exec_spec(old(bus)@, i),
    {
        proof {
            reveal(Cpu::exec_spec);
        }
        match i {
            Instr::Jr => {
                let n = self.read_pc_byte(bus);
                self.pc = add_offset(self.pc, n);
            },
            Instr::JrCond(cc) => {
                let taken = cond(self.f, cc);
                let n = self.read_pc_byte(bus);
                if taken {
                    self.pc = add_offset(self.pc, n);
                }
            },
            Instr::Jp => {
                self.pc = self.read_pc_halfword(bus);
            },
            Instr::JpCond(cc) => {
                let taken = cond(self.f, cc);
                let addr = self.read_pc_halfword(bus);
                if taken {
                    self.pc = addr;
                }
            },
            Instr::JpHl => {
                self.pc = self.hl();
            },
            _ => {},
        }
    }

    fn execute_stack(&mut self, bus: &mut Interconnect, i: Instr)
        requires
            old(bus).wf(),
            is_stack_instr(i),
        ensures
            final(bus).wf(),
            (*final(self), final(bus)@) == old(self).exec_spec(old(bus)@, i),
    {
        proof {
            reveal(Cpu::exec_spec);
        }
        match i {
            Instr::Ret => {
                self.pc = self.pop_halfword(bus);
            },
            Instr::RetCond(cc) => {
                if cond(self.f, cc) {
                    self.pc = self.pop_halfword(bus);
                }
            },
            Instr::Reti => {
                self.pc = self.pop_halfword(bus);
                self.interrupts_enabled = true;
            },
            Instr::Pop(p) => {
                let v = self.pop_halfword(bus);
                match p {
                    StackPair::BC => self.set_bc(v),
                    StackPair::DE => self.set_de(v),
                    StackPair::HL => self.set_hl(v),
                    StackPair::AF => {
                        self.a = (v / 256) as u8;
                        self.f = Flags::from_byte((v % 256) as u8);
                    },
                }
            },
            Instr::Push(p) => {
                let v = match p {
                    StackPair::BC => self.bc(),
                    StackPair::DE => self.de(),
                    StackPair::HL => self.hl(),
                    StackPair::AF => self.af(),
                };
                self.push_halfword(bus, v);
            },
            Instr::Call => {
                let addr = self.read_pc_halfword(bus);
                self.call(bus, addr);
            },
            Instr::CallCond(cc) => {
                let taken = cond(self.f, cc);
                let addr = self.read_pc_halfword(bus);
                if taken {
                    self.call(bus, addr);
                }
            },
            Instr::Rst(v) => {
                self.call(bus, v);
            },
            _ => {},
        }
    }

    fn execute_control(&mut self, bus: &mut Interconnect, i: Instr)
        requires
            old(bus).wf(),
            is_control_instr(i),
        ensures
            final(bus).wf(),
            (*final(self), final(bus)@) == old(self).exec_spec(old(bus)@, i),
    {
        proof {
            reveal(Cpu::exec_spec);
        }
        match i {
            Instr::Halt => {
                let pending = bus.read_byte(IF_REGISTER) & bus.read_byte(IE_REGISTER) & 0x1f;
                if !self.interrupts_enabled && pending != 0 {
                    self.halted = HaltState::HaltBug;
                } else {
                    self.halted = HaltState::Halted;
                }
            },
            Instr::Di => {
                self.instructions_to_di = 2;
            },
            Instr::Ei => {
                self.instructions_to_ei = 2;
            },
            _ => {},
        }
    }

    /// Steps HL after the incrementing and decrementing indirect forms.
    fn step_hl(&mut self, ind: Ind)
        ensures
            *final(self) == old(self).ind_after(ind),
    {
        match ind {
            Ind::HLInc => {
                let v = wrap_inc(self.hl());
                self.set_hl(v);
            },
            Ind::HLDec => {
                let v = wrap_dec(self.hl());
                self.set_hl(v);
            },
            _ => {},
        }
    }

    /// Services the highest-priority interrupt that is both requested and
    /// enabled.
    fn handle_interrupt(&mut self, bus: &mut Interconnect)
        requires
            old(bus).wf(),
        ensures
            final(bus).wf(),
            (*final(self), final(bus)@) == old(self).dispatch_spec(old(bus)@),
    {
        proof {
            reveal(Cpu::dispatch_spec);
        }
        let int_f = bus.read_byte(IF_REGISTER);
        let int_e = bus.read_byte(IE_REGISTER);
        let k = lowest_set_bit(int_f & int_e & 0x1f);
        bus.write_byte(IF_REGISTER, int_f & !(1u8 << k));
        self.call(bus, 0x40 + 8 * k as u16);
        self.interrupts_enabled = false;
        self.halted = HaltState::Running;
    }

    /// The part of a step before the fetch: leaves HALT when interrupts are disabled, and
    /// services a due interrupt; returns the cycles that the service cost.
    fn prepare_fetch(&mut self, bus: &mut Interconnect) -> (d: u16)
        requires
            old(bus).wf(),
        ensures
            final(bus).wf(),
            (*final(self), final(bus)@, d) == old(self).pre_fetch_spec(old(bus)@),
    {
        proof {
            reveal(Cpu::pre_fetch_spec);
        }
        let pending = bus.read_byte(IF_REGISTER) & bus.read_byte(IE_REGISTER) & 0x1f;
        if self.halted == HaltState::Halted && !self.interrupts_enabled {
            self.halted = HaltState::Running;
        }
        if self.interrupts_enabled && pending != 0 {
            self.handle_interrupt(bus);
            INTERRUPT_CYCLES
        } else {
            0
        }
    }

    /// Runs one instruction (after servicing an interrupt, if one is due) and
    /// returns the cycles it took; an undefined opcode stops the processor
    /// with the opcode and its address.
    pub fn step(&mut self, bus: &mut Interconnect) -> (r: Result<u16, StepError>)
        requires
            old(bus).wf(),
        ensures
            final(bus).wf(),
            (*final(self), final(bus)@, r) == old(self).step_spec(old(bus)@),
    {
        let interrupt_flags = bus.read_byte(IF_REGISTER);
        let interrupt_enable = bus.read_byte(IE_REGISTER);
        let pending = interrupt_flags & interrupt_enable & 0x1f;
        if self.halted == HaltState::Halted && pending == 0 {
            return Ok(HALT_IDLE_CYCLES);
        }
        let dispatch = self.prepare_fetch(bus);
        let old_pc = self.pc;
        let op = self.read_pc_byte(bus);
        let i = decode(op);
        if let Instr::Invalid = i {
            return Err(StepError { opcode: op, addr: old_pc });
        }
        let sub = bus.read_byte(self.pc);
        let flags = self.f;
        self.execute(bus, i);
        if self.instructions_to_ei > 0 {
            self.instructions_to_ei = self.instructions_to_ei - 1;
            if self.instructions_to_ei == 0 {
                self.interrupts_enabled = true;
            }
        }
        if self.instructions_to_di > 0 {
            self.instructions_to_di = self.instructions_to_di - 1;
            if self.instructions_to_di == 0 {
                self.interrupts_enabled = false;
            }
        }
        let cb: u16 = if op == 0xcb {
            CB_CYCLE_COUNTS[sub as usize]
        } else {
            0
        };
        let total: u32 = dispatch as u32 + CYCLE_COUNTS[op as usize] as u32 + cb as u32
            + branch_cycles(i, flags) as u32;
        let cycles = total as u16;
        self.total_cycles = ((self.total_cycles as u64 + cycles as u64) % 0x1_0000_0000) as u32;
        Ok(cycles)
    }
}

/// A halted processor with nothing pending spends the idle cycles; any
/// other step that meets a defined opcode costs that opcode's base-table
/// entry, plus the extended-table entry after the prefix, plus the extra
/// cycles of a taken branch, plus the service cost when an interrupt was
/// serviced first.
pub proof fn lemma_step_cycles(c: Cpu, b: BusView)
    ensures
        c.halted == HaltState::Halted && pending_spec(b) == 0 ==> c.step_spec(b).2 == Ok::<
            u16,
            StepError,
        >(HALT_IDLE_CYCLES),
        !(c.halted == HaltState::Halted && pending_spec(b) == 0) ==> ({
            let (c2, b2, d) = c.pre_fetch_spec(b);
            let (c3, op) = c2.fetch_spec(b2);
            &&& d == (if c.interrupts_enabled && pending_spec(b) != 0 {
                INTERRUPT_CYCLES
            } else {
                0
            })
            &&& c3.f == c.f
            &&& decode_spec(op) != Instr::Invalid ==> c.step_spec(b).2 == Ok::<u16, StepError>(
                (d + Cpu::instr_cycles(op, b2.read(c3.pc), c.f)) as u16,
            )
            &&& decode_spec(op) != Instr::Invalid ==> c.step_spec(b).0.total_cycles == (
            c.total_cycles + (d + Cpu::instr_cycles(op, b2.read(c3.pc), c.f)) as u16) % 0x1_0000_0000
        }),
{
    reveal(Cpu::pre_fetch_spec);
    reveal(Cpu::dispatch_spec);
    let (c2, b2, d) = c.pre_fetch_spec(b);
    let (c3, op) = c2.fetch_spec(b2);
    lemma_exec_keeps_total(c3, b2, decode_spec(op));
}

/// When several enabled sources request at once, the service picks the
/// lowest-numbered one: it clears only that bit of the interrupt-flag
/// register and jumps to that source's vector. (A stack that sits on the
/// interrupt-flag register itself, SP = 0xff10 or 0xff11, would overwrite it
/// with the pushed PC; those two stack positions are left out.)
pub proof fn lemma_dispatch_lowest_first(c: Cpu, b: BusView)
    requires
        pending_spec(b) != 0,
        c.sp != 0xff10,
        c.sp != 0xff11,
    ensures
        ({
            let p = pending_spec(b);
            let k = lowest_bit(p);
            let (c2, b2) = c.dispatch_spec(b);
            &&& k < 5
            &&& p & (1u8 << k) != 0
            &&& forall|j: u8| j < k ==> #[trigger] (p & (1u8 << j)) == 0
            &&& b2.if_reg == b.if_reg & !(1u8 << k)
            &&& c2.pc == 0x40 + 8 * k
            &&& c2.sp == wrap16(c.sp - 2)
            &&& !c2.interrupts_enabled
            &&& c2.halted == HaltState::Running
        }),
{
    reveal(Cpu::dispatch_spec);
    let p = pending_spec(b);
    let k = lowest_bit(p);
    let fl = b.if_reg;
    let en = b.ie_reg;
    assert(p != 0 && p == fl & en & 0x1f && k == lowest_bit(p) ==> k < 5 && p & (1u8 << k) != 0)
        by (bit_vector);
    assert forall|j: u8| j < k implies #[trigger] (p & (1u8 << j)) == 0 by {
        assert(j < k && k == lowest_bit(p) ==> p & (1u8 << j) == 0) by (bit_vector);
    }
}

/// HALT with interrupts disabled while a request is pending and enabled
/// leaves the processor in the HALT bug state; the next step then fetches
/// the byte after HALT without advancing PC, so that byte is read again by
/// the fetch after it.
pub proof fn lemma_halt_bug_refetch(c: Cpu, b: BusView)
    ensures
        !c.interrupts_enabled && pending_spec(b) != 0 ==> c.exec_spec(b, Instr::Halt).0.halted
            == HaltState::HaltBug,
        c.halted == HaltState::HaltBug && !c.interrupts_enabled ==> ({
            let (c2, b2, d) = c.pre_fetch_spec(b);
            let (c3, op) = c2.fetch_spec(b2);
            &&& b2 == b
            &&& op == b.read(c.pc)
            &&& c3.pc == c.pc
            &&& c3.halted == HaltState::Running
        }),
{
    reveal(Cpu::exec_spec);
    reveal(Cpu::pre_fetch_spec);
}

/// Servicing an interrupt leaves the interrupted PC on top of the stack,
/// where a return finds it, when the two stack bytes are RAM.
pub proof fn lemma_dispatch_pushes_pc(c: Cpu, b: BusView)
    requires
        b.wf(),
        pending_spec(b) != 0,
        is_plain_ram(wrap16(c.sp - 2)),
        is_plain_ram(wrap16(c.sp - 1)),
    ensures
        ({
            let (c2, b2) = c.dispatch_spec(b);
            c2.sp == wrap16(c.sp - 2) && b2.read16(c2.sp) == c.pc
        }),
{
    reveal(Cpu::dispatch_spec);
    let k = lowest_bit(pending_spec(b));
    let b1 = b.write(IF_REGISTER, b.if_reg & !(1u8 << k));
    let sp = wrap16(c.sp - 2);
    assert(b1.wf());
    assert(((sp as int + 1) % 65536) as u16 == wrap16(c.sp - 1));
    lemma_write16_read16(b1, sp, c.pc);
}

/// ADD A,B (opcode 0x80) followed by DAA (0x27), on BCD bytes in A and B,
/// leaves in A the BCD byte of the decimal sum modulo 100, with Carry set
/// when the sum reaches 100, Subtract and Half-carry clear, and Zero set
/// when A is zero.
pub proof fn lemma_add_then_daa(c: Cpu, b: BusView)
    requires
        is_bcd(c.a),
        is_bcd(c.b),
    ensures
        decode_spec(0x80) == Instr::AluR8(AluOp::Add, R8::B),
        decode_spec(0x27) == Instr::Daa,
        ({
            let (c1, b1) = c.exec_spec(b, Instr::AluR8(AluOp::Add, R8::B));
            let (c2, b2) = c1.exec_spec(b1, Instr::Daa);
            let n = bcd_value(c.a) + bcd_value(c.b);
            &&& c2.a == to_bcd(n % 100)
            &&& c2.f.c == (n >= 100)
            &&& !c2.f.n
            &&& !c2.f.h
            &&& c2.f.z == (c2.a == 0)
            &&& b2 == b
        }),
{
    lemma_decode_alu_daa();
    lemma_exec_alu_b(c, b, AluOp::Add);
    let (c1, b1) = c.exec_spec(b, Instr::AluR8(AluOp::Add, R8::B));
    lemma_exec_daa(c1, b1);
    lemma_daa_after_add(c.a, c.b);
}

/// SUB A,B (opcode 0x90) followed by DAA (0x27), on BCD bytes in A and B,
/// leaves in A the BCD byte of the decimal difference modulo 100, with Carry
/// set when a borrow was needed, Subtract set, Half-carry clear, and Zero
/// set when A is zero.
pub proof fn lemma_sub_then_daa(c: Cpu, b: BusView)
    requires
        is_bcd(c.a),
        is_bcd(c.b),
    ensures
        decode_spec(0x90) == Instr::AluR8(AluOp::Sub, R8::B),
        decode_spec(0x27) == Instr::Daa,
        ({
            let (c1, b1) = c.exec_spec(b, Instr::AluR8(AluOp::Sub, R8::B));
            let (c2, b2) = c1.exec_spec(b1, Instr::Daa);
            &&& c2.a == to_bcd((bcd_value(c.a) - bcd_value(c.b) + 100) % 100)
            &&& c2.f.c == (bcd_value(c.a) < bcd_value(c.b))
            &&& c2.f.n
            &&& !c2.f.h
            &&& c2.f.z == (c2.a == 0)
            &&& b2 == b
        }),
{
    lemma_decode_alu_daa();
    lemma_exec_alu_b(c, b, AluOp::Sub);
    let (c1, b1) = c.exec_spec(b, Instr::AluR8(AluOp::Sub, R8::B));
    lemma_exec_daa(c1, b1);
    lemma_daa_after_sub(c.a, c.b);
}

proof fn lemma_decode_alu_daa()
    ensures
        decode_spec(0x80) == Instr::AluR8(AluOp::Add, R8::B),
        decode_spec(0x90) == Instr::AluR8(AluOp::Sub, R8::B),
        decode_spec(0x27) == Instr::Daa,
{
    reveal(decode_spec);
}

proof fn lemma_exec_alu_b(c: Cpu, b: BusView, op: AluOp)
    ensures
        c.exec_spec(b, Instr::AluR8(op, R8::B)) == (
            Cpu { a: alu_spec(op, c.a, c.b, c.f).0, f: alu_spec(op, c.a, c.b, c.f).1, ..c },
            b,
        ),
{
    reveal(Cpu::exec_spec);
}

proof fn lemma_exec_daa(c: Cpu, b: BusView)
    ensures
        c.exec_spec(b, Instr::Daa) == (
            Cpu { a: daa_spec(c.a, c.f).0, f: daa_spec(c.a, c.f).1, ..c },
            b,
        ),
{
    reveal(Cpu::exec_spec);
}

proof fn lemma_exec_keeps_total_load(c: Cpu, b: BusView, i: Instr)
    requires
        is_load_instr(i),
    ensures
        c.exec_spec(b, i).0.total_cycles == c.total_cycles,
{
    reveal(Cpu::exec_spec);
}

proof fn lemma_exec_keeps_total_arith(c: Cpu, b: BusView, i: Instr)
    requires
        is_arith_instr(i),
    ensures
        c.exec_spec(b, i).0.total_cycles == c.total_cycles,
{
    reveal(Cpu::exec_spec);
}

proof fn lemma_exec_keeps_total_jump(c: Cpu, b: BusView, i: Instr)
    requires
        is_jump_instr(i),
    ensures
        c.exec_spec(b, i).0.total_cycles == c.total_cycles,
{
    reveal(Cpu::exec_spec);
}

proof fn lemma_exec_keeps_total_stack(c: Cpu, b: BusView, i: Instr)
    requires
        is_stack_instr(i),
    ensures
        c.exec_spec(b, i).0.total_cycles == c.total_cycles,
{
    reveal(Cpu::exec_spec);
}

proof fn lemma_exec_keeps_total_control(c: Cpu, b: BusView, i: Instr)
    requires
        is_control_instr(i),
    ensures
        c.exec_spec(b, i).0.total_cycles == c.total_cycles,
{
    reveal(Cpu::exec_spec);
}

proof fn lemma_exec_keeps_total(c: Cpu, b: BusView, i: Instr)
    ensures
        c.exec_spec(b, i).0.total_cycles == c.total_cycles,
{
    if is_load_instr(i) {
        lemma_exec_keeps_total_load(c, b, i);
    } else if is_arith_instr(i) {
        lemma_exec_keeps_total_arith(c, b, i);
    } else if is_jump_instr(i) {
        lemma_exec_keeps_total_jump(c, b, i);
    } else if is_stack_instr(i) {
        lemma_exec_keeps_total_stack(c, b, i);
    } else if is_control_instr(i) {
        lemma_exec_keeps_total_control(c, b, i);
    } else {
        reveal(Cpu::exec_spec);
    }
}

} // verus!
