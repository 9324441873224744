use vstd::prelude::*;

verus! {

/// An 8-bit operand: a register, or the byte at the address in HL.
#[derive(Clone, Copy, PartialEq, Eq, Structural, Debug)]
pub enum R8 {
    B,
    C,
    D,
    E,
    H,
    L,
    HlInd,
    A,
}

/// A register pair, or the stack pointer.
#[derive(Clone, Copy, PartialEq, Eq, Structural, Debug)]
pub enum R16 {
    BC,
    DE,
    HL,
    SP,
}

/// A register pair that PUSH and POP move.
#[derive(Clone, Copy, PartialEq, Eq, Structural, Debug)]
pub enum StackPair {
    BC,
    DE,
    HL,
    AF,
}

/// An address held in a register pair; the two HL forms step HL after the access.
#[derive(Clone, Copy, PartialEq, Eq, Structural, Debug)]
pub enum Ind {
    BC,
    DE,
    HLInc,
    HLDec,
}

/// A branch condition.
#[derive(Clone, Copy, PartialEq, Eq, Structural, Debug)]
pub enum Cond {
    NZ,
    Z,
    NC,
    C,
}

/// An accumulator operation; `Cp` subtracts only for the flags.
#[derive(Clone, Copy, PartialEq, Eq, Structural, Debug)]
pub enum AluOp {
    Add,
    Adc,
    Sub,
    Sbc,
    And,
    Xor,
    Or,
    Cp,
}

/// An operation of the extended (0xCB-prefixed) table.
#[derive(Clone, Copy, PartialEq, Eq, Structural, Debug)]
pub enum CbOp {
    Rlc,
    Rrc,
    Rl,
    Rr,
    Sla,
    Sra,
    Swap,
    Srl,
    TestBit(u8),
    ResBit(u8),
    SetBit(u8),
}

/// An instruction of the base table.
#[derive(Clone, Copy, PartialEq, Eq, Structural, Debug)]
pub enum Instr {
    Nop,
    LdR16Imm(R16),
    StIndA(Ind),
    LdAInd(Ind),
    IncR16(R16),
    DecR16(R16),
    IncR8(R8),
    DecR8(R8),
    LdR8Imm(R8),
    Rlca,
    Rrca,
    Rla,
    Rra,
    StSpAbs,
    AddHl(R16),
    Jr,
    JrCond(Cond),
    Daa,
    Cpl,
    Scf,
    Ccf,
    Halt,
    LdR8R8(R8, R8),
    AluR8(AluOp, R8),
    AluImm(AluOp),
    Ret,
    RetCond(Cond),
    Reti,
    Pop(StackPair),
    Push(StackPair),
    Jp,
    JpCond(Cond),
    JpHl,
    Call,
    CallCond(Cond),
    Rst(u16),
    Prefix,
    LdhImmA,
    LdhAImm,
    LdhCA,
    LdhAC,
    AddSpImm,
    LdHlSpImm,
    LdSpHl,
    StAbsA,
    LdAAbs,
    Di,
    Ei,
    Invalid,
}

pub open spec fn r8_spec(x: u8) -> R8 {
    if x == 0 {
        R8::B
    } else if x == 1 {
        R8::C
    } else if x == 2 {
        R8::D
    } else if x == 3 {
        R8::E
    } else if x == 4 {
        R8::H
    } else if x == 5 {
        R8::L
    } else if x == 6 {
        R8::HlInd
    } else {
        R8::A
    }
}

pub open spec fn r16_spec(x: u8) -> R16 {
    if x == 0 {
        R16::BC
    } else if x == 1 {
        R16::DE
    } else if x == 2 {
        R16::HL
    } else {
        R16::SP
    }
}

pub open spec fn stack_pair_spec(x: u8) -> StackPair {
    if x == 0 {
        StackPair::BC
    } else if x == 1 {
        StackPair::DE
    } else if x == 2 {
        StackPair::HL
    } else {
        StackPair::AF
    }
}

pub open spec fn ind_spec(x: u8) -> Ind {
    if x == 0 {
        Ind::BC
    } else if x == 1 {
        Ind::DE
    } else if x == 2 {
        Ind::HLInc
    } else {
        Ind::HLDec
    }
}

pub open spec fn cond_spec(x: u8) -> Cond {
    if x == 0 {
        Cond::NZ
    } else if x == 1 {
        Cond::Z
    } else if x == 2 {
        Cond::NC
    } else {
        Cond::C
    }
}

pub open spec fn alu_op_spec(x: u8) -> AluOp {
    if x == 0 {
        AluOp::Add
    } else if x == 1 {
        AluOp::Adc
    } else if x == 2 {
        AluOp::Sub
    } else if x == 3 {
        AluOp::Sbc
    } else if x == 4 {
        AluOp::And
    } else if x == 5 {
        AluOp::Xor
    } else if x == 6 {
        AluOp::Or
    } else {
        AluOp::Cp
    }
}

/// The instruction that a base-table opcode stands for. Rows are `op / 8 % 8`,
/// columns `op % 8`, within each quarter `op / 64` of the table.
#[verifier::opaque]
pub open spec fn decode_spec(op: u8) -> Instr {
    let y = (op / 8 % 8) as u8;
    let z = (op % 8) as u8;
    if op / 64 == 1 {
        if op == 0x76 {
            Instr::Halt
        } else {
            Instr::LdR8R8(r8_spec(y), r8_spec(z))
        }
    } else if op / 64 == 2 {
        Instr::AluR8(alu_op_spec(y), r8_spec(z))
    } else if op / 64 == 0 {
        if z == 0 {
            if y == 0 {
                Instr::Nop
            } else if y == 1 {
                Instr::StSpAbs
            } else if y == 2 {
                Instr::Invalid
            } else if y == 3 {
                Instr::Jr
            } else {
                Instr::JrCond(cond_spec((y - 4) as u8))
            }
        } else if z == 1 {
            if y % 2 == 0 {
                Instr::LdR16Imm(r16_spec((y / 2) as u8))
            } else {
                Instr::AddHl(r16_spec((y / 2) as u8))
            }
        } else if z == 2 {
            if y % 2 == 0 {
                Instr::StIndA(ind_spec((y / 2) as u8))
            } else {
                Instr::LdAInd(ind_spec((y / 2) as u8))
            }
        } else if z == 3 {
            if y % 2 == 0 {
                Instr::IncR16(r16_spec((y / 2) as u8))
            } else {
                Instr::DecR16(r16_spec((y / 2) as u8))
            }
        } else if z == 4 {
            Instr::IncR8(r8_spec(y))
        } else if z == 5 {
            Instr::DecR8(r8_spec(y))
        } else if z == 6 {
            Instr::LdR8Imm(r8_spec(y))
        } else {
            if y == 0 {
                Instr::Rlca
            } else if y == 1 {
                Instr::Rrca
            } else if y == 2 {
                Instr::Rla
            } else if y == 3 {
                Instr::Rra
            } else if y == 4 {
                Instr::Daa
            } else if y == 5 {
                Instr::Cpl
            } else if y == 6 {
                Instr::Scf
            } else {
                Instr::Ccf
            }
        }
    } else {
        if z == 0 {
            if y < 4 {
                Instr::RetCond(cond_spec(y))
            } else if y == 4 {
                Instr::LdhImmA
            } else if y == 5 {
                Instr::AddSpImm
            } else if y == 6 {
                Instr::LdhAImm
            } else {
                Instr::LdHlSpImm
            }
        } else if z == 1 {
            if y % 2 == 0 {
                Instr::Pop(stack_pair_spec((y / 2) as u8))
            } else if y == 1 {
                Instr::Ret
            } else if y == 3 {
                Instr::Reti
            } else if y == 5 {
                Instr::JpHl
            } else {
                Instr::LdSpHl
            }
        } else if z == 2 {
            if y < 4 {
                Instr::JpCond(cond_spec(y))
            } else if y == 4 {
                Instr::LdhCA
            } else if y == 5 {
                Instr::StAbsA
            } else if y == 6 {
                Instr::LdhAC
            } else {
                Instr::LdAAbs
            }
        } else if z == 3 {
            if y == 0 {
                Instr::Jp
            } else if y == 1 {
                Instr::Prefix
            } else if y == 6 {
                Instr::Di
            } else if y == 7 {
                Instr::Ei
            } else {
                Instr::Invalid
            }
        } else if z == 4 {
            if y < 4 {
                Instr::CallCond(cond_spec(y))
            } else {
                Instr::Invalid
            }
        } else if z == 5 {
            if y % 2 == 0 {
                Instr::Push(stack_pair_spec((y / 2) as u8))
            } else if y == 1 {
                Instr::Call
            } else {
                Instr::Invalid
            }
        } else if z == 6 {
            Instr::AluImm(alu_op_spec(y))
        } else {
            Instr::Rst(((y as u16) * 8) as u16)
        }
    }
}

/// The operation and operand that an extended-table opcode stands for.
pub open spec fn decode_cb_spec(op: u8) -> (CbOp, R8) {
    let y = (op / 8 % 8) as u8;
    let reg = r8_spec((op % 8) as u8);
    let kind = op / 64;
    if kind == 1 {
        (CbOp::TestBit(y), reg)
    } else if kind == 2 {
        (CbOp::ResBit(y), reg)
    } else if kind == 3 {
        (CbOp::SetBit(y), reg)
    } else if y == 0 {
        (CbOp::Rlc, reg)
    } else if y == 1 {
        (CbOp::Rrc, reg)
    } else if y == 2 {
        (CbOp::Rl, reg)
    } else if y == 3 {
        (CbOp::Rr, reg)
    } else if y == 4 {
        (CbOp::Sla, reg)
    } else if y == 5 {
        (CbOp::Sra, reg)
    } else if y == 6 {
        (CbOp::Swap, reg)
    } else {
        (CbOp::Srl, reg)
    }
}

fn r8_of(x: u8) -> (r: R8)
    ensures
        r == r8_spec(x),
{
    if x == 0 {
        R8::B
    } else if x == 1 {
        R8::C
    } else if x == 2 {
        R8::D
    } else if x == 3 {
        R8::E
    } else if x == 4 {
        R8::H
    } else if x == 5 {
        R8::L
    } else if x == 6 {
        R8::HlInd
    } else {
        R8::A
    }
}

fn r16_of(x: u8) -> (r: R16)
    ensures
        r == r16_spec(x),
{
    if x == 0 {
        R16::BC
    } else if x == 1 {
        R16::DE
    } else if x == 2 {
        R16::HL
    } else {
        R16::SP
    }
}

fn stack_pair_of(x: u8) -> (r: StackPair)
    ensures
        r == stack_pair_spec(x),
{
    if x == 0 {
        StackPair::BC
    } else if x == 1 {
        StackPair::DE
    } else if x == 2 {
        StackPair::HL
    } else {
        StackPair::AF
    }
}

fn ind_of(x: u8) -> (r: Ind)
    ensures
        r == ind_spec(x),
{
    if x == 0 {
        Ind::BC
    } else if x == 1 {
        Ind::DE
    } else if x == 2 {
        Ind::HLInc
    } else {
        Ind::HLDec
    }
}

fn cond_of(x: u8) -> (r: Cond)
    ensures
        r == cond_spec(x),
{
    if x == 0 {
        Cond::NZ
    } else if x == 1 {
        Cond::Z
    } else if x == 2 {
        Cond::NC
    } else {
        Cond::C
    }
}

fn alu_op_of(x: u8) -> (r: AluOp)
    ensures
        r == alu_op_spec(x),
{
    if x == 0 {
        AluOp::Add
    } else if x == 1 {
        AluOp::Adc
    } else if x == 2 {
        AluOp::Sub
    } else if x == 3 {
        AluOp::Sbc
    } else if x == 4 {
        AluOp::And
    } else if x == 5 {
        AluOp::Xor
    } else if x == 6 {
        AluOp::Or
    } else {
        AluOp::Cp
    }
}

/// Looks up a base-table opcode.
pub fn decode(op: u8) -> (r: Instr)
    ensures
        r == decode_spec(op),
{
    reveal(decode_spec);
    let y: u8 = op / 8 % 8;
    let z: u8 = op % 8;
    if op / 64 == 1 {
        if op == 0x76 {
            Instr::Halt
        } else {
            Instr::LdR8R8(r8_of(y), r8_of(z))
        }
    } else if op / 64 == 2 {
        Instr::AluR8(alu_op_of(y), r8_of(z))
    } else if op / 64 == 0 {
        if z == 0 {
            if y == 0 {
                Instr::Nop
            } else if y == 1 {
                Instr::StSpAbs
            } else if y == 2 {
                Instr::Invalid
            } else if y == 3 {
                Instr::Jr
            } else {
                Instr::JrCond(cond_of(y - 4))
            }
        } else if z == 1 {
            if y % 2 == 0 {
                Instr::LdR16Imm(r16_of(y / 2))
            } else {
                Instr::AddHl(r16_of(y / 2))
            }
        } else if z == 2 {
            if y % 2 == 0 {
                Instr::StIndA(ind_of(y / 2))
            } else {
                Instr::LdAInd(ind_of(y / 2))
            }
        } else if z == 3 {
            if y % 2 == 0 {
                Instr::IncR16(r16_of(y / 2))
            } else {
                Instr::DecR16(r16_of(y / 2))
            }
        } else if z == 4 {
            Instr::IncR8(r8_of(y))
        } else if z == 5 {
            Instr::DecR8(r8_of(y))
        } else if z == 6 {
            Instr::LdR8Imm(r8_of(y))
        } else {
            if y == 0 {
                Instr::Rlca
            } else if y == 1 {
                Instr::Rrca
            } else if y == 2 {
                Instr::Rla
            } else if y == 3 {
                Instr::Rra
            } else if y == 4 {
                Instr::Daa
            } else if y == 5 {
                Instr::Cpl
            } else if y == 6 {
                Instr::Scf
            } else {
                Instr::Ccf
            }
        }
    } else {
        if z == 0 {
            if y < 4 {
                Instr::RetCond(cond_of(y))
            } else if y == 4 {
                Instr::LdhImmA
            } else if y == 5 {
                Instr::AddSpImm
            } else if y == 6 {
                Instr::LdhAImm
            } else {
                Instr::LdHlSpImm
            }
        } else if z == 1 {
            if y % 2 == 0 {
                Instr::Pop(stack_pair_of(y / 2))
            } else if y == 1 {
                Instr::Ret
            } else if y == 3 {
                Instr::Reti
            } else if y == 5 {
                Instr::JpHl
            } else {
                Instr::LdSpHl
            }
        } else if z == 2 {
            if y < 4 {
                Instr::JpCond(cond_of(y))
            } else if y == 4 {
                Instr::LdhCA
            } else if y == 5 {
                Instr::StAbsA
            } else if y == 6 {
                Instr::LdhAC
            } else {
                Instr::LdAAbs
            }
        } else if z == 3 {
            if y == 0 {
                Instr::Jp
            } else if y == 1 {
                Instr::Prefix
            } else if y == 6 {
                Instr::Di
            } else if y == 7 {
                Instr::Ei
            } else {
                Instr::Invalid
            }
        } else if z == 4 {
            if y < 4 {
                Instr::CallCond(cond_of(y))
            } else {
                Instr::Invalid
            }
        } else if z == 5 {
            if y % 2 == 0 {
                Instr::Push(stack_pair_of(y / 2))
            } else if y == 1 {
                Instr::Call
            } else {
                Instr::Invalid
            }
        } else if z == 6 {
            Instr::AluImm(alu_op_of(y))
        } else {
            Instr::Rst((y as u16) * 8)
        }
    }
}

/// Looks up an extended-table opcode.
pub fn decode_cb(op: u8) -> (r: (CbOp, R8))
    ensures
        r == decode_cb_spec(op),
{
    let y: u8 = op / 8 % 8;
    let reg = r8_of(op % 8);
    let kind: u8 = op / 64;
    if kind == 1 {
        (CbOp::TestBit(y), reg)
    } else if kind == 2 {
        (CbOp::ResBit(y), reg)
    } else if kind == 3 {
        (CbOp::SetBit(y), reg)
    } else if y == 0 {
        (CbOp::Rlc, reg)
    } else if y == 1 {
        (CbOp::Rrc, reg)
    } else if y == 2 {
        (CbOp::Rl, reg)
    } else if y == 3 {
        (CbOp::Rr, reg)
    } else if y == 4 {
        (CbOp::Sla, reg)
    } else if y == 5 {
        (CbOp::Sra, reg)
    } else if y == 6 {
        (CbOp::Swap, reg)
    } else {
        (CbOp::Srl, reg)
    }
}

} // verus!
