use vstd::prelude::*;
use crate::chip8::{Memory, RAM_BYTES};
use crate::nes::RegStatus;

verus! {

/// Bit 7 of a byte.
pub open spec fn neg(v: u8) -> bool {
    v & 0x80 != 0
}

/// Registers of the 6502 processor and the state of the instruction in flight.
#[derive(Clone, Copy, Debug)]
pub struct Cpu {
    pub reg_a: u8,
    pub reg_x: u8,
    pub reg_y: u8,
    pub reg_pc: u16,
    pub reg_s: u8,
    pub reg_status: RegStatus,
    pub instr_pc: u16,
    pub opcode: u8,
    pub time: u8,
    pub fetch: u8,
    pub address: u16,
}

impl Default for Cpu {
    /// Registers after reset: PC at 0xC000, S at 0xFD, status 0x24
    /// (interrupts disabled).
    fn default() -> (r: Cpu)
        ensures
            r.reg_a == 0 && r.reg_x == 0 && r.reg_y == 0,
            r.reg_pc == 0xc000,
            r.reg_s == 0xfd,
            r.reg_status == RegStatus::from_spec(0x24),
            r.instr_pc == 0 && r.opcode == 0 && r.time == 0 && r.fetch == 0 && r.address == 0,
    {
        Cpu {
            reg_a: 0,
            reg_x: 0,
            reg_y: 0,
            reg_pc: 0xc000,
            reg_s: 0xfd,
            reg_status: RegStatus::from_byte(0x24),
            instr_pc: 0,
            opcode: 0,
            time: 0,
            fetch: 0,
            address: 0,
        }
    }
}

/// The branch opcodes 0x10, 0x30, ..., 0xF0.
pub open spec fn is_branch_opcode(op: u8) -> bool {
    op % 32 == 0x10
}

impl Cpu {
    /// Pushes a byte onto the stack page 0x100..0x1FF; S wraps below 0.
    pub fn stack_push(&mut self, mem: &mut Memory, val: u8)
        requires
            old(mem)@.len() == RAM_BYTES,
        ensures
            final(mem)@ == old(mem)@.update(0x100 + old(self).reg_s, val),
            *final(self) == (Cpu { reg_s: ((old(self).reg_s + 255) % 256) as u8, ..*old(self) }),
    {
        let addr = 0x100 + self.reg_s as u16;
        mem.write_byte(addr, val);
        self.reg_s = ((self.reg_s as u16 + 255) % 256) as u8;
    }

    /// The byte at the top of the stack.
    pub fn stack_peek(&self, mem: &Memory) -> (r: u8)
        requires
            mem@.len() == RAM_BYTES,
        ensures
            r == mem@[0x100 + self.reg_s],
    {
        mem.read_byte(0x100 + self.reg_s as u16)
    }

    pub fn is_branch(&self, opcode: u8) -> (r: bool)
        ensures
            r == (opcode & 16 == 16 && !opcode & 15 == 15),
    {
        opcode & 16 == 16 && !opcode & 15 == 15
    }

    pub fn is_absolute(&self, opcode: u8) -> (r: bool)
        ensures
            r == (opcode & 12 == 12 && !opcode & 16 == 16),
    {
        opcode & 12 == 12 && !opcode & 16 == 16
    }

    pub fn is_absolute_y(&self, opcode: u8) -> (r: bool)
        ensures
            r == (opcode & 25 == 25 && !opcode & 6 == 6),
    {
        opcode & 25 == 25 && !opcode & 6 == 6
    }

    pub fn is_zero_page(&self, opcode: u8) -> (r: bool)
        ensures
            r == (opcode & 4 == 4 && !opcode & 24 == 24),
    {
        opcode & 4 == 4 && !opcode & 24 == 24
    }

    pub fn is_zero_indexed(&self, opcode: u8) -> (r: bool)
        ensures
            r == (opcode & 20 == 20 && !opcode & 10 == 10),
    {
        opcode & 20 == 20 && !opcode & 10 == 10
    }

    pub fn is_indexed_indirect(&self, opcode: u8) -> (r: bool)
        ensures
            r == (opcode & 1 == 1 && !opcode & 30 == 30),
    {
        opcode & 1 == 1 && !opcode & 30 == 30
    }

    pub fn is_indirect_indexed(&self, opcode: u8) -> (r: bool)
        ensures
            r == (opcode & 17 == 17 && !opcode & 14 == 14),
    {
        opcode & 17 == 17 && !opcode & 14 == 14
    }

    /// Add with carry: A + val + C.
    pub fn adc(&mut self, val: u8)
        ensures
            ({
                let acc = old(self).reg_a;
                let sum = acc + val + (if old(self).reg_status.carry {
                    1int
                } else {
                    0
                });
                let fin = (sum % 256) as u8;
                *final(self) == (Cpu {
                    reg_a: fin,
                    reg_status: RegStatus {
                        zero: fin == 0,
                        negative: neg(fin),
                        carry: sum > 255,
                        overflow: !(acc ^ val) & (acc ^ fin) & 0x80 != 0,
                        ..old(self).reg_status
                    },
                    ..*old(self)
                })
            }),
    {
        let acc = self.reg_a;
        let carry: u16 = if self.reg_status.carry {
            1
        } else {
            0
        };
        let sum: u16 = val as u16 + acc as u16 + carry;
        let fin = (sum % 256) as u8;
        self.reg_a = fin;
        self.reg_status.zero = fin == 0;
        self.reg_status.negative = fin & 0x80 != 0;
        self.reg_status.carry = sum > 255;
        self.reg_status.overflow = !(acc ^ val) & (acc ^ fin) & 0x80 != 0;
    }

    pub fn and(&mut self, mask: u8)
        ensures
            ({
                let r = old(self).reg_a & mask;
                *final(self) == (Cpu {
                    reg_a: r,
                    reg_status: RegStatus { zero: r == 0, negative: neg(r), ..old(self).reg_status },
                    ..*old(self)
                })
            }),
    {
        self.reg_a = self.reg_a & mask;
        self.reg_status.zero = self.reg_a == 0;
        self.reg_status.negative = self.reg_a & 0x80 != 0;
    }

    pub fn eor(&mut self, mask: u8)
        ensures
            ({
                let r = old(self).reg_a ^ mask;
                *final(self) == (Cpu {
                    reg_a: r,
                    reg_status: RegStatus { zero: r == 0, negative: neg(r), ..old(self).reg_status },
                    ..*old(self)
                })
            }),
    {
        self.reg_a = self.reg_a ^ mask;
        self.reg_status.zero = self.reg_a == 0;
        self.reg_status.negative = self.reg_a & 0x80 != 0;
    }

    pub fn ora(&mut self, mask: u8)
        ensures
            ({
                let r = old(self).reg_a | mask;
                *final(self) == (Cpu {
                    reg_a: r,
                    reg_status: RegStatus { zero: r == 0, negative: neg(r), ..old(self).reg_status },
                    ..*old(self)
                })
            }),
    {
        self.reg_a = self.reg_a | mask;
        self.reg_status.zero = self.reg_a == 0;
        self.reg_status.negative = self.reg_a & 0x80 != 0;
    }

    /// Shift left; bit 7 into Carry.
    pub fn asl(&mut self, val: u8) -> (r: u8)
        ensures
            r == ((val as int * 2) % 256) as u8,
            *final(self) == (Cpu {
                reg_status: RegStatus {
                    carry: val >= 128,
                    zero: r == 0,
                    negative: neg(r),
                    ..old(self).reg_status
                },
                ..*old(self)
            }),
    {
        let res = ((val as u16 * 2) % 256) as u8;
        self.reg_status.carry = val >= 128;
        self.reg_status.zero = res == 0;
        self.reg_status.negative = res & 0x80 != 0;
        res
    }

    /// Bit test: Zero from A AND mask, Overflow and Negative from bits 6 and 7
    /// of the mask.
    pub fn bit(&mut self, mask: u8)
        ensures
            *final(self) == (Cpu {
                reg_status: RegStatus {
                    zero: old(self).reg_a & mask == 0,
                    overflow: mask & 0x40 != 0,
                    negative: neg(mask),
                    ..old(self).reg_status
                },
                ..*old(self)
            }),
    {
        let value = self.reg_a & mask;
        self.reg_status.zero = value == 0;
        self.reg_status.overflow = mask & 0x40 != 0;
        self.reg_status.negative = mask & 0x80 != 0;
    }

    /// Compares `reg` with `val`: Carry when reg >= val, Zero when equal,
    /// Negative from bit 7 of reg - val.
    pub open spec fn compare_spec(s: RegStatus, reg: u8, val: u8) -> RegStatus {
        RegStatus {
            zero: reg == val,
            carry: reg >= val,
            negative: neg(((reg as int - val as int + 256) % 256) as u8),
            ..s
        }
    }

    fn compare(s: RegStatus, reg: u8, val: u8) -> (r: RegStatus)
        ensures
            r == Cpu::compare_spec(s, reg, val),
    {
        let res = ((reg as u16 + 256 - val as u16) % 256) as u8;
        RegStatus { zero: reg == val, carry: reg >= val, negative: res & 0x80 != 0, ..s }
    }

    pub fn cmp(&mut self, val: u8)
        ensures
            *final(self) == (Cpu {
                reg_status: Cpu::compare_spec(old(self).reg_status, old(self).reg_a, val),
                ..*old(self)
            }),
    {
        self.reg_status = Cpu::compare(self.reg_status, self.reg_a, val);
    }

    pub fn cpx(&mut self, val: u8)
        ensures
            *final(self) == (Cpu {
                reg_status: Cpu::compare_spec(old(self).reg_status, old(self).reg_x, val),
                ..*old(self)
            }),
    {
        self.reg_status = Cpu::compare(self.reg_status, self.reg_x, val);
    }

    pub fn cpy(&mut self, val: u8)
        ensures
            *final(self) == (Cpu {
                reg_status: Cpu::compare_spec(old(self).reg_status, old(self).reg_y, val),
                ..*old(self)
            }),
    {
        self.reg_status = Cpu::compare(self.reg_status, self.reg_y, val);
    }

    pub fn dec(&mut self, val: u8) -> (r: u8)
        ensures
            r == ((val as int + 255) % 256) as u8,
            *final(self) == (Cpu {
                reg_status: RegStatus { zero: r == 0, negative: neg(r), ..old(self).reg_status },
                ..*old(self)
            }),
    {
        let res = ((val as u16 + 255) % 256) as u8;
        self.reg_status.zero = res == 0;
        self.reg_status.negative = res & 0x80 != 0;
        res
    }

    pub fn inc(&mut self, val: u8) -> (r: u8)
        ensures
            r == ((val as int + 1) % 256) as u8,
            *final(self) == (Cpu {
                reg_status: RegStatus { zero: r == 0, negative: neg(r), ..old(self).reg_status },
                ..*old(self)
            }),
    {
        let res = ((val as u16 + 1) % 256) as u8;
        self.reg_status.zero = res == 0;
        self.reg_status.negative = res & 0x80 != 0;
        res
    }

    pub fn lda(&mut self, val: u8)
        ensures
            *final(self) == (Cpu {
                reg_a: val,
                reg_status: RegStatus { zero: val == 0, negative: neg(val), ..old(self).reg_status },
                ..*old(self)
            }),
    {
        self.reg_a = val;
        self.reg_status.zero = val == 0;
        self.reg_status.negative = val & 0x80 != 0;
    }

    pub fn ldy(&mut self, val: u8)
        ensures
            *final(self) == (Cpu {
                reg_y: val,
                reg_status: RegStatus { zero: val == 0, negative: neg(val), ..old(self).reg_status },
                ..*old(self)
            }),
    {
        self.reg_y = val;
        self.reg_status.zero = val == 0;
        self.reg_status.negative = val & 0x80 != 0;
    }

    /// Shift right; bit 0 into Carry, Negative cleared.
    pub fn lsr(&mut self, val: u8) -> (r: u8)
        ensures
            r == val / 2,
            *final(self) == (Cpu {
                reg_status: RegStatus {
                    carry: val % 2 == 1,
                    zero: r == 0,
                    negative: false,
                    ..old(self).reg_status
                },
                ..*old(self)
            }),
    {
        let res = val / 2;
        self.reg_status.carry = val % 2 == 1;
        self.reg_status.zero = res == 0;
        self.reg_status.negative = false;
        res
    }

    /// Rotate left through Carry.
    pub fn rol(&mut self, val: u8) -> (r: u8)
        ensures
            r == ((val as int * 2) % 256 + (if old(self).reg_status.carry {
                1int
            } else {
                0
            })) as u8,
            *final(self) == (Cpu {
                reg_status: RegStatus {
                    carry: val >= 128,
                    zero: r == 0,
                    negative: neg(r),
                    ..old(self).reg_status
                },
                ..*old(self)
            }),
    {
        let carry: u16 = if self.reg_status.carry {
            1
        } else {
            0
        };
        let res = ((val as u16 * 2) % 256 + carry) as u8;
        self.reg_status.carry = val >= 128;
        self.reg_status.zero = res == 0;
        self.reg_status.negative = res & 0x80 != 0;
        res
    }

    /// Rotate right through Carry.
    pub fn ror(&mut self, val: u8) -> (r: u8)
        ensures
            r == (val / 2 + (if old(self).reg_status.carry {
                128int
            } else {
                0
            })) as u8,
            *final(self) == (Cpu {
                reg_status: RegStatus {
                    carry: val % 2 == 1,
                    zero: r == 0,
                    negative: neg(r),
                    ..old(self).reg_status
                },
                ..*old(self)
            }),
    {
        let carry: u8 = if self.reg_status.carry {
            128
        } else {
            0
        };
        let res = val / 2 + carry;
        self.reg_status.carry = val % 2 == 1;
        self.reg_status.zero = res == 0;
        self.reg_status.negative = res & 0x80 != 0;
        res
    }

    /// Whether the branch opcode's condition holds: bits 7-6 pick Negative,
    /// Overflow, Carry or Zero, bit 5 the wanted value.
    pub fn take_branch(&self, opcode: u8) -> (r: bool)
        requires
            is_branch_opcode(opcode),
        ensures
            opcode == 0x10 ==> r == !self.reg_status.negative,
            opcode == 0x30 ==> r == self.reg_status.negative,
            opcode == 0x50 ==> r == !self.reg_status.overflow,
            opcode == 0x70 ==> r == self.reg_status.overflow,
            opcode == 0x90 ==> r == !self.reg_status.carry,
            opcode == 0xb0 ==> r == self.reg_status.carry,
            opcode == 0xd0 ==> r == !self.reg_status.zero,
            opcode == 0xf0 ==> r == self.reg_status.zero,
    {
        if opcode == 0x10 {
            !self.reg_status.negative
        } else if opcode == 0x30 {
            self.reg_status.negative
        } else if opcode == 0x50 {
            !self.reg_status.overflow
        } else if opcode == 0x70 {
            self.reg_status.overflow
        } else if opcode == 0x90 {
            !self.reg_status.carry
        } else if opcode == 0xb0 {
            self.reg_status.carry
        } else if opcode == 0xd0 {
            !self.reg_status.zero
        } else {
            self.reg_status.zero
        }
    }

    /// The mnemonic of an opcode that the disassembler knows.
    pub fn opcode_name(&self, opcode: u8) -> (r: Option<&'static str>)
        ensures
            r == opcode_name_spec(opcode),
            r is Some <==> is_named_opcode(opcode),
    {
        if opcode == 0x01 || opcode == 0x0d || opcode == 0x11 {
            Some("ORA")
        } else if opcode == 0x10 {
            Some("BPL")
        } else if opcode == 0x21 || opcode == 0x31 {
            Some("AND")
        } else if opcode == 0x30 {
            Some("BMI")
        } else if opcode == 0x41 || opcode == 0x51 {
            Some("EOR")
        } else if opcode == 0x50 {
            Some("BVC")
        } else if opcode == 0x61 || opcode == 0x69 || opcode == 0x71 {
            Some("ADC")
        } else if opcode == 0x70 {
            Some("BVS")
        } else if opcode == 0x81 || opcode == 0x91 {
            Some("STA")
        } else if opcode == 0x90 {
            Some("BCC")
        } else if opcode == 0xa1 || opcode == 0xb1 {
            Some("LDA")
        } else if opcode == 0xb0 {
            Some("BCS")
        } else if opcode == 0xc1 || opcode == 0xd1 {
            Some("CMP")
        } else if opcode == 0xd0 {
            Some("BNE")
        } else if opcode == 0xe1 || opcode == 0xe9 || opcode == 0xf1 {
            Some("SBC")
        } else if opcode == 0xf0 {
            Some("BEQ")
        } else {
            None
        }
    }
}

/// The mnemonic of each opcode that `opcode_name` knows.
pub open spec fn opcode_name_spec(op: u8) -> Option<&'static str> {
        if op == 0x01 || op == 0x0d || op == 0x11 {
        Some("ORA")
    } else if op == 0x10 {
        Some("BPL")
    } else if op == 0x21 || op == 0x31 {
        Some("AND")
    } else if op == 0x30 {
        Some("BMI")
    } else if op == 0x41 || op == 0x51 {
        Some("EOR")
    } else if op == 0x50 {
        Some("BVC")
    } else if op == 0x61 || op == 0x69 || op == 0x71 {
        Some("ADC")
    } else if op == 0x70 {
        Some("BVS")
    } else if op == 0x81 || op == 0x91 {
        Some("STA")
    } else if op == 0x90 {
        Some("BCC")
    } else if op == 0xa1 || op == 0xb1 {
        Some("LDA")
    } else if op == 0xb0 {
        Some("BCS")
    } else if op == 0xc1 || op == 0xd1 {
        Some("CMP")
    } else if op == 0xd0 {
        Some("BNE")
    } else if op == 0xe1 || op == 0xe9 || op == 0xf1 {
        Some("SBC")
    } else if op == 0xf0 {
        Some("BEQ")
    } else {
        None
    }
}

/// Opcodes that `opcode_name` knows: the eight branches and a few
/// indexed-indirect and indirect-indexed forms.
pub open spec fn is_named_opcode(op: u8) -> bool {
    is_branch_opcode(op) || op == 0x01 || op == 0x0d || op == 0x11 || op == 0x21 || op == 0x31
        || op == 0x41 || op == 0x51 || op == 0x61 || op == 0x69 || op == 0x71 || op == 0x81 || op
        == 0x91 || op == 0xa1 || op == 0xb1 || op == 0xc1 || op == 0xd1 || op == 0xe1 || op == 0xe9
        || op == 0xf1
}

} // verus!
