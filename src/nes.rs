use vstd::prelude::*;
use byteorder::{ByteOrder, LittleEndian};

verus! {

pub const PRG_PAGE_SIZE: usize = 16384;
pub const CHR_PAGE_SIZE: usize = 8192;
/// Bytes of the iNES header that precede the first program page.
pub const HEADER_SIZE: usize = 16;

/// Relies on byteorder's LittleEndian::read_u16: the little-endian value of
/// the two bytes of `buf` that start at `at`.
#[verifier::external_body]
fn read_u16_le(buf: &[u8], at: usize) -> (r: u16)
    requires
        at + 2 <= buf@.len(),
    ensures
        r == buf@[at as int] as int + 256 * buf@[at + 1] as int,
{
    LittleEndian::read_u16(&buf[at..])
}

/// Why a cartridge image was refused.
#[derive(Clone, Copy, PartialEq, Eq, Structural, Debug)]
pub enum CartError {
    /// Shorter than the eight header bytes that are read.
    TooShort,
    /// The first four bytes are not `NES` and 0x1A.
    BadMagic,
    /// A mapper other than the plain one.
    UnrecognisedMapper,
}

pub open spec fn has_magic(rom: Seq<u8>) -> bool {
    rom[0] == 0x4e && rom[1] == 0x45 && rom[2] == 0x53 && rom[3] == 0x1a
}

/// A cartridge image and where each program and character page lies in it.
pub struct Cart {
    cart_rom: Vec<u8>,
    prg_rom_offsets: Vec<(usize, usize)>,
    chr_rom_offsets: Vec<(usize, usize)>,
    active_prg_pages: [usize; 2],
}

impl Cart {
    pub closed spec fn rom_spec(&self) -> Seq<u8> {
        self.cart_rom@
    }

    pub closed spec fn prg_offsets_spec(&self) -> Seq<(usize, usize)> {
        self.prg_rom_offsets@
    }

    pub closed spec fn chr_offsets_spec(&self) -> Seq<(usize, usize)> {
        self.chr_rom_offsets@
    }

    pub closed spec fn active_pages_spec(&self) -> Seq<usize> {
        self.active_prg_pages@
    }

    /// Reads the header: byte 4 counts the 16 KiB program pages, byte 5 the
    /// 8 KiB character pages, laid out in that order after the 16-byte header;
    /// bytes 6 and 7 name the mapper, which must be the plain one. Both
    /// program windows start on page 0.
    pub fn new(rom: Vec<u8>) -> (r: Result<Cart, CartError>)
        ensures
            rom@.len() < 8 ==> r == Err::<Cart, CartError>(CartError::TooShort),
            rom@.len() >= 8 && !has_magic(rom@) ==> r == Err::<Cart, CartError>(CartError::BadMagic),
            rom@.len() >= 8 && has_magic(rom@) && (rom@[6] != 0 || rom@[7] != 0) ==> r == Err::<
                Cart,
                CartError,
            >(CartError::UnrecognisedMapper),
            rom@.len() >= 8 && has_magic(rom@) && rom@[6] == 0 && rom@[7] == 0 ==> (r matches Ok(c)
                && c.rom_spec() == rom@ && c.active_pages_spec() == seq![0usize, 0usize]
                && c.prg_offsets_spec().len() == rom@[4] && c.chr_offsets_spec().len() == rom@[5]
                && (forall|k: int|
                0 <= k < rom@[4] ==> #[trigger] c.prg_offsets_spec()[k] == (
                    (HEADER_SIZE + k * PRG_PAGE_SIZE) as usize,
                    (HEADER_SIZE + (k + 1) * PRG_PAGE_SIZE) as usize,
                )) && (forall|k: int|
                0 <= k < rom@[5] ==> #[trigger] c.chr_offsets_spec()[k] == (
                    (HEADER_SIZE + rom@[4] * PRG_PAGE_SIZE + k * CHR_PAGE_SIZE) as usize,
                    (HEADER_SIZE + rom@[4] * PRG_PAGE_SIZE + (k + 1) * CHR_PAGE_SIZE) as usize,
                ))),
    {
        if rom.len() < 8 {
            return Err(CartError::TooShort);
        }
        if rom[0] != 0x4e || rom[1] != 0x45 || rom[2] != 0x53 || rom[3] != 0x1a {
            return Err(CartError::BadMagic);
        }
        let prg = rom[4];
        let chr = rom[5];
        if rom[6] != 0 || rom[7] != 0 {
            return Err(CartError::UnrecognisedMapper);
        }
        let mut prg_rom_offsets: Vec<(usize, usize)> = Vec::new();
        let mut start: usize = HEADER_SIZE;
        let mut k: u8 = 0;
        while k < prg
            invariant
                k <= prg,
                start == HEADER_SIZE + k * PRG_PAGE_SIZE,
                prg_rom_offsets@.len() == k,
                forall|m: int|
                    0 <= m < k ==> #[trigger] prg_rom_offsets@[m] == (
                        (HEADER_SIZE + m * PRG_PAGE_SIZE) as usize,
                        (HEADER_SIZE + (m + 1) * PRG_PAGE_SIZE) as usize,
                    ),
            decreases prg - k,
        {
            prg_rom_offsets.push((start, start + PRG_PAGE_SIZE));
            start = start + PRG_PAGE_SIZE;
            k = k + 1;
        }
        let ghost prg_end = start;
        let mut chr_rom_offsets: Vec<(usize, usize)> = Vec::new();
        let mut k: u8 = 0;
        while k < chr
            invariant
                k <= chr,
                prg_end == HEADER_SIZE + prg * PRG_PAGE_SIZE,
                start == prg_end + k * CHR_PAGE_SIZE,
                chr_rom_offsets@.len() == k,
                forall|m: int|
                    0 <= m < k ==> #[trigger] chr_rom_offsets@[m] == (
                        (prg_end + m * CHR_PAGE_SIZE) as usize,
                        (prg_end + (m + 1) * CHR_PAGE_SIZE) as usize,
                    ),
            decreases chr - k,
        {
            chr_rom_offsets.push((start, start + CHR_PAGE_SIZE));
            start = start + CHR_PAGE_SIZE;
            k = k + 1;
        }
        let c = Cart { cart_rom: rom, prg_rom_offsets, chr_rom_offsets, active_prg_pages: [0, 0] };
        assert(c.active_prg_pages@ =~= seq![0usize, 0usize]);
        Ok(c)
    }

    /// Where program window `page` (0 or 1) starts in the image.
    pub open spec fn prg_base(&self, page: int) -> int {
        self.prg_offsets_spec()[self.active_pages_spec()[page] as int].0 as int
    }

    /// The window's page is one of the cartridge's, and `len` bytes from
    /// `offset` lie inside the image.
    pub open spec fn prg_in_range(&self, page: usize, offset: u16, len: int) -> bool {
        &&& page < 2
        &&& self.active_pages_spec().len() == 2
        &&& self.active_pages_spec()[page as int] < self.prg_offsets_spec().len()
        &&& self.prg_base(page as int) + offset + len <= self.rom_spec().len()
    }

    pub fn read_prg_byte(&self, pgr_page: usize, offset: u16) -> (r: u8)
        requires
            self.prg_in_range(pgr_page, offset, 1),
        ensures
            r == self.rom_spec()[self.prg_base(pgr_page as int) + offset],
    {
        let page_index = self.active_prg_pages[pgr_page];
        let base_offset = self.prg_rom_offsets[page_index];
        let _len = self.cart_rom.len();
        self.cart_rom[base_offset.0 + offset as usize]
    }

    /// The little-endian word at `offset` of the window.
    pub fn read_prg_word(&self, pgr_page: usize, offset: u16) -> (r: u16)
        requires
            self.prg_in_range(pgr_page, offset, 2),
        ensures
            r == self.rom_spec()[self.prg_base(pgr_page as int) + offset] as int + 256
                * self.rom_spec()[self.prg_base(pgr_page as int) + offset + 1] as int,
    {
        let page_index = self.active_prg_pages[pgr_page];
        let base_offset = self.prg_rom_offsets[page_index];
        let _len = self.cart_rom.len();
        let addr = base_offset.0 + offset as usize;
        read_u16_le(self.cart_rom.as_slice(), addr)
    }
}

pub const RAM_START: u16 = 0x0000;
pub const RAM_END: u16 = 0x07ff;
pub const PRG_ROM_1_START: u16 = 0x8000;
pub const PRG_ROM_1_END: u16 = 0xbfff;
pub const PRG_ROM_2_START: u16 = 0xc000;
pub const PRG_ROM_2_END: u16 = 0xffff;

/// A processor address resolved to a region and an offset into it.
#[derive(Clone, Copy, PartialEq, Eq, Structural, Debug)]
pub enum Addr {
    Ram(u16),
    PrgRom1(u16),
    PrgRom2(u16),
}

/// The address is in RAM or in one of the two program windows.
pub open spec fn is_mapped(addr: u16) -> bool {
    addr <= RAM_END || addr >= PRG_ROM_1_START
}

pub fn map_addr(addr: u16) -> (r: Addr)
    requires
        is_mapped(addr),
    ensures
        addr <= RAM_END ==> r == Addr::Ram(addr),
        PRG_ROM_1_START <= addr <= PRG_ROM_1_END ==> r == Addr::PrgRom1(
            (addr - PRG_ROM_1_START) as u16,
        ),
        PRG_ROM_2_START <= addr ==> r == Addr::PrgRom2((addr - PRG_ROM_2_START) as u16),
{
    if addr <= RAM_END {
        Addr::Ram(addr - RAM_START)
    } else if addr <= PRG_ROM_1_END {
        Addr::PrgRom1(addr - PRG_ROM_1_START)
    } else {
        Addr::PrgRom2(addr - PRG_ROM_2_START)
    }
}

/// The processor status register; bit 5 always reads as set.
#[derive(Clone, Copy, Debug)]
pub struct RegStatus {
    pub carry: bool,
    pub zero: bool,
    pub interrupt_disable: bool,
    pub decimal: bool,
    pub break_command: bool,
    pub overflow: bool,
    pub negative: bool,
}

pub open spec fn bit_of(b: bool) -> int {
    if b {
        1
    } else {
        0
    }
}

impl RegStatus {
    pub open spec fn from_spec(v: u8) -> RegStatus {
        RegStatus {
            carry: v & 0x01 != 0,
            zero: v & 0x02 != 0,
            interrupt_disable: v & 0x04 != 0,
            decimal: v & 0x08 != 0,
            break_command: v & 0x10 != 0,
            overflow: v & 0x40 != 0,
            negative: v & 0x80 != 0,
        }
    }

    /// Carry in bit 0 up to Negative in bit 7; bit 5 is set.
    pub open spec fn byte_spec(self) -> u8 {
        (bit_of(self.carry) + 2 * bit_of(self.zero) + 4 * bit_of(self.interrupt_disable) + 8
            * bit_of(self.decimal) + 16 * bit_of(self.break_command) + 32 + 64 * bit_of(
            self.overflow,
        ) + 128 * bit_of(self.negative)) as u8
    }

    pub fn from_byte(value: u8) -> (r: RegStatus)
        ensures
            r == RegStatus::from_spec(value),
    {
        RegStatus {
            carry: value & 0x01 != 0,
            zero: value & 0x02 != 0,
            interrupt_disable: value & 0x04 != 0,
            decimal: value & 0x08 != 0,
            break_command: value & 0x10 != 0,
            overflow: value & 0x40 != 0,
            negative: value & 0x80 != 0,
        }
    }

    pub fn to_byte(&self) -> (r: u8)
        ensures
            r == self.byte_spec(),
    {
        let mut ret: u8 = 32;
        if self.carry {
            ret = ret + 1;
        }
        if self.zero {
            ret = ret + 2;
        }
        if self.interrupt_disable {
            ret = ret + 4;
        }
        if self.decimal {
            ret = ret + 8;
        }
        if self.break_command {
            ret = ret + 16;
        }
        if self.overflow {
            ret = ret + 64;
        }
        if self.negative {
            ret = ret + 128;
        }
        ret
    }
}

/// The operations that the decoder knows by name.
#[derive(Clone, Copy, PartialEq, Eq, Structural, Debug)]
pub enum Opcode {
    Clc,
    Jsr,
    Bit,
    Sec,
    Jmp,
    Sta,
    Stx,
    Bcc,
    Ldx,
    Lda,
    Bcs,
    Bne,
    Nop,
    Beq,
}

/// How an instruction finds its operand, with the operand bytes.
#[derive(Clone, Copy, PartialEq, Eq, Structural, Debug)]
pub enum AddressMode {
    Implicit,
    Accumulator,
    Immediate(u8),
    ZeroPage(u8),
    ZeroPageX(u8),
    ZeroPageY(u8),
    Relative(u8),
    Absolute(u16),
    AbsoluteX(u16),
    AbsoluteY(u16),
    Indirect(u8),
    IndirectX(u8),
    IndirectY(u8),
}

/// A decoded instruction.
pub struct Instruction {
    opcode: Opcode,
    opcode_byte: u8,
    address_mode: AddressMode,
}

impl Instruction {
    pub closed spec fn opcode_spec(&self) -> Opcode {
        self.opcode
    }

    pub closed spec fn opcode_byte_spec(&self) -> u8 {
        self.opcode_byte
    }

    pub closed spec fn mode_spec(&self) -> AddressMode {
        self.address_mode
    }

    /// Decodes an opcode byte and the operand word that follows it; only
    /// JMP absolute (0x4C) is known.
    pub fn from_u8(opcode_byte: u8, operand: u16) -> (r: Option<Instruction>)
        ensures
            opcode_byte == 0x4c <==> r is Some,
            r matches Some(i) ==> i.opcode_spec() == Opcode::Jmp && i.opcode_byte_spec()
                == opcode_byte && i.mode_spec() == AddressMode::Absolute(operand),
    {
        if opcode_byte == 0x4c {
            Some(
                Instruction {
                    opcode: Opcode::Jmp,
                    opcode_byte,
                    address_mode: AddressMode::Absolute(operand),
                },
            )
        } else {
            None
        }
    }

    pub fn opcode(&self) -> (r: &Opcode)
        ensures
            *r == self.opcode_spec(),
    {
        &self.opcode
    }

    /// The absolute address operand.
    pub fn addr(&self, pc: u16, x: u8, y: u8) -> (r: Option<u16>)
        ensures
            self.mode_spec() matches AddressMode::Absolute(n) ==> r == Some(n),
            !(self.mode_spec() is Absolute) ==> r is None,
    {
        match self.address_mode {
            AddressMode::Absolute(n) => Some(n),
            _ => None,
        }
    }

    /// The immediate operand.
    pub fn imm(&self, pc: u16, x: u8, y: u8) -> (r: Option<u8>)
        ensures
            self.mode_spec() matches AddressMode::Immediate(n) ==> r == Some(n),
            !(self.mode_spec() is Immediate) ==> r is None,
    {
        match self.address_mode {
            AddressMode::Immediate(n) => Some(n),
            _ => None,
        }
    }

    /// Bytes that the instruction takes: the opcode and its operand bytes.
    /// `from_u8` builds only the absolute mode (3 bytes); the other modes,
    /// which it never builds, are given the 6502's operand sizes rather than
    /// refused, so that the function is total.
    pub fn length(&self) -> (r: u16)
        ensures
            r == match self.mode_spec() {
                AddressMode::Implicit | AddressMode::Accumulator => 1u16,
                AddressMode::Absolute(_) | AddressMode::AbsoluteX(_) | AddressMode::AbsoluteY(_) => 3u16,
                _ => 2u16,
            },
    {
        match self.address_mode {
            AddressMode::Implicit | AddressMode::Accumulator => 1,
            AddressMode::Absolute(_) | AddressMode::AbsoluteX(_) | AddressMode::AbsoluteY(_) => 3,
            _ => 2,
        }
    }
}

} // verus!
