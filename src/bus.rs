use vstd::prelude::*;
use std::collections::HashSet;

verus! {

broadcast use vstd::std_specs::hash::group_hash_axioms;

pub const ROM_START: u16 = 0x0000;
pub const ROM_END: u16 = 0x7fff;
pub const VRAM_START: u16 = 0x8000;
pub const VRAM_END: u16 = 0x9fff;
pub const VRAM_SIZE: usize = 0x2000;
pub const INTERNAL_RAM_START: u16 = 0xc000;
pub const INTERNAL_RAM_END: u16 = 0xdfff;
pub const INTERNAL_RAM_SIZE: usize = 0x2000;
pub const IRAM_ECHO_START: u16 = 0xe000;
pub const IRAM_ECHO_END: u16 = 0xfdff;
pub const OAM_START: u16 = 0xfe00;
pub const OAM_END: u16 = 0xfe9f;
pub const OAM_SIZE: usize = 0xa0;
pub const IO_START: u16 = 0xff00;
pub const IO_SIZE: usize = 0x80;
pub const JOYPAD_REG: u16 = 0xff00;
pub const SERIAL_DATA_REG: u16 = 0xff01;
pub const SERIAL_CONTROL_REG: u16 = 0xff02;
pub const TIMER_START: u16 = 0xff04;
pub const TIMER_END: u16 = 0xff07;
pub const IF_REGISTER: u16 = 0xff0f;
pub const APU_START: u16 = 0xff10;
pub const APU_END: u16 = 0xff3f;
pub const GPU_START: u16 = 0xff40;
pub const GPU_READ_END: u16 = 0xff4f;
pub const GPU_WRITE_END: u16 = 0xff4b;
pub const HIGH_RAM_START: u16 = 0xff80;
pub const HIGH_RAM_END: u16 = 0xfffe;
pub const HIGH_RAM_SIZE: usize = 0x7f;
pub const IE_REGISTER: u16 = 0xffff;
pub const SCREEN_WIDTH: usize = 160;
pub const SCREEN_HEIGHT: usize = 144;

/// What the bus holds, as mathematical values.
pub ghost struct BusView {
    pub rom: Seq<u8>,
    pub vram: Seq<u8>,
    pub wram: Seq<u8>,
    pub oam: Seq<u8>,
    pub hram: Seq<u8>,
    /// The peripheral register window 0xff00..0xff7f, one byte per address.
    pub io: Seq<u8>,
    pub if_reg: u8,
    pub ie_reg: u8,
    pub serial_data: u8,
    pub serial_control: u8,
    pub watchpoints: Set<u16>,
    pub triggered: bool,
}

/// The byte at `i` of `s`, or 0xff past its end.
pub open spec fn byte_or_fill(s: Seq<u8>, i: int) -> u8 {
    if 0 <= i < s.len() {
        s[i]
    } else {
        0xff
    }
}

/// Addresses of the peripheral window that read from and write to the
/// register bytes that the bus keeps for the video, audio, timer and joypad
/// blocks.
pub open spec fn is_peripheral_read(addr: u16) -> bool {
    addr == JOYPAD_REG || (TIMER_START <= addr <= TIMER_END) || (APU_START <= addr <= APU_END) || (
    GPU_START <= addr <= GPU_READ_END)
}

pub open spec fn is_peripheral_write(addr: u16) -> bool {
    addr == JOYPAD_REG || (TIMER_START <= addr <= TIMER_END) || (APU_START <= addr <= APU_END) || (
    GPU_START <= addr <= GPU_WRITE_END)
}

impl BusView {
    pub open spec fn wf(self) -> bool {
        &&& self.vram.len() == VRAM_SIZE
        &&& self.wram.len() == INTERNAL_RAM_SIZE
        &&& self.oam.len() == OAM_SIZE
        &&& self.hram.len() == HIGH_RAM_SIZE
        &&& self.io.len() == IO_SIZE
    }

    /// The byte that a read of `addr` returns: the first window that holds
    /// `addr` decides; an address in no window reads 0xff.
    pub open spec fn read(self, addr: u16) -> u8 {
        if addr <= ROM_END {
            byte_or_fill(self.rom, addr as int)
        } else if VRAM_START <= addr <= VRAM_END {
            self.vram[addr - VRAM_START]
        } else if INTERNAL_RAM_START <= addr <= INTERNAL_RAM_END {
            self.wram[addr - INTERNAL_RAM_START]
        } else if IRAM_ECHO_START <= addr <= IRAM_ECHO_END {
            self.wram[addr - IRAM_ECHO_START]
        } else if OAM_START <= addr <= OAM_END {
            self.oam[addr - OAM_START]
        } else if addr == SERIAL_DATA_REG || addr == SERIAL_CONTROL_REG {
            0
        } else if addr == IF_REGISTER {
            self.if_reg
        } else if is_peripheral_read(addr) {
            self.io[addr - IO_START]
        } else if HIGH_RAM_START <= addr <= HIGH_RAM_END {
            self.hram[addr - HIGH_RAM_START]
        } else if addr == IE_REGISTER {
            self.ie_reg
        } else {
            0xff
        }
    }

    /// The bus after a write of `val` to `addr`: a watched address sets the
    /// trigger; a write to the cartridge or to no window changes nothing else.
    pub open spec fn write(self, addr: u16, val: u8) -> BusView {
        let s = BusView { triggered: self.triggered || self.watchpoints.contains(addr), ..self };
        if VRAM_START <= addr <= VRAM_END {
            BusView { vram: s.vram.update(addr - VRAM_START, val), ..s }
        } else if INTERNAL_RAM_START <= addr <= INTERNAL_RAM_END {
            BusView { wram: s.wram.update(addr - INTERNAL_RAM_START, val), ..s }
        } else if IRAM_ECHO_START <= addr <= IRAM_ECHO_END {
            BusView { wram: s.wram.update(addr - IRAM_ECHO_START, val), ..s }
        } else if HIGH_RAM_START <= addr <= HIGH_RAM_END {
            BusView { hram: s.hram.update(addr - HIGH_RAM_START, val), ..s }
        } else if OAM_START <= addr <= OAM_END {
            BusView { oam: s.oam.update(addr - OAM_START, val), ..s }
        } else if addr == SERIAL_DATA_REG {
            BusView { serial_data: val, ..s }
        } else if addr == SERIAL_CONTROL_REG {
            BusView { serial_control: val, ..s }
        } else if addr == IF_REGISTER {
            BusView { if_reg: val, ..s }
        } else if is_peripheral_write(addr) {
            BusView { io: s.io.update(addr - IO_START, val), ..s }
        } else if addr == IE_REGISTER {
            BusView { ie_reg: val, ..s }
        } else {
            s
        }
    }

    /// Little-endian 16-bit read: low byte at `addr`, high byte at `addr + 1`.
    pub open spec fn read16(self, addr: u16) -> u16 {
        (self.read(addr) as int + 256 * self.read(((addr as int + 1) % 65536) as u16) as int) as u16
    }

    /// Little-endian 16-bit write: low byte to `addr` first, then the high byte
    /// to `addr + 1`.
    pub open spec fn write16(self, addr: u16, val: u16) -> BusView {
        self.write(addr, (val % 256) as u8).write(
            ((addr as int + 1) % 65536) as u16,
            (val / 256) as u8,
        )
    }
}

/// The address bus: routes each byte access to cartridge, RAM, or a
/// peripheral register window, and holds the interrupt-flag and
/// interrupt-enable registers.
pub struct Interconnect {
    rom: Vec<u8>,
    vram: Vec<u8>,
    internal_ram: Vec<u8>,
    oam: Vec<u8>,
    high_ram: Vec<u8>,
    io: Vec<u8>,
    if_register: u8,
    ie_register: u8,
    serial_transfer_data: u8,
    serial_control: u8,
    trigger_watchpoint: bool,
    watchpoints: HashSet<u16>,
}

impl View for Interconnect {
    type V = BusView;

    closed spec fn view(&self) -> BusView {
        BusView {
            rom: self.rom@,
            vram: self.vram@,
            wram: self.internal_ram@,
            oam: self.oam@,
            hram: self.high_ram@,
            io: self.io@,
            if_reg: self.if_register,
            ie_reg: self.ie_register,
            serial_data: self.serial_transfer_data,
            serial_control: self.serial_control,
            watchpoints: self.watchpoints@,
            triggered: self.trigger_watchpoint,
        }
    }
}

fn zeroed(n: usize) -> (r: Vec<u8>)
    ensures
        r@ == Seq::new(n as nat, |i: int| 0u8),
{
    let mut v: Vec<u8> = Vec::new();
    let mut i: usize = 0;
    while i < n
        invariant
            i <= n,
            v@ == Seq::new(i as nat, |k: int| 0u8),
        decreases n - i,
    {
        v.push(0);
        i = i + 1;
        assert(v@ =~= Seq::new(i as nat, |k: int| 0u8));
    }
    v
}

impl Interconnect {
    pub open spec fn wf(&self) -> bool {
        self@.wf()
    }

    /// A bus over the cartridge image `rom`, with all RAM and registers zero
    /// and no watchpoints.
    pub fn new(rom: Vec<u8>) -> (r: Interconnect)
        ensures
            r.wf(),
            r@.rom == rom@,
            r@.vram == Seq::new(VRAM_SIZE as nat, |i: int| 0u8),
            r@.wram == Seq::new(INTERNAL_RAM_SIZE as nat, |i: int| 0u8),
            r@.oam == Seq::new(OAM_SIZE as nat, |i: int| 0u8),
            r@.hram == Seq::new(HIGH_RAM_SIZE as nat, |i: int| 0u8),
            r@.io == Seq::new(IO_SIZE as nat, |i: int| 0u8),
            r@.if_reg == 0,
            r@.ie_reg == 0,
            r@.serial_data == 0,
            r@.serial_control == 0,
            r@.watchpoints == Set::<u16>::empty(),
            !r@.triggered,
    {
        Interconnect {
            rom,
            vram: zeroed(VRAM_SIZE),
            internal_ram: zeroed(INTERNAL_RAM_SIZE),
            oam: zeroed(OAM_SIZE),
            high_ram: zeroed(HIGH_RAM_SIZE),
            io: zeroed(IO_SIZE),
            if_register: 0,
            ie_register: 0,
            serial_transfer_data: 0,
            serial_control: 0,
            trigger_watchpoint: false,
            watchpoints: HashSet::new(),
        }
    }

    pub fn read_byte(&self, addr: u16) -> (r: u8)
        requires
            self.wf(),
        ensures
            r == self@.read(addr),
    {
        if addr <= ROM_END {
            if (addr as usize) < self.rom.len() {
                self.rom[addr as usize]
            } else {
                0xff
            }
        } else if VRAM_START <= addr && addr <= VRAM_END {
            self.vram[(addr - VRAM_START) as usize]
        } else if INTERNAL_RAM_START <= addr && addr <= INTERNAL_RAM_END {
            self.internal_ram[(addr - INTERNAL_RAM_START) as usize]
        } else if IRAM_ECHO_START <= addr && addr <= IRAM_ECHO_END {
            self.internal_ram[(addr - IRAM_ECHO_START) as usize]
        } else if OAM_START <= addr && addr <= OAM_END {
            self.oam[(addr - OAM_START) as usize]
        } else if addr == SERIAL_DATA_REG || addr == SERIAL_CONTROL_REG {
            0
        } else if addr == IF_REGISTER {
            self.if_register
        } else if addr == JOYPAD_REG || (TIMER_START <= addr && addr <= TIMER_END) || (APU_START
            <= addr && addr <= APU_END) || (GPU_START <= addr && addr <= GPU_READ_END) {
            self.io[(addr - IO_START) as usize]
        } else if HIGH_RAM_START <= addr && addr <= HIGH_RAM_END {
            self.high_ram[(addr - HIGH_RAM_START) as usize]
        } else if addr == IE_REGISTER {
            self.ie_register
        } else {
            0xff
        }
    }

    pub fn write_byte(&mut self, addr: u16, val: u8)
        requires
            old(self).wf(),
        ensures
            final(self).wf(),
            final(self)@ == old(self)@.write(addr, val),
    {
        if self.watchpoints.contains(&addr) {
            self.trigger_watchpoint = true;
        }
        if VRAM_START <= addr && addr <= VRAM_END {
            self.vram.set((addr - VRAM_START) as usize, val);
        } else if INTERNAL_RAM_START <= addr && addr <= INTERNAL_RAM_END {
            self.internal_ram.set((addr - INTERNAL_RAM_START) as usize, val);
        } else if IRAM_ECHO_START <= addr && addr <= IRAM_ECHO_END {
            self.internal_ram.set((addr - IRAM_ECHO_START) as usize, val);
        } else if HIGH_RAM_START <= addr && addr <= HIGH_RAM_END {
            self.high_ram.set((addr - HIGH_RAM_START) as usize, val);
        } else if OAM_START <= addr && addr <= OAM_END {
            self.oam.set((addr - OAM_START) as usize, val);
        } else if addr == SERIAL_DATA_REG {
            self.serial_transfer_data = val;
        } else if addr == SERIAL_CONTROL_REG {
            self.serial_control = val;
        } else if addr == IF_REGISTER {
            self.if_register = val;
        } else if addr == JOYPAD_REG || (TIMER_START <= addr && addr <= TIMER_END) || (APU_START
            <= addr && addr <= APU_END) || (GPU_START <= addr && addr <= GPU_WRITE_END) {
            self.io.set((addr - IO_START) as usize, val);
        } else if addr == IE_REGISTER {
            self.ie_register = val;
        }
    }

    pub fn read_halfword(&self, addr: u16) -> (r: u16)
        requires
            self.wf(),
        ensures
            r == self@.read16(addr),
    {
        let lsb = self.read_byte(addr);
        let msb = self.read_byte(addr.wrapping_add(1));
        lsb as u16 + 256 * (msb as u16)
    }

    pub fn write_halfword(&mut self, addr: u16, val: u16)
        requires
            old(self).wf(),
        ensures
            final(self).wf(),
            final(self)@ == old(self)@.write16(addr, val),
    {
        let lsb = (val % 256) as u8;
        let msb = (val / 256) as u8;
        self.write_byte(addr, lsb);
        self.write_byte(addr.wrapping_add(1), msb);
    }

    /// Watches `addr`: a later write to it sets the trigger.
    pub fn add_watchpoint(&mut self, addr: u16)
        ensures
            final(self)@ == (BusView { watchpoints: old(self)@.watchpoints.insert(addr), ..old(self)@ }),
    {
        self.watchpoints.insert(addr);
    }

    /// Ends one outer step: ORs the interrupt requests that the peripherals
    /// returned into the interrupt-flag register (the interrupt-enable mask
    /// applies only when an interrupt is serviced), and returns and clears
    /// the watchpoint trigger.
    pub fn step(&mut self, requests: u8) -> (r: bool)
        ensures
            r == old(self)@.triggered,
            final(self)@ == (BusView {
                if_reg: old(self)@.if_reg | requests,
                triggered: false,
                ..old(self)@
            }),
    {
        self.if_register = self.if_register | requests;
        let t = self.trigger_watchpoint;
        self.trigger_watchpoint = false;
        t
    }

    pub fn get_width(&self) -> (r: usize)
        ensures
            r == SCREEN_WIDTH,
    {
        SCREEN_WIDTH
    }

    pub fn get_height(&self) -> (r: usize)
        ensures
            r == SCREEN_HEIGHT,
    {
        SCREEN_HEIGHT
    }
}

/// Addresses backed by plain RAM: video RAM, internal RAM (not its echo)
/// and high RAM.
pub open spec fn is_plain_ram(addr: u16) -> bool {
    (VRAM_START <= addr <= VRAM_END) || (INTERNAL_RAM_START <= addr <= INTERNAL_RAM_END) || (
    HIGH_RAM_START <= addr <= HIGH_RAM_END)
}

/// A 16-bit value written to two RAM bytes reads back unchanged.
pub proof fn lemma_write16_read16(b: BusView, addr: u16, val: u16)
    requires
        b.wf(),
        is_plain_ram(addr),
        is_plain_ram(((addr as int + 1) % 65536) as u16),
    ensures
        b.write16(addr, val).read16(addr) == val,
{
    let next = ((addr as int + 1) % 65536) as u16;
    let lo = (val % 256) as u8;
    let hi = (val / 256) as u8;
    let b1 = b.write(addr, lo);
    let b2 = b1.write(next, hi);
    assert(b1.wf());
    assert(b2.read(next) == hi);
    assert(b1.read(addr) == lo);
    assert(b2.read(addr) == b1.read(addr));
}

} // verus!
