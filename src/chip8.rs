use vstd::prelude::*;

verus! {

pub const SCREEN_WIDTH: usize = 64;
pub const SCREEN_HEIGHT: usize = 32;
pub const SCREEN_SIZE: usize = 2048;
pub const RAM_BYTES: usize = 2048;
pub const NUM_KEYS: usize = 16;
pub const STACK_SIZE: usize = 16;
/// Start of the program area; the bytes below it are reserved.
pub const END_RESERVED: u16 = 0x200;
/// Nanoseconds per tick of a 60 Hz countdown timer.
pub const NSECS_PER_TICK: u64 = 16666666;

/// Relies on time::precise_time_ns: a reading, in nanoseconds, of a
/// high-resolution counter since an unspecified epoch.
#[verifier::external_body]
fn now_ns() -> (r: u64) {
    time::precise_time_ns()
}

/// A 60 Hz countdown timer.
pub struct Timer {
    value: u8,
    nsec_elapsed: u64,
    last_time: u64,
}

/// The value, leftover nanoseconds and clock reading of a timer that held
/// `value` with `nsec` nanoseconds not yet counted, read at `last`, and is
/// brought forward to the clock reading `now`: every full tick past the
/// first `NSECS_PER_TICK` nanoseconds counts the value down by one, to zero at
/// the least. A clock reading earlier than `last` counts as no time passed.
pub open spec fn advance_spec(value: u8, nsec: u64, last: u64, now: u64) -> (u8, u64, u64) {
    let elapsed = if now >= last {
        now - last
    } else {
        0
    };
    let total = if nsec + elapsed > u64::MAX {
        u64::MAX as int
    } else {
        nsec + elapsed
    };
    let ticks = if total > NSECS_PER_TICK {
        (total - 1) / NSECS_PER_TICK as int
    } else {
        0
    };
    (
        if ticks >= value {
            0
        } else {
            (value - ticks) as u8
        },
        (total - ticks * NSECS_PER_TICK) as u64,
        now,
    )
}

impl Timer {
    pub closed spec fn value_spec(&self) -> u8 {
        self.value
    }

    pub closed spec fn nsec_spec(&self) -> u64 {
        self.nsec_elapsed
    }

    pub closed spec fn last_spec(&self) -> u64 {
        self.last_time
    }

    pub fn new() -> (r: Timer)
        ensures
            r.value_spec() == 0,
            r.nsec_spec() == 0,
    {
        Timer { value: 0, nsec_elapsed: 0, last_time: now_ns() }
    }

    /// Counts the timer down for the time that has passed since it was last
    /// read, up to the clock reading `now`. A timer at zero stays as it is.
    pub fn advance_to(&mut self, now: u64)
        ensures
            old(self).value_spec() == 0 ==> *final(self) == *old(self),
            old(self).value_spec() > 0 ==> (final(self).value_spec(), final(self).nsec_spec(),
                final(self).last_spec()) == advance_spec(
                old(self).value_spec(),
                old(self).nsec_spec(),
                old(self).last_spec(),
                now,
            ),
    {
        if self.value > 0 {
            let elapsed: u64 = if now >= self.last_time {
                now - self.last_time
            } else {
                0
            };
            let total: u64 = if self.nsec_elapsed > u64::MAX - elapsed {
                u64::MAX
            } else {
                self.nsec_elapsed + elapsed
            };
            let ticks: u64 = if total > NSECS_PER_TICK {
                (total - 1) / NSECS_PER_TICK
            } else {
                0
            };
            proof {
                assert(ticks * NSECS_PER_TICK <= total) by (nonlinear_arith)
                    requires
                        total > NSECS_PER_TICK ==> ticks == (total - 1) / NSECS_PER_TICK as int,
                        total <= NSECS_PER_TICK ==> ticks == 0,
                ;
            }
            self.value = if ticks >= self.value as u64 {
                0
            } else {
                (self.value as u64 - ticks) as u8
            };
            self.nsec_elapsed = total - ticks * NSECS_PER_TICK;
            self.last_time = now;
        }
    }

    /// Counts the timer down for the time that has passed since it was last
    /// read.
    pub fn update(&mut self)
        ensures
            old(self).value_spec() == 0 ==> *final(self) == *old(self),
            old(self).value_spec() > 0 ==> exists|now: u64|
                (final(self).value_spec(), final(self).nsec_spec(), final(self).last_spec())
                    == advance_spec(
                    old(self).value_spec(),
                    old(self).nsec_spec(),
                    old(self).last_spec(),
                    now,
                ),
    {
        if self.value > 0 {
            let now = now_ns();
            self.advance_to(now);
        }
    }

    pub fn set(&mut self, val: u8)
        ensures
            final(self).value_spec() == val,
            final(self).nsec_spec() == 0,
    {
        self.value = val;
        self.nsec_elapsed = 0;
        self.last_time = now_ns();
    }

    pub fn get(&self) -> (r: u8)
        ensures
            r == self.value_spec(),
    {
        self.value
    }
}

/// The 2 KiB of working RAM.
pub struct Memory {
    ram: Vec<u8>,
}

impl View for Memory {
    type V = Seq<u8>;

    closed spec fn view(&self) -> Seq<u8> {
        self.ram@
    }
}

impl Memory {
    pub fn new() -> (r: Memory)
        ensures
            r@ == Seq::new(RAM_BYTES as nat, |i: int| 0u8),
    {
        let mut ram: Vec<u8> = Vec::new();
        let mut i: usize = 0;
        while i < RAM_BYTES
            invariant
                i <= RAM_BYTES,
                ram@ == Seq::new(i as nat, |k: int| 0u8),
            decreases RAM_BYTES - i,
        {
            ram.push(0);
            i = i + 1;
            assert(ram@ =~= Seq::new(i as nat, |k: int| 0u8));
        }
        Memory { ram }
    }

    pub fn read_byte(&self, addr: u16) -> (r: u8)
        requires
            addr < self@.len(),
        ensures
            r == self@[addr as int],
    {
        self.ram[addr as usize]
    }

    /// The big-endian word at `addr`.
    pub fn read_word(&self, addr: u16) -> (r: u16)
        requires
            addr + 1 < self@.len(),
        ensures
            r == word_at(self@, addr as int),
    {
        (self.ram[addr as usize] as u16) * 256 + self.ram[addr as usize + 1] as u16
    }

    /// Where the sprite of hex digit `d` sits: five bytes per digit from
    /// address 0.
    pub fn get_digit_sprite(&self, d: u8) -> (r: u16)
        ensures
            r == digit_sprite_spec(d),
    {
        (d % 16) as u16 * 5
    }

    pub fn write_byte(&mut self, addr: u16, val: u8)
        requires
            addr < old(self)@.len(),
        ensures
            final(self)@ == old(self)@.update(addr as int, val),
    {
        self.ram.set(addr as usize, val);
    }
}

/// A keyboard event, with the key already mapped to its index 0 to 15.
#[derive(Clone, Copy, PartialEq, Eq, Structural, Debug)]
pub enum KeyEvent {
    Quit,
    KeyDown(u8),
    KeyUp(u8),
}

/// The sixteen keys of the keypad, and whether the user asked to quit.
pub struct Input {
    keys: [bool; 16],
    pub quit: bool,
}

/// Key states and quit flag after `events`, in order; events for keys past
/// 15 change nothing.
pub open spec fn apply_events(keys: Seq<bool>, quit: bool, events: Seq<KeyEvent>) -> (Seq<bool>, bool)
    decreases events.len(),
{
    if events.len() == 0 {
        (keys, quit)
    } else {
        let (k, q) = apply_events(keys, quit, events.drop_last());
        match events.last() {
            KeyEvent::Quit => (k, true),
            KeyEvent::KeyDown(i) => if i < 16 {
                (k.update(i as int, true), q)
            } else {
                (k, q)
            },
            KeyEvent::KeyUp(i) => if i < 16 {
                (k.update(i as int, false), q)
            } else {
                (k, q)
            },
        }
    }
}

impl Input {
    pub closed spec fn keys_spec(&self) -> Seq<bool> {
        self.keys@
    }

    pub closed spec fn quit_spec(&self) -> bool {
        self.quit
    }

    pub fn new() -> (r: Input)
        ensures
            r.keys_spec() == Seq::new(16, |i: int| false),
            !r.quit_spec(),
    {
        let r = Input { keys: [false;16], quit: false };
        assert(r.keys@ =~= Seq::new(16, |i: int| false));
        r
    }

    /// Applies the keyboard events of one poll, in order.
    pub fn handle_input(&mut self, events: &Vec<KeyEvent>)
        ensures
            (final(self).keys_spec(), final(self).quit_spec()) == apply_events(
                old(self).keys_spec(),
                old(self).quit_spec(),
                events@,
            ),
    {
        let mut i: usize = 0;
        while i < events.len()
            invariant
                i <= events.len(),
                self.keys@.len() == 16,
                (self.keys@, self.quit) == apply_events(
                    old(self).keys_spec(),
                    old(self).quit,
                    events@.subrange(0, i as int),
                ),
            decreases events.len() - i,
        {
            assert(events@.subrange(0, i as int + 1).drop_last() =~= events@.subrange(0, i as int));
            match events[i] {
                KeyEvent::Quit => {
                    self.quit = true;
                },
                KeyEvent::KeyDown(k) => {
                    if k < 16 {
                        self.keys[k as usize] = true;
                    }
                },
                KeyEvent::KeyUp(k) => {
                    if k < 16 {
                        self.keys[k as usize] = false;
                    }
                },
            }
            i = i + 1;
        }
        assert(events@.subrange(0, events@.len() as int) =~= events@);
    }

    pub fn key_pressed(&self, key_index: u8) -> (r: bool)
        requires
            key_index < 16,
        ensures
            r == self.keys_spec()[key_index as int],
    {
        self.keys[key_index as usize]
    }

    /// The lowest pressed key, if any.
    pub fn any_key_pressed(&self) -> (r: Option<u8>)
        ensures
            r == first_pressed(self.keys_spec(), 0),
            r matches Some(k) ==> k < 16 && self.keys_spec()[k as int],
    {
        let mut i: usize = 0;
        while i < 16
            invariant
                i <= 16,
                self.keys@.len() == 16,
                first_pressed(self.keys@, 0) == first_pressed(self.keys@, i as int),
            decreases 16 - i,
        {
            if self.keys[i] {
                return Some(i as u8);
            }
            i = i + 1;
        }
        None
    }
}

/// The screen after XOR-ing bits 0..`j` of sprite row `s` onto row `dy`,
/// bit `k` at column `(x + k) % 64`.
pub open spec fn draw_bits(scr: Seq<u8>, x: usize, dy: int, s: u8, j: nat) -> Seq<u8>
    decreases j,
{
    if j == 0 {
        scr
    } else {
        let prev = draw_bits(scr, x, dy, s, (j - 1) as nat);
        let idx = dy * 64 + (x + j - 1) % 64;
        prev.update(idx, prev[idx] ^ ((s >> ((j - 1) as u8)) & 1))
    }
}

/// Whether XOR-ing bits 0..`j` of the row erased a lit pixel.
pub open spec fn erased_bits(scr: Seq<u8>, x: usize, dy: int, s: u8, j: nat) -> bool
    decreases j,
{
    if j == 0 {
        false
    } else {
        let prev = draw_bits(scr, x, dy, s, (j - 1) as nat);
        let idx = dy * 64 + (x + j - 1) % 64;
        erased_bits(scr, x, dy, s, (j - 1) as nat) || (prev[idx] == 1 && (s >> ((j - 1) as u8))
            & 1 == 1)
    }
}

/// The screen after drawing rows 0..`n` of the sprite, row `i` at screen row
/// `(y + i) % 32`.
pub open spec fn draw_rows(scr: Seq<u8>, x: usize, y: usize, sprite: Seq<u8>, n: nat) -> Seq<u8>
    decreases n,
{
    if n == 0 {
        scr
    } else {
        draw_bits(
            draw_rows(scr, x, y, sprite, (n - 1) as nat),
            x,
            (y + n - 1) % 32,
            sprite[n - 1],
            8,
        )
    }
}

pub open spec fn erased_rows(scr: Seq<u8>, x: usize, y: usize, sprite: Seq<u8>, n: nat) -> bool
    decreases n,
{
    if n == 0 {
        false
    } else {
        erased_rows(scr, x, y, sprite, (n - 1) as nat) || erased_bits(
            draw_rows(scr, x, y, sprite, (n - 1) as nat),
            x,
            (y + n - 1) % 32,
            sprite[n - 1],
            8,
        )
    }
}

/// The lit pixels among the first `n` of the screen, as (column, row) in
/// row-major order.
pub open spec fn lit_points(scr: Seq<u8>, n: nat) -> Seq<(usize, usize)>
    decreases n,
{
    if n == 0 {
        Seq::empty()
    } else {
        let prev = lit_points(scr, (n - 1) as nat);
        if scr[n - 1] == 1 {
            prev.push((((n - 1) % 64) as usize, ((n - 1) / 64) as usize))
        } else {
            prev
        }
    }
}

proof fn lemma_draw_bits_len(scr: Seq<u8>, x: usize, dy: int, s: u8, j: nat)
    requires
        scr.len() == SCREEN_SIZE,
        0 <= dy < 32,
    ensures
        draw_bits(scr, x, dy, s, j).len() == SCREEN_SIZE,
    decreases j,
{
    if j > 0 {
        lemma_draw_bits_len(scr, x, dy, s, (j - 1) as nat);
    }
}

proof fn lemma_draw_rows_len(scr: Seq<u8>, x: usize, y: usize, sprite: Seq<u8>, n: nat)
    requires
        scr.len() == SCREEN_SIZE,
        n <= sprite.len(),
    ensures
        draw_rows(scr, x, y, sprite, n).len() == SCREEN_SIZE,
    decreases n,
{
    if n > 0 {
        lemma_draw_rows_len(scr, x, y, sprite, (n - 1) as nat);
        lemma_draw_bits_len(
            draw_rows(scr, x, y, sprite, (n - 1) as nat),
            x,
            (y + n - 1) % 32,
            sprite[n - 1],
            8,
        );
    }
}

/// The 64 by 32 monochrome screen, one byte (0 or 1) per pixel.
pub struct Graphics {
    screen: Vec<u8>,
}

impl View for Graphics {
    type V = Seq<u8>;

    closed spec fn view(&self) -> Seq<u8> {
        self.screen@
    }
}

impl Graphics {
    pub fn new() -> (r: Graphics)
        ensures
            r@ == Seq::new(SCREEN_SIZE as nat, |i: int| 0u8),
    {
        let mut screen: Vec<u8> = Vec::new();
        let mut i: usize = 0;
        while i < SCREEN_SIZE
            invariant
                i <= SCREEN_SIZE,
                screen@ == Seq::new(i as nat, |k: int| 0u8),
            decreases SCREEN_SIZE - i,
        {
            screen.push(0);
            i = i + 1;
            assert(screen@ =~= Seq::new(i as nat, |k: int| 0u8));
        }
        Graphics { screen }
    }

    /// XORs one sprite row onto screen row `dy`; returns whether a lit pixel
    /// was erased.
    fn draw_row(&mut self, x: usize, dy: usize, s: u8) -> (r: bool)
        requires
            old(self)@.len() == SCREEN_SIZE,
            dy < 32,
        ensures
            final(self)@.len() == SCREEN_SIZE,
            final(self)@ == draw_bits(old(self)@, x, dy as int, s, 8),
            r == erased_bits(old(self)@, x, dy as int, s, 8),
    {
        let mut erased = false;
        let mut j: usize = 0;
        while j < 8
            invariant
                j <= 8,
                dy < 32,
                old(self)@.len() == SCREEN_SIZE,
                self@ == draw_bits(old(self)@, x, dy as int, s, j as nat),
                self@.len() == SCREEN_SIZE,
                erased == erased_bits(old(self)@, x, dy as int, s, j as nat),
            decreases 8 - j,
        {
            let dx: usize = (x % 64 + j) % 64;
            assert(dx as int == (x + j) % 64);
            assert(dy * 64 + dx < 2048) by (nonlinear_arith)
                requires
                    dy < 32,
                    dx < 64,
            ;
            let index = dy * SCREEN_WIDTH + dx;
            let val = (s >> (j as u8)) & 0x1;
            let old_px = self.screen[index];
            if old_px == 1 && val == 1 {
                erased = true;
            }
            self.screen.set(index, old_px ^ val);
            proof {
                let jn = (j + 1) as nat;
                assert(((jn - 1) as u8) == j as u8);
                assert(index as int == dy as int * 64 + (x + jn - 1) % 64);
                lemma_draw_bits_len(old(self)@, x, dy as int, s, jn);
            }
            j = j + 1;
        }
        erased
    }

    /// XORs the sprite onto the screen at column `x`, row `y`, wrapping at the
    /// edges; returns 1 when a lit pixel was erased, else 0.
    pub fn draw(&mut self, x: usize, y: usize, sprite: Vec<u8>) -> (r: u8)
        requires
            old(self)@.len() == SCREEN_SIZE,
        ensures
            final(self)@ == draw_rows(old(self)@, x, y, sprite@, sprite@.len()),
            r == (if erased_rows(old(self)@, x, y, sprite@, sprite@.len()) {
                1u8
            } else {
                0u8
            }),
    {
        let mut collision: u8 = 0;
        let mut i: usize = 0;
        while i < sprite.len()
            invariant
                i <= sprite@.len(),
                self@.len() == SCREEN_SIZE,
                self@ == draw_rows(old(self)@, x, y, sprite@, i as nat),
                collision == (if erased_rows(old(self)@, x, y, sprite@, i as nat) {
                    1u8
                } else {
                    0u8
                }),
            decreases sprite@.len() - i,
        {
            let s = sprite[i];
            let dy: usize = (y % 32 + i % 32) % 32;
            assert(dy as int == (y + i) % 32);
            let erased = self.draw_row(x, dy, s);
            if erased {
                collision = 1;
            }
            i = i + 1;
        }
        collision
    }

    pub fn clear(&mut self)
        requires
            old(self)@.len() == SCREEN_SIZE,
        ensures
            final(self)@ == Seq::new(SCREEN_SIZE as nat, |i: int| 0u8),
    {
        let mut i: usize = 0;
        while i < SCREEN_SIZE
            invariant
                i <= SCREEN_SIZE,
                self@.len() == SCREEN_SIZE,
                forall|k: int| 0 <= k < i ==> self@[k] == 0,
            decreases SCREEN_SIZE - i,
        {
            self.screen.set(i, 0);
            i = i + 1;
        }
        assert(self@ =~= Seq::new(SCREEN_SIZE as nat, |i: int| 0u8));
    }

    /// The lit pixels, as (column, row) in row-major order: what a frontend
    /// draws.
    pub fn render(&self) -> (r: Vec<(usize, usize)>)
        requires
            self@.len() == SCREEN_SIZE,
        ensures
            r@ == lit_points(self@, SCREEN_SIZE as nat),
    {
        let mut points: Vec<(usize, usize)> = Vec::new();
        let mut idx: usize = 0;
        while idx < SCREEN_SIZE
            invariant
                idx <= SCREEN_SIZE,
                self@.len() == SCREEN_SIZE,
                points@ == lit_points(self@, idx as nat),
            decreases SCREEN_SIZE - idx,
        {
            if self.screen[idx] == 1 {
                points.push((idx % SCREEN_WIDTH, idx / SCREEN_WIDTH));
            }
            idx = idx + 1;
        }
        points
    }
}

/// Relies on rand::random: a byte drawn from the thread-local generator.
#[verifier::external_body]
fn random_byte() -> (r: u8) {
    rand::random::<u8>()
}

/// Why the virtual machine stopped.
#[derive(Clone, Copy, PartialEq, Eq, Structural, Debug)]
pub enum Chip8Error {
    /// An instruction word with no meaning.
    UnknownInstruction(u16),
    /// A call with all sixteen return slots in use.
    StackOverflow,
    /// A return with no return address.
    StackUnderflow,
    /// A memory access past the end of RAM, at this start address.
    AddressOutOfRange(u16),
    /// A key test on a register that holds no key index.
    KeyOutOfRange(u8),
}

/// The screen, RAM and keypad that the virtual machine works on.
pub struct Interconnect {
    pub mem: Memory,
    pub graphics: Graphics,
    pub input: Input,
}

impl Interconnect {
    pub open spec fn wf(&self) -> bool {
        self.mem@.len() == RAM_BYTES && self.graphics@.len() == SCREEN_SIZE
    }

    pub fn new() -> (r: Interconnect)
        ensures
            r.wf(),
            r.mem@ == Seq::new(RAM_BYTES as nat, |i: int| 0u8),
            r.graphics@ == Seq::new(SCREEN_SIZE as nat, |i: int| 0u8),
            r.input.keys_spec() == Seq::new(16, |i: int| false),
    {
        Interconnect { mem: Memory::new(), graphics: Graphics::new(), input: Input::new() }
    }

    /// Copies a program image to RAM from the start of the program area; what
    /// does not fit is left out.
    pub fn load_rom(&mut self, rom: &Vec<u8>)
        requires
            old(self).wf(),
        ensures
            final(self).wf(),
            final(self).graphics@ == old(self).graphics@,
            final(self).input.keys_spec() == old(self).input.keys_spec(),
            forall|a: int|
                0 <= a < RAM_BYTES ==> #[trigger] final(self).mem@[a] == if END_RESERVED <= a < END_RESERVED
                    + rom@.len() {
                    rom@[a - END_RESERVED]
                } else {
                    old(self).mem@[a]
                },
    {
        let mut k: usize = 0;
        while k < rom.len() && k < RAM_BYTES - END_RESERVED as usize
            invariant
                self.wf(),
                k <= RAM_BYTES - END_RESERVED,
                self.graphics@ == old(self).graphics@,
                self.input.keys_spec() == old(self).input.keys_spec(),
                k <= rom@.len(),
                forall|a: int|
                    0 <= a < RAM_BYTES ==> #[trigger] self.mem@[a] == if END_RESERVED <= a
                        < END_RESERVED + k {
                        rom@[a - END_RESERVED]
                    } else {
                        old(self).mem@[a]
                    },
            decreases rom@.len() - k,
        {
            self.mem.write_byte(END_RESERVED + k as u16, rom[k]);
            k = k + 1;
        }
    }
}

/// The big-endian instruction word at `a`.
pub open spec fn word_at(mem: Seq<u8>, a: int) -> u16 {
    (mem[a] as int * 256 + mem[a + 1] as int) as u16
}

/// The lowest pressed key at or above `k`.
pub open spec fn first_pressed(keys: Seq<bool>, k: int) -> Option<u8>
    decreases 16 - k,
{
    if k >= 16 || k < 0 {
        None
    } else if keys[k] {
        Some(k as u8)
    } else {
        first_pressed(keys, k + 1)
    }
}

/// Where the five-byte sprite of hex digit `d` sits in the reserved area.
pub open spec fn digit_sprite_spec(d: u8) -> u16 {
    ((d % 16) * 5) as u16
}

/// The registers, return stack and timers, as values.
pub ghost struct Chip8State {
    pub v: Seq<u8>,
    pub pc: u16,
    pub i: u16,
    pub stack: Seq<u16>,
    pub rpl: Seq<u8>,
    pub delay: u8,
    pub sound: u8,
}

pub open spec fn wrap16(x: int) -> u16 {
    (x % 65536) as u16
}

/// Skips the next instruction when `c` holds.
pub open spec fn skip_if(s: Chip8State, c: bool) -> Chip8State {
    if c {
        Chip8State { pc: wrap16(s.pc + 2), ..s }
    } else {
        s
    }
}

/// The register file after an 8xyN instruction, or None for an unknown N.
/// VF is written first, then Vx from the registers as they then stand.
pub open spec fn alu8_spec(v: Seq<u8>, x: int, y: int, n: int) -> Option<Seq<u8>> {
    if n == 0 {
        Some(v.update(x, v[y]))
    } else if n == 1 {
        Some(v.update(x, v[x] | v[y]))
    } else if n == 2 {
        Some(v.update(x, v[x] & v[y]))
    } else if n == 3 {
        Some(v.update(x, v[x] ^ v[y]))
    } else if n == 4 {
        let sum = v[x] + v[y];
        Some(v.update(15, if sum > 255 { 1u8 } else { 0u8 }).update(x, (sum % 256) as u8))
    } else if n == 5 {
        let v1 = v.update(15, if v[x] >= v[y] { 1u8 } else { 0u8 });
        Some(v1.update(x, ((v1[x] - v1[y] + 256) % 256) as u8))
    } else if n == 6 {
        let v1 = v.update(15, v[x] % 2);
        Some(v1.update(x, v1[x] / 2))
    } else if n == 7 {
        let v1 = v.update(15, if v[y] >= v[x] { 1u8 } else { 0u8 });
        Some(v1.update(x, ((v1[y] - v1[x] + 256) % 256) as u8))
    } else if n == 14 {
        let v1 = v.update(15, v[x] / 128);
        Some(v1.update(x, ((v1[x] * 2) % 256) as u8))
    } else {
        None
    }
}

/// What one instruction does to the state, RAM and screen, given the keypad
/// and a random byte; PC already points past the instruction. On an error
/// nothing changes.
#[verifier::opaque]
pub open spec fn exec_spec(
    s: Chip8State,
    mem: Seq<u8>,
    scr: Seq<u8>,
    keys: Seq<bool>,
    instr: u16,
    rnd: u8,
) -> (Chip8State, Seq<u8>, Seq<u8>, Result<(), Chip8Error>) {
    let op = instr / 4096;
    let nnn = (instr % 4096) as u16;
    let x = ((instr / 256) % 16) as int;
    let y = ((instr / 16) % 16) as int;
    let n = (instr % 16) as int;
    let kk = (instr % 256) as u8;
    let ok = Ok::<(), Chip8Error>(());
    let unknown = Err::<(), Chip8Error>(Chip8Error::UnknownInstruction(instr));
    if op == 0 {
        if kk == 0xe0 {
            (s, mem, Seq::new(SCREEN_SIZE as nat, |k: int| 0u8), ok)
        } else if kk == 0xee {
            if s.stack.len() == 0 {
                (s, mem, scr, Err(Chip8Error::StackUnderflow))
            } else {
                (Chip8State { pc: s.stack.last(), stack: s.stack.drop_last(), ..s }, mem, scr, ok)
            }
        } else {
            (s, mem, scr, ok)
        }
    } else if op == 1 {
        (Chip8State { pc: nnn, ..s }, mem, scr, ok)
    } else if op == 2 {
        if s.stack.len() >= STACK_SIZE {
            (s, mem, scr, Err(Chip8Error::StackOverflow))
        } else {
            (Chip8State { pc: nnn, stack: s.stack.push(s.pc), ..s }, mem, scr, ok)
        }
    } else if op == 3 {
        (skip_if(s, s.v[x] == kk), mem, scr, ok)
    } else if op == 4 {
        (skip_if(s, s.v[x] != kk), mem, scr, ok)
    } else if op == 5 {
        (skip_if(s, s.v[x] == s.v[y]), mem, scr, ok)
    } else if op == 6 {
        (Chip8State { v: s.v.update(x, kk), ..s }, mem, scr, ok)
    } else if op == 7 {
        (Chip8State { v: s.v.update(x, ((s.v[x] + kk) % 256) as u8), ..s }, mem, scr, ok)
    } else if op == 8 {
        match alu8_spec(s.v, x, y, n) {
            Some(v) => (Chip8State { v, ..s }, mem, scr, ok),
            None => (s, mem, scr, unknown),
        }
    } else if op == 9 {
        (skip_if(s, s.v[x] != s.v[y]), mem, scr, ok)
    } else if op == 10 {
        (Chip8State { i: nnn, ..s }, mem, scr, ok)
    } else if op == 11 {
        (Chip8State { pc: (s.v[0] + nnn) as u16, ..s }, mem, scr, ok)
    } else if op == 12 {
        (Chip8State { v: s.v.update(x, rnd & kk), ..s }, mem, scr, ok)
    } else if op == 13 {
        if s.i + n > mem.len() {
            (s, mem, scr, Err(Chip8Error::AddressOutOfRange(s.i)))
        } else {
            let sprite = mem.subrange(s.i as int, s.i + n);
            let vx = s.v[x] as usize;
            let vy = s.v[y] as usize;
            (
                Chip8State {
                    v: s.v.update(
                        15,
                        if erased_rows(scr, vx, vy, sprite, n as nat) {
                            1u8
                        } else {
                            0u8
                        },
                    ),
                    ..s
                },
                mem,
                draw_rows(scr, vx, vy, sprite, n as nat),
                ok,
            )
        }
    } else if op == 14 {
        if kk != 0x9e && kk != 0xa1 {
            (s, mem, scr, unknown)
        } else if s.v[x] >= 16 {
            (s, mem, scr, Err(Chip8Error::KeyOutOfRange(s.v[x])))
        } else if kk == 0x9e {
            (skip_if(s, keys[s.v[x] as int]), mem, scr, ok)
        } else {
            (skip_if(s, !keys[s.v[x] as int]), mem, scr, ok)
        }
    } else {
        if kk == 0x07 {
            (Chip8State { v: s.v.update(x, s.delay), ..s }, mem, scr, ok)
        } else if kk == 0x0a {
            match first_pressed(keys, 0) {
                Some(k) => (Chip8State { v: s.v.update(x, k), ..s }, mem, scr, ok),
                None => (Chip8State { pc: wrap16(s.pc + 65536 - 2), ..s }, mem, scr, ok),
            }
        } else if kk == 0x15 {
            (Chip8State { delay: s.v[x], ..s }, mem, scr, ok)
        } else if kk == 0x18 {
            (Chip8State { sound: s.v[x], ..s }, mem, scr, ok)
        } else if kk == 0x1e {
            let i2 = wrap16(s.i + s.v[x]);
            (
                Chip8State {
                    i: i2,
                    v: s.v.update(
                        15,
                        if i2 >= RAM_BYTES {
                            1u8
                        } else {
                            0u8
                        },
                    ),
                    ..s
                },
                mem,
                scr,
                ok,
            )
        } else if kk == 0x29 {
            (Chip8State { i: digit_sprite_spec(s.v[x]), ..s }, mem, scr, ok)
        } else if kk == 0x33 {
            if s.i + 3 > mem.len() {
                (s, mem, scr, Err(Chip8Error::AddressOutOfRange(s.i)))
            } else {
                let vx = s.v[x];
                (
                    s,
                    mem.update(s.i as int, vx / 100).update(s.i + 1, (vx % 100) / 10).update(
                        s.i + 2,
                        vx % 10,
                    ),
                    scr,
                    ok,
                )
            }
        } else if kk == 0x55 {
            if s.i + x + 1 > mem.len() {
                (s, mem, scr, Err(Chip8Error::AddressOutOfRange(s.i)))
            } else {
                (
                    s,
                    Seq::new(
                        mem.len(),
                        |a: int|
                            if s.i <= a <= s.i + x {
                                s.v[a - s.i]
                            } else {
                                mem[a]
                            },
                    ),
                    scr,
                    ok,
                )
            }
        } else if kk == 0x65 {
            if s.i + x + 1 > mem.len() {
                (s, mem, scr, Err(Chip8Error::AddressOutOfRange(s.i)))
            } else {
                (
                    Chip8State {
                        v: Seq::new(
                            16,
                            |k: int|
                                if k <= x {
                                    mem[s.i + k]
                                } else {
                                    s.v[k]
                                },
                        ),
                        ..s
                    },
                    mem,
                    scr,
                    ok,
                )
            }
        } else if kk == 0x75 {
            (
                Chip8State {
                    rpl: Seq::new(
                        8,
                        |k: int|
                            if k <= x {
                                s.v[k]
                            } else {
                                s.rpl[k]
                            },
                    ),
                    ..s
                },
                mem,
                scr,
                ok,
            )
        } else if kk == 0x85 {
            (
                Chip8State {
                    v: Seq::new(
                        16,
                        |k: int|
                            if k <= x && k < 8 {
                                s.rpl[k]
                            } else {
                                s.v[k]
                            },
                    ),
                    ..s
                },
                mem,
                scr,
                ok,
            )
        } else {
            (s, mem, scr, unknown)
        }
    }
}

/// The register file, return stack and timers of the 4 KiB virtual machine.
pub struct Cpu {
    v: [u8; 16],
    pc: u16,
    i: u16,
    schip_rpl_flags: [u8; 8],
    stack: [u16; 16],
    stack_index: usize,
    delay_timer: Timer,
    sound_timer: Timer,
}

impl View for Cpu {
    type V = Chip8State;

    closed spec fn view(&self) -> Chip8State {
        Chip8State {
            v: self.v@,
            pc: self.pc,
            i: self.i,
            stack: self.stack@.subrange(0, self.stack_index as int),
            rpl: self.schip_rpl_flags@,
            delay: self.delay_timer.value_spec(),
            sound: self.sound_timer.value_spec(),
        }
    }
}

impl Cpu {
    pub closed spec fn wf(&self) -> bool {
        self.stack_index <= STACK_SIZE
    }

    pub fn new() -> (r: Cpu)
        ensures
            r.wf(),
            r@ == (Chip8State {
                v: Seq::new(16, |k: int| 0u8),
                pc: END_RESERVED,
                i: 0,
                stack: Seq::empty(),
                rpl: Seq::new(8, |k: int| 0u8),
                delay: 0,
                sound: 0,
            }),
    {
        let r = Cpu {
            v: [0;16],
            pc: END_RESERVED,
            i: 0,
            schip_rpl_flags: [0;8],
            stack: [0;16],
            stack_index: 0,
            delay_timer: Timer::new(),
            sound_timer: Timer::new(),
        };
        assert(r.stack@.subrange(0, 0) =~= Seq::<u16>::empty());
        assert(r.v@ =~= Seq::new(16, |k: int| 0u8));
        assert(r.schip_rpl_flags@ =~= Seq::new(8, |k: int| 0u8));
        r
    }

    /// Pushes a return address.
    pub fn push(&mut self, val: u16)
        requires
            old(self).wf(),
            old(self)@.stack.len() < STACK_SIZE,
        ensures
            final(self).wf(),
            final(self)@ == (Chip8State { stack: old(self)@.stack.push(val), ..old(self)@ }),
    {
        self.stack[self.stack_index] = val;
        self.stack_index = self.stack_index + 1;
        assert(self.stack@.subrange(0, self.stack_index as int) =~= old(self)@.stack.push(val));
    }

    /// Pops the last return address.
    pub fn pop(&mut self) -> (r: u16)
        requires
            old(self).wf(),
            old(self)@.stack.len() > 0,
        ensures
            final(self).wf(),
            r == old(self)@.stack.last(),
            final(self)@ == (Chip8State { stack: old(self)@.stack.drop_last(), ..old(self)@ }),
    {
        self.stack_index = self.stack_index - 1;
        assert(self.stack@.subrange(0, self.stack_index as int) =~= old(self)@.stack.drop_last());
        self.stack[self.stack_index]
    }

    /// Counts both timers down for the time that has passed; nothing else
    /// changes, and neither timer goes up.
    pub fn handle_timers(&mut self)
        ensures
            final(self).wf() == old(self).wf(),
            final(self)@ == (Chip8State {
                delay: final(self)@.delay,
                sound: final(self)@.sound,
                ..old(self)@
            }),
            final(self)@.delay <= old(self)@.delay,
            final(self)@.sound <= old(self)@.sound,
    {
        self.delay_timer.update();
        self.sound_timer.update();
    }

    /// Whether the sound timer still runs, so that the tone should play.
    pub fn sound_active(&self) -> (r: bool)
        ensures
            r == (self@.sound > 0),
    {
        self.sound_timer.get() > 0
    }

    /// Register Vx.
    pub fn reg(&self, x: usize) -> (r: u8)
        requires
            x < 16,
        ensures
            r == self@.v[x as int],
    {
        self.v[x]
    }

    pub fn pc(&self) -> (r: u16)
        ensures
            r == self@.pc,
    {
        self.pc
    }

    /// The address register I.
    pub fn index(&self) -> (r: u16)
        ensures
            r == self@.i,
    {
        self.i
    }

    /// Carries out one instruction word; PC already points past it.
    pub fn execute(&mut self, bus: &mut Interconnect, instr: u16, rnd: u8) -> (r: Result<
        (),
        Chip8Error,
    >)
        requires
            old(self).wf(),
            old(bus).wf(),
        ensures
            final(self).wf(),
            final(bus).wf(),
            final(bus).input == old(bus).input,
            (final(self)@, final(bus).mem@, final(bus).graphics@, r) == exec_spec(
                old(self)@,
                old(bus).mem@,
                old(bus).graphics@,
                old(bus).input.keys_spec(),
                instr,
                rnd,
            ),
    {
        let op = instr / 4096;
        if op == 0 || op == 1 || op == 2 || op == 11 {
            self.execute_flow(bus, instr, rnd)
        } else if op == 3 || op == 4 || op == 5 || op == 9 || op == 14 {
            self.execute_skip(bus, instr, rnd)
        } else if op == 6 || op == 7 || op == 8 || op == 10 || op == 12 {
            self.execute_reg(bus, instr, rnd)
        } else if op == 13 {
            self.execute_draw(bus, instr, rnd)
        } else {
            self.execute_misc(bus, instr, rnd)
        }
    }

    /// Fetches the instruction word at PC, moves PC past it, carries it out
    /// with a freshly drawn random byte, and counts the timers down. Returns
    /// whether the tone should sound; an error stops before the timers.
    pub fn step(&mut self, bus: &mut Interconnect) -> (r: Result<bool, Chip8Error>)
        requires
            old(self).wf(),
            old(bus).wf(),
        ensures
            final(self).wf(),
            final(bus).wf(),
            final(bus).input == old(bus).input,
            old(self)@.pc + 1 >= RAM_BYTES ==> r == Err::<bool, Chip8Error>(
                Chip8Error::AddressOutOfRange(old(self)@.pc),
            ) && final(self)@ == old(self)@ && final(bus).mem@ == old(bus).mem@
                && final(bus).graphics@ == old(bus).graphics@,
            old(self)@.pc + 1 < RAM_BYTES ==> exists|rnd: u8|
                {
                    let (s2, m2, g2, res) = #[trigger] exec_spec(
                        skip_if(old(self)@, true),
                        old(bus).mem@,
                        old(bus).graphics@,
                        old(bus).input.keys_spec(),
                        word_at(old(bus).mem@, old(self)@.pc as int),
                        rnd,
                    );
                    &&& final(bus).mem@ == m2
                    &&& final(bus).graphics@ == g2
                    &&& res matches Err(e) ==> r == Err::<bool, Chip8Error>(e) && final(self)@ == s2
                    &&& res is Ok ==> r == Ok::<bool, Chip8Error>(final(self)@.sound > 0)
                        && final(self)@ == (Chip8State {
                        delay: final(self)@.delay,
                        sound: final(self)@.sound,
                        ..s2
                    }) && final(self)@.delay <= s2.delay && final(self)@.sound <= s2.sound
                },
    {
        if self.pc as usize + 1 >= RAM_BYTES {
            return Err(Chip8Error::AddressOutOfRange(self.pc));
        }
        let instr = bus.mem.read_word(self.pc);
        self.pc = ((self.pc as u32 + 2) % 65536) as u16;
        let ghost s1 = self@;
        assert(s1 == skip_if(old(self)@, true));
        let ghost bus1 = *bus;
        let rnd = random_byte();
        let res = self.execute(bus, instr, rnd);
        let ghost out = exec_spec(
            s1,
            bus1.mem@,
            bus1.graphics@,
            bus1.input.keys_spec(),
            instr,
            rnd,
        );
        match res {
            Err(e) => {
                assert(out.3 == Err::<(), Chip8Error>(e) && self@ == out.0);
                Err(e)
            },
            Ok(()) => {
                let ghost s2 = self@;
                self.handle_timers();
                let r = self.sound_active();
                assert(s2 == out.0);
                assert(self@ == (Chip8State { delay: self@.delay, sound: self@.sound, ..out.0 }));
                Ok(r)
            },
        }
    }

    fn skip_next(&mut self)
        ensures
            final(self)@ == (Chip8State { pc: wrap16(old(self)@.pc + 2), ..old(self)@ }),
            final(self).wf() == old(self).wf(),
    {
        self.pc = ((self.pc as u32 + 2) % 65536) as u16;
    }

    fn execute_flow(&mut self, bus: &mut Interconnect, instr: u16, rnd: u8) -> (r: Result<(), Chip8Error>)
        requires
            old(self).wf(),
            old(bus).wf(),
            instr / 4096 == 0 || instr / 4096 == 1 || instr / 4096 == 2 || instr / 4096 == 11,
        ensures
            final(self).wf(),
            final(bus).wf(),
            final(bus).input == old(bus).input,
            (final(self)@, final(bus).mem@, final(bus).graphics@, r) == exec_spec(
                old(self)@,
                old(bus).mem@,
                old(bus).graphics@,
                old(bus).input.keys_spec(),
                instr,
                rnd,
            ),
    {
        proof {
            reveal(exec_spec);
        }
        let op = instr / 4096;
        let nnn = instr % 4096;
        let kk = (instr % 256) as u8;
        if op == 0 {
            if kk == 0xe0 {
                bus.graphics.clear();
            } else if kk == 0xee {
                if self.stack_index == 0 {
                    return Err(Chip8Error::StackUnderflow);
                }
                let ret = self.pop();
                self.pc = ret;
            }
        } else if op == 1 {
            self.pc = nnn;
        } else if op == 2 {
            if self.stack_index >= STACK_SIZE {
                return Err(Chip8Error::StackOverflow);
            }
            let pc = self.pc;
            self.push(pc);
            self.pc = nnn;
        } else {
            self.pc = self.v[0] as u16 + nnn;
        }
        Ok(())
    }

    fn execute_skip(&mut self, bus: &mut Interconnect, instr: u16, rnd: u8) -> (r: Result<(), Chip8Error>)
        requires
            old(self).wf(),
            old(bus).wf(),
            instr / 4096 == 3 || instr / 4096 == 4 || instr / 4096 == 5 || instr / 4096 == 9 || instr / 4096 == 14,
        ensures
            final(self).wf(),
            final(bus).wf(),
            final(bus).input == old(bus).input,
            (final(self)@, final(bus).mem@, final(bus).graphics@, r) == exec_spec(
                old(self)@,
                old(bus).mem@,
                old(bus).graphics@,
                old(bus).input.keys_spec(),
                instr,
                rnd,
            ),
    {
        proof {
            reveal(exec_spec);
        }
        let op = instr / 4096;
        let x = ((instr / 256) % 16) as usize;
        let y = ((instr / 16) % 16) as usize;
        let kk = (instr % 256) as u8;
        if op == 3 {
            if self.v[x] == kk {
                self.skip_next();
            }
        } else if op == 4 {
            if self.v[x] != kk {
                self.skip_next();
            }
        } else if op == 5 {
            if self.v[x] == self.v[y] {
                self.skip_next();
            }
        } else if op == 9 {
            if self.v[x] != self.v[y] {
                self.skip_next();
            }
        } else {
            if kk != 0x9e && kk != 0xa1 {
                return Err(Chip8Error::UnknownInstruction(instr));
            }
            let key = self.v[x];
            if key >= 16 {
                return Err(Chip8Error::KeyOutOfRange(key));
            }
            let pressed = bus.input.key_pressed(key);
            if (kk == 0x9e && pressed) || (kk == 0xa1 && !pressed) {
                self.skip_next();
            }
        }
        Ok(())
    }

    fn execute_reg(&mut self, bus: &mut Interconnect, instr: u16, rnd: u8) -> (r: Result<(), Chip8Error>)
        requires
            old(self).wf(),
            old(bus).wf(),
            instr / 4096 == 6 || instr / 4096 == 7 || instr / 4096 == 8 || instr / 4096 == 10 || instr / 4096 == 12,
        ensures
            final(self).wf(),
            final(bus).wf(),
            final(bus).input == old(bus).input,
            (final(self)@, final(bus).mem@, final(bus).graphics@, r) == exec_spec(
                old(self)@,
                old(bus).mem@,
                old(bus).graphics@,
                old(bus).input.keys_spec(),
                instr,
                rnd,
            ),
    {
        proof {
            reveal(exec_spec);
        }
        let op = instr / 4096;
        let nnn = instr % 4096;
        let x = ((instr / 256) % 16) as usize;
        let y = ((instr / 16) % 16) as usize;
        let n = instr % 16;
        let kk = (instr % 256) as u8;
        if op == 6 {
            self.v[x] = kk;
        } else if op == 7 {
            self.v[x] = ((self.v[x] as u16 + kk as u16) % 256) as u8;
        } else if op == 10 {
            self.i = nnn;
        } else if op == 12 {
            self.v[x] = rnd & kk;
        } else {
            if n == 0 {
                self.v[x] = self.v[y];
            } else if n == 1 {
                self.v[x] = self.v[x] | self.v[y];
            } else if n == 2 {
                self.v[x] = self.v[x] & self.v[y];
            } else if n == 3 {
                self.v[x] = self.v[x] ^ self.v[y];
            } else if n == 4 {
                let sum = self.v[x] as u16 + self.v[y] as u16;
                self.v[15] = if sum > 255 {
                    1
                } else {
                    0
                };
                self.v[x] = (sum % 256) as u8;
            } else if n == 5 {
                self.v[15] = if self.v[x] >= self.v[y] {
                    1
                } else {
                    0
                };
                self.v[x] = ((self.v[x] as u16 + 256 - self.v[y] as u16) % 256) as u8;
            } else if n == 6 {
                self.v[15] = self.v[x] % 2;
                self.v[x] = self.v[x] / 2;
            } else if n == 7 {
                self.v[15] = if self.v[y] >= self.v[x] {
                    1
                } else {
                    0
                };
                self.v[x] = ((self.v[y] as u16 + 256 - self.v[x] as u16) % 256) as u8;
            } else if n == 14 {
                self.v[15] = self.v[x] / 128;
                self.v[x] = ((self.v[x] as u16 * 2) % 256) as u8;
            } else {
                return Err(Chip8Error::UnknownInstruction(instr));
            }
            proof {
                assert(self.v@ =~= alu8_spec(old(self)@.v, x as int, y as int, n as int).unwrap());
            }
        }
        Ok(())
    }

    fn execute_draw(&mut self, bus: &mut Interconnect, instr: u16, rnd: u8) -> (r: Result<(), Chip8Error>)
        requires
            old(self).wf(),
            old(bus).wf(),
            instr / 4096 == 13,
        ensures
            final(self).wf(),
            final(bus).wf(),
            final(bus).input == old(bus).input,
            (final(self)@, final(bus).mem@, final(bus).graphics@, r) == exec_spec(
                old(self)@,
                old(bus).mem@,
                old(bus).graphics@,
                old(bus).input.keys_spec(),
                instr,
                rnd,
            ),
    {
        proof {
            reveal(exec_spec);
        }
        let x = ((instr / 256) % 16) as usize;
        let y = ((instr / 16) % 16) as usize;
        let n = instr % 16;
        if self.i as usize + n as usize > RAM_BYTES {
            return Err(Chip8Error::AddressOutOfRange(self.i));
        }
        let mut sprite: Vec<u8> = Vec::new();
        let mut k: u16 = 0;
        while k < n
            invariant
                k <= n,
                n < 16,
                self.i + n <= RAM_BYTES,
                bus.wf(),
                sprite@ == bus.mem@.subrange(self.i as int, self.i + k),
            decreases n - k,
        {
            sprite.push(bus.mem.read_byte(self.i + k));
            k = k + 1;
            assert(sprite@ =~= bus.mem@.subrange(self.i as int, self.i + k));
        }
        let ghost sprite_seq = sprite@;
        let collision = bus.graphics.draw(self.v[x] as usize, self.v[y] as usize, sprite);
        proof {
            lemma_draw_rows_len(
                old(bus).graphics@,
                self.v@[x as int] as usize,
                self.v@[y as int] as usize,
                sprite_seq,
                n as nat,
            );
        }
        self.v[15] = collision;
        Ok(())
    }

    fn execute_misc(&mut self, bus: &mut Interconnect, instr: u16, rnd: u8) -> (r: Result<(), Chip8Error>)
        requires
            old(self).wf(),
            old(bus).wf(),
            instr / 4096 == 15,
        ensures
            final(self).wf(),
            final(bus).wf(),
            final(bus).input == old(bus).input,
            (final(self)@, final(bus).mem@, final(bus).graphics@, r) == exec_spec(
                old(self)@,
                old(bus).mem@,
                old(bus).graphics@,
                old(bus).input.keys_spec(),
                instr,
                rnd,
            ),
    {
        proof {
            reveal(exec_spec);
        }
        let x = ((instr / 256) % 16) as usize;
        let kk = (instr % 256) as u8;
        if kk == 0x07 {
            self.v[x] = self.delay_timer.get();
        } else if kk == 0x0a {
            match bus.input.any_key_pressed() {
                Some(index) => {
                    self.v[x] = index;
                },
                None => {
                    self.pc = ((self.pc as u32 + 65534) % 65536) as u16;
                },
            }
        } else if kk == 0x15 {
            let val = self.v[x];
            self.delay_timer.set(val);
        } else if kk == 0x18 {
            let val = self.v[x];
            self.sound_timer.set(val);
        } else if kk == 0x1e {
            self.i = ((self.i as u32 + self.v[x] as u32) % 65536) as u16;
            self.v[15] = if self.i as usize >= RAM_BYTES {
                1
            } else {
                0
            };
        } else if kk == 0x29 {
            let val = self.v[x];
            self.i = bus.mem.get_digit_sprite(val);
        } else if kk == 0x33 {
            if self.i as usize + 3 > RAM_BYTES {
                return Err(Chip8Error::AddressOutOfRange(self.i));
            }
            let val = self.v[x];
            bus.mem.write_byte(self.i, val / 100);
            bus.mem.write_byte(self.i + 1, (val % 100) / 10);
            bus.mem.write_byte(self.i + 2, val % 10);
        } else if kk == 0x55 {
            if self.i as usize + x + 1 > RAM_BYTES {
                return Err(Chip8Error::AddressOutOfRange(self.i));
            }
            let mut k: usize = 0;
            while k <= x
                invariant
                    x < 16,
                    k <= x + 1,
                    self.i + x + 1 <= RAM_BYTES,
                    bus.wf(),
                    bus.graphics@ == old(bus).graphics@,
                    bus.input == old(bus).input,
                    *self == *old(self),
                    forall|a: int|
                        0 <= a < RAM_BYTES ==> #[trigger] bus.mem@[a] == if self.i <= a < self.i + k {
                            self.v@[a - self.i]
                        } else {
                            old(bus).mem@[a]
                        },
                decreases x + 1 - k,
            {
                bus.mem.write_byte(self.i + k as u16, self.v[k]);
                k = k + 1;
            }
            proof {
                assert(bus.mem@ =~= Seq::new(
                    old(bus).mem@.len(),
                    |a: int|
                        if self.i <= a <= self.i + x {
                            self.v@[a - self.i]
                        } else {
                            old(bus).mem@[a]
                        },
                ));
            }
        } else if kk == 0x65 {
            if self.i as usize + x + 1 > RAM_BYTES {
                return Err(Chip8Error::AddressOutOfRange(self.i));
            }
            let mut k: usize = 0;
            while k <= x
                invariant
                    x < 16,
                    k <= x + 1,
                    self.i + x + 1 <= RAM_BYTES,
                    bus.wf(),
                    self.wf(),
                    self@ == (Chip8State { v: self@.v, ..old(self)@ }),
                    self.v@.len() == 16,
                    forall|j: int|
                        0 <= j < 16 ==> #[trigger] self.v@[j] == if j < k {
                            bus.mem@[self.i + j]
                        } else {
                            old(self).v@[j]
                        },
                decreases x + 1 - k,
            {
                self.v[k] = bus.mem.read_byte(self.i + k as u16);
                k = k + 1;
            }
            proof {
                assert(self.v@ =~= Seq::new(
                    16,
                    |j: int|
                        if j <= x {
                            bus.mem@[old(self).i + j]
                        } else {
                            old(self).v@[j]
                        },
                ));
            }
        } else if kk == 0x75 {
            let mut k: usize = 0;
            while k <= x && k < 8
                invariant
                    x < 16,
                    k <= 8,
                    self.wf(),
                    self@ == (Chip8State { rpl: self@.rpl, ..old(self)@ }),
                    self.schip_rpl_flags@.len() == 8,
                    forall|j: int|
                        0 <= j < 8 ==> #[trigger] self.schip_rpl_flags@[j] == if j < k && j <= x {
                            self.v@[j]
                        } else {
                            old(self).schip_rpl_flags@[j]
                        },
                decreases 8 - k,
            {
                self.schip_rpl_flags[k] = self.v[k];
                k = k + 1;
            }
            proof {
                assert(self.schip_rpl_flags@ =~= Seq::new(
                    8,
                    |j: int|
                        if j <= x {
                            old(self).v@[j]
                        } else {
                            old(self).schip_rpl_flags@[j]
                        },
                ));
            }
        } else if kk == 0x85 {
            let mut k: usize = 0;
            while k <= x && k < 8
                invariant
                    x < 16,
                    k <= 8,
                    self.wf(),
                    self@ == (Chip8State { v: self@.v, ..old(self)@ }),
                    self.v@.len() == 16,
                    forall|j: int|
                        0 <= j < 16 ==> #[trigger] self.v@[j] == if j < k && j <= x {
                            old(self).schip_rpl_flags@[j]
                        } else {
                            old(self).v@[j]
                        },
                decreases 8 - k,
            {
                self.v[k] = self.schip_rpl_flags[k];
                k = k + 1;
            }
            proof {
                assert(self.v@ =~= Seq::new(
                    16,
                    |j: int|
                        if j <= x && j < 8 {
                            old(self).schip_rpl_flags@[j]
                        } else {
                            old(self).v@[j]
                        },
                ));
            }
        } else {
            return Err(Chip8Error::UnknownInstruction(instr));
        }
        Ok(())
    }

}

} // verus!
