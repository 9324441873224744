use vstd::prelude::*;

verus! {

/// Cycles of the audio timer's counter between two firings.
pub const TIMER_PERIOD: u32 = 0x0040_0000;

/// Advances a unit by one tick of the frame sequencer.
pub trait AudioStep {
    fn step(&mut self, frame_seq: &FrameSequencer);
}

/// A unit that produces a signal.
pub trait AudioSource: AudioStep {
    fn generate(&mut self) -> u16;
}

/// A unit that shapes the signal of the unit before it.
pub trait AudioProcess: AudioStep {
    fn process(&mut self, audio: u16) -> u16;
}

/// The eight-state sequencer that clocks length, volume and sweep units.
pub struct FrameSequencer {
    state: u8,
}

impl View for FrameSequencer {
    type V = u8;

    closed spec fn view(&self) -> u8 {
        self.state
    }
}

impl Default for FrameSequencer {
    fn default() -> (r: FrameSequencer)
        ensures
            r@ == 0,
    {
        FrameSequencer { state: 0 }
    }
}

impl FrameSequencer {
    pub fn step(&mut self)
        ensures
            final(self)@ == (old(self)@ + 1) % 8,
    {
        self.state = ((self.state as u16 + 1) % 8) as u8;
    }

    /// Length units are clocked on even states.
    pub fn length_clock(&self) -> (r: bool)
        ensures
            r == (self@ % 2 == 0),
    {
        self.state % 2 == 0
    }

    /// Volume units are clocked on state 7.
    pub fn volume_clock(&self) -> (r: bool)
        ensures
            r == (self@ == 7),
    {
        self.state == 7
    }

    /// Sweep units are clocked on states 2 and 6.
    pub fn sweep_clock(&self) -> (r: bool)
        ensures
            r == (self@ == 2 || self@ == 6),
    {
        self.state == 2 || self.state == 6
    }
}

/// A frequency timer: each step adds the frequency to a counter and fires
/// when the counter passes the period.
pub struct Timer {
    frequency: u16,
    counter: u32,
    fired: bool,
}

impl Default for Timer {
    fn default() -> (r: Timer)
        ensures
            r.frequency_spec() == 0,
            r.counter_spec() == 0,
            !r.fired_spec(),
    {
        Timer { frequency: 0, counter: 0, fired: false }
    }
}

impl Timer {
    pub closed spec fn frequency_spec(&self) -> u16 {
        self.frequency
    }

    pub closed spec fn counter_spec(&self) -> u32 {
        self.counter
    }

    pub closed spec fn fired_spec(&self) -> bool {
        self.fired
    }

    /// Whether the last step fired.
    pub fn clock(&self) -> (r: bool)
        ensures
            r == self.fired_spec(),
    {
        self.fired
    }

    pub fn set_frequency(&mut self, frequency: u16)
        ensures
            final(self).frequency_spec() == frequency,
            final(self).counter_spec() == 0,
            final(self).fired_spec() == old(self).fired_spec(),
    {
        self.frequency = frequency;
        self.counter = 0;
    }

    /// One step: adds the frequency to the counter; fires, and takes the
    /// period off, when the counter passes the period.
    pub fn tick(&mut self)
        ensures
            final(self).frequency_spec() == old(self).frequency_spec(),
            final(self).fired_spec() == (old(self).counter_spec() + old(self).frequency_spec()
                > TIMER_PERIOD),
            final(self).counter_spec() == if final(self).fired_spec() {
                old(self).counter_spec() + old(self).frequency_spec() - TIMER_PERIOD
            } else {
                old(self).counter_spec() + old(self).frequency_spec()
            },
    {
        let sum: u64 = self.counter as u64 + self.frequency as u64;
        if sum > TIMER_PERIOD as u64 {
            self.counter = (sum - TIMER_PERIOD as u64) as u32;
            self.fired = true;
        } else {
            self.counter = sum as u32;
            self.fired = false;
        }
    }

    /// 1 when the last step fired, else 0.
    pub fn level(&self) -> (r: u16)
        ensures
            r == if self.fired_spec() {
                1u16
            } else {
                0u16
            },
    {
        if self.fired {
            1
        } else {
            0
        }
    }

    /// A non-zero input becomes the new frequency (and restarts the
    /// counter); the output is the firing level.
    pub fn apply(&mut self, audio: u16) -> (r: u16)
        ensures
            audio != 0 ==> final(self).frequency_spec() == audio && final(self).counter_spec() == 0,
            audio == 0 ==> final(self).frequency_spec() == old(self).frequency_spec()
                && final(self).counter_spec() == old(self).counter_spec(),
            final(self).fired_spec() == old(self).fired_spec(),
            r == if old(self).fired_spec() {
                1u16
            } else {
                0u16
            },
    {
        if audio != 0 {
            self.set_frequency(audio);
        }
        self.level()
    }
}

impl AudioStep for Timer {
    fn step(&mut self, frame_seq: &FrameSequencer) {
        self.tick();
    }
}

impl AudioSource for Timer {
    fn generate(&mut self) -> u16 {
        self.level()
    }
}

impl AudioProcess for Timer {
    fn process(&mut self, audio: u16) -> u16 {
        self.apply(audio)
    }
}

/// Silences its channel once the counter runs out.
pub struct LengthCounter {
    counter: u8,
    enabled: bool,
}

impl Default for LengthCounter {
    fn default() -> (r: LengthCounter)
        ensures
            r.counter_spec() == 0,
            !r.enabled_spec(),
    {
        LengthCounter { counter: 0, enabled: false }
    }
}

impl LengthCounter {
    pub closed spec fn counter_spec(&self) -> u8 {
        self.counter
    }

    pub closed spec fn enabled_spec(&self) -> bool {
        self.enabled
    }

    pub fn set_counter(&mut self, val: u8)
        ensures
            final(self).counter_spec() == val,
            final(self).enabled_spec() == old(self).enabled_spec(),
    {
        self.counter = val;
    }

    /// On a length clock an enabled counter counts down, and the channel is
    /// disabled when it reaches zero.
    pub fn tick(&mut self, frame_seq: &FrameSequencer)
        ensures
            !(old(self).enabled_spec() && frame_seq@ % 2 == 0) ==> *final(self) == *old(self),
            old(self).enabled_spec() && frame_seq@ % 2 == 0 ==> ({
                let n = if old(self).counter_spec() > 0 {
                    (old(self).counter_spec() - 1) as u8
                } else {
                    0u8
                };
                final(self).counter_spec() == n && final(self).enabled_spec() == (n != 0)
            }),
    {
        if self.enabled && frame_seq.length_clock() {
            if self.counter > 0 {
                self.counter = self.counter - 1;
            }
            if self.counter == 0 {
                self.enabled = false;
            }
        }
    }

    /// 1 while enabled and the input is non-zero, else 0.
    pub fn apply(&self, audio: u16) -> (r: u16)
        ensures
            r == if self.enabled_spec() && audio != 0 {
                1u16
            } else {
                0u16
            },
    {
        if self.enabled && audio != 0 {
            1
        } else {
            0
        }
    }
}

impl AudioStep for LengthCounter {
    fn step(&mut self, frame_seq: &FrameSequencer) {
        self.tick(frame_seq);
    }
}

impl AudioProcess for LengthCounter {
    fn process(&mut self, audio: u16) -> u16 {
        self.apply(audio)
    }
}

/// Scales its input by a volume that steps up to 15 or down to 0.
pub struct VolumeEnvelope {
    counter: u8,
    increment: bool,
}

impl Default for VolumeEnvelope {
    fn default() -> (r: VolumeEnvelope)
        ensures
            r.volume_spec() == 0,
            !r.increment_spec(),
    {
        VolumeEnvelope { counter: 0, increment: false }
    }
}

impl VolumeEnvelope {
    pub closed spec fn volume_spec(&self) -> u8 {
        self.counter
    }

    pub closed spec fn increment_spec(&self) -> bool {
        self.increment
    }

    pub fn set_volume(&mut self, volume: u8, increment: bool)
        ensures
            final(self).volume_spec() == volume,
            final(self).increment_spec() == increment,
    {
        self.counter = volume;
        self.increment = increment;
    }

    /// On a volume clock the volume steps up (to 15 at most) or down (to 0 at
    /// least).
    pub fn tick(&mut self, frame_seq: &FrameSequencer)
        ensures
            final(self).increment_spec() == old(self).increment_spec(),
            frame_seq@ != 7 ==> final(self).volume_spec() == old(self).volume_spec(),
            frame_seq@ == 7 && old(self).increment_spec() ==> final(self).volume_spec() == if old(
                self,
            ).volume_spec() < 15 {
                (old(self).volume_spec() + 1) as u8
            } else {
                15u8
            },
            frame_seq@ == 7 && !old(self).increment_spec() ==> final(self).volume_spec() == if old(
                self,
            ).volume_spec() > 0 {
                (old(self).volume_spec() - 1) as u8
            } else {
                0u8
            },
    {
        if frame_seq.volume_clock() {
            if self.increment {
                if self.counter < 15 {
                    self.counter = self.counter + 1;
                } else {
                    self.counter = 15;
                }
            } else if self.counter > 0 {
                self.counter = self.counter - 1;
            }
        }
    }

    /// The volume while the input is non-zero, else 0.
    pub fn apply(&self, audio: u16) -> (r: u16)
        ensures
            r == if audio != 0 {
                self.volume_spec() as u16
            } else {
                0u16
            },
    {
        if audio != 0 {
            self.counter as u16
        } else {
            0
        }
    }
}

impl AudioStep for VolumeEnvelope {
    fn step(&mut self, frame_seq: &FrameSequencer) {
        self.tick(frame_seq);
    }
}

impl AudioProcess for VolumeEnvelope {
    fn process(&mut self, audio: u16) -> u16 {
        self.apply(audio)
    }
}

/// The 8-step pattern of duty setting `duty`: 12.5%, 25%, 50% or 75%.
pub open spec fn waveform_spec(duty: u8) -> u16 {
    if duty == 0 {
        0b00000001
    } else if duty == 1 {
        0b10000001
    } else if duty == 2 {
        0b10000111
    } else {
        0b01111110
    }
}

/// A square wave of one of four duty patterns.
pub struct SquareWave {
    duty: u8,
    state: u8,
}

impl Default for SquareWave {
    fn default() -> (r: SquareWave)
        ensures
            r.duty_spec() == 0,
            r.state_spec() == 0,
    {
        SquareWave { duty: 0, state: 0 }
    }
}

impl SquareWave {
    pub closed spec fn duty_spec(&self) -> u8 {
        self.duty
    }

    pub closed spec fn state_spec(&self) -> u8 {
        self.state
    }

    /// A non-zero input advances the position in the pattern; the output is
    /// the pattern shifted right by the position.
    pub fn apply(&mut self, audio: u16) -> (r: u16)
        ensures
            final(self).duty_spec() == old(self).duty_spec(),
            final(self).state_spec() == if audio != 0 {
                ((old(self).state_spec() + 1) % 8) as u8
            } else {
                old(self).state_spec()
            },
            r == waveform_spec(old(self).duty_spec()) >> ((final(self).state_spec() % 8) as u16),
    {
        if audio != 0 {
            self.state = ((self.state as u16 + 1) % 8) as u8;
        }
        let waveform: u16 = if self.duty == 0 {
            0b00000001
        } else if self.duty == 1 {
            0b10000001
        } else if self.duty == 2 {
            0b10000111
        } else {
            0b01111110
        };
        waveform >> ((self.state % 8) as u16)
    }
}

impl AudioStep for SquareWave {
    fn step(&mut self, frame_seq: &FrameSequencer) {
    }
}

impl AudioProcess for SquareWave {
    fn process(&mut self, audio: u16) -> u16 {
        self.apply(audio)
    }
}

/// The frequency sweep unit; it produces no signal of its own.
pub struct Sweep {}

impl Default for Sweep {
    fn default() -> (r: Sweep) {
        Sweep {  }
    }
}

impl AudioStep for Sweep {
    fn step(&mut self, frame_seq: &FrameSequencer) {
    }
}

impl AudioSource for Sweep {
    fn generate(&mut self) -> u16 {
        0
    }
}

/// The first square channel: sweep, timer, duty, length and envelope in a chain.
pub struct Channel1 {
    sweep: Sweep,
    timer: Timer,
    duty: SquareWave,
    length: LengthCounter,
    envelope: VolumeEnvelope,
}

impl Channel1 {
    pub fn new() -> (r: Self) {
        Channel1 {
            sweep: Sweep::default(),
            timer: Timer::default(),
            duty: SquareWave::default(),
            length: LengthCounter::default(),
            envelope: VolumeEnvelope::default(),
        }
    }
}

impl AudioStep for Channel1 {
    fn step(&mut self, frame_seq: &FrameSequencer) {
        self.sweep.step(frame_seq);
        self.timer.step(frame_seq);
        self.duty.step(frame_seq);
        self.length.step(frame_seq);
        self.envelope.step(frame_seq);
    }
}

impl AudioSource for Channel1 {
    fn generate(&mut self) -> u16 {
        let sweep = self.sweep.generate();
        let timer = self.timer.process(sweep);
        let duty = self.duty.process(timer);
        let length = self.length.process(duty);
        self.envelope.process(length)
    }
}

} // verus!
