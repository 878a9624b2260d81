use vstd::prelude::*;

verus! {

/// The rate of the counter, by the divider bit whose falling edge ticks it.
#[derive(Clone, Copy, PartialEq, Eq, Structural, Debug)]
pub enum Clock {
    /// Select 00: divider bit 9.
    C4KHz,
    /// Select 01: divider bit 3.
    C256KHz,
    /// Select 10: divider bit 5.
    C64KHz,
    /// Select 11: divider bit 7.
    C16KHz,
}

/// The divider and the programmable counter.
#[derive(Clone, Copy, PartialEq, Eq, Structural, Debug)]
pub struct Timer {
    /// Free-running, one count per cycle; the register shows its upper byte.
    pub divider_reg: u16,
    pub counter: u8,
    pub modulo: u8,
    pub enabled: bool,
    pub input_clock: Clock,
}

pub open spec fn clock_bit(c: Clock) -> u16 {
    match c {
        Clock::C4KHz => 9,
        Clock::C256KHz => 3,
        Clock::C64KHz => 5,
        Clock::C16KHz => 7,
    }
}

pub open spec fn clock_of(v: u8) -> Clock {
    match v & 0x03 {
        0 => Clock::C4KHz,
        1 => Clock::C256KHz,
        2 => Clock::C64KHz,
        _ => Clock::C16KHz,
    }
}

pub open spec fn clock_code(c: Clock) -> u8 {
    match c {
        Clock::C4KHz => 0,
        Clock::C256KHz => 1,
        Clock::C64KHz => 2,
        Clock::C16KHz => 3,
    }
}

impl Timer {
    /// The signal whose falling edge ticks the counter: the selected divider bit, gated by
    /// the enable flag.
    pub open spec fn signal(self) -> bool {
        self.enabled && (self.divider_reg >> clock_bit(self.input_clock)) & 1 == 1
    }

    /// One tick of the counter: reload from the modulo on 8-bit overflow, which is reported.
    pub open spec fn count(self) -> (Timer, bool) {
        if self.counter == 0xFF {
            (Timer { counter: self.modulo, ..self }, true)
        } else {
            (Timer { counter: (self.counter + 1) as u8, ..self }, false)
        }
    }

    /// One cycle: the divider advances, and the counter ticks on a falling edge.
    pub open spec fn cycle(self) -> (Timer, bool) {
        let next = Timer { divider_reg: (((self.divider_reg as u32) + 1) % 65536) as u16, ..self };
        if self.signal() && !next.signal() {
            next.count()
        } else {
            (next, false)
        }
    }

    /// `n` cycles; the flag says whether the counter overflowed in any of them.
    pub open spec fn run(self, n: nat) -> (Timer, bool)
        decreases n,
    {
        if n == 0 {
            (self, false)
        } else {
            let p = self.run((n - 1) as nat);
            let q = p.0.cycle();
            (q.0, p.1 || q.1)
        }
    }

    /// A write to the divider register clears the divider; if that makes the selected bit
    /// fall, the counter ticks.
    pub open spec fn after_div_write(self) -> (Timer, bool) {
        let cleared = Timer { divider_reg: 0, ..self };
        if self.signal() {
            cleared.count()
        } else {
            (cleared, false)
        }
    }

    pub open spec fn timer_control(self) -> u8 {
        (if self.enabled { 0x04u8 } else { 0u8 }) | clock_code(self.input_clock)
    }

    pub open spec fn initial() -> Timer {
        Timer { divider_reg: 0, counter: 0, modulo: 0, enabled: false, input_clock: Clock::C4KHz }
    }

    pub fn new() -> (r: Timer)
        ensures
            r == Timer::initial(),
    {
        Timer { divider_reg: 0, counter: 0, modulo: 0, enabled: false, input_clock: Clock::C4KHz }
    }

    fn signal_now(&self) -> (r: bool)
        ensures
            r == self.signal(),
    {
        let bit: u16 = match self.input_clock {
            Clock::C4KHz => 9,
            Clock::C256KHz => 3,
            Clock::C64KHz => 5,
            Clock::C16KHz => 7,
        };
        self.enabled && (self.divider_reg >> bit) & 1 == 1
    }

    fn tick_counter(&mut self) -> (r: bool)
        ensures
            (*final(self), r) == old(self).count(),
    {
        if self.counter == 0xFF {
            self.counter = self.modulo;
            true
        } else {
            self.counter = self.counter + 1;
            false
        }
    }

    /// Advances by `cycles` clock cycles; returns whether the counter overflowed.
    pub fn step(&mut self, cycles: usize) -> (r: bool)
        ensures
            (*final(self), r) == old(self).run(cycles as nat),
    {
        let mut overflow = false;
        let mut i: usize = 0;
        while i < cycles
            invariant
                i <= cycles,
                (*self, overflow) == old(self).run(i as nat),
            decreases cycles - i,
        {
            let before = self.signal_now();
            self.divider_reg = (((self.divider_reg as u32) + 1) % 65536) as u16;
            let after = self.signal_now();
            if before && !after {
                let o = self.tick_counter();
                overflow = overflow || o;
            }
            i = i + 1;
        }
        overflow
    }

    pub fn read_div_reg(&self) -> (r: u8)
        ensures
            r == (self.divider_reg / 256) as u8,
    {
        (self.divider_reg / 256) as u8
    }

    /// Any write clears the divider; when that makes the selected bit fall, the counter
    /// ticks. Returns whether it overflowed.
    pub fn write_div_reg(&mut self) -> (r: bool)
        ensures
            (*final(self), r) == old(self).after_div_write(),
    {
        let before = self.signal_now();
        self.divider_reg = 0;
        proof {
            let b = clock_bit(self.input_clock);
            assert((0u16 >> b) & 1 == 0) by (bit_vector);
        }
        if before {
            self.tick_counter()
        } else {
            false
        }
    }

    pub fn read_counter(&self) -> (r: u8)
        ensures
            r == self.counter,
    {
        self.counter
    }

    pub fn write_counter(&mut self, value: u8)
        ensures
            *final(self) == (Timer { counter: value, ..*old(self) }),
    {
        self.counter = value;
    }

    pub fn read_timer_control(&self) -> (r: u8)
        ensures
            r == self.timer_control(),
    {
        let bit2: u8 = if self.enabled { 0x04 } else { 0 };
        let bits10: u8 = match self.input_clock {
            Clock::C4KHz => 0,
            Clock::C256KHz => 1,
            Clock::C64KHz => 2,
            Clock::C16KHz => 3,
        };
        bit2 | bits10
    }

    pub fn write_timer_control(&mut self, value: u8)
        ensures
            *final(self) == (Timer { enabled: value & 0x04 != 0, input_clock: clock_of(value), ..*old(self) }),
    {
        self.enabled = value & 0x04 != 0;
        self.input_clock = match value & 0x03 {
            0 => Clock::C4KHz,
            1 => Clock::C256KHz,
            2 => Clock::C64KHz,
            _ => Clock::C16KHz,
        };
    }
}

} // verus!
