//! The 8253 programmable interval timer: three counters, each ticking every
//! 838 ns of simulated time once its count is loaded.
use vstd::prelude::*;

verus! {

/// Simulated nanoseconds between two ticks of a counter (1.193182 MHz).
pub const TICK_NANOS: u64 = 838;

#[derive(Clone, Copy, Debug, PartialEq, Eq, Structural)]
pub enum Mode {
    Interrupt,
    OneShot,
    RateGenerator,
    SquareWave,
    SoftwareStrobe,
    HardwareStrobe,
}

/// Which bytes of the count a read or write moves.
#[derive(Clone, Copy, Debug, PartialEq, Eq, Structural)]
pub enum Access {
    LSB,
    MSB,
    LSBThenMSB,
}

/// What one tick of a counter leads to.
#[derive(Clone, Copy, Debug, PartialEq, Eq, Structural)]
pub struct Tick {
    /// The counter reached zero in interrupt mode: the board is told.
    pub interrupt: bool,
    /// Another tick is due `TICK_NANOS` from now.
    pub reschedule: bool,
}

#[derive(Clone, Copy, Debug, PartialEq, Eq, Structural)]
pub struct Counter {
    pub select_counter: u8,
    pub enabled: bool,
    pub latched: bool,
    pub initial_count_register: u16,
    pub counting_element: u16,
    pub output_latch: u16,
    pub mode: Mode,
    pub access: Access,
    /// The low byte of a two-byte count or read in progress.
    pub low_count: Option<u16>,
}

/// The mode that bits 3:1 of a control word select.
pub open spec fn mode_of(value: u8) -> Mode {
    let m = (value / 2) % 8;
    if m == 0 {
        Mode::Interrupt
    } else if m == 1 {
        Mode::OneShot
    } else if m == 2 || m == 6 {
        Mode::RateGenerator
    } else if m == 3 || m == 7 {
        Mode::SquareWave
    } else if m == 4 {
        Mode::SoftwareStrobe
    } else {
        Mode::HardwareStrobe
    }
}

/// The access that bits 5:4 of a (non-latch) control word select.
pub open spec fn access_of(value: u8) -> Access {
    let a = (value / 16) % 4;
    if a == 1 {
        Access::LSB
    } else if a == 2 {
        Access::MSB
    } else {
        Access::LSBThenMSB
    }
}

/// A counter after power-on: enabled with nothing loaded, in square-wave
/// mode with one-byte access.
pub open spec fn fresh_counter(select_counter: u8) -> Counter {
    Counter {
        select_counter,
        enabled: true,
        latched: false,
        initial_count_register: 0,
        counting_element: 0,
        output_latch: 0,
        mode: Mode::SquareWave,
        access: Access::LSB,
        low_count: None,
    }
}

/// A counter after a count byte `value` is written (see `set_count`).
#[verifier::opaque]
pub open spec fn count_written(o: Counter, value: u8) -> Counter {
    let full: Option<u16> = match o.access {
        Access::LSB => Some(value as u16),
        Access::MSB => Some((value * 256) as u16),
        Access::LSBThenMSB => match o.low_count {
            None => None,
            Some(low) => Some(((low + value * 256) % 0x1_0000) as u16),
        },
    };
    match full {
        Some(count) => Counter {
            initial_count_register: count,
            counting_element: count,
            enabled: true,
            low_count: None,
            ..o
        },
        None => Counter { low_count: Some(value as u16), ..o },
    }
}

/// Whether writing a count byte completes the count.
pub open spec fn count_completes(o: Counter) -> bool {
    !(o.access == Access::LSBThenMSB && o.low_count is None)
}

/// The byte a count read returns (see `get_count`).
pub open spec fn count_read(o: Counter) -> u8 {
    let low = (o.output_latch % 256) as u8;
    let high = (o.output_latch / 256) as u8;
    match o.access {
        Access::LSB => low,
        Access::MSB => high,
        Access::LSBThenMSB => if o.low_count is None { low } else { high },
    }
}

/// A counter after a count read.
pub open spec fn after_count_read(o: Counter) -> Counter {
    match o.access {
        Access::LSBThenMSB => match o.low_count {
            None => Counter { low_count: Some(0), ..o },
            Some(_) => Counter { low_count: None, latched: false, ..o },
        },
        _ => Counter { latched: false, ..o },
    }
}

/// Whether a counter can carry out a control word: BCD counting (bit 0 of
/// a non-latch word) is not supported, and asking for it is fatal.
pub open spec fn control_accepted(value: u8) -> bool {
    !((value / 16) % 4 != 0 && value % 2 == 1)
}

/// A counter after a control word (see `set_control_word`).
#[verifier::opaque]
pub open spec fn control_written(c: Counter, value: u8) -> Counter {
    if (value / 16) % 4 == 0 {
        Counter { latched: true, ..c }
    } else if value % 2 == 1 {
        c
    } else {
        Counter {
            mode: mode_of(value),
            access: access_of(value),
            low_count: if access_of(value) == Access::LSBThenMSB { None } else { c.low_count },
            ..c
        }
    }
}

impl Counter {
    pub fn init(select_counter: u8) -> (r: Counter)
        ensures
            r == fresh_counter(select_counter),
    {
        Counter {
            select_counter,
            enabled: true,
            latched: false,
            initial_count_register: 0,
            counting_element: 0,
            output_latch: 0,
            mode: Mode::SquareWave,
            access: Access::LSB,
            low_count: None,
        }
    }

    /// One tick: the counting element drops by one (wrapping). On reaching
    /// zero a counter in interrupt mode stops and interrupts; any other
    /// reloads its initial count. An unlatched output follows the counting
    /// element. A disabled counter ignores the tick.
    pub fn single_run(&mut self) -> (r: Tick)
        ensures
            !old(self).enabled ==> *final(self) == *old(self) && r == (Tick {
                interrupt: false,
                reschedule: false,
            }),
            old(self).enabled ==> {
                let dec = ((old(self).counting_element + 0xFFFF) % 0x1_0000) as u16;
                let fire = dec == 0 && old(self).mode == Mode::Interrupt;
                let elem = if dec == 0 && !fire { old(self).initial_count_register } else { dec };
                &&& final(self).counting_element == elem
                &&& final(self).enabled == !fire
                &&& final(self).output_latch == (if old(self).latched {
                    old(self).output_latch
                } else {
                    elem
                })
                &&& *final(self) == (Counter {
                    counting_element: elem,
                    enabled: !fire,
                    output_latch: final(self).output_latch,
                    ..*old(self)
                })
                &&& r == (Tick { interrupt: fire, reschedule: !fire })
            },
    {
        if !self.enabled {
            return Tick { interrupt: false, reschedule: false };
        }
        self.counting_element = self.counting_element.wrapping_sub(1);
        let mut interrupt = false;
        if self.counting_element == 0 {
            if self.mode == Mode::Interrupt {
                self.enabled = false;
                interrupt = true;
            } else {
                self.counting_element = self.initial_count_register;
            }
        }
        if !self.latched {
            self.output_latch = self.counting_element;
        }
        Tick { interrupt, reschedule: self.enabled }
    }

    /// A control word for this counter: bits 5:4 zero latch the output;
    /// otherwise bits 3:1 set the mode and bits 5:4 the access. BCD counting
    /// (bit 0) is not supported.
    pub fn set_control_word(&mut self, value: u8)
        requires
            control_accepted(value),
        ensures
            *final(self) == control_written(*old(self), value),
    {
        proof {
            reveal(control_written);
        }
        let a = (value / 16) % 4;
        if a == 0 {
            self.latched = true;
            return;
        }
        let m = (value / 2) % 8;
        self.mode = if m == 0 {
            Mode::Interrupt
        } else if m == 1 {
            Mode::OneShot
        } else if m == 2 || m == 6 {
            Mode::RateGenerator
        } else if m == 3 || m == 7 {
            Mode::SquareWave
        } else if m == 4 {
            Mode::SoftwareStrobe
        } else {
            Mode::HardwareStrobe
        };
        self.access = if a == 1 {
            Access::LSB
        } else if a == 2 {
            Access::MSB
        } else {
            self.low_count = None;
            Access::LSBThenMSB
        };
    }

    /// A count byte. With one-byte access the other byte is zero; with
    /// two-byte access the first byte waits for the second. A fully loaded
    /// count enables the counter, and the result is then true: its first tick
    /// is due `TICK_NANOS` from now.
    pub fn set_count(&mut self, value: u8) -> (r: bool)
        ensures
            *final(self) == count_written(*old(self), value),
            r == count_completes(*old(self)),
    {
        proof {
            reveal(count_written);
        }
        let new_count = value as u16;
        let count_register: Option<u16> = match self.access {
            Access::LSB => Some(new_count),
            Access::MSB => Some(new_count * 256),
            Access::LSBThenMSB => match self.low_count {
                None => {
                    self.low_count = Some(new_count);
                    None
                },
                Some(low) => {
                    self.low_count = None;
                    Some(low.wrapping_add(new_count * 256))
                },
            },
        };
        match count_register {
            Some(count) => {
                self.low_count = None;
                self.initial_count_register = count;
                self.counting_element = count;
                self.enabled = true;
                true
            },
            None => false,
        }
    }

    /// A count byte read from the output latch. A two-byte read gives the
    /// low byte first and keeps the latch until the high byte is read.
    pub fn get_count(&mut self) -> (r: u8)
        ensures
            r == count_read(*old(self)),
            *final(self) == after_count_read(*old(self)),
    {
        let output_latch = self.output_latch;
        let mut release_latch = true;
        let count_u8 = match self.access {
            Access::LSB => (output_latch % 256) as u8,
            Access::MSB => (output_latch / 256) as u8,
            Access::LSBThenMSB => match self.low_count {
                None => {
                    release_latch = false;
                    self.low_count = Some(0);
                    (output_latch % 256) as u8
                },
                Some(_) => {
                    self.low_count = None;
                    (output_latch / 256) as u8
                },
            },
        };
        if release_latch {
            self.latched = false;
        }
        count_u8
    }
}

/// `k` ticks of a counter.
pub open spec fn ticks(c: Counter, k: nat) -> Counter
    decreases k,
{
    if k == 0 {
        c
    } else {
        ticks(tick_of(c), (k - 1) as nat)
    }
}

/// The counter after one tick (as `single_run` leaves it).
pub open spec fn tick_of(c: Counter) -> Counter {
    if !c.enabled {
        c
    } else {
        let dec = ((c.counting_element + 0xFFFF) % 0x1_0000) as u16;
        let fire = dec == 0 && c.mode == Mode::Interrupt;
        let elem = if dec == 0 && !fire { c.initial_count_register } else { dec };
        Counter {
            counting_element: elem,
            enabled: !fire,
            output_latch: if c.latched { c.output_latch } else { elem },
            ..c
        }
    }
}

/// A counter in interrupt mode loaded with a count n > 0 stays enabled for
/// n - 1 ticks and stops (interrupting) on the n-th.
pub proof fn lemma_interrupt_after_count(c: Counter, n: nat)
    requires
        c.enabled,
        c.mode == Mode::Interrupt,
        c.counting_element == n,
        n > 0,
    ensures
        forall|k: nat| k < n ==> #[trigger] ticks(c, k).enabled && ticks(c, k).counting_element == n - k,
        !ticks(c, n).enabled,
    decreases n,
{
    let c1 = tick_of(c);
    if n > 1 {
        assert(((c.counting_element + 0xFFFF) % 0x1_0000) as u16 == n - 1);
        assert(c1.enabled && c1.counting_element == n - 1 && c1.mode == Mode::Interrupt);
        lemma_interrupt_after_count(c1, (n - 1) as nat);
        assert forall|k: nat| k < n implies #[trigger] ticks(c, k).enabled && ticks(c, k).counting_element == n - k by {
            if k > 0 {
                assert(ticks(c, k) == ticks(c1, (k - 1) as nat));
                assert(ticks(c1, (k - 1) as nat).enabled);
                assert(ticks(c1, (k - 1) as nat).counting_element == (n - 1) - (k - 1));
            } else {
                assert(ticks(c, 0) == c);
            }
        }
    } else {
        assert(ticks(c, 1) == ticks(c1, 0));
        assert forall|k: nat| k < n implies #[trigger] ticks(c, k).enabled && ticks(c, k).counting_element == n - k by {
            assert(k == 0);
            assert(ticks(c, 0) == c);
        }
    }
    assert(ticks(c, n) == ticks(c1, (n - 1) as nat));
}

/// The three counters of the timer.
#[derive(Clone, Copy, Debug, PartialEq, Eq, Structural)]
pub struct PIT {
    pub c0: Counter,
    pub c1: Counter,
    pub c2: Counter,
}

impl PIT {
    pub fn init() -> (r: PIT)
        ensures
            r.c0 == fresh_counter(0) && r.c1 == fresh_counter(1) && r.c2 == fresh_counter(2),
    {
        PIT { c0: Counter::init(0), c1: Counter::init(1), c2: Counter::init(2) }
    }

    /// The timer with counter `i` replaced.
    pub open spec fn with_counter(self, i: u8, c: Counter) -> PIT {
        if i == 0 {
            PIT { c0: c, ..self }
        } else if i == 1 {
            PIT { c1: c, ..self }
        } else {
            PIT { c2: c, ..self }
        }
    }

    /// The timer after a control word.
    #[verifier::opaque]
    pub open spec fn after_control(self, value: u8) -> PIT {
        if value / 64 == 3 {
            self
        } else {
            self.with_counter(value / 64, control_written(self.counter(value / 64), value))
        }
    }

    /// Whether the timer can carry out a control word: the read-back
    /// command (counter field 3) and BCD counting are not supported, and
    /// asking for them is fatal.
    pub open spec fn accepts_control(value: u8) -> bool {
        value / 64 != 3 && control_accepted(value)
    }

    /// Counter `i`.
    pub open spec fn counter(self, i: u8) -> Counter {
        if i == 0 {
            self.c0
        } else if i == 1 {
            self.c1
        } else {
            self.c2
        }
    }

    fn get_counter(&mut self, i: u8) -> (c: &mut Counter)
        requires
            i < 3,
        ensures
            *c == old(self).counter(i),
            *final(self) == old(self).with_counter(i, *final(c)),
    {
        if i == 0 {
            &mut self.c0
        } else if i == 1 {
            &mut self.c1
        } else {
            &mut self.c2
        }
    }

    /// A count byte for counter `i`; true when its first tick is due.
    pub fn set_count(&mut self, i: u8, value: u8) -> (r: bool)
        requires
            i < 3,
        ensures
            *final(self) == old(self).with_counter(i, count_written(old(self).counter(i), value)),
            r == count_completes(old(self).counter(i)),
    {
        let c = self.get_counter(i);
        c.set_count(value)
    }

    /// A count byte read from counter `i`.
    pub fn get_count(&mut self, i: u8) -> (r: u8)
        requires
            i < 3,
        ensures
            *final(self) == old(self).with_counter(i, after_count_read(old(self).counter(i))),
            r == count_read(old(self).counter(i)),
    {
        let c = self.get_counter(i);
        c.get_count()
    }

    /// One tick of counter `i`.
    pub fn tick(&mut self, i: u8) -> (r: Tick)
        requires
            i < 3,
        ensures
            *final(self) == old(self).with_counter(i, tick_of(old(self).counter(i))),
            r.interrupt == (old(self).counter(i).enabled && !tick_of(old(self).counter(i)).enabled),
            r.reschedule == (tick_of(old(self).counter(i)).enabled && old(self).counter(i).enabled),
    {
        let c = self.get_counter(i);
        c.single_run()
    }

    /// Whether the timer can carry out a control word (see
    /// `accepts_control`).
    pub fn control_word_ok(value: u8) -> (r: bool)
        ensures
            r == PIT::accepts_control(value),
    {
        value / 64 != 3 && !((value / 16) % 4 != 0 && value % 2 == 1)
    }

    /// The control word port: bits 7:6 pick the counter.
    pub fn set_control_word(&mut self, value: u8)
        requires
            PIT::accepts_control(value),
        ensures
            *final(self) == old(self).after_control(value),
    {
        proof {
            reveal(PIT::after_control);
        }
        let select_counter = value / 64;
        let c = self.get_counter(select_counter);
        c.set_control_word(value);
    }
}

} // verus!
