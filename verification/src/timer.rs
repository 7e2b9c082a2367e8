//! The timer: a free-running divider and a counter that interrupts when it
//! overflows.

use vstd::prelude::*;
use crate::bus::{next_address, Address, Attach, Bus, BusListener, BusModel, Byte, Fault};
use crate::clock::{passed, stopped, ClockListener, Ticked};
use crate::cpu::interrupt::{interrupt, InterruptType};

verus! {

pub const TIMER_DIV: Address = 0xFF04;

pub const TIMER_TIMA: Address = 0xFF05;

pub const TIMER_TMA: Address = 0xFF06;

pub const TIMER_TAC: Address = 0xFF07;

/// The bit of TAC that switches the counter on.
pub const TIMER_CONTROL_ENABLE: u8 = 0x04;

/// The bits of TAC that select the counter's rate.
pub const TIMER_CONTROL_CLOCK_SELECT_MASK: u8 = 0x03;

#[derive(Clone, Copy, Debug, PartialEq, Eq, Structural)]
pub struct Timer {
    /// The divider, one step for each cycle; DIV is its high byte.
    pub cycles: u16,
    /// TIMA.
    pub counter_register: Byte,
    /// TMA, the value that TIMA restarts from.
    pub modulo_register: Byte,
    /// TAC.
    pub control_register: Byte,
}

pub open spec fn timer_claims() -> Seq<Attach> {
    seq![Attach::RegisterRange(0x04, 0x07)]
}

pub open spec fn timer_read(m: Timer, address: Address) -> Result<Byte, Fault> {
    if address == TIMER_DIV {
        Ok((m.cycles / 256) as u8)
    } else if address == TIMER_TIMA {
        Ok(m.counter_register)
    } else if address == TIMER_TMA {
        Ok(m.modulo_register)
    } else if address == TIMER_TAC {
        Ok(m.control_register)
    } else {
        Err(Fault::NotOwned(address))
    }
}

/// A write to DIV, whatever the value, clears the whole divider.
pub open spec fn timer_write(m: Timer, address: Address, value: Byte) -> Result<(Timer, bool), Fault> {
    if address == TIMER_DIV {
        Ok((Timer { cycles: 0, ..m }, false))
    } else if address == TIMER_TIMA {
        Ok((Timer { counter_register: value, ..m }, false))
    } else if address == TIMER_TMA {
        Ok((Timer { modulo_register: value, ..m }, false))
    } else if address == TIMER_TAC {
        Ok((Timer { control_register: value, ..m }, false))
    } else {
        Err(Fault::NotOwned(address))
    }
}

impl Timer {
    pub fn new() -> (r: Self)
        ensures
            r == (Timer { cycles: 0, counter_register: 0, modulo_register: 0, control_register: 0 }),
    {
        Timer { cycles: 0, counter_register: 0, modulo_register: 0, control_register: 0 }
    }
}

impl BusListener for Timer {
    type Model = Timer;

    open spec fn model(&self) -> Timer {
        *self
    }

    open spec fn valid(&self) -> bool {
        true
    }

    open spec fn claims_of(m: Timer) -> Seq<Attach> {
        timer_claims()
    }

    open spec fn read_of(m: Timer, address: Address) -> Result<Byte, Fault> {
        timer_read(m, address)
    }

    open spec fn write_of(m: Timer, address: Address, value: Byte) -> Result<(Timer, bool), Fault> {
        timer_write(m, address, value)
    }

    fn bus_attach(&self) -> (r: Vec<Attach>) {
        let r = vec![Attach::RegisterRange(0x04, 0x07)];
        r
    }

    fn bus_read(&self, address: Address) -> (r: Result<Byte, Fault>) {
        if address == TIMER_DIV {
            Ok((self.cycles / 256) as u8)
        } else if address == TIMER_TIMA {
            Ok(self.counter_register)
        } else if address == TIMER_TMA {
            Ok(self.modulo_register)
        } else if address == TIMER_TAC {
            Ok(self.control_register)
        } else {
            Err(Fault::NotOwned(address))
        }
    }

    fn bus_write(&mut self, address: Address, value: Byte) -> (r: Result<bool, Fault>) {
        if address == TIMER_DIV {
            self.cycles = 0;
            Ok(false)
        } else if address == TIMER_TIMA {
            self.counter_register = value;
            Ok(false)
        } else if address == TIMER_TMA {
            self.modulo_register = value;
            Ok(false)
        } else if address == TIMER_TAC {
            self.control_register = value;
            Ok(false)
        } else {
            Err(Fault::NotOwned(address))
        }
    }
}


/// The bit of the divider that drives the counter, for each of the four
/// rates that TAC can select.
pub open spec fn timer_clock_bit(select: u8) -> u16 {
    if select == 0 {
        0x0400
    } else if select == 1 {
        0x0080
    } else if select == 2 {
        0x0020
    } else {
        0x0008
    }
}

pub fn clock_bit(select: u8) -> (r: u16)
    ensures
        r == timer_clock_bit(select),
{
    if select == 0 {
        0x0400
    } else if select == 1 {
        0x0080
    } else if select == 2 {
        0x0020
    } else {
        0x0008
    }
}

impl Timer {
    /// Whether the counter is switched on.
    pub open spec fn enabled(self) -> bool {
        self.control_register & TIMER_CONTROL_ENABLE != 0
    }

    /// The bit of the divider that the counter follows.
    pub open spec fn selected_bit(self) -> u16 {
        timer_clock_bit(self.control_register & TIMER_CONTROL_CLOCK_SELECT_MASK)
    }

    /// Whether the next step of the divider changes the selected bit: it
    /// does when every bit below it is set.
    pub open spec fn toggles(self) -> bool {
        self.cycles % self.selected_bit() == self.selected_bit() - 1
    }

    /// The timer one cycle on, and whether it asks for an interrupt. The
    /// divider moves by one, from `0xFFFF` to 0. Where the counter is on and
    /// its bit of the divider changes, the counter moves by one too; from
    /// `0xFF` it restarts at the modulo and asks for the interrupt.
    pub open spec fn cycle(self) -> (Timer, bool) {
        let moved = Timer { cycles: next_address(self.cycles), ..self };
        if self.enabled() && self.toggles() {
            if self.counter_register == 0xFF {
                (Timer { counter_register: self.modulo_register, ..moved }, true)
            } else {
                (Timer { counter_register: (self.counter_register + 1) as u8, ..moved }, false)
            }
        } else {
            (moved, false)
        }
    }

    /// The timer and the bus after `n` cycles. An interrupt is asked for
    /// through the bus in the cycle in which the counter overflows; if that
    /// cannot be done the timer stops there, with the counter restarted.
    pub open spec fn tick(self, bus: BusModel, n: nat) -> Ticked<Timer>
        decreases n,
    {
        if n == 0 {
            passed(self, bus)
        } else {
            let (next, raise) = self.cycle();
            if raise {
                match bus.raise(InterruptType::Timer) {
                    Ok(b) => next.tick(b, (n - 1) as nat),
                    Err(f) => stopped(next, bus, f),
                }
            } else {
                next.tick(bus, (n - 1) as nat)
            }
        }
    }

    /// Moves the timer on by one cycle.
    pub fn advance(&mut self) -> (raise: bool)
        ensures
            (*final(self), raise) == old(self).cycle(),
    {
        let before = self.cycles;
        let after: u16 = if before == 0xFFFF {
            0
        } else {
            before + 1
        };
        self.cycles = after;
        if self.control_register & TIMER_CONTROL_ENABLE != 0 {
            let bit = clock_bit(self.control_register & TIMER_CONTROL_CLOCK_SELECT_MASK);
            assert(((before ^ after) & bit != 0) == (before % bit == (bit - 1) as u16)) by (bit_vector)
                requires
                    bit == 0x0400 || bit == 0x0080 || bit == 0x0020 || bit == 0x0008,
                    after == (if before == 0xFFFF {
                        0u16
                    } else {
                        (before + 1) as u16
                    }),
            ;
            if (before ^ after) & bit != 0 {
                if self.counter_register == 0xFF {
                    self.counter_register = self.modulo_register;
                    return true;
                } else {
                    self.counter_register += 1;
                }
            }
        }
        false
    }
}

impl ClockListener for Timer {
    open spec fn tick_of(m: Timer, bus: BusModel, cycles: u8) -> Ticked<Timer> {
        m.tick(bus, cycles as nat)
    }

    fn callback(&mut self, bus: &mut Bus, cycles: u8) -> (r: Result<(), Fault>) {
        let mut i: u8 = 0;
        while i < cycles
            invariant
                i <= cycles,
                bus.wf(),
                bus@.devices.len() == old(bus)@.devices.len(),
                old(self).tick(old(bus)@, cycles as nat) == self.tick(bus@, (cycles - i) as nat),
            decreases cycles - i,
        {
            let raise = self.advance();
            if raise {
                interrupt(bus, InterruptType::Timer)?;
            }
            i += 1;
        }
        Ok(())
    }
}

} // verus!
