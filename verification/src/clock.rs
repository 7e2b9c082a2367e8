//! The clock: it hands the cycles that each step of the CPU took to every
//! component that keeps time.

use vstd::prelude::*;
use crate::bus::{ended, Bus, BusListener, BusModel, Fault};
use spin_sleep::SpinSleeper;
use std::time::Duration;
use std::time::Instant;

verus! {

/// What the passing of time leaves behind: the component, the bus, and
/// whether a fault ended it. After a fault the two states are those that had
/// been reached when the fault came.
pub struct Ticked<M> {
    pub component: M,
    pub bus: BusModel,
    pub result: Result<(), Fault>,
}

/// Time that passed without a fault.
pub open spec fn passed<M>(component: M, bus: BusModel) -> Ticked<M> {
    Ticked { component, bus, result: Ok(()) }
}

/// Time that a fault put an end to.
pub open spec fn stopped<M>(component: M, bus: BusModel, fault: Fault) -> Ticked<M> {
    Ticked { component, bus, result: Err(fault) }
}

/// A component that keeps time. `tick_of` says, over the component's model
/// and the model of the bus, what the passing of some cycles does to both.
pub trait ClockListener: BusListener {
    spec fn tick_of(m: Self::Model, bus: BusModel, cycles: u8) -> Ticked<Self::Model>;

    fn callback(&mut self, bus: &mut Bus, cycles: u8) -> (r: Result<(), Fault>)
        requires
            old(self).valid(),
            old(bus).wf(),
        ensures
            final(self).valid(),
            final(bus).wf(),
            final(bus)@.devices.len() == old(bus)@.devices.len(),
            final(self).model() == Self::tick_of(old(self).model(), old(bus)@, cycles).component,
            final(bus)@ == Self::tick_of(old(self).model(), old(bus)@, cycles).bus,
            ended(r, Self::tick_of(old(self).model(), old(bus)@, cycles).result),
    ;
}


/// The length of a cycle in nanoseconds, rounded up: the processor runs at
/// 4194304 Hz.
pub const CYCLE_NANOS: u64 = 239;

#[verifier::external_type_specification]
#[verifier::external_body]
pub struct ExInstant(std::time::Instant);

#[verifier::external_type_specification]
#[verifier::external_body]
pub struct ExSpinSleeper(spin_sleep::SpinSleeper);

/// Why the clock could not wait for the end of a step.
#[derive(Clone, Copy, Debug, PartialEq, Eq, Structural)]
pub enum ClockError {
    /// The step took as long as its cycles last, or longer.
    Overdue,
}

/// The clock. It knows the components that keep time by their handles on
/// the bus, counts the cycles of the current step, and can wait until the
/// time that those cycles stand for has passed.
pub struct Clock {
    callbacks: Vec<usize>,
    cycles: u8,
    start_instant: Instant,
    sleeper: SpinSleeper,
}

/// What a [`Clock`] holds, but for the time at which the step began.
pub struct ClockModel {
    /// The handles of the components that keep time, in the order in which
    /// they were attached.
    pub listeners: Seq<usize>,
    /// The cycles of the current step.
    pub cycles: u8,
}

/// `std::time::Instant::now`: the current time. Nothing is claimed of it.
#[verifier::external_body]
fn now() -> Instant {
    Instant::now()
}

/// `std::time::Instant::elapsed`, in nanoseconds: the time that has passed
/// since an instant. Nothing is claimed of it.
#[verifier::external_body]
fn elapsed_nanos(start: &Instant) -> u128 {
    start.elapsed().as_nanos()
}

/// `SpinSleeper::default` of spin_sleep: a sleeper with the accuracy that
/// suits the system. Nothing is claimed of it.
#[verifier::external_body]
fn default_sleeper() -> SpinSleeper {
    SpinSleeper::default()
}

/// `SpinSleeper::sleep` of spin_sleep: returns once the given time has
/// passed. Nothing is claimed of it; the time is kept below a minute, far
/// from where the deadline could not be told.
#[verifier::external_body]
fn sleep_nanos(sleeper: &SpinSleeper, nanos: u64)
    requires
        nanos <= 60_000_000_000,
{
    sleeper.sleep(Duration::from_nanos(nanos))
}

/// The nanoseconds left of the time that some cycles last, once some have
/// passed.
pub open spec fn remaining_nanos(cycles: u8, elapsed: u128) -> int {
    if CYCLE_NANOS * cycles > elapsed {
        CYCLE_NANOS * cycles - elapsed
    } else {
        0
    }
}

/// How long to wait for the end of a step of some cycles of which some
/// nanoseconds have passed, or `None` if none are left.
pub fn remainder(cycles: u8, elapsed: u128) -> (r: Option<u64>)
    ensures
        r == (if remaining_nanos(cycles, elapsed) > 0 {
            Some(remaining_nanos(cycles, elapsed) as u64)
        } else {
            None
        }),
        r matches Some(n) ==> n <= 60_945,
{
    let expected: u64 = CYCLE_NANOS * (cycles as u64);
    if (expected as u128) > elapsed {
        Some((expected as u128 - elapsed) as u64)
    } else {
        None
    }
}

impl BusModel {
    /// The bus after some cycles have passed for each of some components in
    /// turn, from the one at `from` on. A fault ends the round: the
    /// components after the one that met it are not reached.
    pub open spec fn tick_all(self, handles: Seq<usize>, from: int, cycles: u8) -> (BusModel, Result<(), Fault>)
        decreases handles.len() - from,
    {
        if from >= handles.len() {
            (self, Ok(()))
        } else {
            match self.tick(handles[from], cycles) {
                (b, Ok(_)) => b.tick_all(handles, from + 1, cycles),
                (b, Err(f)) => (b, Err(f)),
            }
        }
    }
}

impl Clock {
    pub closed spec fn view(&self) -> ClockModel {
        ClockModel { listeners: self.callbacks@, cycles: self.cycles }
    }

    /// A clock without components, at the start of a step.
    pub fn new() -> (r: Self)
        ensures
            r@ == (ClockModel { listeners: Seq::empty(), cycles: 0 }),
    {
        Clock { callbacks: Vec::new(), cycles: 0, start_instant: now(), sleeper: default_sleeper() }
    }

    /// Adds a component that keeps time, by its handle on the bus.
    pub fn attach(&mut self, listener: usize)
        ensures
            final(self)@ == (ClockModel { listeners: old(self)@.listeners.push(listener), ..old(self)@ }),
    {
        self.callbacks.push(listener);
    }

    /// The cycles of the current step.
    pub fn cycles(&self) -> (r: u8)
        ensures
            r == self@.cycles,
    {
        self.cycles
    }

    /// Counts some cycles and lets them pass for every component, in the
    /// order in which the components were attached.
    pub fn increment(&mut self, bus: &mut Bus, cycles: u8) -> (r: Result<(), Fault>)
        requires
            old(bus).wf(),
            old(self)@.cycles + cycles <= u8::MAX,
        ensures
            final(bus).wf(),
            final(bus)@.devices.len() == old(bus)@.devices.len(),
            final(self)@ == (ClockModel { cycles: (old(self)@.cycles + cycles) as u8, ..old(self)@ }),
            final(bus)@ == old(bus)@.tick_all(old(self)@.listeners, 0, cycles).0,
            ended(r, old(bus)@.tick_all(old(self)@.listeners, 0, cycles).1),
    {
        self.cycles += cycles;
        let mut i: usize = 0;
        while i < self.callbacks.len()
            invariant
                i <= self.callbacks.len(),
                bus.wf(),
                bus@.devices.len() == old(bus)@.devices.len(),
                self.callbacks == old(self).callbacks,
                self.cycles == old(self).cycles + cycles,
                old(bus)@.tick_all(self.callbacks@, 0, cycles) == bus@.tick_all(self.callbacks@, i as int, cycles),
            decreases self.callbacks.len() - i,
        {
            bus.tick(self.callbacks[i], cycles)?;
            i += 1;
        }
        Ok(())
    }

    /// Begins a step: no cycles counted, and the time taken from now.
    pub fn cycle_start(&mut self)
        ensures
            final(self)@ == (ClockModel { cycles: 0, ..old(self)@ }),
    {
        self.cycles = 0;
        self.start_instant = now();
    }

    /// Waits until the time that the cycles of the step stand for has
    /// passed since the step began. If it already has, the step is overdue.
    /// How much time has passed is not for this contract to say; a step
    /// without cycles is always overdue.
    pub fn cycle_end(&mut self) -> (r: Result<(), ClockError>)
        ensures
            final(self)@ == old(self)@,
            old(self)@.cycles == 0 ==> r is Err,
    {
        let elapsed = elapsed_nanos(&self.start_instant);
        match remainder(self.cycles, elapsed) {
            Some(nanos) => {
                sleep_nanos(&self.sleeper, nanos);
                Ok(())
            },
            None => Err(ClockError::Overdue),
        }
    }
}

} // verus!
