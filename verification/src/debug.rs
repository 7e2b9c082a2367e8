//! The state of the debugger: when it stops the machine, and what its
//! commands do to it. Reading the commands and printing the answers is left
//! to the program.

use vstd::prelude::*;
use crate::bus::Address;
use crate::text::{parse_word, parsed_word, WordError};
use std::collections::HashSet;
use vstd::std_specs::iter::IteratorSpec;
use vstd::string::StringSliceAdditionalSpecFns;

verus! {

broadcast use vstd::std_specs::hash::group_hash_axioms;

pub struct Debugger {
    step: bool,
    quit: bool,
    step_on_breakpoint: bool,
    breakpoints: HashSet<u16>,
}

/// What a [`Debugger`] holds.
pub struct DebuggerModel {
    /// Whether the machine is stopped before every instruction.
    pub step: bool,
    /// Whether the user has asked to leave.
    pub quit: bool,
    /// Whether a stop at a breakpoint switches stepping on.
    pub step_on_breakpoint: bool,
    pub breakpoints: Set<u16>,
}

/// Why no address could be read from a command.
#[derive(Clone, Copy, Debug, PartialEq, Eq, Structural)]
pub enum AddressError {
    /// The command has no argument.
    Missing,
    /// The argument is no word in hexadecimal.
    Invalid(WordError),
}

/// A command of the debugger.
#[derive(Clone, Copy, Debug, PartialEq, Eq, Structural)]
pub enum Command {
    /// Run the next instruction.
    Next,
    /// Run on until a breakpoint.
    Continue,
    StepOn,
    StepOff,
    StepOnBreakpointOn,
    StepOnBreakpointOff,
    AddBreakpoint(Address),
    RemoveBreakpoint(Address),
    ShowCpu,
    ShowPpu,
    /// Show the breakpoints.
    List,
    /// Show the stack up to an address.
    Stack(Address),
    /// Show the byte at an address.
    Peek(Address),
    /// Start the program over.
    Reset,
    Help,
    Quit,
    /// A word that is no command.
    Unknown,
}

/// Reads the address that a command names, in hexadecimal.
pub fn to_addr(s: Option<&str>) -> (r: Result<Address, AddressError>)
    ensures
        r == address_of(
            match s {
                Some(text) => Some(text.spec_bytes()),
                None => None,
            },
        ),
{
    match s {
        Some(text) => match parse_word(text.as_bytes()) {
            Ok(address) => Ok(address),
            Err(e) => Err(AddressError::Invalid(e)),
        },
        None => Err(AddressError::Missing),
    }
}

/// The address that the argument of a command names.
pub open spec fn address_of(argument: Option<Seq<u8>>) -> Result<Address, AddressError> {
    match argument {
        Some(text) => match parsed_word(text) {
            Ok(address) => Ok(address),
            Err(e) => Err(AddressError::Invalid(e)),
        },
        None => Err(AddressError::Missing),
    }
}

/// The command that a word and its argument stand for. The words are `n`,
/// `c`, `s`, `S`, `b`, `B`, `a`, `d`, `cpu`, `ppu`, `list`, `stack`, `peek`,
/// `reset`, `help` and `quit`; `a`, `d`, `stack` and `peek` need an address.
pub open spec fn command_of(word: Seq<u8>, argument: Option<Seq<u8>>) -> Result<Command, AddressError> {
    if word == seq![0x6Eu8] {
        Ok(Command::Next)
    } else if word == seq![0x63u8] {
        Ok(Command::Continue)
    } else if word == seq![0x73u8] {
        Ok(Command::StepOn)
    } else if word == seq![0x53u8] {
        Ok(Command::StepOff)
    } else if word == seq![0x62u8] {
        Ok(Command::StepOnBreakpointOn)
    } else if word == seq![0x42u8] {
        Ok(Command::StepOnBreakpointOff)
    } else if word == seq![0x61u8] {
        match address_of(argument) {
            Ok(a) => Ok(Command::AddBreakpoint(a)),
            Err(e) => Err(e),
        }
    } else if word == seq![0x64u8] {
        match address_of(argument) {
            Ok(a) => Ok(Command::RemoveBreakpoint(a)),
            Err(e) => Err(e),
        }
    } else if word == seq![0x63u8, 0x70, 0x75] {
        Ok(Command::ShowCpu)
    } else if word == seq![0x70u8, 0x70, 0x75] {
        Ok(Command::ShowPpu)
    } else if word == seq![0x6Cu8, 0x69, 0x73, 0x74] {
        Ok(Command::List)
    } else if word == seq![0x73u8, 0x74, 0x61, 0x63, 0x6B] {
        match address_of(argument) {
            Ok(a) => Ok(Command::Stack(a)),
            Err(e) => Err(e),
        }
    } else if word == seq![0x70u8, 0x65, 0x65, 0x6B] {
        match address_of(argument) {
            Ok(a) => Ok(Command::Peek(a)),
            Err(e) => Err(e),
        }
    } else if word == seq![0x72u8, 0x65, 0x73, 0x65, 0x74] {
        Ok(Command::Reset)
    } else if word == seq![0x68u8, 0x65, 0x6C, 0x70] {
        Ok(Command::Help)
    } else if word == seq![0x71u8, 0x75, 0x69, 0x74] {
        Ok(Command::Quit)
    } else {
        Ok(Command::Unknown)
    }
}

fn same(word: &[u8], name: &Vec<u8>) -> (r: bool)
    ensures
        r == (word@ == name@),
{
    if word.len() != name.len() {
        return false;
    }
    let mut i: usize = 0;
    while i < word.len()
        invariant
            i <= word.len(),
            word.len() == name.len(),
            forall|k: int| 0 <= k < i ==> word@[k] == name@[k],
        decreases word.len() - i,
    {
        if word[i] != name[i] {
            return false;
        }
        i += 1;
    }
    assert(word@ =~= name@);
    true
}

fn is1(word: &[u8], a: u8) -> (r: bool)
    ensures
        r == (word@ == seq![a]),
{
    let name = vec![a];
    assert(name@ =~= seq![a]);
    same(word, &name)
}

fn is3(word: &[u8], a: u8, b: u8, c: u8) -> (r: bool)
    ensures
        r == (word@ == seq![a, b, c]),
{
    let name = vec![a, b, c];
    same(word, &name)
}

fn is4(word: &[u8], a: u8, b: u8, c: u8, d: u8) -> (r: bool)
    ensures
        r == (word@ == seq![a, b, c, d]),
{
    let name = vec![a, b, c, d];
    same(word, &name)
}

fn is5(word: &[u8], a: u8, b: u8, c: u8, d: u8, e: u8) -> (r: bool)
    ensures
        r == (word@ == seq![a, b, c, d, e]),
{
    let name = vec![a, b, c, d, e];
    same(word, &name)
}

impl Command {
    /// Reads a command from its word and its argument.
    pub fn parse(word: &str, argument: Option<&str>) -> (r: Result<Command, AddressError>)
        ensures
            r == command_of(
                word.spec_bytes(),
                match argument {
                    Some(text) => Some(text.spec_bytes()),
                    None => None,
                },
            ),
    {
        let w = word.as_bytes();
        if is1(w, 0x6E) {
            Ok(Command::Next)
        } else if is1(w, 0x63) {
            Ok(Command::Continue)
        } else if is1(w, 0x73) {
            Ok(Command::StepOn)
        } else if is1(w, 0x53) {
            Ok(Command::StepOff)
        } else if is1(w, 0x62) {
            Ok(Command::StepOnBreakpointOn)
        } else if is1(w, 0x42) {
            Ok(Command::StepOnBreakpointOff)
        } else if is1(w, 0x61) {
            match to_addr(argument) {
                Ok(a) => Ok(Command::AddBreakpoint(a)),
                Err(e) => Err(e),
            }
        } else if is1(w, 0x64) {
            match to_addr(argument) {
                Ok(a) => Ok(Command::RemoveBreakpoint(a)),
                Err(e) => Err(e),
            }
        } else if is3(w, 0x63, 0x70, 0x75) {
            Ok(Command::ShowCpu)
        } else if is3(w, 0x70, 0x70, 0x75) {
            Ok(Command::ShowPpu)
        } else if is4(w, 0x6C, 0x69, 0x73, 0x74) {
            Ok(Command::List)
        } else if is5(w, 0x73, 0x74, 0x61, 0x63, 0x6B) {
            match to_addr(argument) {
                Ok(a) => Ok(Command::Stack(a)),
                Err(e) => Err(e),
            }
        } else if is4(w, 0x70, 0x65, 0x65, 0x6B) {
            match to_addr(argument) {
                Ok(a) => Ok(Command::Peek(a)),
                Err(e) => Err(e),
            }
        } else if is5(w, 0x72, 0x65, 0x73, 0x65, 0x74) {
            Ok(Command::Reset)
        } else if is4(w, 0x68, 0x65, 0x6C, 0x70) {
            Ok(Command::Help)
        } else if is4(w, 0x71, 0x75, 0x69, 0x74) {
            Ok(Command::Quit)
        } else {
            Ok(Command::Unknown)
        }
    }
}

impl DebuggerModel {
    /// Whether the machine stops before the instruction at an address.
    pub open spec fn stops(self, pc: Address) -> bool {
        self.step || self.breakpoints.contains(pc)
    }

    /// The debugger after a command, and whether the command lets the
    /// machine run again.
    pub open spec fn apply(self, command: Command) -> (DebuggerModel, bool) {
        match command {
            Command::Next => (self, true),
            Command::Continue => (DebuggerModel { step: false, ..self }, true),
            Command::StepOn => (DebuggerModel { step: true, ..self }, false),
            Command::StepOff => (DebuggerModel { step: false, ..self }, false),
            Command::StepOnBreakpointOn => (DebuggerModel { step_on_breakpoint: true, ..self }, false),
            Command::StepOnBreakpointOff => (DebuggerModel { step_on_breakpoint: false, ..self }, false),
            Command::AddBreakpoint(a) => (DebuggerModel { breakpoints: self.breakpoints.insert(a), ..self }, false),
            Command::RemoveBreakpoint(a) => (
                DebuggerModel { breakpoints: self.breakpoints.remove(a), ..self },
                false,
            ),
            Command::Quit => (DebuggerModel { quit: true, ..self }, true),
            _ => (self, false),
        }
    }
}

impl Debugger {
    pub closed spec fn view(&self) -> DebuggerModel {
        DebuggerModel {
            step: self.step,
            quit: self.quit,
            step_on_breakpoint: self.step_on_breakpoint,
            breakpoints: self.breakpoints@,
        }
    }

    pub fn new(start_enabled: bool) -> (r: Self)
        ensures
            r@ == (DebuggerModel {
                step: start_enabled,
                quit: false,
                step_on_breakpoint: false,
                breakpoints: Set::empty(),
            }),
    {
        Self { step: start_enabled, quit: false, step_on_breakpoint: false, breakpoints: HashSet::new() }
    }

    /// Decides whether the machine stops before the instruction at an
    /// address. A stop switches stepping on if stops at breakpoints are to
    /// do so.
    pub fn step(&mut self, pc: Address) -> (stopped: bool)
        ensures
            stopped == old(self)@.stops(pc),
            final(self)@ == (if stopped {
                DebuggerModel { step: old(self)@.step || old(self)@.step_on_breakpoint, ..old(self)@ }
            } else {
                old(self)@
            }),
    {
        if !(self.step || self.breakpoints.contains(&pc)) {
            return false;
        }
        self.step = self.step || self.step_on_breakpoint;
        true
    }

    /// Stops the machine before the next instruction.
    pub fn stop(&mut self)
        ensures
            final(self)@ == (DebuggerModel { step: true, ..old(self)@ }),
    {
        self.step = true;
    }

    pub fn has_quit(&self) -> (r: bool)
        ensures
            r == self@.quit,
    {
        self.quit
    }

    pub fn add_breakpoint(&mut self, address: Address)
        ensures
            final(self)@ == (DebuggerModel { breakpoints: old(self)@.breakpoints.insert(address), ..old(self)@ }),
    {
        self.breakpoints.insert(address);
    }

    /// Removes a breakpoint, and says whether there was one.
    pub fn remove_breakpoint(&mut self, address: Address) -> (r: bool)
        ensures
            r == old(self)@.breakpoints.contains(address),
            final(self)@ == (DebuggerModel { breakpoints: old(self)@.breakpoints.remove(address), ..old(self)@ }),
    {
        self.breakpoints.remove(&address)
    }

    /// The breakpoints, each once, in no particular order.
    pub fn breakpoints(&self) -> (r: Vec<Address>)
        ensures
            r@.to_set() == self@.breakpoints,
            r@.no_duplicates(),
    {
        let mut r: Vec<Address> = Vec::new();
        for address in iter: self.breakpoints.iter()
            invariant
                r.len() == iter.index(),
                forall|i: int| 0 <= i < r.len() ==> r@[i] == *iter.seq()[i],
        {
            r.push(*address);
        }
        proof {
            let keys = vstd::std_specs::hash::spec_hash_keys_iter(&self.breakpoints).remaining();
            assert(r@ =~= keys.unref());
        }
        r
    }

    /// Whether there is a breakpoint at an address.
    pub fn has_breakpoint(&self, address: Address) -> (r: bool)
        ensures
            r == self@.breakpoints.contains(address),
    {
        self.breakpoints.contains(&address)
    }

    /// Carries out a command, and says whether the machine runs again.
    pub fn apply(&mut self, command: Command) -> (resume: bool)
        ensures
            (final(self)@, resume) == old(self)@.apply(command),
    {
        match command {
            Command::Next => true,
            Command::Continue => {
                self.step = false;
                true
            },
            Command::StepOn => {
                self.step = true;
                false
            },
            Command::StepOff => {
                self.step = false;
                false
            },
            Command::StepOnBreakpointOn => {
                self.step_on_breakpoint = true;
                false
            },
            Command::StepOnBreakpointOff => {
                self.step_on_breakpoint = false;
                false
            },
            Command::AddBreakpoint(address) => {
                self.add_breakpoint(address);
                false
            },
            Command::RemoveBreakpoint(address) => {
                self.remove_breakpoint(address);
                false
            },
            Command::Quit => {
                self.quit = true;
                true
            },
            _ => false,
        }
    }
}

} // verus!
