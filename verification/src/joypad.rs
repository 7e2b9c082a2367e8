//! The joypad: eight inputs behind one register that shows four at a time.

use vstd::prelude::*;
use crate::bus::{Address, Attach, BusListener, Byte, Fault};
use crate::debug::{Debugger, DebuggerModel};

verus! {

pub const JOYPAD_REGISTER: Address = 0xFF00;

/// Written as 0 to see the buttons.
pub const SELECT_BUTTONS: u8 = 0x20;

/// Written as 0 to see the directions.
pub const SELECT_DPAD: u8 = 0x10;

pub const BUTTON_START: u8 = 0x08;

pub const BUTTON_SELECT: u8 = 0x04;

pub const BUTTON_A: u8 = 0x02;

pub const BUTTON_B: u8 = 0x01;

pub const DPAD_DOWN: u8 = 0x08;

pub const DPAD_UP: u8 = 0x04;

pub const DPAD_LEFT: u8 = 0x02;

pub const DPAD_RIGHT: u8 = 0x01;

#[derive(Clone, Copy, Debug, PartialEq, Eq, Structural)]
pub enum Button {
    Start,
    Select,
    A,
    B,
}

#[derive(Clone, Copy, Debug, PartialEq, Eq, Structural)]
pub enum Direction {
    Down,
    Up,
    Left,
    Right,
}

/// One input that is held down: a button, a direction, or the emulator's own
/// pause key.
#[derive(Clone, Copy, Debug, PartialEq, Eq, Structural)]
pub enum JoypadButtons {
    Button(Button),
    Direction(Direction),
    Pause,
}

impl Button {
    /// The button's bit among the four buttons.
    pub open spec fn mask(self) -> u8 {
        match self {
            Button::Start => BUTTON_START,
            Button::Select => BUTTON_SELECT,
            Button::A => BUTTON_A,
            Button::B => BUTTON_B,
        }
    }

    pub fn bit(self) -> (r: u8)
        ensures
            r == self.mask(),
    {
        match self {
            Button::Start => BUTTON_START,
            Button::Select => BUTTON_SELECT,
            Button::A => BUTTON_A,
            Button::B => BUTTON_B,
        }
    }
}

impl Direction {
    /// The direction's bit among the four directions.
    pub open spec fn mask(self) -> u8 {
        match self {
            Direction::Down => DPAD_DOWN,
            Direction::Up => DPAD_UP,
            Direction::Left => DPAD_LEFT,
            Direction::Right => DPAD_RIGHT,
        }
    }

    pub fn bit(self) -> (r: u8)
        ensures
            r == self.mask(),
    {
        match self {
            Direction::Down => DPAD_DOWN,
            Direction::Up => DPAD_UP,
            Direction::Left => DPAD_LEFT,
            Direction::Right => DPAD_RIGHT,
        }
    }
}

#[derive(Clone, Copy, Debug, PartialEq, Eq, Structural)]
pub struct Joypad {
    /// The selection last written, in the high nibble.
    pub joypad_register: Byte,
    /// What is held down: buttons in the high nibble, directions in the low
    /// one, a set bit for a pressed input.
    pub buttons: Byte,
}

pub open spec fn joypad_claims() -> Seq<Attach> {
    seq![Attach::Register(0x00)]
}

/// The pressed inputs of the selected groups, a set bit for a pressed input.
pub open spec fn joypad_selected(m: Joypad) -> u8 {
    let buttons: u8 = if m.joypad_register & SELECT_BUTTONS == 0 {
        m.buttons >> 4
    } else {
        0
    };
    let directions: u8 = if m.joypad_register & SELECT_DPAD == 0 {
        m.buttons
    } else {
        0
    };
    buttons | directions
}

/// The register shows the selection in its high nibble and, in its low one,
/// a cleared bit for each pressed input of the selected groups.
pub open spec fn joypad_read(m: Joypad, address: Address) -> Result<Byte, Fault> {
    if address == JOYPAD_REGISTER {
        Ok((m.joypad_register & 0xF0) | (!joypad_selected(m) & 0x0F))
    } else {
        Err(Fault::NotOwned(address))
    }
}

/// Only the high nibble can be written.
pub open spec fn joypad_write(m: Joypad, address: Address, value: Byte) -> Result<(Joypad, bool), Fault> {
    if address == JOYPAD_REGISTER {
        Ok((Joypad { joypad_register: value & 0xF0, ..m }, false))
    } else {
        Err(Fault::NotOwned(address))
    }
}

impl Joypad {
    pub fn new() -> (r: Self)
        ensures
            r == (Joypad { joypad_register: 0xFF, buttons: 0 }),
    {
        Self { joypad_register: 0xFF, buttons: 0 }
    }
}

impl BusListener for Joypad {
    type Model = Joypad;

    open spec fn model(&self) -> Joypad {
        *self
    }

    open spec fn valid(&self) -> bool {
        true
    }

    open spec fn claims_of(m: Joypad) -> Seq<Attach> {
        joypad_claims()
    }

    open spec fn read_of(m: Joypad, address: Address) -> Result<Byte, Fault> {
        joypad_read(m, address)
    }

    open spec fn write_of(m: Joypad, address: Address, value: Byte) -> Result<(Joypad, bool), Fault> {
        joypad_write(m, address, value)
    }

    fn bus_attach(&self) -> (r: Vec<Attach>) {
        let r = vec![Attach::Register(0x00)];
        r
    }

    fn bus_read(&self, address: Address) -> (r: Result<Byte, Fault>) {
        if address == JOYPAD_REGISTER {
            let buttons: u8 = if self.joypad_register & SELECT_BUTTONS == 0 {
                self.buttons >> 4
            } else {
                0
            };
            let directions: u8 = if self.joypad_register & SELECT_DPAD == 0 {
                self.buttons
            } else {
                0
            };
            Ok((self.joypad_register & 0xF0) | (!(buttons | directions) & 0x0F))
        } else {
            Err(Fault::NotOwned(address))
        }
    }

    fn bus_write(&mut self, address: Address, value: Byte) -> (r: Result<bool, Fault>) {
        if address == JOYPAD_REGISTER {
            self.joypad_register = value & 0xF0;
            Ok(false)
        } else {
            Err(Fault::NotOwned(address))
        }
    }
}


/// The buttons, the directions and the pause key among the first `n` of some
/// inputs: a set bit for each button and each direction that is held.
pub open spec fn held(inputs: Seq<JoypadButtons>, n: nat) -> (u8, u8, bool)
    decreases n,
{
    if n == 0 {
        (0u8, 0u8, false)
    } else {
        let (buttons, directions, pause) = held(inputs, (n - 1) as nat);
        match inputs[n - 1] {
            JoypadButtons::Button(b) => (buttons | b.mask(), directions, pause),
            JoypadButtons::Direction(d) => (buttons, directions | d.mask(), pause),
            JoypadButtons::Pause => (buttons, directions, true),
        }
    }
}

fn gather(inputs: &Vec<JoypadButtons>) -> (r: (u8, u8, bool))
    ensures
        r == held(inputs@, inputs@.len()),
{
    let mut buttons: u8 = 0;
    let mut directions: u8 = 0;
    let mut pause = false;
    let mut i: usize = 0;
    while i < inputs.len()
        invariant
            i <= inputs.len(),
            (buttons, directions, pause) == held(inputs@, i as nat),
        decreases inputs.len() - i,
    {
        match inputs[i] {
            JoypadButtons::Button(b) => {
                buttons = buttons | b.bit();
            },
            JoypadButtons::Direction(d) => {
                directions = directions | d.bit();
            },
            JoypadButtons::Pause => {
                pause = true;
            },
        }
        i += 1;
    }
    (buttons, directions, pause)
}

/// Whether the pause key is among some inputs.
pub fn paused(inputs: &Vec<JoypadButtons>) -> (r: bool)
    ensures
        r == held(inputs@, inputs@.len()).2,
{
    gather(inputs).2
}

/// Something that knows which inputs the user holds down.
pub trait JoypadDriver {
    fn get_buttons(&mut self) -> Vec<JoypadButtons>;
}

impl Joypad {
    /// The joypad with some inputs held down and all others released.
    pub open spec fn with_inputs(self, inputs: Seq<JoypadButtons>) -> Joypad {
        let (buttons, directions, _) = held(inputs, inputs.len());
        Joypad { buttons: (buttons << 4) | directions, ..self }
    }

    /// Takes note of the inputs that are held down. The result says whether
    /// the pause key is among them.
    pub fn press(&mut self, inputs: &Vec<JoypadButtons>) -> (pause: bool)
        ensures
            *final(self) == old(self).with_inputs(inputs@),
            pause == held(inputs@, inputs@.len()).2,
    {
        let (buttons, directions, pause) = gather(inputs);
        self.buttons = (buttons << 4) | directions;
        pause
    }
}


impl DebuggerModel {
    /// The debugger after the joypad has seen some inputs: the pause key
    /// stops the machine.
    pub open spec fn after_inputs(self, inputs: Seq<JoypadButtons>) -> DebuggerModel {
        if held(inputs, inputs.len()).2 {
            DebuggerModel { step: true, ..self }
        } else {
            self
        }
    }
}

impl Joypad {
    /// Asks a driver which inputs are held down and takes note of them. If
    /// the pause key is among them the debugger stops the machine. Which
    /// inputs there are is the driver's to say.
    pub fn update<D: JoypadDriver>(&mut self, driver: &mut D, debugger: &mut Debugger)
        ensures
            exists|inputs: Seq<JoypadButtons>|
                *final(self) == old(self).with_inputs(inputs) && final(debugger)@ == old(
                    debugger,
                )@.after_inputs(inputs),
    {
        let inputs = driver.get_buttons();
        if self.press(&inputs) {
            debugger.stop();
        }
    }
}

} // verus!
