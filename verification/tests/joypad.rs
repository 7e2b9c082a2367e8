use emerald::bus::{Attach, Bus, BusListener, Device, Fault};
use emerald::debug::Debugger;
use emerald::joypad::{paused, Button, Direction, Joypad, JoypadButtons, JoypadDriver};

struct Held(Vec<JoypadButtons>);

impl JoypadDriver for Held {
    fn get_buttons(&mut self) -> Vec<JoypadButtons> {
        self.0.clone()
    }
}

#[test]
fn inputs_have_their_bits() {
    assert_eq!(Button::Start.bit(), 0x08);
    assert_eq!(Button::Select.bit(), 0x04);
    assert_eq!(Button::A.bit(), 0x02);
    assert_eq!(Button::B.bit(), 0x01);
    assert_eq!(Direction::Down.bit(), 0x08);
    assert_eq!(Direction::Up.bit(), 0x04);
    assert_eq!(Direction::Left.bit(), 0x02);
    assert_eq!(Direction::Right.bit(), 0x01);
}

#[test]
fn a_new_joypad_shows_nothing_pressed() {
    let joypad = Joypad::new();
    assert_eq!(joypad, Joypad { joypad_register: 0xFF, buttons: 0 });
    assert_eq!(joypad.bus_read(0xFF00), Ok(0xFF));
    assert_eq!(joypad.bus_attach(), vec![Attach::Register(0x00)]);
}

#[test]
fn the_register_shows_the_selected_group_inverted() {
    let mut joypad = Joypad::new();
    let pause = joypad.press(&vec![
        JoypadButtons::Button(Button::A),
        JoypadButtons::Button(Button::Start),
        JoypadButtons::Direction(Direction::Left),
    ]);
    assert!(!pause);
    assert_eq!(joypad.buttons, 0xA2);
    assert_eq!(joypad.bus_write(0xFF00, 0x1F), Ok(false));
    assert_eq!(joypad.joypad_register, 0x10);
    assert_eq!(joypad.bus_read(0xFF00), Ok(0x15));
    assert_eq!(joypad.bus_write(0xFF00, 0x20), Ok(false));
    assert_eq!(joypad.bus_read(0xFF00), Ok(0x2D));
    assert_eq!(joypad.bus_write(0xFF00, 0x00), Ok(false));
    assert_eq!(joypad.bus_read(0xFF00), Ok(0x05));
    assert_eq!(joypad.bus_write(0xFF00, 0x30), Ok(false));
    assert_eq!(joypad.bus_read(0xFF00), Ok(0x3F));
}

#[test]
fn the_joypad_owns_one_register() {
    let mut joypad = Joypad::new();
    assert_eq!(joypad.bus_read(0xFF01), Err(Fault::NotOwned(0xFF01)));
    assert_eq!(joypad.bus_write(0xFF01, 0), Err(Fault::NotOwned(0xFF01)));
}

#[test]
fn released_inputs_are_forgotten() {
    let mut joypad = Joypad::new();
    joypad.press(&vec![JoypadButtons::Direction(Direction::Down)]);
    assert_eq!(joypad.buttons, 0x08);
    joypad.press(&vec![]);
    assert_eq!(joypad.buttons, 0x00);
}

#[test]
fn the_pause_key_stops_the_machine() {
    let mut joypad = Joypad::new();
    let mut debugger = Debugger::new(false);
    let mut driver = Held(vec![JoypadButtons::Button(Button::B)]);
    joypad.update(&mut driver, &mut debugger);
    assert_eq!(joypad.buttons, 0x10);
    assert!(!debugger.step(0x0100));
    let mut driver = Held(vec![JoypadButtons::Pause, JoypadButtons::Direction(Direction::Right)]);
    joypad.update(&mut driver, &mut debugger);
    assert_eq!(joypad.buttons, 0x01);
    assert!(debugger.step(0x0100));
    assert!(paused(&vec![JoypadButtons::Button(Button::A), JoypadButtons::Pause]));
    assert!(!paused(&vec![JoypadButtons::Button(Button::A)]));
}

#[test]
fn the_bus_passes_inputs_to_the_joypad() {
    let mut bus = Bus::new();
    let joypad = bus.attach(Device::Joypad(Joypad::new())).unwrap();
    bus.write_byte(0xFF00, 0x10).unwrap();
    assert!(!bus.press(joypad, &vec![JoypadButtons::Button(Button::Select)]));
    assert_eq!(bus.read_byte(0xFF00), Ok(0x1B));
    assert!(bus.press(joypad, &vec![JoypadButtons::Pause]));
    assert_eq!(bus.read_byte(0xFF00), Ok(0x1F));
    assert!(bus.press(joypad + 1, &vec![JoypadButtons::Pause]));
}
